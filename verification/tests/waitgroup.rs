use maelstrom::waitgroup::WaitCount;

#[test]
fn wait_count_tracks_references() {
    let mut w = WaitCount::new();
    assert!(w.is_settled());
    w.register();
    w.register();
    assert_eq!(w.count(), 3);
    assert!(!w.is_settled());
    assert!(!w.release());
    assert!(w.release());
    assert!(w.is_settled());
    assert!(!w.release());
    assert_eq!(w.count(), 0);
}

#[test]
fn clone_then_drop_restores_the_count() {
    let mut w = WaitCount::new();
    w.register();
    w.register();
    let before = w.count();
    w.register();
    assert!(!w.release());
    assert_eq!(w.count(), before);
}
