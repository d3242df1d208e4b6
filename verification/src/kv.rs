//! The key/value services of Maelstrom: their names, the request bodies of
//! read, write and compare-and-set, and what a read's response gives.

use vstd::prelude::*;
use vstd::string::StringExecFns;
use crate::error::Error;
use crate::json::{
    JsonFields, json_fields, json_get, json_insert, json_map_new, json_string, json_string_of,
    json_bool, json_bool_of, json_value_clone, json_as_str, json_as_str_of, json_as_bool,
    json_as_bool_of,
};
use crate::protocol::MessageBody;
use crate::text::str_eq;

verus! {

/// The kinds of key/value store that Maelstrom offers.
#[derive(Clone, Copy, Debug, PartialEq, Eq)]
pub enum StorageKind {
    /// A linearizable store.
    Linearizable,
    /// A sequentially consistent store.
    Sequential,
    /// A last-write-wins store.
    LastWriteWins,
    /// A total-store-order store.
    TotalStoreOrder,
}

impl StorageKind {
    /// The node id of the service.
    pub open spec fn spec_service(self) -> Seq<char> {
        match self {
            StorageKind::Linearizable => "lin-kv"@,
            StorageKind::Sequential => "seq-kv"@,
            StorageKind::LastWriteWins => "lww-kv"@,
            StorageKind::TotalStoreOrder => "lin-tso"@,
        }
    }

    pub fn service(&self) -> (s: &'static str)
        ensures
            s@ == self.spec_service(),
    {
        match self {
            StorageKind::Linearizable => "lin-kv",
            StorageKind::Sequential => "seq-kv",
            StorageKind::LastWriteWins => "lww-kv",
            StorageKind::TotalStoreOrder => "lin-tso",
        }
    }
}

/// Whether a flag is off: an unset "create_if_not_exists" is left out of a request.
pub fn is_ref_false(b: &bool) -> (r: bool)
    ensures
        r == !*b,
{
    !*b
}

/// The fields of a read request.
pub open spec fn read_fields(key: Seq<char>) -> JsonFields {
    JsonFields::empty().insert("type"@, json_string_of("read"@)).insert("key"@, json_string_of(key))
}

/// The fields of a write request.
pub open spec fn write_fields(key: Seq<char>, value: serde_json::Value) -> JsonFields {
    JsonFields::empty().insert("type"@, json_string_of("write"@)).insert(
        "key"@,
        json_string_of(key),
    ).insert("value"@, value)
}

/// The fields of a compare-and-set request: "create_if_not_exists" only when it is set.
pub open spec fn cas_fields(
    key: Seq<char>,
    from: serde_json::Value,
    to: serde_json::Value,
    put: bool,
) -> JsonFields {
    let base = JsonFields::empty().insert("type"@, json_string_of("cas"@)).insert(
        "key"@,
        json_string_of(key),
    ).insert("from"@, from).insert("to"@, to);
    if put {
        base.insert("create_if_not_exists"@, json_bool_of(true))
    } else {
        base
    }
}

/// The body of a read request for `key`.
pub fn read_request(key: String) -> (m: serde_json::Map<String, serde_json::Value>)
    ensures
        json_fields(m) == read_fields(key@),
{
    let mut m = json_map_new();
    json_insert(&mut m, String::from_str("type"), json_string(String::from_str("read")));
    json_insert(&mut m, String::from_str("key"), json_string(key));
    m
}

/// The body of a write request that sets `key` to `value`.
pub fn write_request(key: String, value: serde_json::Value) -> (m: serde_json::Map<
    String,
    serde_json::Value,
>)
    ensures
        json_fields(m) == write_fields(key@, value),
{
    let mut m = json_map_new();
    json_insert(&mut m, String::from_str("type"), json_string(String::from_str("write")));
    json_insert(&mut m, String::from_str("key"), json_string(key));
    json_insert(&mut m, String::from_str("value"), value);
    m
}

/// The body of a compare-and-set request: `key` goes from `from` to `to`,
/// created first when `put` is set and it does not exist.
pub fn cas_request(
    key: String,
    from: serde_json::Value,
    to: serde_json::Value,
    put: bool,
) -> (m: serde_json::Map<String, serde_json::Value>)
    ensures
        json_fields(m) == cas_fields(key@, from, to, put),
{
    let mut m = json_map_new();
    json_insert(&mut m, String::from_str("type"), json_string(String::from_str("cas")));
    json_insert(&mut m, String::from_str("key"), json_string(key));
    json_insert(&mut m, String::from_str("from"), from);
    json_insert(&mut m, String::from_str("to"), to);
    if !is_ref_false(&put) {
        json_insert(&mut m, String::from_str("create_if_not_exists"), json_bool(true));
    }
    m
}

/// The entry for a key, if there is one.
pub open spec fn field(fields: JsonFields, key: Seq<char>) -> Option<serde_json::Value> {
    if fields.contains_key(key) {
        Some(fields[key])
    } else {
        None
    }
}

/// Whether a message of the protocol names its key as a string.
pub open spec fn has_string_key(fields: JsonFields) -> bool {
    fields.contains_key("key"@) && json_as_str_of(fields["key"@]) is Some
}

/// Whether a compare-and-set's flag is absent or a boolean.
pub open spec fn flag_well_formed(fields: JsonFields) -> bool {
    fields.contains_key("create_if_not_exists"@) ==> json_as_bool_of(
        fields["create_if_not_exists"@],
    ) is Some
}

/// What a response to a read is, as far as it can be told without the
/// caller's value type.
#[derive(Debug, PartialEq)]
pub enum ReadReply {
    /// A "read_ok", with its value; nothing when the field is absent.
    Value(Option<serde_json::Value>),
    /// Another message of the key/value protocol, well-formed in its key and
    /// flag: the read's protocol is violated, once the values it carries read
    /// as the caller's type. Each value is absent when its field is.
    Violated(Vec<Option<serde_json::Value>>),
    /// A message of the protocol whose key is missing or not a string, or a
    /// compare-and-set whose flag is not a boolean: it does not read as a
    /// message of the protocol.
    Malformed,
    /// A type that is no message of the key/value protocol.
    Unknown,
}

/// The error of a response that is a message of the protocol but not a read's answer.
pub fn protocol_violated() -> (e: Error)
    ensures
        e matches Error::Custom(code, text) && code == -1 && text@ == "kv: protocol violated"@,
{
    Error::Custom(-1, String::from_str("kv: protocol violated"))
}

fn field_of(m: &serde_json::Map<String, serde_json::Value>, key: &str) -> (r: Option<
    serde_json::Value,
>)
    ensures
        r == field(json_fields(*m), key@),
{
    match json_get(m, key) {
        Some(v) => Some(json_value_clone(v)),
        None => None,
    }
}

fn string_key(m: &serde_json::Map<String, serde_json::Value>) -> (r: bool)
    ensures
        r == has_string_key(json_fields(*m)),
{
    match json_get(m, "key") {
        Some(v) => json_as_str(v).is_some(),
        None => false,
    }
}

fn flag_ok(m: &serde_json::Map<String, serde_json::Value>) -> (r: bool)
    ensures
        r == flag_well_formed(json_fields(*m)),
{
    match json_get(m, "create_if_not_exists") {
        Some(v) => json_as_bool(v).is_some(),
        None => true,
    }
}

/// Whether `r` is what the response with this body is to a read.
pub open spec fn reads_as(body: MessageBody, r: ReadReply) -> bool {
            let f = json_fields(body.extra);
            let t = body.typ@;
            if t == "read_ok"@ {
                r == ReadReply::Value(field(f, "value"@))
            } else if t == "read"@ {
                if has_string_key(f) {
                    r matches ReadReply::Violated(vs) && vs@ == Seq::<
                        Option<serde_json::Value>,
                    >::empty()
                } else {
                    r == ReadReply::Malformed
                }
            } else if t == "write"@ {
                if has_string_key(f) {
                    r matches ReadReply::Violated(vs) && vs@ == seq![field(f, "value"@)]
                } else {
                    r == ReadReply::Malformed
                }
            } else if t == "cas"@ {
                if has_string_key(f) && flag_well_formed(f) {
                    r matches ReadReply::Violated(vs) && vs@ == seq![
                        field(f, "from"@),
                        field(f, "to"@),
                    ]
                } else {
                    r == ReadReply::Malformed
                }
            } else if t == "cas_ok"@ {
                r matches ReadReply::Violated(vs) && vs@ == Seq::<
                    Option<serde_json::Value>,
                >::empty()
            } else {
                r == ReadReply::Unknown
            }
        }

/// What a read's response is, by its type: a "read_ok" gives its value; the
/// protocol's other messages ("read", "write", "cas", "cas_ok") violate it,
/// when their key is a string and a compare-and-set's flag a boolean, and
/// carry the values that must still read as the caller's type; otherwise they
/// are malformed; any other type is unknown.
pub fn read_reply(body: &MessageBody) -> (r: ReadReply)
    ensures
        reads_as(*body, r),
{
    let t = body.typ.as_str();
    let m = &body.extra;
    if str_eq(t, "read_ok") {
        ReadReply::Value(field_of(m, "value"))
    } else if str_eq(t, "read") {
        if string_key(m) {
            let vs: Vec<Option<serde_json::Value>> = Vec::new();
            assert(vs@ =~= Seq::<Option<serde_json::Value>>::empty());
            ReadReply::Violated(vs)
        } else {
            ReadReply::Malformed
        }
    } else if str_eq(t, "write") {
        if string_key(m) {
            let mut vs = Vec::new();
            vs.push(field_of(m, "value"));
            assert(vs@ =~= seq![field(json_fields(*m), "value"@)]);
            ReadReply::Violated(vs)
        } else {
            ReadReply::Malformed
        }
    } else if str_eq(t, "cas") {
        if string_key(m) && flag_ok(m) {
            let mut vs = Vec::new();
            vs.push(field_of(m, "from"));
            vs.push(field_of(m, "to"));
            assert(vs@ =~= seq![field(json_fields(*m), "from"@), field(json_fields(*m), "to"@)]);
            ReadReply::Violated(vs)
        } else {
            ReadReply::Malformed
        }
    } else if str_eq(t, "cas_ok") {
        let vs: Vec<Option<serde_json::Value>> = Vec::new();
        assert(vs@ =~= Seq::<Option<serde_json::Value>>::empty());
        ReadReply::Violated(vs)
    } else {
        ReadReply::Unknown
    }
}

/// A compare-and-set request asks to create a missing key exactly when `put`
/// is set, and then with the flag `true`.
pub proof fn law_cas_create_flag(
    key: Seq<char>,
    from: serde_json::Value,
    to: serde_json::Value,
    put: bool,
)
    ensures
        cas_fields(key, from, to, put).contains_key("create_if_not_exists"@) == put,
        put ==> cas_fields(key, from, to, put)["create_if_not_exists"@] == json_bool_of(true),
        cas_fields(key, from, to, put)["type"@] == json_string_of("cas"@),
        cas_fields(key, from, to, put)["key"@] == json_string_of(key),
{
    reveal_strlit("create_if_not_exists");
    reveal_strlit("type");
    reveal_strlit("key");
    reveal_strlit("from");
    reveal_strlit("to");
    assert("create_if_not_exists"@.len() == 20);
    assert("type"@.len() == 4 && "type"@[0] == 't');
    assert("key"@.len() == 3);
    assert("from"@.len() == 4 && "from"@[0] == 'f');
    assert("to"@.len() == 2);
}

/// A "read_ok" gives exactly the value of its "value" field, whatever that
/// value is (`false`, `null` and `0` included); it gives no value only when the
/// field is absent.
pub proof fn law_read_ok_value(body: MessageBody, r: ReadReply)
    requires
        reads_as(body, r),
        body.typ@ == "read_ok"@,
    ensures
        json_fields(body.extra).contains_key("value"@) ==> r == ReadReply::Value(
            Some(json_fields(body.extra)["value"@]),
        ),
        !json_fields(body.extra).contains_key("value"@) ==> r == ReadReply::Value(None),
{
}

/// The other messages of the protocol carry exactly the values of their
/// fields, whatever those values are, and none that is absent: a "write" its
/// "value", a "cas" its "from" and "to".
pub proof fn law_violations_carry_fields(body: MessageBody, r: ReadReply)
    requires
        reads_as(body, r),
        has_string_key(json_fields(body.extra)),
    ensures
        body.typ@ == "write"@ ==> (r matches ReadReply::Violated(vs) && vs@.len() == 1 && (
        json_fields(body.extra).contains_key("value"@) ==> vs@[0] == Some(
            json_fields(body.extra)["value"@],
        )) && (!json_fields(body.extra).contains_key("value"@) ==> vs@[0] is None)),
        body.typ@ == "cas"@ && flag_well_formed(json_fields(body.extra)) ==> (r matches ReadReply::Violated(
            vs,
        ) && vs@.len() == 2 && (json_fields(body.extra).contains_key("from"@) ==> vs@[0] == Some(
            json_fields(body.extra)["from"@],
        )) && (json_fields(body.extra).contains_key("to"@) ==> vs@[1] == Some(
            json_fields(body.extra)["to"@],
        )) && (!json_fields(body.extra).contains_key("from"@) ==> vs@[0] is None) && (
        !json_fields(body.extra).contains_key("to"@) ==> vs@[1] is None)),
{
    reveal_strlit("read_ok");
    reveal_strlit("read");
    reveal_strlit("write");
    reveal_strlit("cas");
    assert("read_ok"@.len() == 7 && "read"@.len() == 4 && "write"@.len() == 5 && "cas"@.len()
        == 3);
    assert("read"@[0] == 'r' && "cas"@[0] == 'c');
}

} // verus!
