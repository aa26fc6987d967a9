use vstd::prelude::*;
use vstd::string::StringExecFns;
use crate::json::{JsonValue, member, member_spec};

verus! {

/// Where the node listens and how to log in; fixed for the whole run.
pub struct Options {
    pub rpc_host: String,
    pub rpc_port: String,
    pub rpc_user: String,
    pub rpc_pass: String,
}

/// One spendable output: the transaction that made it and its index there.
#[derive(Debug)]
pub struct Unspent {
    pub txid: String,
    pub vout: u64,
}

impl View for Unspent {
    type V = (Seq<char>, u64);

    open spec fn view(&self) -> (Seq<char>, u64) {
        (self.txid@, self.vout)
    }
}

/// Why a call to the node failed.
#[derive(Clone, Copy, Debug, PartialEq, Eq, Structural)]
pub enum RpcError {
    /// The node could not be reached.
    Transport,
    /// The node refused the credentials.
    Auth,
    /// The reply was not the JSON-RPC shape that was asked for.
    Protocol,
}

/// The HTTP status with which a node refuses the credentials.
pub const HTTP_UNAUTHORIZED: u16 = 401;

/// The lowercase hexadecimal digit for `d < 16`.
pub open spec fn hex_digit(d: nat) -> char {
    if d < 10 {
        digit_char(d)
    } else {
        (('a' as u32) + (d - 10)) as char
    }
}

/// How one character is written inside a JSON string: `"` and `\` and the
/// control characters below U+0020 are escaped (the usual short forms where
/// they exist, else `\u00xx` in lowercase hex); every other character is
/// written as it is.
pub open spec fn escaped_char(c: char) -> Seq<char> {
    if c == '"' {
        seq!['\\', '"']
    } else if c == '\\' {
        seq!['\\', '\\']
    } else if c == '\u{8}' {
        seq!['\\', 'b']
    } else if c == '\t' {
        seq!['\\', 't']
    } else if c == '\n' {
        seq!['\\', 'n']
    } else if c == '\u{c}' {
        seq!['\\', 'f']
    } else if c == '\r' {
        seq!['\\', 'r']
    } else if (c as u32) < 0x20 {
        seq!['\\', 'u', '0', '0', hex_digit((c as u32 / 16) as nat), hex_digit((c as u32 % 16) as nat)]
    } else {
        seq![c]
    }
}

/// The characters of `s`, each written as inside a JSON string.
pub open spec fn escaped(s: Seq<char>) -> Seq<char>
    decreases s.len(),
{
    if s.len() == 0 {
        Seq::empty()
    } else {
        escaped(s.drop_last()) + escaped_char(s.last())
    }
}

/// The JSON string literal for `s`: its escaped characters between quotes.
pub open spec fn json_quote(s: Seq<char>) -> Seq<char> {
    seq!['"'] + escaped(s) + seq!['"']
}

#[verifier::external_type_specification]
#[verifier::external_body]
pub struct ExJsonError(serde_json::Error);

/// Relies on `serde_json::to_string` applied to a `str`: it returns the JSON
/// string literal for `s`, escaped as its escape table says (`json_quote`).
/// Serialising a `str` into memory does not fail.
#[verifier::external_body]
fn json_string(s: &str) -> (r: Result<String, serde_json::Error>)
    ensures
        r is Ok,
        r->Ok_0@ == json_quote(s@),
{
    serde_json::to_string(s)
}

/// Relies on `String::push`: appends one character.
#[verifier::external_body]
fn push_char(s: &mut String, c: char)
    ensures
        final(s)@ == old(s)@.push(c),
{
    s.push(c)
}

/// The decimal digit for `d < 10`.
pub open spec fn digit_char(d: nat) -> char {
    (('0' as u32) + d) as char
}

/// The decimal text of `v`, without leading zeros.
pub open spec fn decimal(v: nat) -> Seq<char>
    decreases v,
{
    if v < 10 {
        seq![digit_char(v)]
    } else {
        decimal(v / 10).push(digit_char(v % 10))
    }
}

/// A JSON-RPC 1.0 request for `method` with the JSON text `params`.
pub open spec fn envelope(method: Seq<char>, params: Seq<char>) -> Seq<char> {
    "{\"jsonrpc\":\"1.0\",\"id\":\"lock-unspents\",\"method\":\""@ + method + "\",\"params\":"@
        + params + "}"@
}

/// The parameters of `listunspent`: every confirmed output, unsafe ones too.
pub open spec fn list_params() -> Seq<char> {
    "[1,999999,[],true]"@
}

/// The parameters of `lockunspent` for one output, whose transaction id is
/// already written as a JSON string. The leading `false` asks to lock.
pub open spec fn lock_params(quoted_txid: Seq<char>, vout: u64) -> Seq<char> {
    "[false,[{\"txid\":"@ + quoted_txid + ",\"vout\":"@ + decimal(vout as nat) + "}]]"@
}

/// The node's address.
pub open spec fn url_spec(host: Seq<char>, port: Seq<char>) -> Seq<char> {
    "http://"@ + host + ":"@ + port + "/"@
}

fn digit(d: u64) -> (c: char)
    requires
        d < 10,
    ensures
        c == digit_char(d as nat),
{
    ((('0' as u32) + (d as u32)) as u8) as char
}

/// Appends the decimal text of `v` to `s`.
fn push_decimal(s: &mut String, v: u64)
    ensures
        final(s)@ == old(s)@ + decimal(v as nat),
    decreases v,
{
    if v >= 10 {
        push_decimal(s, v / 10);
    }
    push_char(s, digit(v % 10));
    assert(final(s)@ =~= old(s)@ + decimal(v as nat));
}

/// The URL of the node: `http://{host}:{port}/`.
pub fn node_url(options: &Options) -> (r: String)
    ensures
        r@ == url_spec(options.rpc_host@, options.rpc_port@),
{
    let mut url = "http://".to_owned();
    url.append(options.rpc_host.as_str());
    url.append(":");
    url.append(options.rpc_port.as_str());
    url.append("/");
    assert(url@ =~= url_spec(options.rpc_host@, options.rpc_port@));
    url
}

fn request(method: &str, params: &str) -> (r: String)
    ensures
        r@ == envelope(method@, params@),
{
    let mut body = "{\"jsonrpc\":\"1.0\",\"id\":\"lock-unspents\",\"method\":\"".to_owned();
    body.append(method);
    body.append("\",\"params\":");
    body.append(params);
    body.append("}");
    assert(body@ =~= envelope(method@, params@));
    body
}

/// The body of a `listunspent` request.
pub fn list_unspent_request() -> (r: String)
    ensures
        r@ == envelope("listunspent"@, list_params()),
{
    request("listunspent", "[1,999999,[],true]")
}

/// The body of a `lockunspent` request for output `vout` of the transaction
/// whose id `quoted_txid` holds, already written as a JSON string.
pub fn lock_request_with(quoted_txid: &str, vout: u64) -> (r: String)
    ensures
        r@ == envelope("lockunspent"@, lock_params(quoted_txid@, vout)),
{
    let mut params = "[false,[{\"txid\":".to_owned();
    params.append(quoted_txid);
    params.append(",\"vout\":");
    push_decimal(&mut params, vout);
    params.append("}]]");
    assert(params@ =~= lock_params(quoted_txid@, vout));
    request("lockunspent", params.as_str())
}

/// The body of a `lockunspent` request that locks `unspent`.
pub fn lock_unspent_request(unspent: &Unspent) -> (r: String)
    ensures
        r@ == envelope("lockunspent"@, lock_params(json_quote(unspent.txid@), unspent.vout)),
{
    let quoted = json_string(unspent.txid.as_str()).unwrap();
    lock_request_with(quoted.as_str(), unspent.vout)
}

/// The output that one element of the `result` array stands for: an
/// object with a string `txid` and a non-negative integer `vout`.
pub open spec fn entry_spec(v: JsonValue) -> Option<(Seq<char>, u64)> {
    match v {
        JsonValue::Object(members) => match (
            member_spec(members@, "txid"@),
            member_spec(members@, "vout"@),
        ) {
            (Some(JsonValue::Str(t)), Some(JsonValue::UInt(n))) => Some((t@, n)),
            _ => None,
        },
        _ => None,
    }
}

/// The elements of the reply's `result` array, if the reply is an object
/// whose `result` member is an array.
pub open spec fn result_items(reply: JsonValue) -> Option<Seq<JsonValue>> {
    match reply {
        JsonValue::Object(members) => match member_spec(members@, "result"@) {
            Some(JsonValue::Array(items)) => Some(items@),
            _ => None,
        },
        _ => None,
    }
}

/// Whether every element of `items` stands for an output.
pub open spec fn all_entries(items: Seq<JsonValue>) -> bool {
    forall|i: int| 0 <= i < items.len() ==> (#[trigger] entry_spec(items[i])) is Some
}

/// Whether `out` lists, in order, the outputs that `items` stand for.
pub open spec fn decoded_as(out: Seq<Unspent>, items: Seq<JsonValue>) -> bool {
    &&& out.len() == items.len()
    &&& forall|i: int| 0 <= i < items.len() ==> entry_spec(#[trigger] items[i]) == Some(out[i]@)
}

fn decode_entry(v: &JsonValue) -> (r: Option<Unspent>)
    ensures
        match r {
            Some(u) => entry_spec(*v) == Some(u@),
            None => entry_spec(*v) is None,
        },
{
    match v {
        JsonValue::Object(members) => {
            let txid_key = "txid".to_owned();
            let vout_key = "vout".to_owned();
            match (member(members, &txid_key), member(members, &vout_key)) {
                (Some(JsonValue::Str(t)), Some(JsonValue::UInt(n))) => Some(
                    Unspent { txid: t.clone(), vout: *n },
                ),
                _ => None,
            }
        },
        _ => None,
    }
}

/// Decodes a `listunspent` reply into the outputs it lists, in order.
pub fn decode_unspents(reply: &JsonValue) -> (r: Result<Vec<Unspent>, RpcError>)
    ensures
        match result_items(*reply) {
            Some(items) => match r {
                Ok(out) => all_entries(items) && decoded_as(out@, items),
                Err(e) => !all_entries(items) && e == RpcError::Protocol,
            },
            None => r == Err::<Vec<Unspent>, RpcError>(RpcError::Protocol),
        },
{
    let members = match reply {
        JsonValue::Object(members) => members,
        _ => return Err(RpcError::Protocol),
    };
    let result_key = "result".to_owned();
    let items = match member(members, &result_key) {
        Some(JsonValue::Array(items)) => items,
        _ => return Err(RpcError::Protocol),
    };
    let mut out: Vec<Unspent> = Vec::new();
    let mut i: usize = 0;
    while i < items.len()
        invariant
            i <= items@.len(),
            result_items(*reply) == Some(items@),
            decoded_as(out@, items@.subrange(0, i as int)),
            all_entries(items@.subrange(0, i as int)),
        decreases items.len() - i,
    {
        match decode_entry(&items[i]) {
            Some(u) => out.push(u),
            None => {
                assert(!all_entries(items@)) by {
                    assert(entry_spec(items@[i as int]) is None);
                }
                return Err(RpcError::Protocol);
            },
        }
        i = i + 1;
        assert(forall|j: int| 0 <= j < i ==> items@.subrange(0, i as int)[j] == items@[j]);
        assert(forall|j: int| 0 <= j < i - 1 ==> items@.subrange(0, i - 1)[j] == items@[j]);
        assert(all_entries(items@.subrange(0, i as int))) by {
            assert forall|j: int| 0 <= j < i implies (#[trigger] entry_spec(items@.subrange(0, i as int)[j])) is Some by {
                if j < i - 1 {
                    assert(entry_spec(items@.subrange(0, i - 1)[j]) is Some);
                }
            }
        }
        assert(decoded_as(out@, items@.subrange(0, i as int))) by {
            assert forall|j: int| 0 <= j < i implies entry_spec(#[trigger] items@.subrange(0, i as int)[j]) == Some(out@[j]@) by {
                if j < i - 1 {
                    assert(entry_spec(items@.subrange(0, i - 1)[j]) == Some(out@[j]@));
                }
            }
        }
    }
    assert(items@.subrange(0, items@.len() as int) =~= items@);
    Ok(out)
}

/// Reads a `listunspent` reply: the HTTP status, and the body if it was JSON.
/// A refused login is `Auth`; a body that is missing or not of the
/// `listunspent` shape is `Protocol`; otherwise the outputs, in order.
pub fn get_unspents(status: u16, body: &Option<JsonValue>) -> (r: Result<Vec<Unspent>, RpcError>)
    ensures
        status == HTTP_UNAUTHORIZED ==> r == Err::<Vec<Unspent>, RpcError>(RpcError::Auth),
        status != HTTP_UNAUTHORIZED && body is None ==> r == Err::<Vec<Unspent>, RpcError>(RpcError::Protocol),
        status != HTTP_UNAUTHORIZED && body is Some ==> match result_items(body->Some_0) {
            Some(items) => match r {
                Ok(out) => all_entries(items) && decoded_as(out@, items),
                Err(e) => !all_entries(items) && e == RpcError::Protocol,
            },
            None => r == Err::<Vec<Unspent>, RpcError>(RpcError::Protocol),
        },
{
    if status == HTTP_UNAUTHORIZED {
        return Err(RpcError::Auth);
    }
    match body {
        Some(reply) => decode_unspents(reply),
        None => Err(RpcError::Protocol),
    }
}

/// Reads a `lockunspent` reply by its HTTP status alone: a refused login is
/// `Auth`, anything else counts as done.
pub fn lock_outcome(status: u16) -> (r: Result<(), RpcError>)
    ensures
        r == (if status == HTTP_UNAUTHORIZED {
            Err::<(), RpcError>(RpcError::Auth)
        } else {
            Ok::<(), RpcError>(())
        }),
{
    if status == HTTP_UNAUTHORIZED {
        Err(RpcError::Auth)
    } else {
        Ok(())
    }
}

} // verus!
