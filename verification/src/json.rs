use vstd::prelude::*;
use vstd::string::*;

use crate::errors::ImgError;

verus! {

/// One base64-encoded image returned by the provider, in response order.
pub struct ImagePayload {
    /// The `b64_json` field of one entry of the response's `data` array.
    pub b64_json: String,
}

/// A JSON tree, as the library sees the service's response. Numbers carry no
/// value: the response logic never reads one.
pub enum JsonNode {
    Null,
    Bool(bool),
    Number,
    Text(String),
    Array(Vec<JsonNode>),
    Object(Vec<(String, JsonNode)>),
}

/// Declares `serde_json::Value`, the parser's own tree type, so that the
/// trusted conversion below can take it; the library never looks inside one.
#[verifier::external_type_specification]
#[verifier::external_body]
pub struct ExValue(serde_json::Value);

/// What parsing a byte string as one JSON document yields: `None` where the
/// bytes are not exactly one well-formed JSON value. The result depends on
/// the bytes alone.
pub uninterp spec fn json_value_of(body: Seq<u8>) -> Option<JsonNode>;

/// Relies on `serde_json::Value`'s deserialization: one arm per variant of
/// the parsed tree, moving fields into the library's own tree. Numeric
/// values are dropped, object keys keep the parser's order. Called only from
/// `parse_json`.
#[verifier::external_body]
fn node_from_value(v: serde_json::Value) -> JsonNode {
    match v {
        serde_json::Value::Null => JsonNode::Null,
        serde_json::Value::Bool(b) => JsonNode::Bool(b),
        serde_json::Value::Number(_) => JsonNode::Number,
        serde_json::Value::String(s) => JsonNode::Text(s),
        serde_json::Value::Array(a) => JsonNode::Array(
            a.into_iter().map(node_from_value).collect(),
        ),
        serde_json::Value::Object(m) => JsonNode::Object(
            m.into_iter().map(|p| (p.0, node_from_value(p.1))).collect(),
        ),
    }
}

/// Relies on `serde_json::from_slice`: parses the bytes as exactly one JSON
/// document (trailing content or invalid UTF-8 fail), with a result that
/// depends on the bytes alone.
#[verifier::external_body]
fn parse_json(body: &Vec<u8>) -> (r: Option<JsonNode>)
    ensures
        r == json_value_of(body@),
{
    match serde_json::from_slice::<serde_json::Value>(body.as_slice()) {
        Ok(v) => Some(node_from_value(v)),
        Err(_) => None,
    }
}

/// The value of the first member of `obj` whose key is `key`.
pub open spec fn lookup(obj: Seq<(String, JsonNode)>, key: Seq<char>) -> Option<JsonNode>
    decreases obj.len(),
{
    if obj.len() == 0 {
        None
    } else if obj[0].0@ == key {
        Some(obj[0].1)
    } else {
        lookup(obj.drop_first(), key)
    }
}

proof fn lemma_lookup_scan(obj: Seq<(String, JsonNode)>, key: Seq<char>, j: int)
    requires
        0 <= j <= obj.len(),
        forall|jj: int| 0 <= jj < j ==> obj[jj].0@ != key,
    ensures
        lookup(obj, key) == if j < obj.len() && obj[j].0@ == key {
            Some(obj[j].1)
        } else if j < obj.len() {
            lookup(obj.subrange(j + 1, obj.len() as int), key)
        } else {
            None::<JsonNode>
        },
    decreases j,
{
    if j == 0 {
        if 0 < obj.len() && obj[0].0@ != key {
            assert(obj.drop_first() =~= obj.subrange(1, obj.len() as int));
        }
    } else {
        assert(obj.drop_first() =~= obj.subrange(1, obj.len() as int));
        lemma_lookup_scan(obj.drop_first(), key, j - 1);
        if j < obj.len() {
            assert(obj.drop_first()[j - 1] == obj[j]);
            assert(obj.drop_first().subrange(j, obj.len() - 1) =~= obj.subrange(
                j + 1,
                obj.len() as int,
            ));
        }
    }
}

/// Finds the first member of `m` with the given key.
fn lookup_field<'a>(m: &'a Vec<(String, JsonNode)>, key: &String) -> (r: Option<&'a JsonNode>)
    ensures
        match r {
            Some(n) => lookup(m@, key@) == Some(*n),
            None => lookup(m@, key@) is None,
        },
{
    let mut j: usize = 0;
    while j < m.len()
        invariant
            j <= m.len(),
            forall|jj: int| 0 <= jj < j ==> m@[jj].0@ != key@,
        decreases m.len() - j,
    {
        if m[j].0 == *key {
            proof {
                lemma_lookup_scan(m@, key@, j as int);
            }
            return Some(&m[j].1);
        }
        j += 1;
    }
    proof {
        lemma_lookup_scan(m@, key@, m@.len() as int);
    }
    None
}

/// The payload of one entry of the `data` array: the string under its
/// `b64_json` key, if the entry is an object holding one.
pub open spec fn item_payload(n: JsonNode) -> Option<Seq<char>> {
    match n {
        JsonNode::Object(m) => match lookup(m@, "b64_json"@) {
            Some(JsonNode::Text(s)) => Some(s@),
            _ => None,
        },
        _ => None,
    }
}

/// The payloads of a generation response: the document must be an object
/// whose `data` member is an array, each entry an object with a `b64_json`
/// string; other members are ignored.
pub open spec fn response_payloads(n: JsonNode) -> Option<Seq<Seq<char>>> {
    match n {
        JsonNode::Object(m) => match lookup(m@, "data"@) {
            Some(JsonNode::Array(items)) => if forall|i: int|
                0 <= i < items@.len() ==> (#[trigger] item_payload(items@[i])) is Some {
                Some(Seq::new(items@.len(), |i: int| item_payload(items@[i])->0))
            } else {
                None
            },
            _ => None,
        },
        _ => None,
    }
}

/// Decodes a response body into its ordered image payloads. Returns
/// `ImgError::Decode` exactly when the bytes are not one JSON document of
/// the response shape.
pub fn decode_response(body: &Vec<u8>) -> (r: Result<Vec<ImagePayload>, ImgError>)
    ensures
        match json_value_of(body@) {
            Some(node) => match response_payloads(node) {
                Some(ps) => r matches Ok(v) && v@.len() == ps.len() && (forall|i: int|
                    0 <= i < ps.len() ==> v@[i].b64_json@ == ps[i]),
                None => r matches Err(e) && e == ImgError::Decode,
            },
            None => r matches Err(e) && e == ImgError::Decode,
        },
{
    let node = match parse_json(body) {
        Some(n) => n,
        None => {
            return Err(ImgError::Decode);
        },
    };
    let m = match &node {
        JsonNode::Object(m) => m,
        _ => {
            return Err(ImgError::Decode);
        },
    };
    let key_data: String = ("data").to_owned();
    let items = match lookup_field(m, &key_data) {
        Some(JsonNode::Array(items)) => items,
        _ => {
            return Err(ImgError::Decode);
        },
    };
    let key_b64: String = ("b64_json").to_owned();
    let mut out: Vec<ImagePayload> = Vec::new();
    let mut i: usize = 0;
    while i < items.len()
        invariant
            i <= items.len(),
            out@.len() == i,
            json_value_of(body@) == Some(node),
            node matches JsonNode::Object(mm) && mm@ == m@,
            lookup(m@, "data"@) matches Some(d) && d matches JsonNode::Array(its) && its@
                == items@,
            forall|j: int| 0 <= j < i ==> (#[trigger] item_payload(items@[j])) is Some,
            forall|j: int| 0 <= j < i ==> out@[j].b64_json@ == item_payload(items@[j])->0,
            key_b64@ == "b64_json"@,
        decreases items.len() - i,
    {
        let im = match &items[i] {
            JsonNode::Object(im) => im,
            _ => {
                return Err(ImgError::Decode);
            },
        };
        let s = match lookup_field(im, &key_b64) {
            Some(JsonNode::Text(s)) => s,
            _ => {
                return Err(ImgError::Decode);
            },
        };
        out.push(ImagePayload { b64_json: s.clone() });
        i += 1;
    }
    proof {
        let ps = response_payloads(node)->0;
        assert(response_payloads(node) is Some);
        assert(forall|j: int| 0 <= j < ps.len() ==> out@[j].b64_json@ == ps[j]);
    }
    Ok(out)
}

} // verus!
