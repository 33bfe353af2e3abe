//! JSON documents as they stand in header values.

use crate::header::Error;
use serde_json::Value;
use vstd::prelude::*;
use vstd::string::StringExecFns;
use vstd::string::StringSliceAdditionalSpecFns;
use vstd::utf8::encode_utf8;

verus! {

/// The JSON string that `serde_json` writes for a text, quotes and escapes
/// included.
pub uninterp spec fn json_quoted(text: Seq<u8>) -> Seq<u8>;

/// What `serde_json` makes of a byte string: nothing where it is no JSON
/// document, else the document as `serde_json` writes it.
pub uninterp spec fn json_document(src: Seq<u8>) -> Option<Seq<u8>>;

/// The outermost form of the JSON document that `serde_json` reads from a
/// byte string.
pub uninterp spec fn json_shape(src: Seq<u8>) -> Shape;

/// The outermost form of a JSON document.
pub ghost enum Shape {
    /// No JSON document.
    Invalid,
    /// The document `null`.
    Null,
    /// A string, with its text.
    Text(Seq<u8>),
    /// An array, with the document of each item.
    Array(Seq<Seq<u8>>),
    /// An object, with the key and the document of each member.
    Object(Seq<(Seq<u8>, Seq<u8>)>),
    /// A number or a truth value.
    Other,
}

/// `serde_json::to_string` on a text, which writes into memory and so has no
/// way to fail: the result is that of `json_quoted`.
#[verifier::external_body]
fn serde_quote(text: &str) -> (quoted: String)
    ensures
        encode_utf8(quoted@) == json_quoted(text.spec_bytes()),
{
    serde_json::to_string(text).unwrap_or_default()
}

/// `serde_json::from_slice` to a `serde_json::Value`, which `serde_json::to_string`
/// then writes: the result is that of `json_document`.
#[verifier::external_body]
fn serde_document(src: &[u8]) -> (text: Option<String>)
    ensures
        text is Some <==> json_document(src@) is Some,
        text matches Some(t) ==> json_document(src@) == Some(encode_utf8(t@)),
{
    match serde_json::from_slice::<serde_json::Value>(src) {
        Ok(value) => serde_json::to_string(&value).ok(),
        Err(_) => None,
    }
}

/// `serde_json::from_slice` to a `serde_json::Value`, of which the variant is
/// told, with the text of a string, each item of an array, and each key of an
/// object with its value, items and values as the `Display` of
/// `serde_json::Value` prints them: the result is that of `json_shape`.
#[verifier::external_body]
fn serde_shape(src: &[u8]) -> (shape: JsonShape)
    ensures
        shape@ == json_shape(src@),
{
    match serde_json::from_slice::<Value>(src) {
        Err(_) => JsonShape::Invalid,
        Ok(Value::Null) => JsonShape::Null,
        Ok(Value::String(text)) => JsonShape::Text(text),
        Ok(Value::Array(items)) => JsonShape::Array(
            items.iter().map(|item| Json { text: item.to_string() }).collect(),
        ),
        Ok(Value::Object(map)) => JsonShape::Object(
            map.iter().map(|(k, v)| JsonMember::new(k.clone(), v.to_string())).collect(),
        ),
        Ok(_) => JsonShape::Other,
    }
}

/// A JSON document, held as `serde_json` writes it.
#[derive(Debug, PartialEq, Eq, Hash)]
pub struct Json {
    text: String,
}

impl View for Json {
    type V = Seq<u8>;

    closed spec fn view(&self) -> Seq<u8> {
        encode_utf8(self.text@)
    }
}

impl Clone for Json {
    fn clone(&self) -> (json: Json)
        ensures
            json@ == self@,
    {
        Json { text: self.text.clone() }
    }
}

impl Json {
    /// Reads a byte string as a JSON document.
    pub fn parse(src: &[u8]) -> (json: Result<Json, Error>)
        ensures
            json is Ok <==> json_document(src@) is Some,
            json matches Ok(j) ==> Some(j@) == json_document(src@),
            json matches Err(e) ==> e == Error::Invalid,
    {
        match serde_document(src) {
            Some(text) => Ok(Json { text }),
            None => Err(Error::invalid()),
        }
    }

    /// The document `null`.
    pub fn null() -> (json: Json)
        ensures
            json@ == encode_utf8("null"@),
    {
        Json { text: String::from_str("null") }
    }

    /// The JSON string of a text.
    pub fn string(text: &str) -> (json: Json)
        ensures
            json@ == json_quoted(text.spec_bytes()),
    {
        Json { text: serde_quote(text) }
    }

    /// The document as text.
    pub fn as_str(&self) -> (text: &str)
        ensures
            text.spec_bytes() == self@,
    {
        self.text.as_str()
    }

    /// The outermost form of the document.
    pub fn shape(&self) -> (shape: JsonShape)
        ensures
            shape@ == json_shape(self@),
    {
        serde_shape(self.text.as_str().as_bytes())
    }
}

/// One member of a JSON object.
#[derive(Debug, Clone, PartialEq, Eq, Hash)]
pub struct JsonMember {
    pub key: String,
    pub value: Json,
}

impl View for JsonMember {
    type V = (Seq<u8>, Seq<u8>);

    open spec fn view(&self) -> (Seq<u8>, Seq<u8>) {
        (encode_utf8(self.key@), self.value@)
    }
}

impl JsonMember {
    /// The member of a key and of a document that `serde_json` has written.
    fn new(key: String, text: String) -> (member: JsonMember)
        ensures
            member@ == (encode_utf8(key@), encode_utf8(text@)),
    {
        JsonMember { key, value: Json { text } }
    }
}

/// The documents of a list as plain values.
pub open spec fn document_views(documents: Seq<Json>) -> Seq<Seq<u8>> {
    documents.map_values(|d: Json| d@)
}

/// The members of an object as plain values.
pub open spec fn member_views(members: Seq<JsonMember>) -> Seq<(Seq<u8>, Seq<u8>)> {
    members.map_values(|m: JsonMember| m@)
}

/// The outermost form of a JSON document, as it was read.
#[derive(Debug, Clone, PartialEq, Eq, Hash)]
pub enum JsonShape {
    /// No JSON document.
    Invalid,
    /// The document `null`.
    Null,
    /// A string, with its text.
    Text(String),
    /// An array, with its items.
    Array(Vec<Json>),
    /// An object, with its members.
    Object(Vec<JsonMember>),
    /// A number or a truth value.
    Other,
}

impl View for JsonShape {
    type V = Shape;

    open spec fn view(&self) -> Shape {
        match self {
            JsonShape::Invalid => Shape::Invalid,
            JsonShape::Null => Shape::Null,
            JsonShape::Text(text) => Shape::Text(encode_utf8(text@)),
            JsonShape::Array(items) => Shape::Array(document_views(items@)),
            JsonShape::Object(members) => Shape::Object(member_views(members@)),
            JsonShape::Other => Shape::Other,
        }
    }
}

/// Reads the outermost form of the JSON document in a byte string.
pub fn read_shape(src: &[u8]) -> (shape: JsonShape)
    ensures
        shape@ == json_shape(src@),
{
    serde_shape(src)
}

/// The order of keys: byte by byte, and the shorter of two first where it is
/// the beginning of the other.
pub open spec fn lex_less(a: Seq<u8>, b: Seq<u8>) -> bool
    decreases a.len(),
{
    if b.len() == 0 {
        false
    } else if a.len() == 0 {
        true
    } else if a[0] != b[0] {
        a[0] < b[0]
    } else {
        lex_less(a.drop_first(), b.drop_first())
    }
}

/// No key stands before itself.
pub proof fn lemma_lex_irreflexive(a: Seq<u8>)
    ensures
        !lex_less(a, a),
    decreases a.len(),
{
    if a.len() > 0 {
        lemma_lex_irreflexive(a.drop_first());
    }
}

/// The order of keys is transitive.
pub proof fn lemma_lex_transitive(a: Seq<u8>, b: Seq<u8>, c: Seq<u8>)
    requires
        lex_less(a, b),
        lex_less(b, c),
    ensures
        lex_less(a, c),
    decreases a.len(),
{
    if a.len() > 0 && b.len() > 0 && c.len() > 0 {
        if a[0] == b[0] && b[0] == c[0] {
            lemma_lex_transitive(a.drop_first(), b.drop_first(), c.drop_first());
        }
    }
}

/// Of two keys that differ, one stands before the other.
pub proof fn lemma_lex_total(a: Seq<u8>, b: Seq<u8>)
    ensures
        a == b || lex_less(a, b) || lex_less(b, a),
    decreases a.len(),
{
    if a.len() == 0 || b.len() == 0 {
        if a.len() == 0 && b.len() == 0 {
            assert(a =~= b);
        }
    } else if a[0] == b[0] {
        lemma_lex_total(a.drop_first(), b.drop_first());
        if a.drop_first() == b.drop_first() {
            assert(a =~= seq![a[0]] + a.drop_first());
            assert(b =~= seq![b[0]] + b.drop_first());
        }
    }
}

/// No key stands both before and behind another.
pub proof fn lemma_lex_asymmetric(a: Seq<u8>, b: Seq<u8>)
    requires
        lex_less(a, b),
    ensures
        !lex_less(b, a),
        a != b,
{
    if lex_less(b, a) {
        lemma_lex_transitive(a, b, a);
    }
    lemma_lex_irreflexive(a);
}

/// Whether `a` stands before `b` in the order of keys.
pub fn bytes_less(a: &[u8], b: &[u8]) -> (less: bool)
    ensures
        less == lex_less(a@, b@),
{
    let mut i: usize = 0;
    assert(a@.skip(0) =~= a@ && b@.skip(0) =~= b@);
    while i < a.len() && i < b.len()
        invariant
            i <= a.len(),
            i <= b.len(),
            lex_less(a@, b@) == lex_less(a@.skip(i as int), b@.skip(i as int)),
        decreases a.len() - i,
    {
        proof {
            assert(a@.skip(i as int).drop_first() =~= a@.skip(i + 1));
            assert(b@.skip(i as int).drop_first() =~= b@.skip(i + 1));
            assert(a@.skip(i as int)[0] == a@[i as int]);
            assert(b@.skip(i as int)[0] == b@[i as int]);
        }
        if a[i] != b[i] {
            return a[i] < b[i];
        }
        i += 1;
    }
    i < b.len()
}

/// The keys of `members` stand in their order, none twice.
pub open spec fn is_sorted(members: Seq<(Seq<u8>, Seq<u8>)>) -> bool {
    forall|i: int, j: int| 0 <= i < j < members.len() ==> lex_less(members[i].0, members[j].0)
}

/// How many of the first members have a key that stands before `key`.
pub open spec fn slot(members: Seq<(Seq<u8>, Seq<u8>)>, key: Seq<u8>) -> int
    decreases members.len(),
{
    if members.len() == 0 {
        0
    } else if lex_less(members[0].0, key) {
        1 + slot(members.drop_first(), key)
    } else {
        0
    }
}

/// The members with `key` set to `value`: the member of that key is
/// replaced, or a new one is put in at the place of the key.
pub open spec fn put(members: Seq<(Seq<u8>, Seq<u8>)>, key: Seq<u8>, value: Seq<u8>) -> Seq<
    (Seq<u8>, Seq<u8>),
> {
    let at = slot(members, key);
    if at < members.len() && members[at].0 == key {
        members.update(at, (key, value))
    } else {
        members.insert(at, (key, value))
    }
}

/// The place that `slot` names: the members before it have keys before
/// `key`, and the member at it has not.
pub proof fn lemma_slot(members: Seq<(Seq<u8>, Seq<u8>)>, key: Seq<u8>)
    ensures
        0 <= slot(members, key) <= members.len(),
        forall|i: int| 0 <= i < slot(members, key) ==> lex_less(#[trigger] members[i].0, key),
        slot(members, key) < members.len() ==> !lex_less(members[slot(members, key)].0, key),
    decreases members.len(),
{
    if members.len() > 0 && lex_less(members[0].0, key) {
        let rest = members.drop_first();
        lemma_slot(rest, key);
        assert forall|i: int| 0 <= i < slot(members, key) implies lex_less(
            #[trigger] members[i].0,
            key,
        ) by {
            if i > 0 {
                assert(members[i] == rest[i - 1]);
            }
        }
        if slot(members, key) < members.len() {
            assert(members[slot(members, key)] == rest[slot(rest, key)]);
        }
    }
}

/// Setting a key keeps the members in order; the key is then among them with
/// its value, and every other key is there as before, with the value it had.
pub proof fn lemma_put(members: Seq<(Seq<u8>, Seq<u8>)>, key: Seq<u8>, value: Seq<u8>)
    requires
        is_sorted(members),
    ensures
        is_sorted(put(members, key, value)),
        put(members, key, value).contains((key, value)),
        forall|k: Seq<u8>, v: Seq<u8>|
            k != key ==> (put(members, key, value).contains((k, v)) <==> members.contains(
                (k, v),
            )),
        forall|v: Seq<u8>| put(members, key, value).contains((key, v)) ==> v == value,
{
    lemma_slot(members, key);
    let at = slot(members, key);
    let after = put(members, key, value);
    if at < members.len() && members[at].0 == key {
        assert(after[at] == (key, value));
        assert forall|i: int, j: int| 0 <= i < j < after.len() implies lex_less(
            after[i].0,
            after[j].0,
        ) by {
            assert(after[i].0 == members[i].0);
            assert(after[j].0 == members[j].0);
        }
        assert forall|k: Seq<u8>, v: Seq<u8>| k != key implies (after.contains((k, v))
            <==> members.contains((k, v))) by {
            if after.contains((k, v)) {
                let i = choose|i: int| 0 <= i < after.len() && after[i] == (k, v);
                assert(members[i] == (k, v));
            }
            if members.contains((k, v)) {
                let i = choose|i: int| 0 <= i < members.len() && members[i] == (k, v);
                assert(after[i] == (k, v));
            }
        }
        assert forall|v: Seq<u8>| after.contains((key, v)) implies v == value by {
            let i = choose|i: int| 0 <= i < after.len() && after[i] == (key, v);
            if i != at {
                if i < at {
                    lemma_lex_asymmetric(members[i].0, members[at].0);
                } else {
                    lemma_lex_asymmetric(members[at].0, members[i].0);
                }
            }
        }
    } else {
        assert(after[at] == (key, value));
        assert forall|i: int| at <= i < members.len() implies lex_less(
            key,
            #[trigger] members[i].0,
        ) by {
            lemma_lex_total(members[at].0, key);
            if i > at {
                lemma_lex_transitive(key, members[at].0, members[i].0);
            }
        }
        assert forall|i: int, j: int| 0 <= i < j < after.len() implies lex_less(
            after[i].0,
            after[j].0,
        ) by {
            if j < at {
                assert(after[i] == members[i] && after[j] == members[j]);
            } else if j == at {
                assert(after[i] == members[i]);
            } else if i < at {
                assert(after[i] == members[i] && after[j] == members[j - 1]);
                if j - 1 >= at {
                    lemma_lex_transitive(members[i].0, key, members[j - 1].0);
                }
            } else if i == at {
                assert(after[j] == members[j - 1]);
            } else {
                assert(after[i] == members[i - 1] && after[j] == members[j - 1]);
            }
        }
        assert forall|k: Seq<u8>, v: Seq<u8>| k != key implies (after.contains((k, v))
            <==> members.contains((k, v))) by {
            if after.contains((k, v)) {
                let i = choose|i: int| 0 <= i < after.len() && after[i] == (k, v);
                if i < at {
                    assert(members[i] == (k, v));
                } else {
                    assert(members[i - 1] == (k, v));
                }
            }
            if members.contains((k, v)) {
                let i = choose|i: int| 0 <= i < members.len() && members[i] == (k, v);
                if i < at {
                    assert(after[i] == (k, v));
                } else {
                    assert(after[i + 1] == (k, v));
                }
            }
        }
        assert forall|v: Seq<u8>| after.contains((key, v)) implies v == value by {
            let i = choose|i: int| 0 <= i < after.len() && after[i] == (key, v);
            lemma_lex_irreflexive(key);
            if i < at {
                assert(after[i] == members[i]);
                assert(lex_less(members[i].0, key));
            } else if i > at {
                assert(after[i] == members[i - 1]);
                assert(lex_less(key, members[i - 1].0));
            } else {
                assert(after[i] == (key, value));
            }
        }
    }
}

/// Sets the member of the key of `member` to its value, keeping the members
/// in the order of their keys.
pub fn put_member(members: &mut Vec<JsonMember>, member: JsonMember)
    ensures
        member_views(final(members)@) == put(member_views(old(members)@), member@.0, member@.1),
{
    let ghost before = member_views(members@);
    let ghost key = member@.0;
    let mut i: usize = 0;
    proof {
        assert(before.skip(0) =~= before);
    }
    while i < members.len() && bytes_less(
        members[i].key.as_str().as_bytes(),
        member.key.as_str().as_bytes(),
    )
        invariant
            i <= members.len(),
            members@ == old(members)@,
            before == member_views(members@),
            key == member@.0,
            slot(before, key) == i + slot(before.skip(i as int), key),
        decreases members.len() - i,
    {
        proof {
            assert(before.skip(i as int)[0] == before[i as int]);
            assert(before[i as int] == members@[i as int]@);
            assert(before.skip(i as int).drop_first() =~= before.skip(i + 1));
        }
        i += 1;
    }
    proof {
        if i < members.len() {
            assert(before.skip(i as int)[0] == before[i as int]);
            assert(before[i as int] == members@[i as int]@);
        }
        assert(slot(before, key) == i);
    }
    if i < members.len() && crate::header::bytes_eq(
        members[i].key.as_str().as_bytes(),
        member.key.as_str().as_bytes(),
    ) {
        let ghost m = member@;
        members.set(i, member);
        assert(member_views(members@) =~= before.update(i as int, m));
    } else {
        let ghost m = member@;
        members.insert(i, member);
        assert(member_views(members@) =~= before.insert(i as int, m));
    }
}

/// The byte `:` between a key and its value.
pub const COLON: u8 = 58;

/// The byte `,` between two members or two names.
pub const COMMA: u8 = 44;

/// The byte `{` that opens an object.
pub const OPEN: u8 = 123;

/// The byte `}` that closes an object.
pub const CLOSE: u8 = 125;

/// One member as it is written: the key as a JSON string, a colon, the
/// document of the value.
pub open spec fn member_text(member: (Seq<u8>, Seq<u8>)) -> Seq<u8> {
    json_quoted(member.0) + seq![COLON] + member.1
}

/// The members as they are written, with a comma between two of them.
pub open spec fn members_text(members: Seq<(Seq<u8>, Seq<u8>)>) -> Seq<u8>
    decreases members.len(),
{
    if members.len() == 0 {
        Seq::empty()
    } else if members.len() == 1 {
        member_text(members[0])
    } else {
        members_text(members.drop_last()) + seq![COMMA] + member_text(members.last())
    }
}

/// The object of the members as it is written, without any space.
pub open spec fn object_text(members: Seq<(Seq<u8>, Seq<u8>)>) -> Seq<u8> {
    seq![OPEN] + members_text(members) + seq![CLOSE]
}

/// Writes the object of the members, in the order in which they stand.
pub fn frame_object(members: &[JsonMember]) -> (text: Vec<u8>)
    ensures
        text@ == object_text(member_views(members@)),
{
    let ghost all = member_views(members@);
    let mut out: Vec<u8> = Vec::new();
    out.push(OPEN);
    let mut i: usize = 0;
    proof {
        assert(all.take(0) =~= Seq::<(Seq<u8>, Seq<u8>)>::empty());
        assert(out@ =~= seq![OPEN] + members_text(all.take(0)));
    }
    while i < members.len()
        invariant
            i <= members.len(),
            all == member_views(members@),
            out@ == seq![OPEN] + members_text(all.take(i as int)),
        decreases members.len() - i,
    {
        let ghost before = members_text(all.take(i as int));
        proof {
            assert(all.take(i + 1).drop_last() =~= all.take(i as int));
            assert(all.take(i + 1).last() == members@[i as int]@);
            assert(all.take(i + 1)[0] == all[0]);
        }
        let quoted = Json::string(members[i].key.as_str());
        if i > 0 {
            out.push(COMMA);
        }
        out.extend_from_slice(quoted.as_str().as_bytes());
        out.push(COLON);
        out.extend_from_slice(members[i].value.as_str().as_bytes());
        proof {
            let text = member_text(members@[i as int]@);
            if i == 0 {
                assert(out@ =~= seq![OPEN] + text);
            } else {
                assert(out@ =~= seq![OPEN] + (before + seq![COMMA] + text));
            }
        }
        i += 1;
    }
    out.push(CLOSE);
    proof {
        assert(all.take(members.len() as int) =~= all);
    }
    out
}

} // verus!
