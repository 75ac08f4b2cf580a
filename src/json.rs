//! A plain JSON tree that the decoders read, and the spec functions that
//! describe how a value is looked up in it.
use vstd::prelude::*;
use vstd::string::*;

verus! {

/// A JSON value. Numbers keep their text as it stood on the wire.
#[derive(Debug)]
pub enum Json {
    Null,
    Bool(bool),
    Number(String),
    Str(String),
    Array(Vec<Json>),
    Object(Vec<(String, Json)>),
}

/// The value under `key` in a list of object entries: the first entry wins.
pub open spec fn lookup(entries: Seq<(String, Json)>, key: Seq<char>) -> Option<Json>
    decreases entries.len(),
{
    if entries.len() == 0 {
        None
    } else if entries[0].0@ == key {
        Some(entries[0].1)
    } else {
        lookup(entries.drop_first(), key)
    }
}

/// The member `key` of an object; `None` for a missing key or a non-object.
pub open spec fn member(j: Json, key: Seq<char>) -> Option<Json> {
    match j {
        Json::Object(entries) => lookup(entries@, key),
        _ => None,
    }
}

/// Whether two strings hold the same characters.
pub fn same_text(a: &str, b: &str) -> (r: bool)
    ensures
        r == (a@ == b@),
{
    a.to_owned() == b.to_owned()
}

impl Json {
    /// The member `key` of this value, if it is an object that has one.
    pub fn get(&self, key: &str) -> (r: Option<&Json>)
        ensures
            r matches Some(v) ==> member(*self, key@) == Some(*v),
            r is None ==> member(*self, key@) is None,
    {
        match self {
            Json::Object(entries) => {
                let mut i: usize = 0;
                assert(entries@.skip(0) =~= entries@);
                while i < entries.len()
                    invariant
                        i <= entries@.len(),
                        member(*self, key@) == lookup(entries@, key@),
                        lookup(entries@, key@) == lookup(entries@.skip(i as int), key@),
                    decreases entries@.len() - i,
                {
                    assert(entries@.skip(i as int).drop_first() =~= entries@.skip(i + 1));
                    assert(entries@.skip(i as int)[0] == entries@[i as int]);
                    if same_text(entries[i].0.as_str(), key) {
                        return Some(&entries[i].1);
                    }
                    i += 1;
                }
                None
            },
            _ => None,
        }
    }
}

} // verus!
verus! {

broadcast use {vstd::std_specs::vec::group_vec_axioms, vstd::seq::group_seq_axioms};

/// What `serde_json` writes for a string: the characters quoted and escaped.
pub uninterp spec fn json_quoted(s: Seq<char>) -> Seq<char>;

/// Whether `serde_json` accepts the text as one JSON value.
pub uninterp spec fn json_accepts(s: Seq<char>) -> bool;

/// Whether no character of `s` needs escaping in a JSON string: no quote,
/// no backslash, and no control character below U+0020.
pub open spec fn plain_text(s: Seq<char>) -> bool {
    forall|i: int|
        0 <= i < s.len() ==> #[trigger] s[i] != '"' && s[i] != '\\' && (s[i] as u32) >= 0x20
}

/// Relies on `serde_json::to_string` on a `str`: the JSON string literal
/// for `s`, which escapes only quotes, backslashes and control characters
/// (its `ESCAPE` table), so plain text comes back just quoted. Writing a
/// string into a `Vec` never fails.
#[verifier::external_body]
pub(crate) fn quote(s: &str) -> (r: String)
    ensures
        r@ == json_quoted(s@),
        plain_text(s@) ==> r@ == seq!['"'] + s@ + seq!['"'],
{
    serde_json::to_string(s).unwrap_or_default()
}

#[verifier::external_type_specification]
#[verifier::external_body]
pub struct ExValue(serde_json::Value);

/// The tree that `serde_json` parses the text into, node for node: a
/// number keeps the text that `Number`'s `Display` writes, and an object's
/// members come in the order that `serde_json::Map` hands them out.
pub uninterp spec fn json_tree(s: Seq<char>) -> Json;

/// Relies on `serde_json::from_str` into a `serde_json::Value`: it succeeds
/// exactly on the texts that hold one JSON value, and what it gives depends on
/// the text alone; the error's message is kept.
#[verifier::external_body]
fn parse_tree(text: &str) -> (r: Result<Json, String>)
    ensures
        r is Ok <==> json_accepts(text@),
        r matches Ok(j) ==> j == json_tree(text@),
{
    serde_json::from_str::<serde_json::Value>(text).map(tree_of).map_err(|e| e.to_string())
}

/// Relies on the variants of `serde_json::Value` and on `Number`'s `Display`:
/// turns a parsed value into a `Json`, node for node. `serde_json` refuses
/// texts nested deeper than 128 levels, which bounds the recursion.
#[verifier::external_body]
fn tree_of(v: serde_json::Value) -> Json {
    match v {
        serde_json::Value::Null => Json::Null,
        serde_json::Value::Bool(b) => Json::Bool(b),
        serde_json::Value::Number(n) => Json::Number(n.to_string()),
        serde_json::Value::String(s) => Json::Str(s),
        serde_json::Value::Array(a) => Json::Array(a.into_iter().map(tree_of).collect()),
        serde_json::Value::Object(m) => Json::Object(m.into_iter().map(|(k, v)| (k, tree_of(v))).collect()),
    }
}

/// Values separated by commas.
pub open spec fn join(parts: Seq<Seq<char>>) -> Seq<char>
    decreases parts.len(),
{
    if parts.len() == 0 {
        seq![]
    } else if parts.len() == 1 {
        parts[0]
    } else {
        join(parts.drop_last()) + seq![','] + parts.last()
    }
}

/// The text of a JSON array whose elements have the given texts.
pub open spec fn array_text(items: Seq<Seq<char>>) -> Seq<char> {
    seq!['['] + join(items) + seq![']']
}

/// The text of one object member.
pub open spec fn member_text(key: Seq<char>, value: Seq<char>) -> Seq<char> {
    json_quoted(key) + seq![':'] + value
}

/// The text of a JSON object with the given keys and value texts, in order.
pub open spec fn object_text(members: Seq<(Seq<char>, Seq<char>)>) -> Seq<char> {
    seq!['{'] + join(Seq::new(members.len(), |i: int| member_text(members[i].0, members[i].1)))
        + seq!['}']
}

/// The views of a list of strings.
pub open spec fn texts(items: Seq<String>) -> Seq<Seq<char>> {
    Seq::new(items.len(), |i: int| items[i]@)
}

/// The views of a list of key and value-text pairs.
pub open spec fn members_view(members: Seq<(String, String)>) -> Seq<(Seq<char>, Seq<char>)> {
    Seq::new(members.len(), |i: int| (members[i].0@, members[i].1@))
}

/// The text of a JSON value, as this library writes it.
pub open spec fn json_text(j: Json) -> Seq<char>
    decreases j,
{
    match j {
        Json::Null => seq!['n', 'u', 'l', 'l'],
        Json::Bool(b) => if b { seq!['t', 'r', 'u', 'e'] } else { seq!['f', 'a', 'l', 's', 'e'] },
        Json::Number(t) => t@,
        Json::Str(s) => json_quoted(s@),
        Json::Array(items) => array_text(item_texts(items@)),
        Json::Object(entries) => object_text(entry_texts(entries@)),
    }
}

/// The texts of the elements of an array.
pub open spec fn item_texts(items: Seq<Json>) -> Seq<Seq<char>>
    decreases items,
{
    Seq::new(items.len(), |i: int| if 0 <= i < items.len() { json_text(items[i]) } else { seq![] })
}

/// The keys and value texts of the members of an object.
pub open spec fn entry_texts(entries: Seq<(String, Json)>) -> Seq<(Seq<char>, Seq<char>)>
    decreases entries,
{
    Seq::new(
        entries.len(),
        |i: int|
            if 0 <= i < entries.len() {
                (entries[i].0@, json_text(entries[i].1))
            } else {
                (seq![], seq![])
            },
    )
}

proof fn lemma_join_step(parts: Seq<Seq<char>>, i: int)
    requires
        0 <= i < parts.len(),
    ensures
        join(parts.take(i + 1)) == if i == 0 {
            parts[0]
        } else {
            join(parts.take(i)) + seq![','] + parts[i]
        },
{
    assert(parts.take(i + 1).drop_last() =~= parts.take(i));
}

/// Appends the parts, separated by commas.
fn push_joined(out: &mut String, parts: &Vec<String>)
    ensures
        final(out)@ == old(out)@ + join(texts(parts@)),
{
    let ghost start = out@;
    let mut i: usize = 0;
    while i < parts.len()
        invariant
            i <= parts@.len(),
            out@ == start + join(texts(parts@).take(i as int)),
        decreases parts@.len() - i,
    {
        proof {
            lemma_join_step(texts(parts@), i as int);
            reveal_strlit(",");
        }
        if i > 0 {
            out.append(",");
        }
        out.append(parts[i].as_str());
        i += 1;
    }
    assert(texts(parts@).take(i as int) =~= texts(parts@));
}

/// The text of an array whose elements have the given texts.
pub fn render_array(items: &Vec<String>) -> (r: String)
    ensures
        r@ == array_text(texts(items@)),
{
    proof { reveal_strlit("["); reveal_strlit("]"); }
    let mut out = String::from_str("[");
    push_joined(&mut out, items);
    out.append("]");
    out
}

/// The text of an object with the given keys and value texts, in order.
pub fn render_object(members: &Vec<(String, String)>) -> (r: String)
    ensures
        r@ == object_text(members_view(members@)),
{
    let mut parts: Vec<String> = Vec::new();
    let mut i: usize = 0;
    while i < members.len()
        invariant
            i <= members@.len(),
            parts@.len() == i,
            forall|k: int| 0 <= k < i ==> (#[trigger] parts@[k])@ == member_text(
                members@[k].0@,
                members@[k].1@,
            ),
        decreases members@.len() - i,
    {
        proof { reveal_strlit(":"); }
        let mut part = quote(members[i].0.as_str());
        part.append(":");
        part.append(members[i].1.as_str());
        parts.push(part);
        i += 1;
    }
    proof { reveal_strlit("{"); reveal_strlit("}"); }
    let mut out = String::from_str("{");
    push_joined(&mut out, &parts);
    out.append("}");
    let ghost m = members_view(members@);
    assert(texts(parts@) =~= Seq::new(m.len(), |i: int| member_text(m[i].0, m[i].1)));
    out
}

impl Json {
    /// Parses a JSON text with `serde_json` into a plain tree; a text that
    /// is not one JSON value gives `InvalidResponse`.
    pub fn parse(text: &str) -> (r: Result<Json, crate::error::Error>)
        ensures
            json_accepts(text@) ==> r == Ok::<Json, crate::error::Error>(json_tree(text@)),
            !json_accepts(text@) ==> r matches Err(crate::error::Error::InvalidResponse(_)),
    {
        match parse_tree(text) {
            Ok(j) => Ok(j),
            Err(message) => Err(crate::error::Error::InvalidResponse(message)),
        }
    }

    /// The JSON text of this value.
    pub fn to_text(&self) -> (r: String)
        ensures
            r@ == json_text(*self),
        decreases self,
    {
        match self {
            Json::Null => {
                proof { reveal_strlit("null"); }
                let r = String::from_str("null");
                assert(r@ =~= json_text(*self));
                r
            },
            Json::Bool(b) => {
                proof { reveal_strlit("true"); reveal_strlit("false"); }
                let r = if *b { String::from_str("true") } else { String::from_str("false") };
                assert(r@ =~= json_text(*self));
                r
            },
            Json::Number(t) => {
                let r = t.clone();
                assert(r@ == json_text(*self));
                r
            },
            Json::Str(s) => {
                let r = quote(s.as_str());
                assert(r@ == json_text(*self));
                r
            },
            Json::Array(items) => {
                let mut parts: Vec<String> = Vec::new();
                let mut i: usize = 0;
                while i < items.len()
                    invariant
                        i <= items@.len(),
                        *self == Json::Array(*items),
                        parts@.len() == i,
                        forall|k: int| 0 <= k < i ==> (#[trigger] parts@[k])@ == json_text(items@[k]),
                    decreases items@.len() - i,
                {
                    proof {
                        assert(decreases_to!(*self => (*self)->Array_0));
                        assert(decreases_to!(*items => items@));
                        assert(decreases_to!(items@ => items@[i as int]));
                    }
                    parts.push(items[i].to_text());
                    i += 1;
                }
                let r = render_array(&parts);
                assert(texts(parts@) =~= item_texts(items@));
                assert(r@ == json_text(*self));
                r
            },
            Json::Object(entries) => {
                proof { assert(decreases_to!(*self => (*self)->Object_0)); }
                entries_to_text(entries)
            },
        }
    }
}

/// The JSON text of an object with the given entries.
pub fn entries_to_text(entries: &Vec<(String, Json)>) -> (r: String)
    ensures
        r@ == object_text(entry_texts(entries@)),
    decreases entries,
{
    let mut members: Vec<(String, String)> = Vec::new();
    let mut i: usize = 0;
    while i < entries.len()
        invariant
            i <= entries@.len(),
            members@.len() == i,
            forall|k: int| 0 <= k < i ==> (#[trigger] members@[k]).0@ == entries@[k].0@
                && members@[k].1@ == json_text(entries@[k].1),
        decreases entries@.len() - i,
    {
        proof {
            assert(decreases_to!(*entries => entries@));
            assert(decreases_to!(entries@ => entries@[i as int]));
            assert(decreases_to!(entries@[i as int] => entries@[i as int].1));
        }
        members.push((entries[i].0.clone(), entries[i].1.to_text()));
        i += 1;
    }
    assert(members_view(members@) =~= entry_texts(entries@));
    render_object(&members)
}

} // verus!
