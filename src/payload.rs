//! Building the members of a request payload, where an unset optional
//! parameter leaves no member at all.
use vstd::prelude::*;
use crate::json::{json_quoted, members_view, quote};
use crate::number::{decimal, isize_text, signed_decimal, usize_text};

verus! {

/// A payload's members: each key with the JSON text of its value.
pub type Members = Seq<(Seq<char>, Seq<char>)>;

/// One member when the value is set, none when it is not.
pub open spec fn optional_member(key: Seq<char>, value: Option<Seq<char>>) -> Members {
    match value {
        Some(v) => seq![(key, v)],
        None => seq![],
    }
}

/// Whether some member has the key.
#[verifier::opaque]
pub open spec fn has_key(members: Members, key: Seq<char>) -> bool {
    exists|i: int| 0 <= i < members.len() && (#[trigger] members[i]).0 == key
}

/// A key is among the members of a concatenation when it is among those of
/// either part.
pub broadcast proof fn lemma_has_key_concat(a: Members, b: Members, key: Seq<char>)
    ensures
        #[trigger] has_key(a + b, key) <==> has_key(a, key) || has_key(b, key),
{
    reveal(has_key);
    if has_key(a + b, key) {
        let i = choose|i: int| 0 <= i < (a + b).len() && (#[trigger] (a + b)[i]).0 == key;
        if i < a.len() {
            assert(a[i] == (a + b)[i]);
        } else {
            assert(b[i - a.len()] == (a + b)[i]);
        }
    }
    if has_key(a, key) {
        let i = choose|i: int| 0 <= i < a.len() && (#[trigger] a[i]).0 == key;
        assert((a + b)[i] == a[i]);
    }
    if has_key(b, key) {
        let i = choose|i: int| 0 <= i < b.len() && (#[trigger] b[i]).0 == key;
        assert((a + b)[a.len() + i] == b[i]);
    }
}

/// The key of an optional member is present exactly when the value is set.
pub broadcast proof fn lemma_has_key_optional(k: Seq<char>, value: Option<Seq<char>>, key: Seq<char>)
    ensures
        #[trigger] has_key(optional_member(k, value), key) <==> (value is Some && k == key),
{
    reveal(has_key);
    if value is Some {
        assert(optional_member(k, value)[0] == (k, value.unwrap()));
    }
}

/// Pushing a member adds its key.
pub broadcast proof fn lemma_has_key_push(a: Members, m: (Seq<char>, Seq<char>), key: Seq<char>)
    ensures
        #[trigger] has_key(a.push(m), key) <==> has_key(a, key) || m.0 == key,
{
    reveal(has_key);
    if has_key(a.push(m), key) {
        let i = choose|i: int| 0 <= i < a.push(m).len() && (#[trigger] a.push(m)[i]).0 == key;
        if i < a.len() {
            assert(a[i] == a.push(m)[i]);
        }
    }
    if has_key(a, key) {
        let i = choose|i: int| 0 <= i < a.len() && (#[trigger] a[i]).0 == key;
        assert(a.push(m)[i] == a[i]);
    }
    if m.0 == key {
        assert(a.push(m)[a.len() as int] == m);
    }
}

/// No member has any key.
pub broadcast proof fn lemma_has_key_empty(key: Seq<char>)
    ensures
        !has_key(#[trigger] Seq::<(Seq<char>, Seq<char>)>::empty(), key),
{
    reveal(has_key);
}

pub broadcast group group_has_key {
    lemma_has_key_push,
    lemma_has_key_empty,
    lemma_has_key_concat,
    lemma_has_key_optional,
}

/// The JSON text of an optional string.
pub open spec fn quoted_text(o: Option<String>) -> Option<Seq<char>> {
    match o {
        Some(s) => Some(json_quoted(s@)),
        None => None,
    }
}

/// The JSON text of an optional count.
pub open spec fn count_text(o: Option<usize>) -> Option<Seq<char>> {
    match o {
        Some(n) => Some(decimal(n as nat)),
        None => None,
    }
}

/// The JSON text of an optional signed integer.
pub open spec fn signed_text(o: Option<isize>) -> Option<Seq<char>> {
    match o {
        Some(n) => Some(signed_decimal(n as int)),
        None => None,
    }
}

/// The JSON text of a boolean.
pub open spec fn bool_text(b: bool) -> Seq<char> {
    if b { seq!['t', 'r', 'u', 'e'] } else { seq!['f', 'a', 'l', 's', 'e'] }
}

/// The JSON text of an optional boolean.
pub open spec fn flag_text(o: Option<bool>) -> Option<Seq<char>> {
    match o {
        Some(b) => Some(bool_text(b)),
        None => None,
    }
}

/// The characters of an optional string.
pub open spec fn option_view(o: Option<String>) -> Option<Seq<char>> {
    match o {
        Some(s) => Some(s@),
        None => None,
    }
}

/// Appends one member.
pub fn push_member(members: &mut Vec<(String, String)>, key: &str, value: String)
    ensures
        members_view(final(members)@) == members_view(old(members)@) + seq![(key@, value@)],
{
    members.push((key.to_owned(), value));
    assert(members_view(members@) =~= members_view(old(members)@) + seq![(key@, value@)]);
}

/// Appends a member when the value is set.
pub fn push_optional(members: &mut Vec<(String, String)>, key: &str, value: Option<String>)
    ensures
        members_view(final(members)@) == members_view(old(members)@) + optional_member(
            key@,
            option_view(value),
        ),
{
    match value {
        Some(v) => {
            push_member(members, key, v);
            assert(members_view(members@) =~= members_view(old(members)@) + optional_member(
                key@,
                option_view(value),
            ));
        },
        None => {
            assert(members_view(members@) =~= members_view(old(members)@) + optional_member(
                key@,
                option_view(value),
            ));
        },
    }
}

/// The JSON text of an optional string.
pub fn quote_option(o: &Option<String>) -> (r: Option<String>)
    ensures
        option_view(r) == quoted_text(*o),
{
    match o {
        Some(s) => Some(quote(s.as_str())),
        None => None,
    }
}

/// The JSON text of an optional count.
pub fn count_option(o: Option<usize>) -> (r: Option<String>)
    ensures
        option_view(r) == count_text(o),
{
    match o {
        Some(n) => Some(usize_text(n)),
        None => None,
    }
}

/// The JSON text of an optional signed integer.
pub fn signed_option(o: Option<isize>) -> (r: Option<String>)
    ensures
        option_view(r) == signed_text(o),
{
    match o {
        Some(n) => Some(isize_text(n)),
        None => None,
    }
}

/// The JSON text of a boolean.
pub fn bool_string(b: bool) -> (r: String)
    ensures
        r@ == bool_text(b),
{
    proof { reveal_strlit("true"); reveal_strlit("false"); }
    let r = if b { "true".to_owned() } else { "false".to_owned() };
    assert(r@ =~= bool_text(b));
    r
}

/// The JSON text of an optional boolean.
pub fn flag_option(o: Option<bool>) -> (r: Option<String>)
    ensures
        option_view(r) == flag_text(o),
{
    match o {
        Some(b) => Some(bool_string(b)),
        None => None,
    }
}

} // verus!
