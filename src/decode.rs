//! Reading typed values out of a JSON tree: the member lookups that every
//! response shape is built from.
use vstd::prelude::*;
use crate::error::{Error, unexpected};
use crate::json::{json_accepts, json_tree, Json, member};
use crate::number::{natural_of, parse_usize};

verus! {

/// A string member's characters.
pub open spec fn text_of(v: Option<Json>) -> Option<Seq<char>> {
    match v {
        Some(Json::Str(s)) => Some(s@),
        _ => None,
    }
}

/// A member that holds a non-negative integer that fits in `usize`.
pub open spec fn count_of(v: Option<Json>) -> Option<usize> {
    match v {
        Some(Json::Number(t)) => match natural_of(t@) {
            Some(n) => if n <= usize::MAX { Some(n as usize) } else { None },
            None => None,
        },
        _ => None,
    }
}

/// A boolean member.
pub open spec fn flag_of(v: Option<Json>) -> Option<bool> {
    match v {
        Some(Json::Bool(b)) => Some(b),
        _ => None,
    }
}

/// An optional string member: absent and `null` both read as `None`; the
/// outer `None` means the member has another type.
pub open spec fn optional_text_of(v: Option<Json>) -> Option<Option<Seq<char>>> {
    match v {
        None => Some(None),
        Some(Json::Null) => Some(None),
        Some(Json::Str(s)) => Some(Some(s@)),
        _ => None,
    }
}

/// An optional count member, read as `optional_text_of` reads strings.
pub open spec fn optional_count_of(v: Option<Json>) -> Option<Option<usize>> {
    match v {
        None => Some(None),
        Some(Json::Null) => Some(None),
        _ => match count_of(v) {
            Some(n) => Some(Some(n)),
            None => None,
        },
    }
}

/// The strings of a string member, or `None`.
pub open spec fn view_of_text(s: Option<String>) -> Option<Seq<char>> {
    match s {
        Some(t) => Some(t@),
        None => None,
    }
}

/// A value that a response shape reads from a JSON tree.
pub trait Decode: Sized {
    /// Whether `j` holds a value of this shape.
    spec fn decodable(j: Json) -> bool;

    /// Whether `self` is the value that `j` holds.
    spec fn decodes_from(self, j: Json) -> bool;

    /// Reads the value; an error is always `InvalidResponse`.
    fn from_json(j: &Json) -> (r: Result<Self, Error>)
        ensures
            r is Ok <==> Self::decodable(*j),
            r matches Ok(v) ==> v.decodes_from(*j),
            r matches Err(e) ==> e is InvalidResponse;
}

/// A member that must be present and of the shape.
pub open spec fn decodable_at<T: Decode>(v: Option<Json>) -> bool {
    match v {
        Some(j) => T::decodable(j),
        None => false,
    }
}

/// Whether `x` is what the member holds.
pub open spec fn decodes_at<T: Decode>(v: Option<Json>, x: T) -> bool {
    match v {
        Some(j) => x.decodes_from(j),
        None => false,
    }
}

/// A member that may be absent or `null`.
pub open spec fn optional_decodable<T: Decode>(v: Option<Json>) -> bool {
    match v {
        None => true,
        Some(Json::Null) => true,
        Some(j) => T::decodable(j),
    }
}

/// Whether `x` is what an optional member holds.
pub open spec fn optional_decodes<T: Decode>(v: Option<Json>, x: Option<T>) -> bool {
    match v {
        None => x is None,
        Some(Json::Null) => x is None,
        Some(j) => x matches Some(y) && y.decodes_from(j),
    }
}

/// The elements of an array member.
pub open spec fn items_of(v: Option<Json>) -> Option<Seq<Json>> {
    match v {
        Some(Json::Array(items)) => Some(items@),
        _ => None,
    }
}

/// A member that is an array whose every element has the shape.
pub open spec fn list_decodable<T: Decode>(v: Option<Json>) -> bool {
    &&& items_of(v) is Some
    &&& forall|i: int|
        0 <= i < items_of(v).unwrap().len() ==> #[trigger] T::decodable(items_of(v).unwrap()[i])
}

/// Whether `xs` are the elements that an array member holds, in order.
pub open spec fn list_decodes<T: Decode>(v: Option<Json>, xs: Seq<T>) -> bool {
    &&& items_of(v) is Some
    &&& xs.len() == items_of(v).unwrap().len()
    &&& forall|i: int|
        0 <= i < xs.len() ==> #[trigger] xs[i].decodes_from(items_of(v).unwrap()[i])
}

/// The number texts of an array member whose every element is a number.
pub open spec fn numbers_of(v: Option<Json>) -> Option<Seq<Json>> {
    match items_of(v) {
        Some(items) => if forall|i: int| 0 <= i < items.len() ==> (#[trigger] items[i]) is Number {
            Some(items)
        } else {
            None
        },
        None => None,
    }
}

/// Whether `xs` are the texts of the numbers in `items`, in order.
pub open spec fn number_texts(items: Seq<Json>, xs: Seq<String>) -> bool {
    xs.len() == items.len() && forall|i: int|
        0 <= i < items.len() ==> items[i] == Json::Number(#[trigger] xs[i])
}

/// The string member `key`.
pub fn text_member(j: &Json, key: &str) -> (r: Result<String, Error>)
    ensures
        r is Ok <==> text_of(member(*j, key@)) is Some,
        r matches Ok(s) ==> text_of(member(*j, key@)) == Some(s@),
        r matches Err(e) ==> e is InvalidResponse,
{
    match j.get(key) {
        Some(Json::Str(s)) => Ok(s.clone()),
        _ => Err(unexpected(key)),
    }
}

/// The count member `key`.
pub fn count_member(j: &Json, key: &str) -> (r: Result<usize, Error>)
    ensures
        r is Ok <==> count_of(member(*j, key@)) is Some,
        r matches Ok(n) ==> count_of(member(*j, key@)) == Some(n),
        r matches Err(e) ==> e is InvalidResponse,
{
    match j.get(key) {
        Some(Json::Number(t)) => match parse_usize(t.as_str()) {
            Some(n) => Ok(n),
            None => Err(unexpected(key)),
        },
        _ => Err(unexpected(key)),
    }
}

/// The boolean member `key`.
pub fn flag_member(j: &Json, key: &str) -> (r: Result<bool, Error>)
    ensures
        r is Ok <==> flag_of(member(*j, key@)) is Some,
        r matches Ok(b) ==> flag_of(member(*j, key@)) == Some(b),
        r matches Err(e) ==> e is InvalidResponse,
{
    match j.get(key) {
        Some(Json::Bool(b)) => Ok(*b),
        _ => Err(unexpected(key)),
    }
}

/// The optional string member `key`.
pub fn optional_text_member(j: &Json, key: &str) -> (r: Result<Option<String>, Error>)
    ensures
        r is Ok <==> optional_text_of(member(*j, key@)) is Some,
        r matches Ok(s) ==> optional_text_of(member(*j, key@)) == Some(view_of_text(s)),
        r matches Err(e) ==> e is InvalidResponse,
{
    match j.get(key) {
        None => Ok(None),
        Some(Json::Null) => Ok(None),
        Some(Json::Str(s)) => Ok(Some(s.clone())),
        _ => Err(unexpected(key)),
    }
}

/// The optional count member `key`.
pub fn optional_count_member(j: &Json, key: &str) -> (r: Result<Option<usize>, Error>)
    ensures
        r is Ok <==> optional_count_of(member(*j, key@)) is Some,
        r matches Ok(n) ==> optional_count_of(member(*j, key@)) == Some(n),
        r matches Err(e) ==> e is InvalidResponse,
{
    match j.get(key) {
        None => Ok(None),
        Some(Json::Null) => Ok(None),
        Some(Json::Number(t)) => match parse_usize(t.as_str()) {
            Some(n) => Ok(Some(n)),
            None => Err(unexpected(key)),
        },
        _ => Err(unexpected(key)),
    }
}

/// The member `key`, read as a `T`.
pub fn value_member<T: Decode>(j: &Json, key: &str) -> (r: Result<T, Error>)
    ensures
        r is Ok <==> decodable_at::<T>(member(*j, key@)),
        r matches Ok(x) ==> decodes_at(member(*j, key@), x),
        r matches Err(e) ==> e is InvalidResponse,
{
    match j.get(key) {
        Some(v) => T::from_json(v),
        None => Err(unexpected(key)),
    }
}

/// The optional member `key`, read as a `T`.
pub fn optional_member<T: Decode>(j: &Json, key: &str) -> (r: Result<Option<T>, Error>)
    ensures
        r is Ok <==> optional_decodable::<T>(member(*j, key@)),
        r matches Ok(x) ==> optional_decodes(member(*j, key@), x),
        r matches Err(e) ==> e is InvalidResponse,
{
    match j.get(key) {
        None => Ok(None),
        Some(Json::Null) => Ok(None),
        Some(v) => match T::from_json(v) {
            Ok(x) => Ok(Some(x)),
            Err(e) => Err(e),
        },
    }
}

/// The array member `key`, each element a number kept as its text.
pub fn number_list_member(j: &Json, key: &str) -> (r: Result<Vec<String>, Error>)
    ensures
        r is Ok <==> numbers_of(member(*j, key@)) is Some,
        r matches Ok(xs) ==> number_texts(numbers_of(member(*j, key@)).unwrap(), xs@),
        r matches Err(e) ==> e is InvalidResponse,
{
    match j.get(key) {
        Some(Json::Array(items)) => {
            let mut out: Vec<String> = Vec::new();
            let mut i: usize = 0;
            while i < items.len()
                invariant
                    i <= items@.len(),
                    items_of(member(*j, key@)) == Some(items@),
                    out@.len() == i,
                    forall|k: int| 0 <= k < i ==> items@[k] == Json::Number(#[trigger] out@[k]),
                decreases items@.len() - i,
            {
                match &items[i] {
                    Json::Number(t) => out.push(t.clone()),
                    _ => {
                        assert(!(items@[i as int] is Number));
                        return Err(unexpected(key));
                    },
                }
                i += 1;
            }
            assert forall|k: int| 0 <= k < items@.len() implies (#[trigger] items@[k]) is Number by {
                assert(items@[k] == Json::Number(out@[k]));
            }
            Ok(out)
        },
        _ => Err(unexpected(key)),
    }
}

/// The array member `key`, each element read as a `T`.
pub fn list_member<T: Decode>(j: &Json, key: &str) -> (r: Result<Vec<T>, Error>)
    ensures
        r is Ok <==> list_decodable::<T>(member(*j, key@)),
        r matches Ok(xs) ==> list_decodes(member(*j, key@), xs@),
        r matches Err(e) ==> e is InvalidResponse,
{
    match j.get(key) {
        Some(Json::Array(items)) => {
            let mut out: Vec<T> = Vec::new();
            let mut i: usize = 0;
            while i < items.len()
                invariant
                    i <= items@.len(),
                    items_of(member(*j, key@)) == Some(items@),
                    out@.len() == i,
                    forall|k: int| 0 <= k < i ==> #[trigger] T::decodable(items@[k]),
                    forall|k: int| 0 <= k < i ==> (#[trigger] out@[k]).decodes_from(items@[k]),
                decreases items@.len() - i,
            {
                match T::from_json(&items[i]) {
                    Ok(x) => out.push(x),
                    Err(e) => {
                        proof {
                            if list_decodable::<T>(member(*j, key@)) {
                                let ghost v = items_of(member(*j, key@)).unwrap();
                                assert(v == items@);
                                assert(T::decodable(v[i as int]));
                                assert(T::decodable(items@[i as int]));
                            }
                        }
                        return Err(e);
                    },
                }
                i += 1;
            }
            Ok(out)
        },
        _ => Err(unexpected(key)),
    }
}

/// Parses a response body and reads it as a `T`. A body that is not JSON, or
/// whose JSON does not have the shape, gives `InvalidResponse`.
pub fn from_body<T: Decode>(body: &str) -> (r: Result<T, Error>)
    ensures
        json_accepts(body@) ==> (r is Ok <==> T::decodable(json_tree(body@))),
        r matches Ok(v) ==> json_accepts(body@) && v.decodes_from(json_tree(body@)),
        !json_accepts(body@) ==> r is Err,
        r matches Err(e) ==> e is InvalidResponse,
{
    let j = Json::parse(body)?;
    T::from_json(&j)
}

} // verus!
