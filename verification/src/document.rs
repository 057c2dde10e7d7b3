//! Component documents: JSON objects whose `values` member holds a flat
//! array of numbers.

use vstd::prelude::*;
use serde_json::Value;

verus! {

/// `serde_json::Value`, a parsed JSON value; it is carried through unopened.
#[verifier::external_type_specification]
#[verifier::external_body]
pub struct ExValue(serde_json::Value);

/// `serde_json::Error`, the parser's reason for rejecting a text; it is
/// carried through unopened.
#[verifier::external_type_specification]
#[verifier::external_body]
pub struct ExError(serde_json::Error);

/// What a JSON value holds, as far as loading a document reads it.
///
/// A number is given by the bit pattern of its double-precision reading.
pub enum Json {
    Null,
    Bool,
    Number(u64),
    Text,
    Array(Seq<Json>),
    Object(Map<Seq<char>, Json>),
}

/// The content of a `serde_json::Value`, as its accessors `get`, `as_array`
/// and `as_f64` show it.
pub uninterp spec fn content(value: Value) -> Json;

/// The content of the value that `serde_json::from_str` reads from `text`,
/// or `None` where it rejects the text.
pub uninterp spec fn parsed(text: Seq<char>) -> Option<Json>;

/// Why a document could not be loaded.
#[derive(Debug, Clone, Copy, PartialEq, Eq)]
pub enum LoadError {
    /// The JSON parser rejects the text.
    Malformed,
    /// The document is no object, or it has no `values` member.
    MissingValues,
    /// The `values` member is not an array.
    NotAnArray,
    /// The array does not hold the number of entries asked for.
    WrongCount,
    /// An entry of the array is not a number.
    NotANumber,
}

/// Parses `text` with `serde_json::from_str`. Whether it succeeds, and the
/// content of the value that it gives, depend on the text alone.
#[verifier::external_body]
fn parse(text: &str) -> (r: Result<Value, serde_json::Error>)
    ensures
        match r {
            Ok(value) => parsed(text@) == Some(content(value)),
            Err(_) => parsed(text@) is None,
        },
{
    serde_json::from_str::<Value>(text)
}

/// Looks up a member with `Value::get`: the member of that name where the
/// value is an object that has one, `None` otherwise.
#[verifier::external_body]
fn member<'a>(value: &'a Value, key: &str) -> (r: Option<&'a Value>)
    ensures
        match r {
            Some(found) => content(*value) matches Json::Object(members)
                && members.contains_key(key@) && content(*found) == members[key@],
            None => !(content(*value) matches Json::Object(members) && members.contains_key(key@)),
        },
{
    value.get(key)
}

/// Borrows the entries with `Value::as_array`: the entries in order where
/// the value is an array, `None` otherwise.
#[verifier::external_body]
fn entries(value: &Value) -> (r: Option<&Vec<Value>>)
    ensures
        match r {
            Some(list) => content(*value) matches Json::Array(items)
                && list@.len() == items.len()
                && forall|i: int| 0 <= i < items.len() ==> content(#[trigger] list@[i]) == items[i],
            None => !(content(*value) is Array),
        },
{
    value.as_array()
}

/// Reads a number with `Value::as_f64` and hands out its bit pattern: the
/// double-precision reading where the value is a number, `None` otherwise.
/// Every number has such a reading, as the parser is built without
/// arbitrary precision.
#[verifier::external_body]
fn number(value: &Value) -> (r: Option<u64>)
    ensures
        match r {
            Some(bits) => content(*value) == Json::Number(bits),
            None => !(content(*value) is Number),
        },
{
    value.as_f64().map(|x| x.to_bits())
}

/// Whether every item is a number.
pub open spec fn all_numbers(items: Seq<Json>) -> bool {
    forall|i: int| 0 <= i < items.len() ==> #[trigger] items[i] is Number
}

/// The double-precision bit patterns of the items, in order.
pub open spec fn number_bits(items: Seq<Json>) -> Seq<u64> {
    Seq::new(items.len(), |i: int| items[i]->Number_0)
}

/// What reading `count` values from a document of content `doc` gives.
///
/// The first failure in this order decides the error: no `values` member,
/// a member that is no array, an array of another length, an entry that is
/// no number.
pub open spec fn values_of(doc: Json, count: nat) -> Result<Seq<u64>, LoadError> {
    if !(doc matches Json::Object(members) && members.contains_key("values"@)) {
        Err(LoadError::MissingValues)
    } else {
        match doc->Object_0["values"@] {
            Json::Array(items) => {
                if items.len() != count {
                    Err(LoadError::WrongCount)
                } else if !all_numbers(items) {
                    Err(LoadError::NotANumber)
                } else {
                    Ok(number_bits(items))
                }
            },
            _ => Err(LoadError::NotAnArray),
        }
    }
}

/// What loading `count` values from `text` gives: `Malformed` where the
/// parser rejects the text, else what its document gives.
pub open spec fn loaded(text: Seq<char>, count: nat) -> Result<Seq<u64>, LoadError> {
    match parsed(text) {
        Some(doc) => values_of(doc, count),
        None => Err(LoadError::Malformed),
    }
}

/// Whether an outcome `r` is the outcome `expected`, the values compared
/// by their view.
pub open spec fn is_outcome(r: Result<Vec<u64>, LoadError>, expected: Result<Seq<u64>, LoadError>) -> bool {
    match r {
        Ok(values) => expected == Ok::<Seq<u64>, LoadError>(values@),
        Err(e) => expected == Err::<Seq<u64>, LoadError>(e),
    }
}

/// Reads the `count` numbers under `values` from a parsed document, each as
/// the bit pattern of its double-precision reading.
pub fn read_values(doc: &Value, count: usize) -> (r: Result<Vec<u64>, LoadError>)
    ensures
        is_outcome(r, values_of(content(*doc), count as nat)),
{
    let values = match member(doc, "values") {
        Some(found) => found,
        None => {
            return Err(LoadError::MissingValues);
        },
    };
    let list = match entries(values) {
        Some(list) => list,
        None => {
            return Err(LoadError::NotAnArray);
        },
    };
    if list.len() != count {
        return Err(LoadError::WrongCount);
    }
    let ghost items = content(*values)->Array_0;
    let mut out: Vec<u64> = Vec::with_capacity(count);
    let mut i: usize = 0;
    while i < count
        invariant
            i <= count,
            list@.len() == count,
            items.len() == count,
            content(*doc) is Object,
            content(*doc)->Object_0.contains_key("values"@),
            content(*doc)->Object_0["values"@] == Json::Array(items),
            forall|k: int| 0 <= k < items.len() ==> content(#[trigger] list@[k]) == items[k],
            out@.len() == i,
            forall|k: int| 0 <= k < i ==> items[k] == Json::Number(#[trigger] out@[k]),
        decreases count - i,
    {
        match number(&list[i]) {
            Some(bits) => {
                out.push(bits);
            },
            None => {
                assert(content(list@[i as int]) == items[i as int]);
                assert(!all_numbers(items));
                return Err(LoadError::NotANumber);
            },
        }
        i = i + 1;
    }
    assert(all_numbers(items)) by {
        assert forall|k: int| 0 <= k < items.len() implies #[trigger] items[k] is Number by {
            assert(items[k] == Json::Number(out@[k]));
        }
    }
    assert(out@ =~= number_bits(items));
    Ok(out)
}

/// Loads the `count` numbers under `values` from the text of a document.
pub fn load_values(text: &str, count: usize) -> (r: Result<Vec<u64>, LoadError>)
    ensures
        is_outcome(r, loaded(text@, count as nat)),
{
    match parse(text) {
        Ok(doc) => read_values(&doc, count),
        Err(_) => Err(LoadError::Malformed),
    }
}

} // verus!
