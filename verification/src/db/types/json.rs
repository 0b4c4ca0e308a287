//! JSON values as this library sees them: opaque, and read through the
//! accessors of the JSON crate.

use vstd::prelude::*;

verus! {

/// A JSON value of the JSON crate.
#[verifier::external_type_specification]
#[verifier::external_body]
pub struct ExJson(serde_json::Value);

/// The items of a JSON array, or `None` for a value that is no array:
/// what `Value::as_array` gives.
pub uninterp spec fn json_items(v: serde_json::Value) -> Option<Seq<serde_json::Value>>;

/// The text of a JSON string, or `None` for a value that is no string:
/// what `Value::as_str` gives.
pub uninterp spec fn json_text(v: serde_json::Value) -> Option<Seq<char>>;

/// The texts that a JSON value reads as where a list of texts is
/// expected: the texts of its items, in their order, where it is an
/// array and every item is a string, and `None` for any other value.
pub open spec fn json_text_list(v: serde_json::Value) -> Option<Seq<Seq<char>>> {
    match json_items(v) {
        Some(items) => if forall|i: int| 0 <= i < items.len() ==> json_text(#[trigger] items[i]) is Some {
            Some(Seq::new(items.len(), |i: int| json_text(items[i])->0))
        } else {
            None
        },
        None => None,
    }
}

/// `Value::as_array`: the items of an array, `None` for any other value.
pub assume_specification[ serde_json::Value::as_array ](v: &serde_json::Value) -> (r: Option<
    &Vec<serde_json::Value>,
>)
    ensures
        match r {
            Some(items) => json_items(*v) == Some(items@),
            None => json_items(*v) is None,
        },
;

/// `Value::as_str`: the text of a string, `None` for any other value.
pub assume_specification[ serde_json::Value::as_str ](v: &serde_json::Value) -> (r: Option<&str>)
    ensures
        match r {
            Some(text) => json_text(*v) == Some(text@),
            None => json_text(*v) is None,
        },
;

/// The variant `Value::String`: a JSON string of the given text, which
/// is no array.
#[verifier::external_body]
pub(crate) fn json_string(text: String) -> (v: serde_json::Value)
    ensures
        json_text(v) == Some(text@),
        json_items(v) is None,
{
    serde_json::Value::String(text)
}

/// The variant `Value::Array`: a JSON array of the given items, which is
/// no string.
#[verifier::external_body]
pub(crate) fn json_array(items: Vec<serde_json::Value>) -> (v: serde_json::Value)
    ensures
        json_items(v) == Some(items@),
        json_text(v) is None,
{
    serde_json::Value::Array(items)
}

/// `serde_json::from_value::<Vec<String>>`: an array whose items are
/// all strings reads as the list of their texts, and nothing else reads
/// as a list of texts.
#[verifier::external_body]
pub(crate) fn json_to_text_list(v: serde_json::Value) -> (r: Option<Vec<String>>)
    ensures
        match r {
            Some(list) => json_text_list(v) == Some(list.deep_view()),
            None => json_text_list(v) is None,
        },
{
    serde_json::from_value::<Vec<String>>(v).ok()
}

/// The texts among the items: every item that is a JSON string gives its
/// text, in the order of the items, and every other item gives nothing.
pub open spec fn texts_of(items: Seq<serde_json::Value>) -> Seq<Seq<char>>
    decreases items.len(),
{
    if items.len() == 0 {
        Seq::empty()
    } else {
        match json_text(items.last()) {
            Some(text) => texts_of(items.drop_last()).push(text),
            None => texts_of(items.drop_last()),
        }
    }
}

/// The texts of a JSON value: those among its items where it is an
/// array, and none where it is not.
pub open spec fn texts_in(v: serde_json::Value) -> Seq<Seq<char>> {
    match json_items(v) {
        Some(items) => texts_of(items),
        None => Seq::empty(),
    }
}

/// True where `v` is the JSON array of the JSON strings of `texts`, in
/// their order.
pub open spec fn is_text_array(v: serde_json::Value, texts: Seq<Seq<char>>) -> bool {
    &&& json_items(v) is Some
    &&& json_items(v)->0.len() == texts.len()
    &&& forall|i: int|
        0 <= i < texts.len() ==> json_text(#[trigger] json_items(v)->0[i]) == Some(texts[i])
}

/// Reads the texts of a JSON value: the strings among the items of an
/// array, and nothing from any other value.
pub fn texts(v: &serde_json::Value) -> (out: Vec<String>)
    ensures
        out.deep_view() == texts_in(*v),
{
    let mut out: Vec<String> = Vec::new();
    match v.as_array() {
        Some(items) => {
            let mut i: usize = 0;
            while i < items.len()
                invariant
                    i <= items.len(),
                    out.deep_view() == texts_of(items@.take(i as int)),
                decreases items.len() - i,
            {
                assert(items@.take(i + 1).drop_last() =~= items@.take(i as int));
                match items[i].as_str() {
                    Some(text) => {
                        out.push(String::from_str(text));
                    },
                    None => {},
                }
                i = i + 1;
            }
            assert(items@.take(items.len() as int) =~= items@);
        },
        None => {},
    }
    out
}

/// Writes texts as the JSON array of their JSON strings.
pub fn text_array(texts: Vec<String>) -> (v: serde_json::Value)
    ensures
        is_text_array(v, texts.deep_view()),
{
    let mut items: Vec<serde_json::Value> = Vec::new();
    let mut i: usize = 0;
    while i < texts.len()
        invariant
            i <= texts.len(),
            items@.len() == i,
            forall|j: int| 0 <= j < i ==> json_text(#[trigger] items@[j]) == Some(texts@[j]@),
        decreases texts.len() - i,
    {
        items.push(json_string(texts[i].clone()));
        i = i + 1;
    }
    json_array(items)
}

/// Texts that were written as a JSON array read back as they were.
pub proof fn lemma_text_array_round_trip(v: serde_json::Value, texts: Seq<Seq<char>>)
    requires
        is_text_array(v, texts),
    ensures
        texts_in(v) == texts,
{
    let items = json_items(v)->0;
    lemma_texts_of_strings(items, texts);
}

/// Texts that were written as a JSON array read as a list of texts, and
/// as the very texts.
pub proof fn lemma_text_array_reads_as_list(v: serde_json::Value, texts: Seq<Seq<char>>)
    requires
        is_text_array(v, texts),
    ensures
        json_text_list(v) == Some(texts),
{
    let items = json_items(v)->0;
    assert(Seq::new(items.len(), |i: int| json_text(items[i])->0) =~= texts);
}

/// The texts among items that are all JSON strings are the texts of
/// the items.
pub proof fn lemma_texts_of_strings(items: Seq<serde_json::Value>, texts: Seq<Seq<char>>)
    requires
        items.len() == texts.len(),
        forall|i: int| 0 <= i < texts.len() ==> json_text(#[trigger] items[i]) == Some(texts[i]),
    ensures
        texts_of(items) == texts,
    decreases items.len(),
{
    if items.len() > 0 {
        lemma_texts_of_strings(items.drop_last(), texts.drop_last());
    }
}

} // verus!
