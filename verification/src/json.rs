//! The pieces of JSON text that the isolation document is put together
//! from: quoted strings, decimal numbers, and arrays.

use vstd::prelude::*;
use vstd::string::*;
use crate::texts::text_views;

verus! {

/// The JSON string literal for `text` as `serde_json` writes it: the text
/// between double quotes, with the characters escaped that JSON does not
/// take as they are.
pub uninterp spec fn json_quoted(text: Seq<char>) -> Seq<char>;

/// Writes `text` as a JSON string literal, by displaying a
/// `serde_json::Value::String`. The result is the literal that `serde_json`
/// gives for this text, and depends on the text alone.
#[verifier::external_body]
pub(crate) fn quote(text: &str) -> (literal: String)
    ensures
        literal@ == json_quoted(text@),
{
    serde_json::Value::String(text.to_owned()).to_string()
}

/// The text of a decimal digit.
pub open spec fn digit_text(d: nat) -> Seq<char>
    recommends
        d < 10,
{
    if d == 0 {
        "0"@
    } else if d == 1 {
        "1"@
    } else if d == 2 {
        "2"@
    } else if d == 3 {
        "3"@
    } else if d == 4 {
        "4"@
    } else if d == 5 {
        "5"@
    } else if d == 6 {
        "6"@
    } else if d == 7 {
        "7"@
    } else if d == 8 {
        "8"@
    } else {
        "9"@
    }
}

/// A natural number in decimal digits, without leading zeros.
pub open spec fn decimal_text(n: nat) -> Seq<char>
    decreases n,
{
    if n < 10 {
        digit_text(n)
    } else {
        decimal_text(n / 10) + digit_text(n % 10)
    }
}

/// The JSON literal of a truth value.
pub open spec fn bool_text(b: bool) -> Seq<char> {
    if b {
        "true"@
    } else {
        "false"@
    }
}

/// The parts in order, with a comma between each two.
pub open spec fn joined(parts: Seq<Seq<char>>) -> Seq<char>
    decreases parts.len(),
{
    if parts.len() == 0 {
        Seq::empty()
    } else if parts.len() == 1 {
        parts[0]
    } else {
        joined(parts.drop_last()) + ","@ + parts.last()
    }
}

/// The JSON array whose elements are the given texts.
pub open spec fn json_array(parts: Seq<Seq<char>>) -> Seq<char> {
    "["@ + joined(parts) + "]"@
}

/// The JSON string literals of the given texts.
pub open spec fn quoted_all(items: Seq<Seq<char>>) -> Seq<Seq<char>> {
    Seq::new(items.len(), |i: int| json_quoted(items[i]))
}

/// Returns the text of a decimal digit.
pub fn digit(d: u64) -> (text: &'static str)
    requires
        d < 10,
    ensures
        text@ == digit_text(d as nat),
{
    if d == 0 {
        "0"
    } else if d == 1 {
        "1"
    } else if d == 2 {
        "2"
    } else if d == 3 {
        "3"
    } else if d == 4 {
        "4"
    } else if d == 5 {
        "5"
    } else if d == 6 {
        "6"
    } else if d == 7 {
        "7"
    } else if d == 8 {
        "8"
    } else {
        "9"
    }
}

/// Returns `n` in decimal digits.
pub fn decimal(n: u64) -> (text: String)
    ensures
        text@ == decimal_text(n as nat),
    decreases n,
{
    if n < 10 {
        digit(n).to_string()
    } else {
        let mut text = decimal(n / 10);
        text.append(digit(n % 10));
        text
    }
}

/// Returns the JSON literal of a truth value.
pub fn bool_literal(b: bool) -> (text: &'static str)
    ensures
        text@ == bool_text(b),
{
    if b {
        "true"
    } else {
        "false"
    }
}

/// Returns the JSON array whose elements are `parts`, each of which is
/// taken to be JSON text already.
pub fn render_array(parts: &Vec<String>) -> (text: String)
    ensures
        text@ == json_array(text_views(parts@)),
{
    let ghost all = text_views(parts@);
    let mut text = "[".to_string();
    let mut i: usize = 0;
    while i < parts.len()
        invariant
            i <= parts@.len(),
            all == text_views(parts@),
            text@ == "["@ + joined(all.take(i as int)),
        decreases parts@.len() - i,
    {
        proof {
            let next = all.take(i + 1);
            assert(next.drop_last() =~= all.take(i as int));
            assert(next.last() == parts@[i as int]@);
            if i == 0 {
                assert(joined(all.take(0)) =~= Seq::<char>::empty());
                assert("["@ + joined(all.take(0)) + parts@[0]@ =~= "["@ + joined(next));
            } else {
                assert("["@ + joined(all.take(i as int)) + ","@ + parts@[i as int]@ =~= "["@
                    + joined(next));
            }
        }
        if i > 0 {
            text.append(",");
        }
        text.append(parts[i].as_str());
        i = i + 1;
    }
    assert(all.take(i as int) =~= all);
    text.append("]");
    text
}

/// Returns the JSON string literal of each of `items`, in order.
pub fn quote_all(items: &Vec<String>) -> (literals: Vec<String>)
    ensures
        text_views(literals@) == quoted_all(text_views(items@)),
{
    let mut literals: Vec<String> = Vec::new();
    let mut i: usize = 0;
    while i < items.len()
        invariant
            i <= items@.len(),
            literals@.len() == i,
            forall|k: int| 0 <= k < i ==> (#[trigger] literals@[k])@ == json_quoted(items@[k]@),
        decreases items@.len() - i,
    {
        literals.push(quote(items[i].as_str()));
        i = i + 1;
    }
    assert(text_views(literals@) =~= quoted_all(text_views(items@)));
    literals
}

} // verus!
