//! Reading what the host counted for a sandbox: a counter is a decimal
//! number in a text, as a control group's files hold it.

use vstd::prelude::*;
use vstd::slice::*;
use vstd::string::*;
use crate::text::{lemma_trimmed_len, trim_end, trimmed_length};

verus! {

/// Whether a byte is a decimal digit.
pub open spec fn is_digit(b: u8) -> bool {
    48 <= b <= 57
}

/// Every byte is a decimal digit.
pub open spec fn all_digits(bytes: Seq<u8>) -> bool {
    forall|i: int| 0 <= i < bytes.len() ==> is_digit(#[trigger] bytes[i])
}

/// The number that decimal digits stand for.
pub open spec fn decimal_value(digits: Seq<u8>) -> nat
    decreases digits.len(),
{
    if digits.len() == 0 {
        0
    } else {
        decimal_value(digits.drop_last()) * 10 + (digits.last() - 48) as nat
    }
}

/// The counter that a text holds: the text, without the blank bytes at its
/// end, is one or more decimal digits and the number fits 64 bits.
pub open spec fn counter_of(text: Seq<u8>) -> Option<u64> {
    let body = trim_end(text);
    if body.len() > 0 && all_digits(body) && decimal_value(body) <= u64::MAX {
        Some(decimal_value(body) as u64)
    } else {
        None
    }
}

/// The peak memory in kilobytes that a text holding a number of bytes
/// tells of, or zero where the text holds no counter.
pub open spec fn peak_kilobytes(text: Seq<u8>) -> u64 {
    match counter_of(text) {
        Some(bytes) => bytes / 1024,
        None => 0,
    }
}

/// More digits never stand for a smaller number.
pub proof fn lemma_decimal_value_grows(digits: Seq<u8>, n: int)
    requires
        0 <= n <= digits.len(),
        all_digits(digits),
    ensures
        decimal_value(digits.take(n)) <= decimal_value(digits),
    decreases digits.len() - n,
{
    if n < digits.len() {
        lemma_decimal_value_grows(digits, n + 1);
        assert(digits.take(n + 1).drop_last() =~= digits.take(n));
        assert(is_digit(digits[n]));
        assert(digits.take(n + 1).last() == digits[n]);
    } else {
        assert(digits.take(n) =~= digits);
    }
}

/// Returns the counter that a text holds, if it holds one.
pub fn parse_counter(text: &str) -> (counter: Option<u64>)
    ensures
        counter == counter_of(text.spec_bytes()),
{
    let bytes = text.as_bytes();
    let len = trimmed_length(bytes);
    let ghost body = trim_end(bytes@);
    proof {
        lemma_trimmed_len(bytes@);
    }
    if len == 0 {
        return None;
    }
    let mut value: u64 = 0;
    let mut i: usize = 0;
    while i < len
        invariant
            i <= len <= bytes@.len(),
            bytes@ == text.spec_bytes(),
            body == trim_end(bytes@),
            body == bytes@.take(len as int),
            all_digits(body.take(i as int)),
            value == decimal_value(body.take(i as int)),
        decreases len - i,
    {
        let b = bytes[i];
        let ghost next = body.take(i + 1);
        proof {
            assert(body[i as int] == b);
            assert(next.drop_last() =~= body.take(i as int));
            assert(next.last() == b);
            assert(decimal_value(next) == value * 10 + (b - 48) as nat);
        }
        if b < 48 || b > 57 {
            proof {
                assert(!is_digit(body[i as int]));
            }
            return None;
        }
        let d = (b - 48) as u64;
        if value > (u64::MAX - d) / 10 {
            proof {
                assert(decimal_value(next) > u64::MAX) by (nonlinear_arith)
                    requires
                        decimal_value(next) == value * 10 + d,
                        value > (u64::MAX - d) / 10,
                        d < 10,
                ;
                if all_digits(body) {
                    lemma_decimal_value_grows(body, i + 1);
                }
            }
            return None;
        }
        proof {
            assert(value * 10 + d <= u64::MAX) by (nonlinear_arith)
                requires
                    value <= (u64::MAX - d) / 10,
                    d < 10,
            ;
            assert forall|k: int| 0 <= k < next.len() implies is_digit(#[trigger] next[k]) by {
                if k < i {
                    assert(next[k] == body.take(i as int)[k]);
                }
            }
        }
        value = value * 10 + d;
        i = i + 1;
    }
    proof {
        assert(body.take(len as int) =~= body);
    }
    Some(value)
}

/// Returns the peak memory in kilobytes that `text` tells of, where `text`
/// holds a number of bytes, and zero where it holds no counter.
pub fn peak_memory_kb(text: &str) -> (kilobytes: u64)
    ensures
        kilobytes == peak_kilobytes(text.spec_bytes()),
{
    match parse_counter(text) {
        Some(bytes) => bytes / 1024,
        None => 0,
    }
}

} // verus!
