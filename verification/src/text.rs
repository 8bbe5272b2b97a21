//! Work on captured text: cutting a stream down to a size and comparing an
//! actual output with the expected one.

use vstd::prelude::*;
use vstd::slice::*;
use vstd::string::*;
use vstd::utf8::*;

verus! {

/// How an actual output is held against the expected one. A deployment
/// picks one policy and uses it for every test case.
#[derive(Debug, Clone, Copy, PartialEq, Eq, Structural)]
pub enum ComparisonPolicy {
    /// The two outputs are the same bytes.
    Exact,
    /// The two outputs are the same bytes once the blank bytes at the end
    /// of each are left off.
    IgnoreTrailingWhitespace,
}

/// The place at which a text of these bytes is cut so that at most `cap`
/// bytes stay and no character is split: the last character boundary that
/// is not behind `cap`.
pub open spec fn cut_point(bytes: Seq<u8>, cap: int) -> int
    decreases cap,
{
    if cap >= bytes.len() {
        bytes.len() as int
    } else if cap <= 0 {
        0
    } else if is_char_boundary(bytes, cap) {
        cap
    } else {
        cut_point(bytes, cap - 1)
    }
}

/// The longest prefix of `text` that has whole characters only and takes
/// at most `cap` bytes in UTF-8.
pub open spec fn truncated(text: Seq<char>, cap: nat) -> Seq<char> {
    let bytes = encode_utf8(text);
    decode_utf8(bytes.subrange(0, cut_point(bytes, cap as int)))
}

/// The blank bytes: space, tab, line feed, form feed, carriage return.
pub open spec fn is_blank(b: u8) -> bool {
    b == 32 || b == 9 || b == 10 || b == 12 || b == 13
}

/// The length of `bytes` without the blank bytes at its end.
pub open spec fn trimmed_len(bytes: Seq<u8>) -> nat
    decreases bytes.len(),
{
    if bytes.len() == 0 {
        0
    } else if is_blank(bytes.last()) {
        trimmed_len(bytes.drop_last())
    } else {
        bytes.len()
    }
}

/// `bytes` without the blank bytes at its end.
pub open spec fn trim_end(bytes: Seq<u8>) -> Seq<u8> {
    bytes.take(trimmed_len(bytes) as int)
}

/// Whether an actual output passes for the expected one under a policy.
pub open spec fn outputs_agree(
    actual: Seq<char>,
    expected: Seq<char>,
    policy: ComparisonPolicy,
) -> bool {
    match policy {
        ComparisonPolicy::Exact => actual == expected,
        ComparisonPolicy::IgnoreTrailingWhitespace => trim_end(encode_utf8(actual)) == trim_end(
            encode_utf8(expected),
        ),
    }
}

/// A cut never lengthens a text: the cut point lies within the bytes and
/// not behind the cap.
pub proof fn lemma_cut_point_bounds(bytes: Seq<u8>, cap: int)
    requires
        cap >= 0,
    ensures
        0 <= cut_point(bytes, cap) <= bytes.len(),
        cut_point(bytes, cap) <= cap,
    decreases cap,
{
    if cap < bytes.len() && cap > 0 && !is_char_boundary(bytes, cap) {
        lemma_cut_point_bounds(bytes, cap - 1);
    }
}

/// The trimmed length is within the bytes; the byte before it is not blank
/// and every byte from it on is.
pub proof fn lemma_trimmed_len(bytes: Seq<u8>)
    ensures
        trimmed_len(bytes) <= bytes.len(),
        trimmed_len(bytes) > 0 ==> !is_blank(bytes[trimmed_len(bytes) - 1]),
        forall|i: int| trimmed_len(bytes) <= i < bytes.len() ==> is_blank(#[trigger] bytes[i]),
    decreases bytes.len(),
{
    if bytes.len() > 0 && is_blank(bytes.last()) {
        let front = bytes.drop_last();
        lemma_trimmed_len(front);
        assert forall|i: int| trimmed_len(bytes) <= i < bytes.len() implies is_blank(
            #[trigger] bytes[i],
        ) by {
            if i < front.len() {
                assert(bytes[i] == front[i]);
            }
        }
    }
}

/// Two texts with the same UTF-8 bytes are the same text.
pub proof fn lemma_same_bytes_same_text(a: Seq<char>, b: Seq<char>)
    requires
        encode_utf8(a) == encode_utf8(b),
    ensures
        a == b,
{
    encode_utf8_decode_utf8(a);
    encode_utf8_decode_utf8(b);
}

/// Returns the longest prefix of `text` that takes at most `cap` bytes and
/// splits no character. A text within the cap comes back whole.
pub fn truncate_text(text: &str, cap: usize) -> (cut: String)
    ensures
        cut@ == truncated(text@, cap as nat),
        encode_utf8(cut@).len() <= cap,
        text.spec_bytes().len() <= cap ==> cut@ == text@,
{
    let ghost bytes = text.spec_bytes();
    proof {
        encode_utf8_valid_utf8(text@);
        encode_utf8_decode_utf8(text@);
        is_char_boundary_start_end_of_seq(bytes);
        lemma_cut_point_bounds(bytes, cap as int);
    }
    if text.as_bytes().len() <= cap {
        assert(bytes.subrange(0, bytes.len() as int) =~= bytes);
        return text.to_owned();
    }
    let mut at: usize = cap;
    while !text.is_char_boundary(at)
        invariant
            bytes == text.spec_bytes(),
            valid_utf8(bytes),
            is_char_boundary(bytes, 0),
            at <= cap < bytes.len(),
            cut_point(bytes, cap as int) == cut_point(bytes, at as int),
        decreases at,
    {
        at = at - 1;
    }
    let (head, _) = text.split_at(at);
    proof {
        encode_utf8_decode_utf8(head@);
        assert(head.spec_bytes() == bytes.subrange(0, at as int));
    }
    head.to_owned()
}

/// Returns the length of `bytes` without the blank bytes at its end.
pub fn trimmed_length(bytes: &[u8]) -> (len: usize)
    ensures
        len == trimmed_len(bytes@),
{
    let mut len: usize = bytes.len();
    assert(bytes@.take(len as int) =~= bytes@);
    while len > 0 && (bytes[len - 1] == 32 || bytes[len - 1] == 9 || bytes[len - 1] == 10
        || bytes[len - 1] == 12 || bytes[len - 1] == 13)
        invariant
            len <= bytes@.len(),
            trimmed_len(bytes@) == trimmed_len(bytes@.take(len as int)),
        decreases len,
    {
        proof {
            let seen = bytes@.take(len as int);
            assert(seen.last() == bytes@[len - 1]);
            assert(seen.drop_last() =~= bytes@.take(len - 1));
        }
        len = len - 1;
    }
    proof {
        let seen = bytes@.take(len as int);
        if len > 0 {
            assert(seen.last() == bytes@[len - 1]);
        }
        if len == bytes@.len() {
            assert(seen =~= bytes@);
        }
    }
    len
}

/// Returns whether the first `len` bytes of `a` and of `b` are the same.
pub fn same_prefix(a: &[u8], b: &[u8], len: usize) -> (same: bool)
    requires
        len <= a@.len(),
        len <= b@.len(),
    ensures
        same == (a@.take(len as int) == b@.take(len as int)),
{
    let mut i: usize = 0;
    while i < len
        invariant
            i <= len <= a@.len(),
            len <= b@.len(),
            a@.take(i as int) == b@.take(i as int),
        decreases len - i,
    {
        if a[i] != b[i] {
            proof {
                assert(a@.take(len as int)[i as int] != b@.take(len as int)[i as int]);
            }
            return false;
        }
        proof {
            assert(a@.take(i + 1) =~= a@.take(i as int).push(a@[i as int]));
            assert(b@.take(i + 1) =~= b@.take(i as int).push(b@[i as int]));
        }
        i = i + 1;
    }
    true
}

/// Returns whether `actual` passes for `expected` under `policy`.
pub fn outputs_match(actual: &str, expected: &str, policy: ComparisonPolicy) -> (agree: bool)
    ensures
        agree == outputs_agree(actual@, expected@, policy),
{
    let a = actual.as_bytes();
    let e = expected.as_bytes();
    match policy {
        ComparisonPolicy::Exact => {
            if a.len() != e.len() {
                return false;
            }
            let same = same_prefix(a, e, a.len());
            proof {
                assert(a@.take(a@.len() as int) =~= a@);
                assert(e@.take(e@.len() as int) =~= e@);
                if same {
                    lemma_same_bytes_same_text(actual@, expected@);
                }
            }
            same
        },
        ComparisonPolicy::IgnoreTrailingWhitespace => {
            let kept = trimmed_length(a);
            if kept != trimmed_length(e) {
                proof {
                    lemma_trimmed_len(a@);
                    lemma_trimmed_len(e@);
                    assert(trim_end(a@).len() != trim_end(e@).len());
                }
                return false;
            }
            proof {
                lemma_trimmed_len(a@);
                lemma_trimmed_len(e@);
            }
            same_prefix(a, e, kept)
        },
    }
}

} // verus!
