//! Text normalization for output captured from the external tool: trimming
//! surrounding whitespace and decoding raw bytes into display text.

use vstd::prelude::*;
use vstd::slice::{slice_index_get, slice_subrange, slice_to_vec};
use vstd::string::*;

verus! {

/// The whitespace bytes stripped from captured output: space, tab, line feed
/// and carriage return.
pub open spec fn is_space_byte(b: u8) -> bool {
    b == 32 || b == 9 || b == 10 || b == 13
}

/// The whitespace characters stripped from entered text; the same set as
/// [`is_space_byte`].
pub open spec fn is_space_char(c: char) -> bool {
    c == ' ' || c == '\t' || c == '\n' || c == '\r'
}

/// `s` without its leading and trailing whitespace bytes.
pub open spec fn trimmed_bytes(s: Seq<u8>) -> Seq<u8>
    decreases s.len(),
{
    if s.len() == 0 {
        s
    } else if is_space_byte(s[0]) {
        trimmed_bytes(s.subrange(1, s.len() as int))
    } else if is_space_byte(s[s.len() - 1]) {
        trimmed_bytes(s.subrange(0, s.len() - 1))
    } else {
        s
    }
}

/// `s` without its leading and trailing whitespace characters.
pub open spec fn trimmed_chars(s: Seq<char>) -> Seq<char>
    decreases s.len(),
{
    if s.len() == 0 {
        s
    } else if is_space_char(s[0]) {
        trimmed_chars(s.subrange(1, s.len() as int))
    } else if is_space_char(s[s.len() - 1]) {
        trimmed_chars(s.subrange(0, s.len() - 1))
    } else {
        s
    }
}

proof fn lemma_trimmed_bytes_all_space(s: Seq<u8>)
    requires
        forall|i: int| 0 <= i < s.len() ==> is_space_byte(s[i]),
    ensures
        trimmed_bytes(s).len() == 0,
    decreases s.len(),
{
    if s.len() > 0 {
        lemma_trimmed_bytes_all_space(s.subrange(1, s.len() as int));
    }
}

/// Trimming is exactly cutting at the first and last non-whitespace bytes.
proof fn lemma_trimmed_bytes_range(s: Seq<u8>, lo: int, hi: int)
    requires
        0 <= lo <= hi <= s.len(),
        forall|i: int| 0 <= i < lo ==> is_space_byte(s[i]),
        forall|i: int| hi <= i < s.len() ==> is_space_byte(s[i]),
        lo < hi ==> !is_space_byte(s[lo]) && !is_space_byte(s[hi - 1]),
    ensures
        trimmed_bytes(s) == s.subrange(lo, hi),
    decreases s.len(),
{
    if lo == hi {
        lemma_trimmed_bytes_all_space(s);
        assert(trimmed_bytes(s) =~= s.subrange(lo, hi));
    } else if lo > 0 {
        let tail = s.subrange(1, s.len() as int);
        lemma_trimmed_bytes_range(tail, lo - 1, hi - 1);
        assert(tail.subrange(lo - 1, hi - 1) =~= s.subrange(lo, hi));
    } else if hi < s.len() {
        let init = s.subrange(0, s.len() - 1);
        lemma_trimmed_bytes_range(init, lo, hi);
        assert(init.subrange(lo, hi) =~= s.subrange(lo, hi));
    } else {
        assert(trimmed_bytes(s) =~= s.subrange(lo, hi));
    }
}

/// The trim of a character sequence is empty exactly when every character is
/// whitespace.
pub proof fn lemma_trimmed_chars_empty(s: Seq<char>)
    ensures
        trimmed_chars(s).len() == 0 <==> (forall|i: int| 0 <= i < s.len() ==> is_space_char(
            s[i],
        )),
    decreases s.len(),
{
    if s.len() > 0 {
        if is_space_char(s[0]) {
            let tail = s.subrange(1, s.len() as int);
            lemma_trimmed_chars_empty(tail);
            if forall|j: int| 0 <= j < tail.len() ==> is_space_char(tail[j]) {
                assert forall|i: int| 0 <= i < s.len() implies is_space_char(s[i]) by {
                    if i > 0 {
                        assert(is_space_char(tail[i - 1]));
                    }
                }
            } else {
                let j = choose|j: int| 0 <= j < tail.len() && !is_space_char(tail[j]);
                assert(!is_space_char(s[j + 1]));
            }
        } else if is_space_char(s[s.len() - 1]) {
            let init = s.subrange(0, s.len() - 1);
            lemma_trimmed_chars_empty(init);
            assert(!is_space_char(init[0]));
        } else {
            assert(!is_space_char(s[0]));
        }
    }
}

fn byte_is_space(b: u8) -> (r: bool)
    ensures
        r == is_space_byte(b),
{
    b == 32 || b == 9 || b == 10 || b == 13
}

/// `s` without its leading and trailing whitespace bytes.
pub fn trim_bytes(s: &[u8]) -> (r: Vec<u8>)
    ensures
        r@ == trimmed_bytes(s@),
{
    let len: usize = s.len();
    let mut lo: usize = 0;
    while lo < len
        invariant
            0 <= lo <= len,
            len == s@.len(),
            forall|i: int| 0 <= i < lo ==> is_space_byte(s@[i]),
        ensures
            0 <= lo <= len,
            forall|i: int| 0 <= i < lo ==> is_space_byte(s@[i]),
            lo < len ==> !is_space_byte(s@[lo as int]),
        decreases len - lo,
    {
        if byte_is_space(*slice_index_get(s, lo)) {
            lo += 1;
        } else {
            break ;
        }
    }
    let mut hi: usize = len;
    while hi > lo
        invariant
            lo <= hi <= len,
            len == s@.len(),
            forall|i: int| hi <= i < len ==> is_space_byte(s@[i]),
        ensures
            lo <= hi <= len,
            forall|i: int| hi <= i < len ==> is_space_byte(s@[i]),
            lo < hi ==> !is_space_byte(s@[hi - 1]),
        decreases hi,
    {
        if byte_is_space(*slice_index_get(s, hi - 1)) {
            hi -= 1;
        } else {
            break ;
        }
    }
    proof {
        lemma_trimmed_bytes_range(s@, lo as int, hi as int);
    }
    slice_to_vec(slice_subrange(s, lo, hi))
}

/// Whether `s` is empty or all whitespace, the texts rejected as entry
/// descriptions.
pub fn str_is_blank(s: &str) -> (r: bool)
    ensures
        r == (trimmed_chars(s@).len() == 0),
{
    let len: usize = s.unicode_len();
    let mut i: usize = 0;
    while i < len
        invariant
            0 <= i <= len,
            len == s@.len(),
            forall|j: int| 0 <= j < i ==> is_space_char(s@[j]),
        decreases len - i,
    {
        let c = s.get_char(i);
        if !(c == ' ' || c == '\t' || c == '\n' || c == '\r') {
            proof {
                lemma_trimmed_chars_empty(s@);
            }
            return false;
        }
        i += 1;
    }
    proof {
        lemma_trimmed_chars_empty(s@);
    }
    true
}

/// What `String::from_utf8_lossy` yields for a byte sequence: its text under
/// UTF-8 decoding, with each invalid sequence replaced.
pub uninterp spec fn lossy_decoded(b: Seq<u8>) -> Seq<char>;

/// Relies on `String::from_utf8_lossy`: the decoding of a byte sequence
/// depends on the bytes alone.
#[verifier::external_body]
pub fn lossy_decode(b: &[u8]) -> (r: String)
    ensures
        r@ == lossy_decoded(b@),
{
    String::from_utf8_lossy(b).into_owned()
}

} // verus!
