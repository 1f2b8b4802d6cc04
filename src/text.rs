//! Fixed-width text fields: lossy decoding and trimming at the first NUL.

use vstd::prelude::*;
use vstd::string::*;
use vstd::utf8::{decode_utf8, valid_utf8};

verus! {

/// The text of `s` up to, not including, its first NUL character.
pub open spec fn trim_nul(s: Seq<char>) -> Seq<char>
    decreases s.len(),
{
    if s.len() == 0 {
        s
    } else if s[0] == '\0' {
        Seq::empty()
    } else {
        seq![s[0]] + trim_nul(s.drop_first())
    }
}

/// A prefix that holds no NUL and ends at a NUL or at the end of `s` is what
/// `trim_nul` keeps.
pub proof fn lemma_trim_nul_prefix(s: Seq<char>, k: int)
    requires
        0 <= k <= s.len(),
        forall|j: int| 0 <= j < k ==> s[j] != '\0',
        k == s.len() || s[k] == '\0',
    ensures
        trim_nul(s) == s.take(k),
    decreases k,
{
    if k == 0 {
        if s.len() == 0 {
            assert(s.take(0) =~= s);
        } else {
            assert(s.take(0) =~= Seq::<char>::empty());
        }
    } else {
        let t = s.drop_first();
        assert forall|j: int| 0 <= j < k - 1 implies t[j] != '\0' by {
            assert(t[j] == s[j + 1]);
        }
        if k < s.len() {
            assert(t[k - 1] == s[k]);
        }
        lemma_trim_nul_prefix(t, k - 1);
        assert(seq![s[0]] + t.take(k - 1) =~= s.take(k));
    }
}

/// Returns the characters of `s` that come before its first NUL.
pub fn trim_after_null(s: &str) -> (r: String)
    ensures
        r@ == trim_nul(s@),
{
    let n = s.unicode_len();
    let mut k: usize = 0;
    for ch in it: s.chars()
        invariant_except_break
            k == it.index(),
        invariant
            it.seq() == s@,
            n == s@.len(),
            forall|j: int| 0 <= j < k ==> s@[j] != '\0',
        ensures
            k <= n,
            forall|j: int| 0 <= j < k ==> s@[j] != '\0',
            k == n || s@[k as int] == '\0',
    {
        if ch == '\0' {
            break;
        }
        k = k + 1;
    }
    proof {
        lemma_trim_nul_prefix(s@, k as int);
    }
    String::from_str(s.substring_char(0, k))
}

/// The text that a lossy UTF-8 decoding gives for `bytes`: each invalid
/// sequence stands replaced by U+FFFD.
pub uninterp spec fn utf8_lossy(bytes: Seq<u8>) -> Seq<char>;

/// Relies on `String::from_utf8_lossy`: it never fails, its result depends on
/// the bytes alone, and valid UTF-8 comes back decoded as it is.
#[verifier::external_body]
fn decode_lossy(bytes: &[u8]) -> (r: String)
    ensures
        r@ == utf8_lossy(bytes@),
        valid_utf8(bytes@) ==> r@ == decode_utf8(bytes@),
{
    String::from_utf8_lossy(bytes).into_owned()
}

/// Decodes `bytes[read_pos .. read_pos + read_len]` as lossy UTF-8 and keeps
/// what comes before the first NUL.
pub fn bytes_to_string(bytes: &[u8], read_pos: usize, read_len: usize) -> (r: String)
    requires
        read_pos + read_len <= bytes@.len(),
    ensures
        r@ == trim_nul(utf8_lossy(bytes@.subrange(read_pos as int, read_pos + read_len))),
        valid_utf8(bytes@.subrange(read_pos as int, read_pos + read_len)) ==> r@ == trim_nul(
            decode_utf8(bytes@.subrange(read_pos as int, read_pos + read_len)),
        ),
{
    let available = bytes.len();
    assert(read_pos + read_len <= available);
    let chunk = &bytes[read_pos..read_pos + read_len];
    let tmp = decode_lossy(chunk);
    trim_after_null(tmp.as_str())
}

} // verus!
