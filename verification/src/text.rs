use vstd::prelude::*;

use vstd::utf8::encode_utf8;

verus! {

/// The length of a text in UTF-8 bytes, which is what `str::len` counts.
pub open spec fn byte_len(s: Seq<char>) -> nat {
    encode_utf8(s).len()
}

/// A text has at least as many UTF-8 bytes as characters.
pub proof fn lemma_byte_len_at_least_len(s: Seq<char>)
    ensures
        byte_len(s) >= s.len(),
    decreases s.len(),
{
    if s.len() > 0 {
        lemma_byte_len_at_least_len(s.drop_first());
    }
}

/// `part` occurs in `text` at position `i`.
pub open spec fn occurs_at(text: Seq<char>, part: Seq<char>, i: int) -> bool {
    0 <= i && i + part.len() <= text.len() && text.subrange(i, i + part.len()) == part
}

/// `part` occurs somewhere in `text`.
pub open spec fn has_substring(text: Seq<char>, part: Seq<char>) -> bool {
    exists|i: int| occurs_at(text, part, i)
}

/// The characters of a text.
pub fn chars_of(s: &str) -> (r: Vec<char>)
    ensures
        r@ == s@,
{
    let n = s.unicode_len();
    let mut out: Vec<char> = Vec::new();
    let mut i: usize = 0;
    while i < n
        invariant
            n == s@.len(),
            i <= n,
            out@ == s@.take(i as int),
        decreases n - i,
    {
        out.push(s.get_char(i));
        i += 1;
        assert(out@ =~= s@.take(i as int));
    }
    assert(s@.take(n as int) =~= s@);
    out
}

/// Whether `part` occurs at position `i` of `text`.
fn matches_at(text: &Vec<char>, part: &Vec<char>, i: usize) -> (r: bool)
    requires
        i + part@.len() <= text@.len(),
    ensures
        r == occurs_at(text@, part@, i as int),
{
    let m = part.len();
    let mut j: usize = 0;
    while j < m
        invariant
            m == part@.len(),
            i + m <= text.len(),
            j <= m,
            forall|k: int| 0 <= k < j ==> text@[i + k] == part@[k],
        decreases m - j,
    {
        if text[i + j] != part[j] {
            assert(text@.subrange(i as int, i + m)[j as int] != part@[j as int]);
            return false;
        }
        j += 1;
    }
    assert(text@.subrange(i as int, i + m) =~= part@);
    true
}

/// Whether `part` occurs in `text`.
pub fn contains_text(text: &str, part: &str) -> (r: bool)
    ensures
        r == has_substring(text@, part@),
{
    let t = chars_of(text);
    let p = chars_of(part);
    let n = t.len();
    let m = p.len();
    if m > n {
        assert forall|i: int| !occurs_at(text@, part@, i) by {}
        return false;
    }
    let mut i: usize = 0;
    loop
        invariant
            t@ == text@,
            p@ == part@,
            n == t@.len(),
            m == p@.len(),
            m <= n,
            i <= n - m,
            forall|k: int| 0 <= k < i ==> !occurs_at(text@, part@, k),
        decreases n - m - i,
    {
        if matches_at(&t, &p, i) {
            assert(occurs_at(text@, part@, i as int));
            return true;
        }
        if i == n - m {
            assert forall|k: int| !occurs_at(text@, part@, k) by {
                if 0 <= k <= i {
                }
            }
            return false;
        }
        i += 1;
    }
}

} // verus!
