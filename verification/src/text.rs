//! Small operations on text.

use vstd::prelude::*;

verus! {

/// `String::push`: appends `c` to `s`.
#[verifier::external_body]
pub(crate) fn push_char(s: &mut String, c: char)
    ensures
        final(s)@ == old(s)@.push(c),
{
    s.push(c)
}

/// `suffix` ends `s`.
pub open spec fn has_suffix(s: Seq<char>, suffix: Seq<char>) -> bool {
    suffix.len() <= s.len() && s.subrange(s.len() - suffix.len(), s.len() as int) == suffix
}

/// `suffix` ends `s` exactly when it is no longer than `s` and each of its
/// characters is the one at the same place among the last characters of
/// `s`.
pub proof fn lemma_has_suffix_pointwise(s: Seq<char>, suffix: Seq<char>)
    ensures
        has_suffix(s, suffix) <==> (suffix.len() <= s.len() && forall|i: int|
            0 <= i < suffix.len() ==> #[trigger] s[s.len() - suffix.len() + i] == suffix[i]),
{
    if suffix.len() <= s.len() {
        let tail = s.subrange(s.len() - suffix.len(), s.len() as int);
        if forall|i: int| 0 <= i < suffix.len() ==> #[trigger] s[s.len() - suffix.len() + i] == suffix[i] {
            assert forall|i: int| 0 <= i < suffix.len() implies tail[i] == suffix[i] by {
                assert(s[s.len() - suffix.len() + i] == suffix[i]);
            }
            assert(tail =~= suffix);
        }
        if tail == suffix {
            assert forall|i: int| 0 <= i < suffix.len() implies #[trigger] s[s.len() - suffix.len() + i]
                == suffix[i] by {
                assert(tail[i] == suffix[i]);
            }
        }
    }
}

/// Whether `s` ends with `suffix`.
pub fn ends_with(s: &str, suffix: &str) -> (r: bool)
    ensures
        r == has_suffix(s@, suffix@),
        r <==> (suffix@.len() <= s@.len() && forall|i: int|
            0 <= i < suffix@.len() ==> #[trigger] s@[s@.len() - suffix@.len() + i] == suffix@[i]),
{
    proof {
        lemma_has_suffix_pointwise(s@, suffix@);
    }
    let n = s.unicode_len();
    let m = suffix.unicode_len();
    if m > n {
        return false;
    }
    let start = n - m;
    let mut i: usize = 0;
    while i < m
        invariant
            n == s@.len(),
            m == suffix@.len(),
            start == n - m,
            i <= m,
            forall|j: int| 0 <= j < i ==> s@[start + j] == suffix@[j],
        decreases m - i,
    {
        if s.get_char(start + i) != suffix.get_char(i) {
            assert(s@.subrange(start as int, n as int)[i as int] != suffix@[i as int]);
            return false;
        }
        i = i + 1;
    }
    assert(s@.subrange(start as int, n as int) =~= suffix@);
    true
}

/// The concatenation of three strings.
pub fn concat3(a: &str, b: &str, c: &str) -> (r: String)
    ensures
        r@ == a@ + b@ + c@,
{
    let mut s = a.to_owned();
    s.append(b);
    s.append(c);
    s
}

/// The concatenation of four strings.
pub fn concat4(a: &str, b: &str, c: &str, d: &str) -> (r: String)
    ensures
        r@ == a@ + b@ + c@ + d@,
{
    let mut s = concat3(a, b, c);
    s.append(d);
    s
}

/// The concatenation of five strings.
pub fn concat5(a: &str, b: &str, c: &str, d: &str, e: &str) -> (r: String)
    ensures
        r@ == a@ + b@ + c@ + d@ + e@,
{
    let mut s = concat4(a, b, c, d);
    s.append(e);
    s
}

} // verus!
