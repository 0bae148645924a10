//! ASCII case-insensitive comparison of names.

use vstd::prelude::*;

verus! {

/// The code of a character with ASCII upper-case letters mapped to lower
/// case; every other character keeps its code.
pub open spec fn ascii_lower_code(c: char) -> u32 {
    let u = c as u32;
    if 65 <= u && u <= 90 { (u + 32) as u32 } else { u }
}

/// Two character sequences are equal once ASCII letters are folded to lower
/// case.
pub open spec fn ascii_ci_eq(a: Seq<char>, b: Seq<char>) -> bool {
    a.len() == b.len() && forall|i: int| 0 <= i < a.len() ==> #[trigger] ascii_lower_code(a[i]) == ascii_lower_code(b[i])
}

fn lower_code(c: char) -> (r: u32)
    ensures
        r == ascii_lower_code(c),
{
    let u = c as u32;
    if 65 <= u && u <= 90 { u + 32 } else { u }
}

/// Whether two strings are equal when ASCII letters are compared without
/// regard to case.
pub fn eq_ignore_ascii_case(a: &str, b: &str) -> (r: bool)
    ensures
        r == ascii_ci_eq(a@, b@),
{
    let n = a.unicode_len();
    let m = b.unicode_len();
    if n != m {
        return false;
    }
    let mut i: usize = 0;
    while i < n
        invariant
            n == a@.len(),
            m == b@.len(),
            n == m,
            i <= n,
            forall|j: int| 0 <= j < i ==> #[trigger] ascii_lower_code(a@[j]) == ascii_lower_code(b@[j]),
        decreases n - i,
    {
        if lower_code(a.get_char(i)) != lower_code(b.get_char(i)) {
            return false;
        }
        i = i + 1;
    }
    true
}

/// Comparing without regard to ASCII case: an upper-case ASCII letter
/// matches its lower-case form, any other character matches only itself,
/// and the comparison is an equivalence.
pub proof fn lemma_ascii_case_folding(a: char, b: char, s: Seq<char>, t: Seq<char>, u: Seq<char>)
    ensures
        65 <= (a as u32) <= 90 && (b as u32) == (a as u32) + 32 ==> ascii_lower_code(a) == ascii_lower_code(b),
        !(65 <= (a as u32) <= 90) && !(65 <= (b as u32) <= 90) ==> (ascii_lower_code(a) == ascii_lower_code(b)
            <==> (a as u32) == (b as u32)),
        97 <= (a as u32) <= 122 && 97 <= (b as u32) <= 122 && (a as u32) != (b as u32) ==> ascii_lower_code(a)
            != ascii_lower_code(b),
        ascii_ci_eq(s, s),
        ascii_ci_eq(s, t) ==> ascii_ci_eq(t, s),
        ascii_ci_eq(s, t) && ascii_ci_eq(t, u) ==> ascii_ci_eq(s, u),
        ascii_ci_eq(s, t) ==> s.len() == t.len(),
{
    if ascii_ci_eq(s, t) && ascii_ci_eq(t, u) {
        assert forall|i: int| 0 <= i < s.len() implies #[trigger] ascii_lower_code(s[i]) == ascii_lower_code(u[i]) by {
            assert(ascii_lower_code(s[i]) == ascii_lower_code(t[i]));
            assert(ascii_lower_code(t[i]) == ascii_lower_code(u[i]));
        }
    }
    if ascii_ci_eq(s, t) {
        assert forall|i: int| 0 <= i < t.len() implies #[trigger] ascii_lower_code(t[i]) == ascii_lower_code(s[i]) by {
            assert(ascii_lower_code(s[i]) == ascii_lower_code(t[i]));
        }
    }
}

} // verus!
