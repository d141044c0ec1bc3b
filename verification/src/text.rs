//! Character classes and maximal-run scanning over text, the ground the French
//! line grammar is built on.
//!
//! The grammar of the French address lines speaks of runs: a run of decimal
//! digits, a run of ASCII letters, a run of whitespace. `run_len` gives the
//! length of the maximal run of a class starting at a position, and
//! `scan_run` computes it.

use vstd::prelude::*;

verus! {

/// A class of characters that the line grammar distinguishes.
#[derive(Clone, Copy, Debug, PartialEq, Eq, Structural)]
pub enum CharClass {
    /// An ASCII decimal digit, `'0'` to `'9'`.
    Digit,
    /// An ASCII upper-case letter, `'A'` to `'Z'`.
    Upper,
    /// An ASCII letter of either case.
    Letter,
    /// A whitespace character (the Unicode `White_Space` set).
    Space,
}

/// Whether `c` belongs to the class `k`.
pub open spec fn in_class(c: char, k: CharClass) -> bool {
    let u = c as u32;
    match k {
        CharClass::Digit => '0' as u32 <= u && u <= '9' as u32,
        CharClass::Upper => 'A' as u32 <= u && u <= 'Z' as u32,
        CharClass::Letter => ('A' as u32 <= u && u <= 'Z' as u32) || ('a' as u32 <= u && u
            <= 'z' as u32),
        CharClass::Space => (9 <= u && u <= 13) || u == 32 || u == 0x85 || u == 0xA0 || u == 0x1680
            || (0x2000 <= u && u <= 0x200A) || u == 0x2028 || u == 0x2029 || u == 0x202F || u
            == 0x205F || u == 0x3000,
    }
}

/// Whether `c` belongs to the class `k`, decided at run time.
pub fn char_in_class(c: char, k: CharClass) -> (r: bool)
    ensures
        r == in_class(c, k),
{
    let u = c as u32;
    match k {
        CharClass::Digit => '0' as u32 <= u && u <= '9' as u32,
        CharClass::Upper => 'A' as u32 <= u && u <= 'Z' as u32,
        CharClass::Letter => ('A' as u32 <= u && u <= 'Z' as u32) || ('a' as u32 <= u && u
            <= 'z' as u32),
        CharClass::Space => (9 <= u && u <= 13) || u == 32 || u == 0x85 || u == 0xA0 || u == 0x1680
            || (0x2000 <= u && u <= 0x200A) || u == 0x2028 || u == 0x2029 || u == 0x202F || u
            == 0x205F || u == 0x3000,
    }
}

/// The length of the maximal run of characters of class `k` in `s` starting
/// at position `i`.
pub open spec fn run_len(s: Seq<char>, i: int, k: CharClass) -> int
    decreases s.len() - i when 0 <= i <= s.len()
{
    if i >= s.len() || !in_class(s[i], k) {
        0
    } else {
        1 + run_len(s, i + 1, k)
    }
}

/// The maximal run starting at `i` reaches exactly as far as the class holds:
/// every character inside it is of the class, and the first one past it (if
/// any) is not.
pub proof fn lemma_run_len(s: Seq<char>, i: int, k: CharClass)
    requires
        0 <= i <= s.len(),
    ensures
        0 <= run_len(s, i, k),
        i + run_len(s, i, k) <= s.len(),
        forall|j: int| i <= j < i + run_len(s, i, k) ==> in_class(#[trigger] s[j], k),
        i + run_len(s, i, k) < s.len() ==> !in_class(s[i + run_len(s, i, k)], k),
    decreases s.len() - i,
{
    if i < s.len() && in_class(s[i], k) {
        lemma_run_len(s, i + 1, k);
    }
}

/// Returns the position just past the maximal run of class `k` starting at
/// `from`.
pub fn scan_run(s: &str, n: usize, from: usize, k: CharClass) -> (r: usize)
    requires
        n == s@.len(),
        from <= n,
    ensures
        r as int == from + run_len(s@, from as int, k),
        from <= r <= n,
{
    let mut i: usize = from;
    while i < n && char_in_class(s.get_char(i), k)
        invariant
            n == s@.len(),
            from <= i <= n,
            run_len(s@, from as int, k) == i - from + run_len(s@, i as int, k),
        decreases n - i,
    {
        assert(run_len(s@, i as int, k) == 1 + run_len(s@, i + 1, k));
        i += 1;
    }
    assert(run_len(s@, i as int, k) == 0);
    proof {
        lemma_run_len(s@, from as int, k);
    }
    i
}

/// Whether `s` holds a newline character anywhere.
pub open spec fn contains_newline(s: Seq<char>) -> bool {
    exists|i: int| 0 <= i < s.len() && s[i] == '\n'
}

/// Decides whether the string holds a newline character.
pub fn has_newline(s: &str, n: usize) -> (r: bool)
    requires
        n == s@.len(),
    ensures
        r == contains_newline(s@),
{
    let mut i: usize = 0;
    while i < n
        invariant
            n == s@.len(),
            i <= n,
            forall|j: int| 0 <= j < i ==> s@[j] != '\n',
        decreases n - i,
    {
        if s.get_char(i) == '\n' {
            return true;
        }
        i += 1;
    }
    false
}

} // verus!
