//! A lenient string-to-boolean parser.
//!
//! [`LenientBool`] wraps a `bool` and parses it from a fixed vocabulary of
//! textual tokens, matched without regard to ASCII case: `true`, `t`, `yes`,
//! `y` and `1` yield `true`; `false`, `f`, `no`, `n` and `0` yield `false`.
//! Any other input is rejected with [`LenientBoolError`]. No whitespace is
//! trimmed and no numeric parsing is performed: `" yes"`, `"01"` and `"1.0"`
//! all fail.

use vstd::prelude::*;
use vstd::std_specs::convert::FromSpec;

verus! {

/// A parsed boolean: a transparent wrapper around the value it carries.
#[derive(Debug, PartialEq, Eq, Structural, PartialOrd, Ord, Clone, Copy, Hash)]
pub struct LenientBool(pub bool);

/// The input was not a recognized boolean token. Carries no further detail.
#[derive(Debug, PartialEq, Eq, Structural, Clone, Copy)]
pub struct LenientBoolError;

/// Two Unicode code points are equal under ASCII case folding: equal
/// outright, or an ASCII letter paired with its other-case twin, whose code
/// point lies 32 above. Nothing outside `A`-`Z` / `a`-`z` folds.
pub open spec fn code_fold_eq(a: u32, b: u32) -> bool {
    ||| a == b
    ||| (65 <= a <= 90 && a + 32 == b)
    ||| (65 <= b <= 90 && b + 32 == a)
}

/// ASCII-case-insensitive equality of two characters.
pub open spec fn char_fold_eq(a: char, b: char) -> bool {
    code_fold_eq(a as u32, b as u32)
}

/// The input matches the token character for character, up to ASCII case.
pub open spec fn matches_token(s: Seq<char>, tok: Seq<char>) -> bool {
    s.len() == tok.len() && (forall|i: int| 0 <= i < s.len() ==> char_fold_eq(s[i], tok[i]))
}

/// The truthy vocabulary: `true`, `t`, `yes`, `y` up to ASCII case, and the
/// exact digit `1`.
pub open spec fn is_truthy(s: Seq<char>) -> bool {
    ||| matches_token(s, "true"@)
    ||| matches_token(s, "t"@)
    ||| matches_token(s, "yes"@)
    ||| matches_token(s, "y"@)
    ||| s == "1"@
}

/// The falsy vocabulary: `false`, `f`, `no`, `n` up to ASCII case, and the
/// exact digit `0`.
pub open spec fn is_falsy(s: Seq<char>) -> bool {
    ||| matches_token(s, "false"@)
    ||| matches_token(s, "f"@)
    ||| matches_token(s, "no"@)
    ||| matches_token(s, "n"@)
    ||| s == "0"@
}

/// What parsing returns on each input: `true` for the truthy vocabulary,
/// `false` for the falsy one, and an error for everything else.
pub open spec fn spec_parse(s: Seq<char>) -> Result<LenientBool, LenientBoolError> {
    if is_truthy(s) {
        Ok(LenientBool(true))
    } else if is_falsy(s) {
        Ok(LenientBool(false))
    } else {
        Err(LenientBoolError)
    }
}

/// ASCII-case-insensitive equality of two characters, decided on their code
/// points.
fn char_fold_eq_exec(a: char, b: char) -> (r: bool)
    ensures
        r == char_fold_eq(a, b),
{
    let x = a as u32;
    let y = b as u32;
    if x == y {
        true
    } else if 65 <= x && x <= 90 {
        x + 32 == y
    } else if 65 <= y && y <= 90 {
        y + 32 == x
    } else {
        false
    }
}

/// ASCII-case-insensitive equality of a string and a token.
fn eq_ignore_ascii_case(s: &str, tok: &str) -> (r: bool)
    ensures
        r == matches_token(s@, tok@),
{
    let n = s.unicode_len();
    if n != tok.unicode_len() {
        return false;
    }
    let mut i: usize = 0;
    while i < n
        invariant
            n == s@.len(),
            n == tok@.len(),
            i <= n,
            forall|j: int| 0 <= j < i ==> char_fold_eq(s@[j], tok@[j]),
        decreases n - i,
    {
        if !char_fold_eq_exec(s.get_char(i), tok.get_char(i)) {
            return false;
        }
        i = i + 1;
    }
    true
}

/// Exact, case-sensitive equality of a string and a token.
fn eq_exact(s: &str, tok: &str) -> (r: bool)
    ensures
        r == (s@ == tok@),
{
    let n = s.unicode_len();
    if n != tok.unicode_len() {
        return false;
    }
    let mut i: usize = 0;
    while i < n
        invariant
            n == s@.len(),
            n == tok@.len(),
            i <= n,
            forall|j: int| 0 <= j < i ==> s@[j] == tok@[j],
        decreases n - i,
    {
        if s.get_char(i) != tok.get_char(i) {
            return false;
        }
        i = i + 1;
    }
    proof {
        assert(s@ =~= tok@);
    }
    true
}

impl LenientBool {
    /// Classifies the input against the fixed vocabulary and returns the
    /// boolean it stands for, or an error if it stands for neither. Pure:
    /// the result is a function of the input alone.
    pub fn parse(s: &str) -> (r: Result<LenientBool, LenientBoolError>)
        ensures
            r == spec_parse(s@),
    {
        if eq_ignore_ascii_case(s, "true") || eq_ignore_ascii_case(s, "t")
            || eq_ignore_ascii_case(s, "yes") || eq_ignore_ascii_case(s, "y")
            || eq_exact(s, "1") {
            Ok(LenientBool(true))
        } else if eq_ignore_ascii_case(s, "false") || eq_ignore_ascii_case(s, "f")
            || eq_ignore_ascii_case(s, "no") || eq_ignore_ascii_case(s, "n")
            || eq_exact(s, "0") {
            Ok(LenientBool(false))
        } else {
            Err(LenientBoolError)
        }
    }

    /// Read access to the contained boolean.
    pub fn get(&self) -> (b: bool)
        ensures
            b == self.0,
    {
        self.0
    }

    /// Write access to the contained boolean.
    pub fn set(&mut self, b: bool)
        ensures
            final(self).0 == b,
    {
        self.0 = b;
    }
}

/// Law: no input is both truthy and falsy. The two vocabularies are disjoint,
/// so the order in which parsing checks them is not observable.
pub proof fn lemma_vocabularies_disjoint(s: Seq<char>)
    ensures
        !(is_truthy(s) && is_falsy(s)),
{
    reveal_strlit("true");
    reveal_strlit("t");
    reveal_strlit("yes");
    reveal_strlit("y");
    reveal_strlit("1");
    reveal_strlit("false");
    reveal_strlit("f");
    reveal_strlit("no");
    reveal_strlit("n");
    reveal_strlit("0");
    if is_truthy(s) && is_falsy(s) {
        // The tokens of equal length on both sides are the single characters;
        // their first characters fold to disjoint code points.
        if matches_token(s, "t"@) {
            assert(char_fold_eq(s[0], "t"@[0]));
        }
        if matches_token(s, "y"@) {
            assert(char_fold_eq(s[0], "y"@[0]));
        }
        if matches_token(s, "f"@) {
            assert(char_fold_eq(s[0], "f"@[0]));
        }
        if matches_token(s, "n"@) {
            assert(char_fold_eq(s[0], "n"@[0]));
        }
        assert(false);
    }
}

/// Law: every input in the truthy vocabulary, in any ASCII case variant,
/// parses to `true`.
pub proof fn lemma_truthy_parses_true(s: Seq<char>)
    requires
        is_truthy(s),
    ensures
        spec_parse(s) == Ok::<LenientBool, LenientBoolError>(LenientBool(true)),
{
}

/// Law: every input in the falsy vocabulary, in any ASCII case variant,
/// parses to `false`.
pub proof fn lemma_falsy_parses_false(s: Seq<char>)
    requires
        is_falsy(s),
    ensures
        spec_parse(s) == Ok::<LenientBool, LenientBoolError>(LenientBool(false)),
{
    lemma_vocabularies_disjoint(s);
}

/// Law: an input in neither vocabulary, the empty string included, fails
/// with the unrecognized-token error.
pub proof fn lemma_unrecognized_fails(s: Seq<char>)
    requires
        !is_truthy(s),
        !is_falsy(s),
    ensures
        spec_parse(s) == Err::<LenientBool, LenientBoolError>(LenientBoolError),
{
}

/// Law: wrapping a native boolean and converting back returns it unchanged.
pub proof fn lemma_bool_round_trip(b: bool)
    ensures
        <bool as FromSpec<LenientBool>>::from_spec(
            <LenientBool as FromSpec<bool>>::from_spec(b),
        ) == b,
{
}

/// Law: converting a parsed value to a native boolean and wrapping it again
/// carries the same boolean: the wrapper adds no state of its own.
pub proof fn lemma_wrap_unwrap_identity(n: LenientBool)
    ensures
        <LenientBool as FromSpec<bool>>::from_spec(
            <bool as FromSpec<LenientBool>>::from_spec(n),
        ) == n,
{
}

impl From<bool> for LenientBool {
    /// Wraps a native boolean.
    fn from(b: bool) -> (r: LenientBool) {
        LenientBool(b)
    }
}

impl vstd::std_specs::convert::FromSpecImpl<bool> for LenientBool {
    open spec fn obeys_from_spec() -> bool {
        true
    }

    open spec fn from_spec(b: bool) -> LenientBool {
        LenientBool(b)
    }
}

impl From<LenientBool> for bool {
    /// Extracts the contained boolean.
    fn from(n: LenientBool) -> (b: bool) {
        n.0
    }
}

impl vstd::std_specs::convert::FromSpecImpl<LenientBool> for bool {
    open spec fn obeys_from_spec() -> bool {
        true
    }

    open spec fn from_spec(n: LenientBool) -> bool {
        n.0
    }
}

impl Default for LenientBool {
    /// The default parsed boolean carries `false`.
    fn default() -> (r: LenientBool)
        ensures
            r.0 == false,
    {
        LenientBool(false)
    }
}

impl core::str::FromStr for LenientBool {
    type Err = LenientBoolError;

    fn from_str(s: &str) -> Result<LenientBool, LenientBoolError> {
        LenientBool::parse(s)
    }
}

} // verus!
