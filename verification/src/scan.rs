//! Tokenizing an expression: trimming, locating the operator, splitting.
//!
//! The scan walks the trimmed input left to right, skipping an optional
//! leading minus sign, and reports the first `+`, `-`, `*` or `/` that does
//! not sit inside a scientific-notation exponent.  A character counts as
//! inside an exponent from the moment an `e`/`E` is seen until a character
//! arrives that is none of digit, `.`, `e`, `E`, `+`, `-`.

use vstd::prelude::*;
use vstd::string::StrSliceExecFns;
use vstd::string::StringExecFns;

use crate::errors::CalcError;

verus! {

/// The Unicode white space characters, the set that `str::trim` removes
/// from either end of a string.
pub open spec fn is_whitespace_char(c: char) -> bool {
    let u = c as u32;
    ||| u == 0x20
    ||| (0x09 <= u && u <= 0x0D)
    ||| u == 0x85
    ||| u == 0xA0
    ||| u == 0x1680
    ||| (0x2000 <= u && u <= 0x200A)
    ||| u == 0x2028
    ||| u == 0x2029
    ||| u == 0x202F
    ||| u == 0x205F
    ||| u == 0x3000
}

/// Executable twin of [`is_whitespace_char`].
pub fn is_whitespace(c: char) -> (r: bool)
    ensures
        r == is_whitespace_char(c),
{
    let u = c as u32;
    u == 0x20 || (0x09 <= u && u <= 0x0D) || u == 0x85 || u == 0xA0 || u == 0x1680 || (0x2000
        <= u && u <= 0x200A) || u == 0x2028 || u == 0x2029 || u == 0x202F || u == 0x205F || u
        == 0x3000
}

/// A decimal digit, `0` through `9`.
pub open spec fn is_digit_char(c: char) -> bool {
    0x30 <= c as u32 && c as u32 <= 0x39
}

/// Executable twin of [`is_digit_char`].
pub fn is_digit(c: char) -> (r: bool)
    ensures
        r == is_digit_char(c),
{
    let u = c as u32;
    0x30 <= u && u <= 0x39
}

/// One of the four operator characters.
pub open spec fn is_operator_char(c: char) -> bool {
    c == '+' || c == '-' || c == '*' || c == '/'
}

/// The input with leading white space removed.
pub open spec fn trim_front(s: Seq<char>) -> Seq<char>
    decreases s.len(),
{
    if s.len() > 0 && is_whitespace_char(s[0]) {
        trim_front(s.drop_first())
    } else {
        s
    }
}

/// The input with trailing white space removed.
pub open spec fn trim_back(s: Seq<char>) -> Seq<char>
    decreases s.len(),
{
    if s.len() > 0 && is_whitespace_char(s[s.len() - 1]) {
        trim_back(s.drop_last())
    } else {
        s
    }
}

/// The input with white space removed from both ends, as `str::trim` does.
pub open spec fn trim_spec(s: Seq<char>) -> Seq<char> {
    trim_back(trim_front(s))
}

proof fn lemma_trim_front_skip(s: Seq<char>, i: int)
    requires
        0 <= i <= s.len(),
        forall|k: int| 0 <= k < i ==> is_whitespace_char(s[k]),
        i == s.len() || !is_whitespace_char(s[i]),
    ensures
        trim_front(s) == s.skip(i),
    decreases i,
{
    if i == 0 {
        assert(s.skip(0) =~= s);
    } else {
        let t = s.drop_first();
        assert(forall|k: int| 0 <= k < i - 1 ==> is_whitespace_char(t[k]));
        lemma_trim_front_skip(t, i - 1);
        assert(t.skip(i - 1) =~= s.skip(i));
    }
}

proof fn lemma_trim_back_take(s: Seq<char>, j: int)
    requires
        0 <= j <= s.len(),
        forall|k: int| j <= k < s.len() ==> is_whitespace_char(s[k]),
        j == 0 || !is_whitespace_char(s[j - 1]),
    ensures
        trim_back(s) == s.take(j),
    decreases s.len() - j,
{
    if j == s.len() {
        assert(s.take(j) =~= s);
    } else {
        let t = s.drop_last();
        assert(forall|k: int| j <= k < t.len() ==> is_whitespace_char(t[k]));
        lemma_trim_back_take(t, j);
        assert(t.take(j) =~= s.take(j));
    }
}

/// Removes white space from both ends of `s`.
pub fn trim_str<'a>(s: &'a str) -> (r: &'a str)
    ensures
        r@ == trim_spec(s@),
{
    let n = s.unicode_len();
    let mut lo: usize = 0;
    loop
        invariant
            n == s@.len(),
            lo <= n,
            forall|k: int| 0 <= k < lo ==> is_whitespace_char(s@[k]),
        ensures
            lo <= n,
            forall|k: int| 0 <= k < lo ==> is_whitespace_char(s@[k]),
            lo == n || !is_whitespace_char(s@[lo as int]),
        decreases n - lo,
    {
        if lo == n {
            break ;
        }
        if !is_whitespace(s.get_char(lo)) {
            break ;
        }
        lo = lo + 1;
    }
    let mut hi: usize = n;
    loop
        invariant
            n == s@.len(),
            lo <= hi <= n,
            forall|k: int| hi <= k < n ==> is_whitespace_char(s@[k]),
        ensures
            lo <= hi <= n,
            forall|k: int| hi <= k < n ==> is_whitespace_char(s@[k]),
            hi == lo || !is_whitespace_char(s@[hi - 1]),
        decreases hi,
    {
        if hi == lo {
            break ;
        }
        if !is_whitespace(s.get_char(hi - 1)) {
            break ;
        }
        hi = hi - 1;
    }
    proof {
        lemma_trim_front_skip(s@, lo as int);
        let t = s@.skip(lo as int);
        assert(forall|k: int| hi - lo <= k < t.len() ==> is_whitespace_char(t[k]));
        assert(hi - lo == 0 || !is_whitespace_char(t[hi - lo - 1]));
        lemma_trim_back_take(t, hi - lo);
        assert(t.take(hi - lo) =~= s@.subrange(lo as int, hi as int));
    }
    s.substring_char(lo, hi)
}

/// Where the scan stands: the position to look at next and whether it is in
/// an exponent context; the result is the position of the operator, if the
/// rest of the scan finds one.
pub open spec fn scan_from(s: Seq<char>, i: int, sci: bool) -> Option<int>
    decreases s.len() - i,
{
    if i < 0 || i >= s.len() {
        None
    } else if s[i] == 'e' || s[i] == 'E' {
        scan_from(s, i + 1, true)
    } else if is_operator_char(s[i]) && !sci {
        Some(i)
    } else if !is_digit_char(s[i]) && s[i] != '.' && s[i] != 'e' && s[i] != 'E' && s[i] != '+'
        && s[i] != '-' {
        scan_from(s, i + 1, false)
    } else {
        scan_from(s, i + 1, sci)
    }
}

/// The scan skips a single leading minus sign, so that a negative first
/// operand is not read as an operator.
pub open spec fn scan_start(s: Seq<char>) -> int {
    if s.len() > 0 && s[0] == '-' {
        1
    } else {
        0
    }
}

/// The position of the operator the whole scan reports for `s`.
pub open spec fn find_operator_spec(s: Seq<char>) -> Option<int> {
    scan_from(s, scan_start(s), false)
}

/// Law: whatever position the scan reports holds one of the four operator
/// characters, and lies inside the input.
pub proof fn lemma_scan_finds_operator(s: Seq<char>, i: int, sci: bool)
    ensures
        scan_from(s, i, sci) matches Some(p) ==> 0 <= p < s.len() && is_operator_char(s[p]),
    decreases s.len() - i,
{
    if i < 0 || i >= s.len() {
    } else if s[i] == 'e' || s[i] == 'E' {
        lemma_scan_finds_operator(s, i + 1, true);
    } else if is_operator_char(s[i]) && !sci {
    } else if !is_digit_char(s[i]) && s[i] != '.' && s[i] != 'e' && s[i] != 'E' && s[i] != '+'
        && s[i] != '-' {
        lemma_scan_finds_operator(s, i + 1, false);
    } else {
        lemma_scan_finds_operator(s, i + 1, sci);
    }
}

/// Finds the first operator character outside an exponent context,
/// skipping an optional leading minus sign.
pub fn find_operator(s: &str) -> (r: Option<usize>)
    ensures
        match r {
            Some(p) => find_operator_spec(s@) == Some(p as int),
            None => find_operator_spec(s@) is None,
        },
{
    let n = s.unicode_len();
    let start: usize = if n > 0 && s.get_char(0) == '-' {
        1
    } else {
        0
    };
    let mut i: usize = start;
    let mut sci: bool = false;
    loop
        invariant
            n == s@.len(),
            i <= n,
            scan_from(s@, scan_start(s@), false) == scan_from(s@, i as int, sci),
        ensures
            scan_from(s@, scan_start(s@), false) is None,
        decreases n - i,
    {
        if i == n {
            break ;
        }
        let c = s.get_char(i);
        if c == 'e' || c == 'E' {
            sci = true;
        } else if (c == '+' || c == '-' || c == '*' || c == '/') && !sci {
            return Some(i);
        } else if !is_digit(c) && c != '.' && c != 'e' && c != 'E' && c != '+' && c != '-' {
            sci = false;
        }
        i = i + 1;
    }
    None
}

/// The two operand substrings and the operator character of an expression.
#[derive(Debug)]
pub struct SplitParts {
    pub first: String,
    pub op: char,
    pub second: String,
}

/// What splitting an input yields: trim, reject an empty input, find the
/// operator, split around it, and trim each side.
pub open spec fn split_spec(input: Seq<char>) -> Result<(Seq<char>, char, Seq<char>), CalcError> {
    let t = trim_spec(input);
    if t.len() == 0 {
        Err(CalcError::EmptyInput)
    } else {
        match find_operator_spec(t) {
            Some(p) => Ok((trim_spec(t.take(p)), t[p], trim_spec(t.skip(p + 1)))),
            None => Err(CalcError::NoOperator),
        }
    }
}

/// Splits an expression into its first operand, operator and second
/// operand, exactly as [`split_spec`] describes.
pub fn split_expression(input: &str) -> (r: Result<SplitParts, CalcError>)
    ensures
        match split_spec(input@) {
            Ok(parts) => r matches Ok(sp) && sp.first@ == parts.0 && sp.op == parts.1
                && sp.second@ == parts.2,
            Err(e) => r matches Err(e2) && e2 == e,
        },
        r matches Ok(sp) ==> is_operator_char(sp.op),
{
    let t = trim_str(input);
    let tn = t.unicode_len();
    if tn == 0 {
        return Err(CalcError::EmptyInput);
    }
    match find_operator(t) {
        None => Err(CalcError::NoOperator),
        Some(p) => {
            proof {
                lemma_scan_finds_operator(t@, scan_start(t@), false);
            }
            let op = t.get_char(p);
            let left = trim_str(t.substring_char(0, p));
            let right = trim_str(t.substring_char(p + 1, tn));
            proof {
                assert(t@.subrange(0, p as int) =~= t@.take(p as int));
                assert(t@.subrange(p + 1, tn as int) =~= t@.skip(p + 1));
            }
            Ok(SplitParts { first: String::from_str(left), op, second: String::from_str(right) })
        },
    }
}

proof fn lemma_whitespace_is_plain(c: char)
    requires
        is_whitespace_char(c),
    ensures
        !is_operator_char(c),
        c != 'e' && c != 'E',
{
}

proof fn lemma_scan_stays_outside_exponent(s: Seq<char>, i: int, j: int)
    requires
        0 <= i <= j <= s.len(),
        forall|k: int| i <= k < j ==> s[k] != 'e' && s[k] != 'E' && !is_operator_char(s[k]),
    ensures
        scan_from(s, i, false) == scan_from(s, j, false),
    decreases j - i,
{
    if i < j {
        lemma_scan_stays_outside_exponent(s, i + 1, j);
    }
}

proof fn lemma_trim_back_ws_suffix(f: Seq<char>, u: Seq<char>)
    requires
        f.len() > 0,
        !is_whitespace_char(f[f.len() - 1]),
        forall|k: int| 0 <= k < u.len() ==> is_whitespace_char(u[k]),
    ensures
        trim_back(f + u) == f,
    decreases u.len(),
{
    if u.len() == 0 {
        assert(f + u =~= f);
    } else {
        let s = f + u;
        assert(s[s.len() - 1] == u[u.len() - 1]);
        assert(s.drop_last() =~= f + u.drop_last());
        lemma_trim_back_ws_suffix(f, u.drop_last());
    }
}

proof fn lemma_trim_front_ws_prefix(v: Seq<char>, y: Seq<char>)
    requires
        y.len() > 0,
        !is_whitespace_char(y[0]),
        forall|k: int| 0 <= k < v.len() ==> is_whitespace_char(v[k]),
    ensures
        trim_front(v + y) == y,
    decreases v.len(),
{
    if v.len() == 0 {
        assert(v + y =~= y);
    } else {
        let s = v + y;
        assert(s[0] == v[0]);
        assert(s.drop_first() =~= v.drop_first() + y);
        lemma_trim_front_ws_prefix(v.drop_first(), y);
    }
}

/// Law: white space between the tokens does not change how an expression
/// splits.  For a first operand that holds no exponent marker and no
/// further operator character past its optional leading minus sign, an
/// operator character, and a second part that is trimmed, the expression
/// splits into exactly those parts, whatever white space stands between
/// them — none, one space, or many.  (An exponent marker is left out
/// because there the space is significant: it is what closes the exponent
/// context and lets the operator be seen, so `1e3 + 2e3` splits while
/// `1e3+2e3` does not.)
pub proof fn lemma_spacing_around_operator_is_immaterial(
    f: Seq<char>,
    u: Seq<char>,
    c: char,
    v: Seq<char>,
    y: Seq<char>,
)
    requires
        f.len() > 0,
        !is_whitespace_char(f[0]),
        !is_whitespace_char(f[f.len() - 1]),
        forall|k: int|
            scan_start(f) <= k < f.len() ==> f[k] != 'e' && f[k] != 'E' && !is_operator_char(
                f[k],
            ),
        is_operator_char(c),
        forall|k: int| 0 <= k < u.len() ==> is_whitespace_char(u[k]),
        forall|k: int| 0 <= k < v.len() ==> is_whitespace_char(v[k]),
        y.len() > 0,
        !is_whitespace_char(y[0]),
        !is_whitespace_char(y[y.len() - 1]),
    ensures
        split_spec(f + u + seq![c] + v + y) == Ok::<(Seq<char>, char, Seq<char>), CalcError>(
            (f, c, y),
        ),
{
    let input = f + u + seq![c] + v + y;
    let flen = f.len() as int;
    let pos = flen + u.len();
    assert(input.len() == f.len() + u.len() + 1 + v.len() + y.len());
    assert forall|k: int| 0 <= k < flen implies input[k] == f[k] by {}
    assert forall|k: int| flen <= k < pos implies input[k] == u[k - flen] by {}
    assert(input[pos] == c);
    assert(input[input.len() - 1] == y[y.len() - 1]);

    // the whole input is already trimmed at both ends
    assert(trim_front(input) == input);
    assert(trim_back(input) == input);
    assert(trim_spec(input) == input);

    // the scan passes the operand and the white space without entering an
    // exponent context, then reports the operator
    assert(scan_start(input) == scan_start(f));
    assert forall|k: int| scan_start(input) <= k < pos implies input[k] != 'e' && input[k]
        != 'E' && !is_operator_char(input[k]) by {
        if k >= flen {
            lemma_whitespace_is_plain(u[k - flen]);
        }
    }
    lemma_scan_stays_outside_exponent(input, scan_start(input), pos);
    assert(scan_from(input, pos, false) == Some(pos));
    assert(find_operator_spec(input) == Some(pos));

    // the left part trims back down to the operand
    assert(input.take(pos) =~= f + u);
    assert(trim_front(f + u) == f + u);
    lemma_trim_back_ws_suffix(f, u);
    assert(trim_spec(input.take(pos)) == f);

    // the right part trims down to the second operand
    assert(input.skip(pos + 1) =~= v + y);
    lemma_trim_front_ws_prefix(v, y);
    assert(trim_back(y) == y);
    assert(trim_spec(input.skip(pos + 1)) == y);
}

} // verus!
