//! Plain-text helpers: newline normalization for accumulated XML text and the
//! numeric syntax that decides whether a literal token denotes a number.

use vstd::prelude::*;
use vstd::string::StrSliceExecFns;

verus! {

/// The normal form of free text: every newline sequence (`\r\n`, lone `\r`,
/// lone `\n`) appears as a single `\n`.
pub open spec fn clean_seq(s: Seq<char>) -> Seq<char>
    decreases s.len(),
{
    if s.len() == 0 {
        Seq::empty()
    } else if s[0] == '\r' && s.len() >= 2 && s[1] == '\n' {
        seq!['\n'] + clean_seq(s.skip(2))
    } else if s[0] == '\r' {
        seq!['\n'] + clean_seq(s.skip(1))
    } else {
        seq![s[0]] + clean_seq(s.skip(1))
    }
}

/// Relies on `String`'s `FromIterator` over `char`: collecting characters
/// builds the string of exactly those characters, in order.
#[verifier::external_body]
pub(crate) fn string_from_chars(v: &Vec<char>) -> (r: String)
    ensures
        r@ == v@,
{
    v.iter().collect()
}

/// One character sequence is a prefix of another.
pub open spec fn is_prefix(p: Seq<char>, s: Seq<char>) -> bool {
    p.len() <= s.len() && s.subrange(0, p.len() as int) == p
}

/// Relies on `str::starts_with`: true exactly when the prefix's characters
/// open the string.
#[verifier::external_body]
pub(crate) fn str_starts_with(s: &str, p: &str) -> (r: bool)
    ensures
        r == is_prefix(p@, s@),
{
    s.starts_with(p)
}

/// Relies on `str`'s `PartialEq`: two string slices are equal exactly when
/// their character sequences are.
#[verifier::external_body]
pub(crate) fn str_eq(a: &str, b: &str) -> (r: bool)
    ensures
        r == (a@ == b@),
{
    a == b
}

/// Relies on `str::chars` collected into a vector: the characters of the
/// string, in order.
#[verifier::external_body]
pub(crate) fn str_chars(s: &str) -> (r: Vec<char>)
    ensures
        r@ == s@,
{
    s.chars().collect()
}

/// Normalizes every newline sequence in `s` to a single line feed.
pub fn clean_newlines(s: &str) -> (r: String)
    ensures
        r@ == clean_seq(s@),
{
    let n = s.unicode_len();
    let mut out: Vec<char> = Vec::new();
    let mut i: usize = 0;
    proof {
        assert(s@.skip(0) =~= s@);
        assert(Seq::<char>::empty() + clean_seq(s@) =~= clean_seq(s@));
    }
    while i < n
        invariant
            i <= n,
            n == s@.len(),
            clean_seq(s@) == out@ + clean_seq(s@.skip(i as int)),
        decreases n - i,
    {
        let ghost prev_out = out@;
        let ghost rest = s@.skip(i as int);
        let c = s.get_char(i);
        assert(rest[0] == c);
        if c == '\r' {
            if i + 1 < n && s.get_char(i + 1) == '\n' {
                assert(rest[1] == '\n');
                out.push('\n');
                proof {
                    assert(rest.skip(2) =~= s@.skip(i + 2));
                    assert(prev_out + clean_seq(rest) =~= (prev_out + seq!['\n']) + clean_seq(
                        s@.skip(i + 2),
                    ));
                    assert(out@ =~= prev_out + seq!['\n']);
                }
                i = i + 2;
            } else {
                assert(!(rest.len() >= 2 && rest[1] == '\n'));
                out.push('\n');
                proof {
                    assert(rest.skip(1) =~= s@.skip(i + 1));
                    assert(prev_out + clean_seq(rest) =~= (prev_out + seq!['\n']) + clean_seq(
                        s@.skip(i + 1),
                    ));
                    assert(out@ =~= prev_out + seq!['\n']);
                }
                i = i + 1;
            }
        } else {
            out.push(c);
            proof {
                assert(rest.skip(1) =~= s@.skip(i + 1));
                assert(prev_out + clean_seq(rest) =~= (prev_out + seq![c]) + clean_seq(
                    s@.skip(i + 1),
                ));
                assert(out@ =~= prev_out + seq![c]);
            }
            i = i + 1;
        }
    }
    proof {
        assert(s@.skip(n as int) =~= Seq::<char>::empty());
        assert(out@ =~= out@ + clean_seq(s@.skip(n as int)));
    }
    string_from_chars(&out)
}

/// An ASCII decimal digit.
pub open spec fn is_digit(c: char) -> bool {
    '0' <= c && c <= '9'
}

/// Lower-cases an ASCII letter; leaves every other character alone.
pub open spec fn lower_ascii(c: char) -> char {
    if 'A' <= c && c <= 'Z' {
        ((c as u8) + 32) as char
    } else {
        c
    }
}

/// Case-insensitive equality with a fixed keyword given as lower case.
pub open spec fn eq_ignore_case(s: Seq<char>, kw: Seq<char>) -> bool {
    s.len() == kw.len() && forall|i: int| 0 <= i < s.len() ==> lower_ascii(s[i]) == kw[i]
}

/// The sign-free keywords that denote non-finite numbers.
pub open spec fn is_inf_nan(s: Seq<char>) -> bool {
    ||| eq_ignore_case(s, seq!['i', 'n', 'f'])
    ||| eq_ignore_case(s, seq!['i', 'n', 'f', 'i', 'n', 'i', 't', 'y'])
    ||| eq_ignore_case(s, seq!['n', 'a', 'n'])
}

/// A mantissa: at least one digit, every character a digit or a decimal
/// point, and at most one decimal point.
pub open spec fn mantissa_ok(m: Seq<char>) -> bool {
    &&& m.len() > 0
    &&& forall|i: int| 0 <= i < m.len() ==> is_digit(m[i]) || m[i] == '.'
    &&& forall|i: int, j: int|
        0 <= i < m.len() && 0 <= j < m.len() && m[i] == '.' && m[j] == '.' ==> i == j
    &&& exists|i: int| 0 <= i < m.len() && is_digit(m[i])
}

/// An exponent body: an optional sign followed by one or more digits.
pub open spec fn exponent_ok(x: Seq<char>) -> bool {
    if x.len() > 0 && (x[0] == '+' || x[0] == '-') {
        x.len() > 1 && forall|i: int| 1 <= i < x.len() ==> is_digit(x[i])
    } else {
        x.len() > 0 && forall|i: int| 0 <= i < x.len() ==> is_digit(x[i])
    }
}

/// A finite numeral body: a mantissa with an optional exponent part.
pub open spec fn decimal_ok(b: Seq<char>) -> bool {
    ||| mantissa_ok(b)
    ||| exists|p: int|
        0 <= p < b.len() && (b[p] == 'e' || b[p] == 'E') && mantissa_ok(b.take(p)) && exponent_ok(
            b.skip(p + 1),
        )
}

/// Numeric syntax: an optional sign, then either a non-finite keyword or a
/// finite numeral. A literal token whose text matches this syntax denotes a
/// number; any other text is kept as an opaque string.
pub open spec fn is_numeric(s: Seq<char>) -> bool {
    let b = if s.len() > 0 && (s[0] == '+' || s[0] == '-') {
        s.skip(1)
    } else {
        s
    };
    is_inf_nan(b) || decimal_ok(b)
}

/// Lower-cases one ASCII letter at run time.
fn lower_ascii_exec(c: char) -> (r: char)
    ensures
        r == lower_ascii(c),
{
    if 'A' <= c && c <= 'Z' {
        (((c as u8) + 32) as char)
    } else {
        c
    }
}

/// Decides `eq_ignore_case` of the tail of `s` at `off` against a keyword.
fn eq_ignore_case_exec(s: &Vec<char>, off: usize, kw: &Vec<char>) -> (r: bool)
    requires
        off <= s@.len(),
    ensures
        r == eq_ignore_case(s@.skip(off as int), kw@),
{
    let n = s.len();
    let ghost body = s@.skip(off as int);
    if n - off != kw.len() {
        return false;
    }
    let mut i: usize = 0;
    while i < kw.len()
        invariant
            0 <= i <= kw@.len(),
            off <= s@.len(),
            body == s@.skip(off as int),
            body.len() == kw@.len(),
            n == s@.len(),
            n - off == kw@.len(),
            forall|j: int| 0 <= j < i ==> lower_ascii(body[j]) == kw@[j],
        decreases kw@.len() - i,
    {
        let c = lower_ascii_exec(s[off + i]);
        assert(body[i as int] == s@[off + i]);
        if c != kw[i] {
            return false;
        }
        i = i + 1;
    }
    true
}

/// Decides whether every character of `s` from `from` to `to` is a digit.
fn all_digits(s: &Vec<char>, from: usize, to: usize) -> (r: bool)
    requires
        from <= to <= s@.len(),
    ensures
        r == forall|i: int| from <= i < to ==> is_digit(s@[i]),
{
    let mut i: usize = from;
    while i < to
        invariant
            from <= i <= to <= s@.len(),
            forall|j: int| from <= j < i ==> is_digit(s@[j]),
        decreases to - i,
    {
        let c = s[i];
        if !('0' <= c && c <= '9') {
            return false;
        }
        i = i + 1;
    }
    true
}

/// Decides `mantissa_ok` on the range `from .. to` of `s`.
fn mantissa_ok_exec(s: &Vec<char>, from: usize, to: usize) -> (r: bool)
    requires
        from <= to <= s@.len(),
    ensures
        r == mantissa_ok(s@.subrange(from as int, to as int)),
{
    let ghost m = s@.subrange(from as int, to as int);
    if from == to {
        return false;
    }
    let mut i: usize = from;
    let mut saw_digit = false;
    let mut saw_dot = false;
    let ghost mut dot_at: int = 0;
    while i < to
        invariant
            from <= i <= to <= s@.len(),
            m == s@.subrange(from as int, to as int),
            forall|j: int| 0 <= j < i - from ==> is_digit(m[j]) || m[j] == '.',
            saw_digit == exists|j: int| 0 <= j < i - from && is_digit(m[j]),
            saw_dot == exists|j: int| 0 <= j < i - from && m[j] == '.',
            saw_dot ==> 0 <= dot_at < i - from && m[dot_at] == '.',
            forall|j: int| 0 <= j < i - from && m[j] == '.' ==> saw_dot && j == dot_at,
        decreases to - i,
    {
        let c = s[i];
        assert(m[i - from] == s@[i as int]);
        if c == '.' {
            if saw_dot {
                return false;
            }
            saw_dot = true;
            proof {
                dot_at = i - from;
            }
        } else if '0' <= c && c <= '9' {
            saw_digit = true;
        } else {
            return false;
        }
        i = i + 1;
    }
    saw_digit
}

/// Decides `exponent_ok` on the tail of `s` starting at `from`.
fn exponent_ok_exec(s: &Vec<char>, from: usize) -> (r: bool)
    requires
        from <= s@.len(),
    ensures
        r == exponent_ok(s@.skip(from as int)),
{
    let ghost x = s@.skip(from as int);
    let n = s.len();
    let has_sign = from < n && (s[from] == '+' || s[from] == '-');
    proof {
        assert(x.len() == n - from);
        assert(forall|i: int| 0 <= i < x.len() ==> x[i] == s@[from + i]);
        if from < n {
            assert(x[0] == s@[from as int]);
        }
    }
    let start = if has_sign {
        from + 1
    } else {
        from
    };
    if start == n {
        return false;
    }
    let r = all_digits(s, start, n);
    proof {
        let lo: int = if has_sign {
            1
        } else {
            0
        };
        if r {
            assert forall|i: int| lo <= i < x.len() implies is_digit(x[i]) by {
                assert(x[i] == s@[from + i]);
                assert(is_digit(s@[from + i]));
            }
            assert(exponent_ok(x));
        } else {
            if exponent_ok(x) {
                assert forall|j: int| start <= j < n implies is_digit(s@[j]) by {
                    assert(x[j - from] == s@[j]);
                    assert(is_digit(x[j - from]));
                }
                assert(false);
            }
        }
    }
    r
}

/// Builds the three lower-case keywords for non-finite numbers.
fn non_finite_keywords() -> (r: (Vec<char>, Vec<char>, Vec<char>))
    ensures
        r.0@ =~= seq!['i', 'n', 'f'],
        r.1@ =~= seq!['i', 'n', 'f', 'i', 'n', 'i', 't', 'y'],
        r.2@ =~= seq!['n', 'a', 'n'],
{
    let mut kw_inf: Vec<char> = Vec::new();
    kw_inf.push('i');
    kw_inf.push('n');
    kw_inf.push('f');
    let mut kw_infinity: Vec<char> = Vec::new();
    kw_infinity.push('i');
    kw_infinity.push('n');
    kw_infinity.push('f');
    kw_infinity.push('i');
    kw_infinity.push('n');
    kw_infinity.push('i');
    kw_infinity.push('t');
    kw_infinity.push('y');
    let mut kw_nan: Vec<char> = Vec::new();
    kw_nan.push('n');
    kw_nan.push('a');
    kw_nan.push('n');
    proof {
        assert(kw_inf@ =~= seq!['i', 'n', 'f']);
        assert(kw_infinity@ =~= seq!['i', 'n', 'f', 'i', 'n', 'i', 't', 'y']);
        assert(kw_nan@ =~= seq!['n', 'a', 'n']);
    }
    (kw_inf, kw_infinity, kw_nan)
}

/// Decides whether the text matches numeric syntax.
#[verifier::rlimit(60)]
pub fn is_numeric_text(s: &Vec<char>) -> (r: bool)
    ensures
        r == is_numeric(s@),
{
    let n = s.len();
    let body_start: usize = if n > 0 && (s[0] == '+' || s[0] == '-') {
        1
    } else {
        0
    };
    let ghost b = s@.skip(body_start as int);
    proof {
        if !(s@.len() > 0 && (s@[0] == '+' || s@[0] == '-')) {
            assert(b =~= s@);
        }
        assert(is_numeric(s@) == (is_inf_nan(b) || decimal_ok(b)));
    }
    let (kw_inf, kw_infinity, kw_nan) = non_finite_keywords();
    if eq_ignore_case_exec(s, body_start, &kw_inf) || eq_ignore_case_exec(s, body_start, &kw_infinity)
        || eq_ignore_case_exec(s, body_start, &kw_nan) {
        return true;
    }
    assert(!is_inf_nan(b));
    // Find the first exponent marker, if any.
    let mut i: usize = body_start;
    let mut e_pos: usize = n;
    let mut found_e = false;
    while i < n
        invariant
            body_start <= i <= n,
            n == s@.len(),
            !found_e ==> e_pos == n && forall|j: int|
                body_start <= j < i ==> !(s@[j] == 'e' || s@[j] == 'E'),
            found_e ==> body_start <= e_pos < i && (s@[e_pos as int] == 'e' || s@[e_pos as int]
                == 'E') && forall|j: int| body_start <= j < e_pos ==> !(s@[j] == 'e' || s@[j] == 'E'),
        decreases n - i,
    {
        let c = s[i];
        if !found_e && (c == 'e' || c == 'E') {
            found_e = true;
            e_pos = i;
        }
        i = i + 1;
    }
    assert(forall|q: int| 0 <= q < b.len() ==> b[q] == s@[body_start + q]);
    if !found_e {
        let r = mantissa_ok_exec(s, body_start, n);
        proof {
            assert(s@.subrange(body_start as int, n as int) =~= b);
            assert(forall|q: int| 0 <= q < b.len() ==> !(b[q] == 'e' || b[q] == 'E'));
            assert(decimal_ok(b) == mantissa_ok(b));
        }
        return r;
    }
    let mant = mantissa_ok_exec(s, body_start, e_pos);
    let expo = exponent_ok_exec(s, e_pos + 1);
    let r = mant && expo;
    proof {
        let p = e_pos - body_start;
        assert(b[p] == s@[e_pos as int]);
        assert(b.take(p) =~= s@.subrange(body_start as int, e_pos as int));
        assert(b.skip(p + 1) =~= s@.skip(e_pos + 1));
        if r {
            assert(0 <= p < b.len() && (b[p] == 'e' || b[p] == 'E') && mantissa_ok(b.take(p))
                && exponent_ok(b.skip(p + 1)));
            assert(decimal_ok(b));
        } else {
            assert(!mantissa_ok(b)) by {
                if mantissa_ok(b) {
                    assert(is_digit(b[p]) || b[p] == '.');
                }
            }
            assert forall|q: int|
                0 <= q < b.len() && (b[q] == 'e' || b[q] == 'E') implies !(mantissa_ok(b.take(q))
                && exponent_ok(b.skip(q + 1))) by {
                if q < p {
                    assert(!(s@[body_start + q] == 'e' || s@[body_start + q] == 'E'));
                    assert(false);
                } else if q == p {
                    // This split is exactly the one that was tested.
                } else {
                    if mantissa_ok(b.take(q)) {
                        assert(b.take(q)[p] == b[p]);
                        assert(is_digit(b[p]) || b[p] == '.');
                        assert(false);
                    }
                }
            }
            assert(!decimal_ok(b));
        }
    }
    r
}

} // verus!
