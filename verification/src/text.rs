//! Decimal text: formatting integers into strings and reading them back.
//!
//! Everything the pipeline prints or parses is plain ASCII decimal text, so
//! the whole vocabulary is defined here once: digit characters, the decimal
//! image of an integer, and the value of a digit string.

use vstd::prelude::*;

verus! {

// ---------------------------------------------------------------------------
// Specification vocabulary
// ---------------------------------------------------------------------------

/// The character for a single decimal digit value.
pub open spec fn digit_char(d: int) -> char {
    ((48 + d) as u8) as char
}

pub open spec fn is_digit(c: char) -> bool {
    '0' <= c && c <= '9'
}

pub open spec fn digit_val(c: char) -> int {
    c as int - 48
}

pub open spec fn all_digits(s: Seq<char>) -> bool {
    forall|i: int| 0 <= i < s.len() ==> is_digit(s[i])
}

/// Decimal image of a non-negative integer, without sign or padding.
pub open spec fn dec_str(n: int) -> Seq<char>
    recommends
        n >= 0,
    decreases n,
{
    if n < 10 {
        seq![digit_char(n)]
    } else {
        dec_str(n / 10) + seq![digit_char(n % 10)]
    }
}

/// Decimal image of an integer, with a leading minus sign when negative.
pub open spec fn int_str(n: int) -> Seq<char> {
    if n < 0 {
        seq!['-'] + dec_str(-n)
    } else {
        dec_str(n)
    }
}

/// Value of a digit string read most-significant first.
pub open spec fn digits_val(s: Seq<char>) -> int
    decreases s.len(),
{
    if s.len() == 0 {
        0
    } else {
        digits_val(s.drop_last()) * 10 + digit_val(s.last())
    }
}

pub open spec fn pow10(n: nat) -> int
    decreases n,
{
    if n == 0 {
        1
    } else {
        10 * pow10((n - 1) as nat)
    }
}

/// A digit string's value is bounded by the power of ten of its length.
pub proof fn lemma_digits_val_bound(s: Seq<char>)
    requires
        all_digits(s),
    ensures
        0 <= digits_val(s) < pow10(s.len()),
    decreases s.len(),
{
    if s.len() > 0 {
        assert(all_digits(s.drop_last()));
        lemma_digits_val_bound(s.drop_last());
        assert(is_digit(s.last()));
    }
}

/// Leading zeros do not change a digit run's value.
pub proof fn lemma_digits_val_skip_zeros(s: Seq<char>, k: int)
    requires
        0 <= k <= s.len(),
        forall|j: int| 0 <= j < k ==> s[j] == '0',
    ensures
        digits_val(s) == digits_val(s.skip(k)),
    decreases s.len(),
{
    if k == 0 {
        assert(s.skip(0) =~= s);
    } else if s.len() == k {
        lemma_digits_val_skip_zeros(s.drop_last(), k - 1);
        assert(s.drop_last().skip(k - 1) =~= Seq::<char>::empty());
        assert(s.skip(k) =~= Seq::<char>::empty());
    } else {
        lemma_digits_val_skip_zeros(s.drop_last(), k);
        assert(s.drop_last().skip(k) =~= s.skip(k).drop_last());
        assert(s.skip(k).last() == s.last());
    }
}

/// A digit run that does not begin with a zero is at least the power of ten
/// of its length less one.
pub proof fn lemma_digits_val_lower(s: Seq<char>)
    requires
        all_digits(s),
        s.len() >= 1,
        s[0] != '0',
    ensures
        digits_val(s) >= pow10((s.len() - 1) as nat),
    decreases s.len(),
{
    if s.len() == 1 {
        assert(is_digit(s[0]));
        assert(s.last() == s[0]);
        assert(digits_val(s) == digits_val(s.drop_last()) * 10 + digit_val(s.last()));
        assert(digits_val(s.drop_last()) == 0);
        assert(pow10(0) == 1);
    } else {
        assert(all_digits(s.drop_last()));
        lemma_digits_val_lower(s.drop_last());
        assert(is_digit(s.last()));
        assert(pow10((s.len() - 1) as nat) == 10 * pow10((s.len() - 2) as nat));
        assert(digits_val(s.drop_last()) >= pow10((s.len() - 2) as nat));
    }
}

// ---------------------------------------------------------------------------
// Formatting
// ---------------------------------------------------------------------------

/// Relies on `String::push` from std: appends exactly the one character.
#[verifier::external_body]
pub fn push_char(s: &mut String, c: char)
    ensures
        final(s)@ == old(s)@.push(c),
{
    s.push(c);
}

/// Appends the decimal image of `v` to `s`.
pub fn push_u64(s: &mut String, v: u64)
    ensures
        final(s)@ == old(s)@ + dec_str(v as int),
    decreases v,
{
    if v < 10 {
        push_char(s, ((48 + v as u8)) as char);
        proof {
            assert(final(s)@ =~= old(s)@ + dec_str(v as int));
        }
    } else {
        push_u64(s, v / 10);
        push_char(s, ((48 + (v % 10) as u8)) as char);
        proof {
            assert(final(s)@ =~= old(s)@ + dec_str(v as int));
        }
    }
}

/// Appends the signed decimal image of `v` to `s`.
pub fn push_i64(s: &mut String, v: i64)
    ensures
        final(s)@ == old(s)@ + int_str(v as int),
{
    if v < 0 {
        push_char(s, '-');
        let m: u64 = (-(v as i128)) as u64;
        push_u64(s, m);
        proof {
            assert(final(s)@ =~= old(s)@ + int_str(v as int));
        }
    } else {
        push_u64(s, v as u64);
    }
}

/// Exactly five digits: the fractional image of `v` hundred-thousandths.
pub open spec fn frac5_str(n: int) -> Seq<char> {
    seq![
        digit_char(n / 10000 % 10),
        digit_char(n / 1000 % 10),
        digit_char(n / 100 % 10),
        digit_char(n / 10 % 10),
        digit_char(n % 10),
    ]
}

/// Appends `v` as exactly five zero-padded digits.
pub fn push_frac5(s: &mut String, v: u64)
    requires
        v < 100000,
    ensures
        final(s)@ == old(s)@ + frac5_str(v as int),
{
    push_char(s, (48 + (v / 10000 % 10) as u8) as char);
    push_char(s, (48 + (v / 1000 % 10) as u8) as char);
    push_char(s, (48 + (v / 100 % 10) as u8) as char);
    push_char(s, (48 + (v / 10 % 10) as u8) as char);
    push_char(s, (48 + (v % 10) as u8) as char);
    proof {
        assert(final(s)@ =~= old(s)@ + frac5_str(v as int));
    }
}

/// Every character of a non-negative decimal image is a digit.
pub proof fn lemma_dec_str_digits(n: int)
    requires
        n >= 0,
    ensures
        all_digits(dec_str(n)),
    decreases n,
{
    if n >= 10 {
        lemma_dec_str_digits(n / 10);
    }
}

/// The decimal image of an integer holds only digits, apart from a leading
/// minus sign on negative values; in particular it holds no whitespace.
pub proof fn lemma_int_str_shape(n: int)
    ensures
        n >= 0 ==> all_digits(int_str(n)),
        n < 0 ==> int_str(n)[0] == '-' && all_digits(int_str(n).skip(1)),
        forall|i: int|
            0 <= i < int_str(n).len() ==> (int_str(n)[i] == '-' || is_digit(int_str(n)[i])),
{
    if n < 0 {
        lemma_dec_str_digits(-n);
        assert(int_str(n).skip(1) =~= dec_str(-n));
    } else {
        lemma_dec_str_digits(n);
    }
}

// ---------------------------------------------------------------------------
// Parsing
// ---------------------------------------------------------------------------

/// Value of a digit run of one to nineteen digits; longer or malformed runs
/// are rejected.  Nineteen digits keep every value below 10^19, inside the
/// machine's unsigned words; every signed value of sixty-four bits has at
/// most nineteen digits, so the signed bound is applied on the value, in
/// `int_of_text`.
pub open spec fn dec_of_text(s: Seq<char>) -> Option<int> {
    if 1 <= s.len() <= 19 && all_digits(s) {
        Some(digits_val(s))
    } else {
        None
    }
}

/// Value of an optionally minus-signed digit run, when the value fits a
/// signed sixty-four-bit word.
pub open spec fn int_of_text(s: Seq<char>) -> Option<int> {
    if s.len() > 0 && s[0] == '-' {
        match dec_of_text(s.skip(1)) {
            Some(v) => if -v >= i64::MIN as int {
                Some(-v)
            } else {
                None
            },
            None => None,
        }
    } else {
        match dec_of_text(s) {
            Some(v) => if v <= i64::MAX as int {
                Some(v)
            } else {
                None
            },
            None => None,
        }
    }
}

/// Reads the digit run `s[from..to]`; mirrors `dec_of_text` on that range.
pub fn parse_dec_digits(s: &str, from: usize, to: usize) -> (r: Option<u64>)
    requires
        from <= to <= s@.len(),
    ensures
        match r {
            Some(v) => dec_of_text(s@.subrange(from as int, to as int)) == Some(v as int),
            None => dec_of_text(s@.subrange(from as int, to as int)) is None,
        },
{
    let n = to - from;
    if n < 1 || n > 19 {
        return None;
    }
    let mut acc: u64 = 0;
    let mut i: usize = from;
    while i < to
        invariant
            from <= i <= to <= s@.len(),
            1 <= to - from <= 19,
            all_digits(s@.subrange(from as int, i as int)),
            acc == digits_val(s@.subrange(from as int, i as int)),
            0 <= acc < pow10((i - from) as nat),
        decreases to - i,
    {
        let c = s.get_char(i);
        if c < '0' || c > '9' {
            proof {
                assert(!is_digit(s@.subrange(from as int, to as int)[i - from]));
            }
            return None;
        }
        let d: u64 = (c as u32 as u64) - 48;
        proof {
            reveal_with_fuel(pow10, 20);
            lemma_digits_val_bound(s@.subrange(from as int, i as int));
        }
        acc = acc * 10 + d;
        i = i + 1;
        proof {
            assert(s@.subrange(from as int, i as int).drop_last() =~= s@.subrange(
                from as int,
                i - 1,
            ));
        }
    }
    proof {
        assert(s@.subrange(from as int, to as int) =~= s@.subrange(from as int, i as int));
    }
    Some(acc)
}

/// Reads a whole string as an optionally minus-signed integer.
pub fn parse_int_text(s: &str) -> (r: Option<i64>)
    ensures
        match r {
            Some(v) => int_of_text(s@) == Some(v as int),
            None => int_of_text(s@) is None,
        },
{
    let n = s.unicode_len();
    if n == 0 {
        return None;
    }
    let c0 = s.get_char(0);
    if c0 == '-' {
        proof {
            assert(s@.subrange(1, n as int) =~= s@.skip(1));
        }
        match parse_dec_digits(s, 1, n) {
            Some(v) => {
                if v < 9223372036854775808 {
                    Some(-(v as i64))
                } else if v == 9223372036854775808 {
                    Some(i64::MIN)
                } else {
                    None
                }
            },
            None => None,
        }
    } else {
        proof {
            assert(s@.subrange(0, n as int) =~= s@);
        }
        match parse_dec_digits(s, 0, n) {
            Some(v) => {
                if v <= 9223372036854775807 {
                    Some(v as i64)
                } else {
                    None
                }
            },
            None => None,
        }
    }
}

/// Value of a port number: an optionally plus-signed, non-empty digit run
/// whose value fits sixteen bits.  Leading zeros carry no weight.
pub open spec fn u16_of_text(s: Seq<char>) -> Option<u16> {
    let t = if s.len() > 0 && s[0] == '+' {
        s.skip(1)
    } else {
        s
    };
    if 1 <= t.len() && all_digits(t) && digits_val(t) <= 65535 {
        Some(digits_val(t) as u16)
    } else {
        None
    }
}

/// Reads a whole string as a sixteen-bit port number.
pub fn parse_u16_text(s: &str) -> (r: Option<u16>)
    ensures
        r == u16_of_text(s@),
{
    let n = s.unicode_len();
    if n == 0 {
        return None;
    }
    let c0 = s.get_char(0);
    let from: usize = if c0 == '+' {
        1
    } else {
        0
    };
    let ghost t = if c0 == '+' {
        s@.skip(1)
    } else {
        s@
    };
    proof {
        assert(t =~= s@.subrange(from as int, n as int));
    }
    if n == from {
        return None;
    }
    // step over the leading zeros
    let mut z: usize = from;
    while z < n && s.get_char(z) == '0'
        invariant
            from <= z <= n == s@.len(),
            forall|j: int| from <= j < z ==> s@[j] == '0',
        decreases n - z,
    {
        z = z + 1;
    }
    if z == n {
        // nothing but zeros: the value is zero
        proof {
            assert forall|j: int| 0 <= j < t.len() implies is_digit(t[j]) by {
                assert(t[j] == s@[from + j]);
            }
            lemma_digits_val_skip_zeros(t, n - from);
            assert(t.skip(n - from) =~= Seq::<char>::empty());
        }
        return Some(0);
    }
    if n - z > 5 {
        // at least six significant characters: either some character is no
        // digit, or the value is at least 10^5
        proof {
            if all_digits(t) {
                assert forall|j: int| 0 <= j < n - z implies is_digit(
                    #[trigger] s@.subrange(z as int, n as int)[j],
                ) by {
                    assert(s@.subrange(z as int, n as int)[j] == t[j + (z - from)]);
                }
                lemma_digits_val_lower(s@.subrange(z as int, n as int));
                lemma_pow10_small();
                lemma_pow10_mono(5, (n - z - 1) as nat);
                lemma_digits_val_skip_zeros(t, z - from);
                assert(t.skip(z - from) =~= s@.subrange(z as int, n as int));
            }
        }
        return None;
    }
    match parse_dec_digits(s, z, n) {
        Some(v) => {
            proof {
                assert forall|j: int| 0 <= j < t.len() implies is_digit(t[j]) by {
                    if j < z - from {
                        assert(t[j] == s@[from + j]);
                    } else {
                        assert(t[j] == s@.subrange(z as int, n as int)[j - (z - from)]);
                    }
                }
                lemma_digits_val_skip_zeros(t, z - from);
                assert(t.skip(z - from) =~= s@.subrange(z as int, n as int));
            }
            if v <= 65535 {
                Some(v as u16)
            } else {
                None
            }
        },
        None => {
            // the significant run holds a character that is no digit
            proof {
                if all_digits(t) {
                    assert forall|j: int| 0 <= j < n - z implies is_digit(
                        #[trigger] s@.subrange(z as int, n as int)[j],
                    ) by {
                        assert(s@.subrange(z as int, n as int)[j] == t[j + (z - from)]);
                    }
                    assert(false);
                }
            }
            None
        },
    }
}

// ---------------------------------------------------------------------------
// Fixed-point coordinate text: five decimal places
// ---------------------------------------------------------------------------

/// Index of the first `.` in `s`, if any.
pub open spec fn dot_pos(s: Seq<char>) -> Option<int>
    decreases s.len(),
{
    if s.len() == 0 {
        None
    } else if s[0] == '.' {
        Some(0)
    } else {
        match dot_pos(s.drop_first()) {
            Some(p) => Some(p + 1),
            None => None,
        }
    }
}

pub proof fn lemma_dot_pos(s: Seq<char>, i: int)
    requires
        0 <= i <= s.len(),
        forall|j: int| 0 <= j < i ==> s[j] != '.',
        i < s.len() ==> s[i] == '.',
    ensures
        i < s.len() ==> dot_pos(s) == Some(i),
        i == s.len() ==> dot_pos(s) is None,
    decreases s.len(),
{
    if s.len() > 0 {
        if s[0] == '.' {
        } else {
            lemma_dot_pos(s.drop_first(), i - 1);
        }
    }
}

pub proof fn lemma_pow10_pos(n: nat)
    ensures
        pow10(n) >= 1,
    decreases n,
{
    if n > 0 {
        lemma_pow10_pos((n - 1) as nat);
    }
}

pub proof fn lemma_pow10_mono(a: nat, b: nat)
    requires
        a <= b,
    ensures
        pow10(a) <= pow10(b),
    decreases b,
{
    lemma_pow10_pos(a);
    if b > a {
        lemma_pow10_mono(a, (b - 1) as nat);
        lemma_pow10_pos((b - 1) as nat);
    }
}

pub proof fn lemma_pow10_small()
    ensures
        pow10(0) == 1 && pow10(1) == 10 && pow10(2) == 100 && pow10(3) == 1000 && pow10(4)
            == 10000 && pow10(5) == 100000,
        pow10(13) == 10000000000000,
        pow10(17) == 100000000000000000,
        pow10(18) == 1000000000000000000,
{
    reveal_with_fuel(pow10, 20);
}

/// Value of the first five fractional digits, padded with zeros on the right.
pub open spec fn frac5_val(fp: Seq<char>) -> int {
    if fp.len() >= 5 {
        digits_val(fp.take(5))
    } else {
        digits_val(fp) * pow10((5 - fp.len()) as nat)
    }
}

/// One when the sixth fractional digit rounds the fifth up, else zero.
pub open spec fn round_bump(fp: Seq<char>) -> int {
    if fp.len() >= 6 && digit_val(fp[5]) >= 5 {
        1
    } else {
        0
    }
}

/// The five rounded fractional places always stay at or below 10^5.
pub proof fn lemma_frac5_bound(fp: Seq<char>)
    requires
        1 <= fp.len(),
        all_digits(fp),
    ensures
        0 <= frac5_val(fp) < 100000,
        0 <= frac5_val(fp) + round_bump(fp) <= 100000,
{
    lemma_pow10_small();
    if fp.len() >= 5 {
        assert(all_digits(fp.take(5)));
        lemma_digits_val_bound(fp.take(5));
    } else {
        lemma_digits_val_bound(fp);
        if fp.len() == 1 {
            assert(digits_val(fp) < 10);
        } else if fp.len() == 2 {
            assert(digits_val(fp) < 100);
        } else if fp.len() == 3 {
            assert(digits_val(fp) < 1000);
        } else {
            assert(digits_val(fp) < 10000);
        }
    }
}

/// Magnitude of an unsigned decimal numeral, scaled by 10^5 and rounded to
/// five decimal places.  The whole part may hold at most thirteen digits,
/// which keeps every accepted value below 10^18.
pub open spec fn dec5_mag(s: Seq<char>) -> Option<int> {
    match dot_pos(s) {
        None => if 1 <= s.len() <= 13 && all_digits(s) {
            Some(digits_val(s) * 100000)
        } else {
            None
        },
        Some(d) => {
            let ip = s.take(d);
            let fp = s.skip(d + 1);
            if 1 <= ip.len() <= 13 && all_digits(ip) && 1 <= fp.len() && all_digits(fp) {
                Some(digits_val(ip) * 100000 + frac5_val(fp) + round_bump(fp))
            } else {
                None
            }
        },
    }
}

/// Value of an optionally minus-signed decimal numeral in hundred-thousandths.
pub open spec fn dec5_of_text(s: Seq<char>) -> Option<int> {
    if s.len() > 0 && s[0] == '-' {
        match dec5_mag(s.skip(1)) {
            Some(v) => Some(-v),
            None => None,
        }
    } else {
        dec5_mag(s)
    }
}

/// Reads the digit run `s[from..to]` as five rounded decimal places,
/// mirroring `frac5_val` plus `round_bump` on that range.
fn parse_frac5(s: &str, from: usize, to: usize) -> (r: Option<u64>)
    requires
        from < to <= s@.len(),
    ensures
        match r {
            Some(v) => all_digits(s@.subrange(from as int, to as int)) && v == frac5_val(
                s@.subrange(from as int, to as int),
            ) + round_bump(s@.subrange(from as int, to as int)),
            None => !all_digits(s@.subrange(from as int, to as int)),
        },
{
    let ghost fp = s@.subrange(from as int, to as int);
    // every character must be a digit, even past the rounding point
    let mut i: usize = from;
    while i < to
        invariant
            from <= i <= to <= s@.len(),
            all_digits(s@.subrange(from as int, i as int)),
        decreases to - i,
    {
        let c = s.get_char(i);
        if c < '0' || c > '9' {
            proof {
                assert(s@.subrange(from as int, to as int)[i - from] == s@[i as int]);
                assert(!is_digit(s@.subrange(from as int, to as int)[i - from]));
            }
            return None;
        }
        i = i + 1;
        proof {
            assert(s@.subrange(from as int, i as int).drop_last() =~= s@.subrange(
                from as int,
                i - 1,
            ));
            assert(is_digit(s@.subrange(from as int, i as int).last()));
        }
    }
    proof {
        assert(fp =~= s@.subrange(from as int, i as int));
    }
    let n = to - from;
    let head = if n >= 5 {
        from + 5
    } else {
        to
    };
    let v = match parse_dec_digits(s, from, head) {
        Some(v) => v,
        None => {
            proof {
                assert(all_digits(s@.subrange(from as int, head as int)));
            }
            return None;  // unreachable: the run is short and all digits
        },
    };
    proof {
        if n >= 5 {
            assert(s@.subrange(from as int, head as int) =~= fp.take(5));
        } else {
            assert(s@.subrange(from as int, head as int) =~= fp);
        }
        lemma_pow10_small();
        lemma_digits_val_bound(s@.subrange(from as int, head as int));
        lemma_frac5_bound(fp);
    }
    let scaled: u64 = if n == 1 {
        v * 10000
    } else if n == 2 {
        v * 1000
    } else if n == 3 {
        v * 100
    } else if n == 4 {
        v * 10
    } else {
        v
    };
    proof {
        assert(scaled == frac5_val(fp));
    }
    let bump: u64 = if n >= 6 {
        let c6 = s.get_char(from + 5);
        proof {
            assert(fp[5] == s@[from + 5]);
        }
        if c6 >= '5' {
            1
        } else {
            0
        }
    } else {
        0
    };
    Some(scaled + bump)
}

/// Reads a whole string as an optionally minus-signed decimal numeral with
/// five rounded decimal places, in hundred-thousandths.
pub fn parse_dec5_text(s: &str) -> (r: Option<i64>)
    ensures
        match r {
            Some(v) => dec5_of_text(s@) == Some(v as int),
            None => dec5_of_text(s@) is None,
        },
{
    let n = s.unicode_len();
    if n == 0 {
        return None;
    }
    let c0 = s.get_char(0);
    let from: usize = if c0 == '-' {
        1
    } else {
        0
    };
    let ghost mag = if c0 == '-' {
        s@.skip(1)
    } else {
        s@
    };
    proof {
        assert(mag =~= s@.subrange(from as int, n as int));
    }
    // locate the first dot within the magnitude
    let mut dot: usize = from;
    while dot < n && s.get_char(dot) != '.'
        invariant
            from <= dot <= n == s@.len(),
            forall|j: int| from <= j < dot ==> s@[j] != '.',
        decreases n - dot,
    {
        dot = dot + 1;
    }
    proof {
        lemma_dot_pos(mag, dot - from);
    }
    let m = match parse_dec5_mag(s, from, dot, n) {
        Some(m) => m,
        None => {
            return None;
        },
    };
    if c0 == '-' {
        Some(-(m as i64))
    } else {
        Some(m as i64)
    }
}

/// Reads `s[from..n]` as an unsigned five-place numeral whose first dot, if
/// any, stands at `dot`; mirrors `dec5_mag` on that range.
fn parse_dec5_mag(s: &str, from: usize, dot: usize, n: usize) -> (r: Option<u64>)
    requires
        from <= dot <= n == s@.len(),
        dot < n ==> s@[dot as int] == '.',
        forall|j: int| from <= j < dot ==> s@[j] != '.',
        dot == n ==> dot_pos(s@.subrange(from as int, n as int)) is None,
        dot < n ==> dot_pos(s@.subrange(from as int, n as int)) == Some(dot - from),
    ensures
        match r {
            Some(v) => dec5_mag(s@.subrange(from as int, n as int)) == Some(v as int) && v
                <= 1000000000000000000,
            None => dec5_mag(s@.subrange(from as int, n as int)) is None,
        },
{
    let ghost mag = s@.subrange(from as int, n as int);
    if dot == n {
        // no fractional part
        if n - from < 1 || n - from > 13 {
            return None;
        }
        match parse_dec_digits(s, from, n) {
            Some(v) => {
                proof {
                    lemma_pow10_small();
                    lemma_digits_val_bound(mag);
                    lemma_pow10_mono(mag.len(), 13);
                }
                Some(v * 100000)
            },
            None => None,
        }
    } else {
        if dot - from < 1 || dot - from > 13 || n - dot < 2 {
            return None;
        }
        let ghost ip = mag.take(dot - from);
        let ghost fp = mag.skip(dot - from + 1);
        proof {
            assert(ip =~= s@.subrange(from as int, dot as int));
            assert(fp =~= s@.subrange(dot + 1, n as int));
        }
        let iv = match parse_dec_digits(s, from, dot) {
            Some(v) => v,
            None => {
                return None;
            },
        };
        let fv = match parse_frac5(s, dot + 1, n) {
            Some(v) => v,
            None => {
                return None;
            },
        };
        proof {
            lemma_pow10_small();
            lemma_digits_val_bound(ip);
            lemma_pow10_mono(ip.len(), 13);
            assert(iv <= 9999999999999);
            lemma_frac5_bound(fp);
            assert(fv <= 100000);
        }
        Some(iv * 100000 + fv)
    }
}

} // verus!
