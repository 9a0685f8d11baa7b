//! Fixed-point decimal values.
//!
//! The instrument's numeric parameters (wavelength in nanometers, GDD
//! compensation, beam power) are decimals with at most a few fractional
//! digits. The library holds them as a count of thousandths, so that the
//! wire formatting and parsing can be stated and proved exactly.

use vstd::prelude::*;

verus! {

/// A decimal number held as thousandths: `Milli { milli: 840500 }` is 840.5.
#[derive(Debug, PartialEq, Eq, Structural, Clone, Copy)]
pub struct Milli {
    pub milli: i64,
}

impl View for Milli {
    type V = Milli;

    open spec fn view(&self) -> Milli {
        *self
    }
}

impl Milli {
    /// The value `whole` units, no fractional part.
    pub fn from_whole(whole: i64) -> (r: Self)
        requires
            -9_223_372_036_854_775 <= whole <= 9_223_372_036_854_775,
        ensures
            r.milli == whole * 1000,
    {
        Milli { milli: whole * 1000 }
    }

    /// The value `milli` thousandths.
    pub fn from_milli(milli: i64) -> (r: Self)
        ensures
            r.milli == milli,
    {
        Milli { milli }
    }
}

pub open spec fn spec_is_digit(c: char) -> bool {
    '0' <= c && c <= '9'
}

pub open spec fn spec_digit_val(c: char) -> int {
    c as int - '0' as int
}

pub open spec fn spec_digit_char(d: int) -> char {
    if d == 0 {
        '0'
    } else if d == 1 {
        '1'
    } else if d == 2 {
        '2'
    } else if d == 3 {
        '3'
    } else if d == 4 {
        '4'
    } else if d == 5 {
        '5'
    } else if d == 6 {
        '6'
    } else if d == 7 {
        '7'
    } else if d == 8 {
        '8'
    } else {
        '9'
    }
}

pub open spec fn spec_all_digits(s: Seq<char>) -> bool {
    forall|i: int| 0 <= i < s.len() ==> spec_is_digit(#[trigger] s[i])
}

/// The numeric value of a digit string, most significant digit first.
pub open spec fn spec_digits_val(s: Seq<char>) -> int
    decreases s.len(),
{
    if s.len() == 0 {
        0
    } else {
        spec_digits_val(s.drop_last()) * 10 + spec_digit_val(s.last())
    }
}

/// The decimal digit string of a natural number, without leading zeros.
pub open spec fn spec_nat_digits(n: nat) -> Seq<char>
    decreases n,
{
    if n < 10 {
        seq![spec_digit_char(n as int)]
    } else {
        spec_nat_digits(n / 10) + seq![spec_digit_char((n % 10) as int)]
    }
}

/// The fractional digits of `f` thousandths (`1 <= f <= 999`), zero padded
/// to three places and then stripped of trailing zeros.
pub open spec fn spec_frac_digits(f: int) -> Seq<char> {
    let d1 = spec_digit_char(f / 100);
    let d2 = spec_digit_char((f / 10) % 10);
    let d3 = spec_digit_char(f % 10);
    if f % 10 != 0 {
        seq![d1, d2, d3]
    } else if (f / 10) % 10 != 0 {
        seq![d1, d2]
    } else {
        seq![d1]
    }
}

/// How a `Milli` value renders in decimal: a possible minus sign, the whole
/// part, and — when the value has a fractional part — a dot and the
/// fractional digits with trailing zeros stripped.
pub open spec fn spec_format_milli(m: int) -> Seq<char> {
    let a = if m < 0 { -m } else { m };
    let whole = spec_nat_digits((a / 1000) as nat);
    let digits = if a % 1000 == 0 {
        whole
    } else {
        whole + seq!['.'] + spec_frac_digits(a % 1000)
    };
    if m < 0 {
        seq!['-'] + digits
    } else {
        digits
    }
}

fn digit_str(d: u64) -> (r: &'static str)
    requires
        d < 10,
    ensures
        r@ == seq![spec_digit_char(d as int)],
{
    proof {
        reveal_strlit("0");
        reveal_strlit("1");
        reveal_strlit("2");
        reveal_strlit("3");
        reveal_strlit("4");
        reveal_strlit("5");
        reveal_strlit("6");
        reveal_strlit("7");
        reveal_strlit("8");
        reveal_strlit("9");
    }
    let r: &'static str = if d == 0 {
        "0"
    } else if d == 1 {
        "1"
    } else if d == 2 {
        "2"
    } else if d == 3 {
        "3"
    } else if d == 4 {
        "4"
    } else if d == 5 {
        "5"
    } else if d == 6 {
        "6"
    } else if d == 7 {
        "7"
    } else if d == 8 {
        "8"
    } else {
        "9"
    };
    proof {
        assert(r@ =~= seq![spec_digit_char(d as int)]);
    }
    r
}

/// Render a natural number in decimal, most significant digit first.
pub fn nat_digits_string(n: u64) -> (r: String)
    ensures
        r@ == spec_nat_digits(n as nat),
    decreases n,
{
    if n < 10 {
        String::from_str(digit_str(n))
    } else {
        let mut s = nat_digits_string(n / 10);
        s.append(digit_str(n % 10));
        s
    }
}

/// Render a `Milli` value exactly as [`spec_format_milli`] describes.
pub fn format_milli(m: Milli) -> (r: String)
    ensures
        r@ == spec_format_milli(m.milli as int),
{
    let mag: u64 = if m.milli >= 0 {
        m.milli as u64
    } else {
        ((-(m.milli + 1)) as u64) + 1
    };
    let whole = nat_digits_string(mag / 1000);
    let frac: u64 = mag % 1000;
    let mut body = whole;
    if frac != 0 {
        proof {
            reveal_strlit(".");
            assert("."@ =~= seq!['.']);
        }
        body.append(".");
        let d1: u64 = frac / 100;
        let d2: u64 = (frac / 10) % 10;
        let d3: u64 = frac % 10;
        if d3 != 0 {
            body.append(digit_str(d1));
            body.append(digit_str(d2));
            body.append(digit_str(d3));
            proof {
                assert(body@ =~= spec_format_milli(m.milli as int).skip(
                    if m.milli < 0 { 1int } else { 0int }));
            }
        } else if d2 != 0 {
            body.append(digit_str(d1));
            body.append(digit_str(d2));
            proof {
                assert(body@ =~= spec_format_milli(m.milli as int).skip(
                    if m.milli < 0 { 1int } else { 0int }));
            }
        } else {
            body.append(digit_str(d1));
            proof {
                assert(body@ =~= spec_format_milli(m.milli as int).skip(
                    if m.milli < 0 { 1int } else { 0int }));
            }
        }
    }
    if m.milli < 0 {
        proof {
            reveal_strlit("-");
            assert("-"@ =~= seq!['-']);
        }
        let mut out = String::from_str("-");
        out.append(body.as_str());
        proof {
            assert(out@ =~= spec_format_milli(m.milli as int));
        }
        out
    } else {
        proof {
            assert(body@ =~= spec_format_milli(m.milli as int));
        }
        body
    }
}

/// Splitting a character sequence at its first `'.'`: the part before it,
/// and — when a dot is present — the part after it.
pub open spec fn spec_split_dot(s: Seq<char>) -> (Seq<char>, Option<Seq<char>>)
    decreases s.len(),
{
    if s.len() == 0 {
        (seq![], None)
    } else if s[0] == '.' {
        (seq![], Some(s.drop_first()))
    } else {
        let (ip, fr) = spec_split_dot(s.drop_first());
        (seq![s[0]] + ip, fr)
    }
}

/// The value in thousandths of a fractional digit string: the first three
/// digits, zero padded on the right.
pub open spec fn spec_frac3_val(f: Seq<char>) -> int {
    let d1 = if f.len() >= 1 { spec_digit_val(f[0]) } else { 0 };
    let d2 = if f.len() >= 2 { spec_digit_val(f[1]) } else { 0 };
    let d3 = if f.len() >= 3 { spec_digit_val(f[2]) } else { 0 };
    d1 * 100 + d2 * 10 + d3
}

/// What a decimal string parses to, in thousandths: an optional minus sign,
/// a nonempty run of digits, and an optional dot followed by digits, of
/// which the fourth and later are truncated away. Whole parts of a
/// quadrillion or more are rejected so the result always fits the type.
pub open spec fn spec_parse_milli(s: Seq<char>) -> Option<int> {
    let neg = s.len() > 0 && s[0] == '-';
    let body = if neg { s.drop_first() } else { s };
    let parts = spec_split_dot(body);
    let fd = match parts.1 {
        Some(f) => f,
        None => seq![],
    };
    if parts.0.len() >= 1 && spec_all_digits(parts.0) && spec_all_digits(fd)
        && spec_digits_val(parts.0) < 1_000_000_000_000_000 {
        let mag = spec_digits_val(parts.0) * 1000 + spec_frac3_val(fd);
        Some(if neg { -mag } else { mag })
    } else {
        None
    }
}

/// Extending a digit string by one character multiplies its value by ten.
proof fn lemma_digits_val_step(s: Seq<char>, i: int)
    requires
        0 <= i < s.len(),
    ensures
        spec_digits_val(s.subrange(0, i + 1)) == spec_digits_val(s.subrange(0, i)) * 10
            + spec_digit_val(s[i]),
{
    let t = s.subrange(0, i + 1);
    assert(t.drop_last() =~= s.subrange(0, i));
    assert(t.last() == s[i]);
}

/// A digit string has a nonnegative value.
proof fn lemma_digits_val_nonneg(s: Seq<char>)
    requires
        spec_all_digits(s),
    ensures
        spec_digits_val(s) >= 0,
    decreases s.len(),
{
    if s.len() > 0 {
        assert(spec_all_digits(s.drop_last()));
        lemma_digits_val_nonneg(s.drop_last());
    }
}

/// A prefix of a digit string is worth no more than the whole string.
proof fn lemma_digits_val_prefix_le(s: Seq<char>, i: int)
    requires
        spec_all_digits(s),
        0 <= i <= s.len(),
    ensures
        spec_digits_val(s.subrange(0, i)) <= spec_digits_val(s),
    decreases s.len() - i,
{
    if i == s.len() {
        assert(s.subrange(0, i) =~= s);
    } else {
        lemma_digits_val_step(s, i);
        assert(spec_all_digits(s.subrange(0, i)));
        lemma_digits_val_nonneg(s.subrange(0, i));
        lemma_digits_val_prefix_le(s, i + 1);
    }
}

/// Where the first dot of a string stands determines what
/// [`spec_split_dot`] returns.
proof fn lemma_split_dot_at(s: Seq<char>, k: int)
    requires
        0 <= k <= s.len(),
        forall|j: int| 0 <= j < k ==> s[j] != '.',
        k == s.len() || s[k] == '.',
    ensures
        spec_split_dot(s).0 =~= s.subrange(0, k),
        spec_split_dot(s).1 == if k == s.len() {
            Option::<Seq<char>>::None
        } else {
            Some(s.subrange(k + 1, s.len() as int))
        },
    decreases s.len(),
{
    if s.len() == 0 {
        assert(spec_split_dot(s).0 =~= s.subrange(0, k));
    } else if k == 0 {
        if s[0] == '.' {
            assert(s.drop_first() =~= s.subrange(1, s.len() as int));
        }
    } else {
        let d = s.drop_first();
        lemma_split_dot_at(d, k - 1);
        assert(seq![s[0]] + d.subrange(0, k - 1) =~= s.subrange(0, k));
        if k < s.len() {
            assert(d.subrange(k, d.len() as int) =~= s.subrange(k + 1, s.len() as int));
        }
    }
}

/// Parse a decimal string into thousandths, exactly as
/// [`spec_parse_milli`] describes.
#[verifier::loop_isolation(false)]
#[verifier::rlimit(50)]
pub fn parse_milli(s: &str) -> (r: Option<Milli>)
    ensures
        match r {
            Some(m) => spec_parse_milli(s@) == Some(m.milli as int),
            None => spec_parse_milli(s@) is None,
        },
{
    let n = s.unicode_len();
    let neg = n > 0 && s.get_char(0) == '-';
    let start: usize = if neg { 1 } else { 0 };
    let ghost body = if neg { s@.drop_first() } else { s@ };
    assert(body =~= s@.subrange(start as int, n as int));

    // Locate the first dot after the sign, if any.
    let mut dot: usize = n;
    let mut i: usize = start;
    while i < n
        invariant
            start <= i <= n,
            start <= dot <= n,
            n == s@.len(),
            dot == n ==> forall|j: int| start <= j < i ==> s@[j] != '.',
            dot < n ==> dot < i && s@[dot as int] == '.' && forall|j: int|
                start <= j < dot ==> s@[j] != '.',
        decreases n - i,
    {
        if dot == n && s.get_char(i) == '.' {
            dot = i;
        }
        i += 1;
    }
    proof {
        lemma_split_dot_at(body, dot - start);
    }
    let ghost ip = body.subrange(0, dot - start);
    assert(ip =~= s@.subrange(start as int, dot as int));
    let ghost fd = if dot < n { body.subrange(dot - start + 1, body.len() as int) } else {
        seq![]
    };
    assert(dot < n ==> fd =~= s@.subrange(dot as int + 1, n as int));

    if dot == start {
        // Empty whole part (this also covers an empty or lone-minus input).
        return None;
    }

    // The whole part.
    let mut acc: u64 = 0;
    let mut i: usize = start;
    while i < dot
        invariant
            start <= i <= dot <= n,
            n == s@.len(),
            ip =~= s@.subrange(start as int, dot as int),
            acc < 10_000_000_000_000_000,
            acc == spec_digits_val(s@.subrange(start as int, i as int)),
            spec_all_digits(s@.subrange(start as int, i as int)),
        decreases dot - i,
    {
        let c = s.get_char(i);
        let v = c as u32;
        if v < 48 || v > 57 {
            proof {
                assert(ip[i - start] == s@[i as int]);
                assert(!spec_is_digit(ip[i - start]));
            }
            return None;
        }
        if acc >= 1_000_000_000_000_000 {
            proof {
                if spec_all_digits(ip) {
                    assert(s@.subrange(start as int, i as int) =~= ip.subrange(0, i - start));
                    lemma_digits_val_prefix_le(ip, i - start);
                }
            }
            return None;
        }
        proof {
            lemma_digits_val_step(s@.subrange(start as int, dot as int), i - start);
            assert(s@.subrange(start as int, dot as int).subrange(0, i - start + 1) =~= s@
                .subrange(start as int, i as int + 1));
            assert(s@.subrange(start as int, dot as int).subrange(0, i - start) =~= s@.subrange(
                start as int, i as int));
        }
        acc = acc * 10 + ((v - 48) as u64);
        i += 1;
        proof {
            assert(spec_all_digits(s@.subrange(start as int, i as int)));
        }
    }
    assert(s@.subrange(start as int, i as int) =~= ip);
    if acc >= 1_000_000_000_000_000 {
        return None;
    }

    // The fractional part: every character must be a digit; only the first
    // three contribute.
    let mut frac3: u64 = 0;
    if dot < n {
        let mut d1: u64 = 0;
        let mut d2: u64 = 0;
        let mut d3: u64 = 0;
        let mut i: usize = dot + 1;
        while i < n
            invariant
                dot + 1 <= i <= n,
                n == s@.len(),
                dot < n,
                fd =~= s@.subrange(dot as int + 1, n as int),
                spec_all_digits(s@.subrange(dot as int + 1, i as int)),
                d1 == if i > dot + 1 { spec_digit_val(fd[0]) } else { 0 },
                d2 == if i > dot + 2 { spec_digit_val(fd[1]) } else { 0 },
                d3 == if i > dot + 3 { spec_digit_val(fd[2]) } else { 0 },
                d1 <= 9 && d2 <= 9 && d3 <= 9,
            decreases n - i,
        {
            let c = s.get_char(i);
            let v = c as u32;
            if v < 48 || v > 57 {
                proof {
                    assert(fd[i - dot - 1] == s@[i as int]);
                    assert(!spec_is_digit(fd[i - dot - 1]));
                }
                return None;
            }
            if i == dot + 1 {
                d1 = (v - 48) as u64;
            } else if i == dot + 2 {
                d2 = (v - 48) as u64;
            } else if i == dot + 3 {
                d3 = (v - 48) as u64;
            }
            i += 1;
            proof {
                assert(spec_all_digits(s@.subrange(dot as int + 1, i as int)));
            }
        }
        assert(s@.subrange(dot as int + 1, i as int) =~= fd);
        frac3 = d1 * 100 + d2 * 10 + d3;
        proof {
            assert(frac3 == spec_frac3_val(fd));
        }
    }

    let mag: u64 = acc * 1000 + frac3;
    let milli: i64 = if neg { -(mag as i64) } else { mag as i64 };
    Some(Milli { milli })
}

/// What a digit string parses to as a byte: defined when it is nonempty,
/// all digits, and at most 255.
pub open spec fn spec_parse_u8(s: Seq<char>) -> Option<u8> {
    if s.len() >= 1 && spec_all_digits(s) && spec_digits_val(s) <= 255 {
        Some(spec_digits_val(s) as u8)
    } else {
        None
    }
}

/// Parse a byte from a digit string, exactly as [`spec_parse_u8`] describes.
#[verifier::loop_isolation(false)]
pub fn parse_u8(s: &str) -> (r: Option<u8>)
    ensures
        r == spec_parse_u8(s@),
{
    let n = s.unicode_len();
    if n == 0 {
        return None;
    }
    let mut acc: u64 = 0;
    let mut i: usize = 0;
    while i < n
        invariant
            0 <= i <= n,
            n == s@.len(),
            n >= 1,
            acc <= 255,
            acc == spec_digits_val(s@.subrange(0, i as int)),
            spec_all_digits(s@.subrange(0, i as int)),
        decreases n - i,
    {
        let c = s.get_char(i);
        let v = c as u32;
        if v < 48 || v > 57 {
            proof {
                assert(s@.subrange(0, n as int) =~= s@);
                assert(!spec_is_digit(s@[i as int]));
            }
            return None;
        }
        proof {
            lemma_digits_val_step(s@, i as int);
            assert(s@.subrange(0, s@.len() as int) =~= s@);
        }
        acc = acc * 10 + ((v - 48) as u64);
        i += 1;
        proof {
            assert(spec_all_digits(s@.subrange(0, i as int)));
        }
        if acc > 255 {
            proof {
                assert(s@.subrange(0, n as int) =~= s@);
                if spec_all_digits(s@) {
                    lemma_digits_val_prefix_le(s@, i as int);
                }
            }
            return None;
        }
    }
    assert(s@.subrange(0, i as int) =~= s@);
    Some(acc as u8)
}

/// What a decimal string parses to as a 32-bit signed integer: an optional
/// minus sign and a nonempty run of digits, within the type's range.
pub open spec fn spec_parse_i32(s: Seq<char>) -> Option<i32> {
    let neg = s.len() > 0 && s[0] == '-';
    let body = if neg { s.drop_first() } else { s };
    if body.len() >= 1 && spec_all_digits(body) && (if neg {
        spec_digits_val(body) <= 2_147_483_648
    } else {
        spec_digits_val(body) <= 2_147_483_647
    }) {
        Some((if neg { -spec_digits_val(body) } else { spec_digits_val(body) }) as i32)
    } else {
        None
    }
}

/// Parse a 32-bit signed integer, exactly as [`spec_parse_i32`] describes.
#[verifier::loop_isolation(false)]
pub fn parse_i32(s: &str) -> (r: Option<i32>)
    ensures
        r == spec_parse_i32(s@),
{
    let n = s.unicode_len();
    let neg = n > 0 && s.get_char(0) == '-';
    let start: usize = if neg { 1 } else { 0 };
    let ghost body = if neg { s@.drop_first() } else { s@ };
    assert(body =~= s@.subrange(start as int, n as int));
    if n == start {
        return None;
    }
    let mut acc: u64 = 0;
    let mut i: usize = start;
    while i < n
        invariant
            start <= i <= n,
            n == s@.len(),
            body =~= s@.subrange(start as int, n as int),
            acc <= 2_147_483_648,
            acc == spec_digits_val(s@.subrange(start as int, i as int)),
            spec_all_digits(s@.subrange(start as int, i as int)),
        decreases n - i,
    {
        let c = s.get_char(i);
        let v = c as u32;
        if v < 48 || v > 57 {
            proof {
                assert(body[i - start] == s@[i as int]);
                assert(!spec_is_digit(body[i - start]));
            }
            return None;
        }
        proof {
            lemma_digits_val_step(body, i - start);
            assert(body.subrange(0, i - start + 1) =~= s@.subrange(start as int, i as int + 1));
            assert(body.subrange(0, i - start) =~= s@.subrange(start as int, i as int));
        }
        acc = acc * 10 + ((v - 48) as u64);
        i += 1;
        proof {
            assert(spec_all_digits(s@.subrange(start as int, i as int)));
        }
        if acc > 2_147_483_648 {
            proof {
                if spec_all_digits(body) {
                    assert(s@.subrange(start as int, i as int) =~= body.subrange(0, i - start));
                    lemma_digits_val_prefix_le(body, i - start);
                }
            }
            return None;
        }
    }
    assert(s@.subrange(start as int, i as int) =~= body);
    if neg {
        Some((-(acc as i64)) as i32)
    } else {
        if acc > 2_147_483_647 {
            return None;
        }
        Some(acc as i32)
    }
}

} // verus!
