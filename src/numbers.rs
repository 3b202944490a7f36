//! Decimal texts: which tokens are integer or floating-point literals, the
//! value of an index or a size, and the decimal form of a count.
use vstd::prelude::*;
use vstd::string::*;
use crate::text::chars_of;

verus! {

pub open spec fn is_digit(c: char) -> bool {
    '0' <= c && c <= '9'
}

pub open spec fn digit_value(c: char) -> nat {
    (c as u32 - '0' as u32) as nat
}

pub open spec fn all_digits(s: Seq<char>) -> bool {
    forall|i: int| 0 <= i < s.len() ==> is_digit(#[trigger] s[i])
}

/// The value of a text of decimal digits.
pub open spec fn digits_value(s: Seq<char>) -> nat
    decreases s.len(),
{
    if s.len() == 0 {
        0
    } else {
        digits_value(s.drop_last()) * 10 + digit_value(s.last())
    }
}

pub open spec fn is_sign(c: char) -> bool {
    c == '+' || c == '-'
}

/// `s` without one leading `+` or `-`.
pub open spec fn unsigned_part(s: Seq<char>) -> Seq<char> {
    if s.len() > 0 && is_sign(s[0]) {
        s.drop_first()
    } else {
        s
    }
}

/// What `str::parse::<usize>` gives: an optional `+`, then at least one digit,
/// with a value that fits.
pub open spec fn usize_of(s: Seq<char>) -> Option<usize> {
    let d = if s.len() > 0 && s[0] == '+' {
        s.drop_first()
    } else {
        s
    };
    if d.len() > 0 && all_digits(d) && digits_value(d) <= usize::MAX {
        Some(digits_value(d) as usize)
    } else {
        None
    }
}

/// Whether `str::parse::<i32>` accepts `s`: an optional sign, then at least one
/// digit, with a value in range.
pub open spec fn is_i32_text(s: Seq<char>) -> bool {
    let d = unsigned_part(s);
    let limit: nat = if s.len() > 0 && s[0] == '-' {
        2147483648
    } else {
        2147483647
    };
    d.len() > 0 && all_digits(d) && digits_value(d) <= limit
}

proof fn lemma_digits_value_grows(s: Seq<char>, k: int)
    requires
        0 <= k <= s.len(),
    ensures
        digits_value(s.take(k)) <= digits_value(s),
    decreases s.len(),
{
    if k < s.len() {
        assert(s.drop_last().take(k) =~= s.take(k));
        lemma_digits_value_grows(s.drop_last(), k);
    } else {
        assert(s.take(k) =~= s);
    }
}

/// The value of `cs[from..]` when it is a nonempty run of digits whose value is
/// at most `limit`.
fn digits_within(cs: &Vec<char>, from: usize, limit: u64) -> (r: Option<u64>)
    requires
        from <= cs.len(),
    ensures
        r == (if cs@.skip(from as int).len() > 0 && all_digits(cs@.skip(from as int))
            && digits_value(cs@.skip(from as int)) <= limit {
            Some(digits_value(cs@.skip(from as int)) as u64)
        } else {
            None
        }),
{
    let ghost d = cs@.skip(from as int);
    if from == cs.len() {
        return None;
    }
    let mut v: u64 = 0;
    let mut i = from;
    while i < cs.len()
        invariant
            from <= i <= cs.len(),
            d == cs@.skip(from as int),
            all_digits(d.take(i - from)),
            v as nat == digits_value(d.take(i - from)),
            v <= limit,
        decreases cs.len() - i,
    {
        let c = cs[i];
        assert(d.take(i + 1 - from).drop_last() =~= d.take(i - from));
        assert(d[i - from] == c);
        if !('0' <= c && c <= '9') {
            assert(!is_digit(d[i - from]));
            return None;
        }
        let w: u128 = v as u128 * 10 + (c as u32 - '0' as u32) as u128;
        if w > limit as u128 {
            proof {
                lemma_digits_value_grows(d, i + 1 - from);
            }
            return None;
        }
        v = w as u64;
        i += 1;
    }
    assert(d.take(cs.len() - from) =~= d);
    Some(v)
}

/// Reads a size or an index the way `str::parse::<usize>` does.
pub fn parse_usize(s: &str) -> (r: Option<usize>)
    ensures
        r == usize_of(s@),
{
    let cs = chars_of(s);
    let from: usize = if cs.len() > 0 && cs[0] == '+' { 1 } else { 0 };
    assert(cs@.skip(from as int) =~= (if s@.len() > 0 && s@[0] == '+' { s@.drop_first() } else { s@ }));
    match digits_within(&cs, from, usize::MAX as u64) {
        Some(v) => Some(v as usize),
        None => None,
    }
}

/// Whether `str::parse::<i32>` accepts `s`.
pub fn parses_as_i32(s: &str) -> (r: bool)
    ensures
        r == is_i32_text(s@),
{
    let cs = chars_of(s);
    let signed = cs.len() > 0 && (cs[0] == '+' || cs[0] == '-');
    let from: usize = if signed { 1 } else { 0 };
    let limit: u64 = if cs.len() > 0 && cs[0] == '-' { 2147483648 } else { 2147483647 };
    assert(cs@.skip(from as int) =~= unsigned_part(s@));
    digits_within(&cs, from, limit).is_some()
}


pub open spec fn is_exp_mark(c: char) -> bool {
    c == 'e' || c == 'E'
}

/// Digits with at most one point among them, and at least one digit.
pub open spec fn is_mantissa(m: Seq<char>) -> bool {
    &&& m.len() > 0
    &&& m != seq!['.']
    &&& forall|i: int| 0 <= i < m.len() ==> is_digit(#[trigger] m[i]) || m[i] == '.'
    &&& forall|i: int, j: int|
        0 <= i < m.len() && 0 <= j < m.len() && #[trigger] m[i] == '.' && #[trigger] m[j] == '.'
            ==> i == j
}

/// An optional sign, then at least one digit.
pub open spec fn is_exponent(x: Seq<char>) -> bool {
    unsigned_part(x).len() > 0 && all_digits(unsigned_part(x))
}

/// A mantissa, optionally followed by `e` or `E` and an exponent.
pub open spec fn is_number(b: Seq<char>) -> bool {
    is_mantissa(b) || exists|k: int|
        0 <= k < b.len() && is_exp_mark(#[trigger] b[k]) && is_mantissa(b.take(k)) && is_exponent(
            b.skip(k + 1),
        )
}

pub open spec fn letter(c: char, lower: char, upper: char) -> bool {
    c == lower || c == upper
}

/// `inf`, `infinity` or `nan`, in any case.
pub open spec fn is_special_float(b: Seq<char>) -> bool {
    (b.len() == 3 && letter(b[0], 'i', 'I') && letter(b[1], 'n', 'N') && letter(b[2], 'f', 'F'))
        || (b.len() == 8 && letter(b[0], 'i', 'I') && letter(b[1], 'n', 'N') && letter(
        b[2],
        'f',
        'F',
    ) && letter(b[3], 'i', 'I') && letter(b[4], 'n', 'N') && letter(b[5], 'i', 'I') && letter(
        b[6],
        't',
        'T',
    ) && letter(b[7], 'y', 'Y')) || (b.len() == 3 && letter(b[0], 'n', 'N') && letter(
        b[1],
        'a',
        'A',
    ) && letter(b[2], 'n', 'N'))
}

/// Whether the floating-point parser of std accepts `s`: an optional sign,
/// then `inf`, `infinity`, `nan` or a decimal number with an optional exponent.
pub open spec fn is_float_text(s: Seq<char>) -> bool {
    is_special_float(unsigned_part(s)) || is_number(unsigned_part(s))
}

/// Whether `cs[lo..hi]` is a mantissa.
fn mantissa_at(cs: &Vec<char>, lo: usize, hi: usize) -> (r: bool)
    requires
        lo <= hi <= cs.len(),
    ensures
        r == is_mantissa(cs@.subrange(lo as int, hi as int)),
{
    let ghost m = cs@.subrange(lo as int, hi as int);
    if lo == hi {
        return false;
    }
    let mut dot: Option<usize> = None;
    let mut i = lo;
    while i < hi
        invariant
            lo <= i <= hi <= cs.len(),
            m == cs@.subrange(lo as int, hi as int),
            forall|k: int| 0 <= k < i - lo ==> is_digit(#[trigger] m[k]) || m[k] == '.',
            match dot {
                None => forall|k: int| 0 <= k < i - lo ==> #[trigger] m[k] != '.',
                Some(p) => lo <= p < i && m[p - lo] == '.' && forall|k: int|
                    0 <= k < i - lo && #[trigger] m[k] == '.' ==> k == p - lo,
            },
        decreases hi - i,
    {
        let c = cs[i];
        assert(m[i - lo] == c);
        if c == '.' {
            if dot.is_some() {
                return false;
            }
            dot = Some(i);
        } else if !('0' <= c && c <= '9') {
            assert(!(is_digit(m[i - lo]) || m[i - lo] == '.'));
            return false;
        }
        i += 1;
    }
    if hi - lo == 1 && cs[lo] == '.' {
        assert(m =~= seq!['.']);
        return false;
    }
    assert(m != seq!['.']) by {
        let dot1 = seq!['.'];
        assert(dot1.len() == 1 && dot1[0] == '.');
        if hi - lo == 1 {
            assert(m[0] == cs@[lo as int]);
        }
    }
    true
}

/// Whether `cs[lo..]` is an exponent.
fn exponent_at(cs: &Vec<char>, lo: usize) -> (r: bool)
    requires
        lo <= cs.len(),
    ensures
        r == is_exponent(cs@.skip(lo as int)),
{
    let ghost x = cs@.skip(lo as int);
    let from = if lo < cs.len() && (cs[lo] == '+' || cs[lo] == '-') { lo + 1 } else { lo };
    assert(cs@.skip(from as int) =~= unsigned_part(x));
    let mut i = from;
    while i < cs.len()
        invariant
            from <= i <= cs.len(),
            cs@.skip(from as int) == unsigned_part(x),
            x == cs@.skip(lo as int),
            forall|j: int| from <= j < i ==> is_digit(#[trigger] cs@[j]),
        decreases cs.len() - i,
    {
        if !('0' <= cs[i] && cs[i] <= '9') {
            assert(!is_digit(cs@.skip(from as int)[i - from]));
            assert(!all_digits(cs@.skip(from as int)));
            assert(!all_digits(unsigned_part(x)));
            return false;
        }
        i += 1;
    }
    assert forall|j: int| 0 <= j < cs@.skip(from as int).len() implies is_digit(
        #[trigger] cs@.skip(from as int)[j],
    ) by {
        assert(cs@.skip(from as int)[j] == cs@[from + j]);
    }
    from < cs.len()
}

/// Whether `cs[lo..]` is `inf`, `infinity` or `nan` in any case.
fn special_at(cs: &Vec<char>, lo: usize) -> (r: bool)
    requires
        lo <= cs.len(),
    ensures
        r == is_special_float(cs@.skip(lo as int)),
{
    let len = cs.len() - lo;
    if len != 3 && len != 8 {
        return false;
    }
    let c0 = cs[lo];
    let c1 = cs[lo + 1];
    let c2 = cs[lo + 2];
    if len == 3 {
        ((c0 == 'i' || c0 == 'I') && (c1 == 'n' || c1 == 'N') && (c2 == 'f' || c2 == 'F')) || (
        (c0 == 'n' || c0 == 'N') && (c1 == 'a' || c1 == 'A') && (c2 == 'n' || c2 == 'N'))
    } else {
        (c0 == 'i' || c0 == 'I') && (c1 == 'n' || c1 == 'N') && (c2 == 'f' || c2 == 'F') && (cs[lo
            + 3] == 'i' || cs[lo + 3] == 'I') && (cs[lo + 4] == 'n' || cs[lo + 4] == 'N') && (cs[lo
            + 5] == 'i' || cs[lo + 5] == 'I') && (cs[lo + 6] == 't' || cs[lo + 6] == 'T') && (cs[lo
            + 7] == 'y' || cs[lo + 7] == 'Y')
    }
}

/// Whether `cs[lo..]` is a number: a mantissa and an optional exponent.
fn number_at(cs: &Vec<char>, lo: usize) -> (r: bool)
    requires
        lo <= cs.len(),
    ensures
        r == is_number(cs@.skip(lo as int)),
{
    let n = cs.len();
    let ghost b = cs@.skip(lo as int);
    assert(b =~= cs@.subrange(lo as int, n as int));
    let mut k = lo;
    while k < n && !(cs[k] == 'e' || cs[k] == 'E')
        invariant
            lo <= k <= n == cs.len(),
            forall|j: int| lo <= j < k ==> !is_exp_mark(#[trigger] cs@[j]),
        decreases n - k,
    {
        k += 1;
    }
    if k == n {
        let r = mantissa_at(cs, lo, n);
        assert forall|j: int| 0 <= j < b.len() implies !is_exp_mark(#[trigger] b[j]) by {
            assert(b[j] == cs@[lo + j]);
        }
        return r;
    }
    let m = mantissa_at(cs, lo, k);
    let e = exponent_at(cs, k + 1);
    let ghost kk = k - lo;
    assert(b.take(kk) =~= cs@.subrange(lo as int, k as int));
    assert(b.skip(kk + 1) =~= cs@.skip(k + 1));
    assert(is_exp_mark(b[kk]));
    assert(!is_mantissa(b)) by {
        assert(!(is_digit(b[kk]) || b[kk] == '.'));
    }
    if m && e {
        return true;
    }
    assert forall|j: int|
        0 <= j < b.len() && is_exp_mark(#[trigger] b[j]) implies !(is_mantissa(b.take(j))
        && is_exponent(b.skip(j + 1))) by {
        if j < kk {
            assert(b[j] == cs@[lo + j]);
        } else if j > kk {
            assert(b.take(j)[kk] == b[kk]);
            assert(!(is_digit(b.take(j)[kk]) || b.take(j)[kk] == '.'));
        }
    }
    false
}

/// Whether the floating-point parser of std accepts `s`.
pub fn parses_as_float(s: &str) -> (r: bool)
    ensures
        r == is_float_text(s@),
{
    let cs = chars_of(s);
    let lo: usize = if cs.len() > 0 && (cs[0] == '+' || cs[0] == '-') { 1 } else { 0 };
    assert(unsigned_part(s@) =~= cs@.skip(lo as int));
    special_at(&cs, lo) || number_at(&cs, lo)
}


pub open spec fn digit_char(d: nat) -> char {
    if d == 0 {
        '0'
    } else if d == 1 {
        '1'
    } else if d == 2 {
        '2'
    } else if d == 3 {
        '3'
    } else if d == 4 {
        '4'
    } else if d == 5 {
        '5'
    } else if d == 6 {
        '6'
    } else if d == 7 {
        '7'
    } else if d == 8 {
        '8'
    } else {
        '9'
    }
}

/// The decimal form of `n`, without sign or leading zeros.
pub open spec fn decimal_of(n: nat) -> Seq<char>
    decreases n,
{
    if n < 10 {
        seq![digit_char(n)]
    } else {
        decimal_of(n / 10).push(digit_char(n % 10))
    }
}

fn digit_text(d: usize) -> (r: &'static str)
    requires
        d < 10,
    ensures
        r@ == seq![digit_char(d as nat)],
{
    proof {
        reveal_strlit("0");
        reveal_strlit("1");
        reveal_strlit("2");
        reveal_strlit("3");
        reveal_strlit("4");
        reveal_strlit("5");
        reveal_strlit("6");
        reveal_strlit("7");
        reveal_strlit("8");
        reveal_strlit("9");
    }
    let r = if d == 0 {
        "0"
    } else if d == 1 {
        "1"
    } else if d == 2 {
        "2"
    } else if d == 3 {
        "3"
    } else if d == 4 {
        "4"
    } else if d == 5 {
        "5"
    } else if d == 6 {
        "6"
    } else if d == 7 {
        "7"
    } else if d == 8 {
        "8"
    } else {
        "9"
    };
    assert(r@ =~= seq![digit_char(d as nat)]);
    r
}

/// Writes `n` in decimal.
pub fn decimal_text(n: usize) -> (r: String)
    ensures
        r@ == decimal_of(n as nat),
    decreases n,
{
    if n < 10 {
        String::from_str(digit_text(n))
    } else {
        let mut s = decimal_text(n / 10);
        s.append(digit_text(n % 10));
        assert(s@ =~= decimal_of(n as nat));
        s
    }
}

} // verus!
