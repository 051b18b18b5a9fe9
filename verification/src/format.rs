//! Number formatting: thousands separators, a typographic minus sign, and the
//! inverse clean-up that makes formatted numbers parseable again.
use vstd::prelude::*;

verus! {

/// The typographic minus sign used in front of negative numbers.
pub const MINUS: char = '\u{2212}';

/// The thin space that separates groups of three digits.
pub const THIN_SPACE: char = '\u{2009}';

/// Appends one character to a string.
///
/// Trusted: `String::push` appends `c` at the end and changes nothing else.
#[verifier::external_body]
pub(crate) fn push_char(s: &mut String, c: char)
    ensures
        final(s)@ == old(s)@.push(c),
{
    s.push(c);
}

/// The ASCII character of a decimal digit.
pub open spec fn digit_char(d: nat) -> char {
    (d + 48) as char
}

/// The decimal digits of `n`, most significant first, without leading zeroes.
pub open spec fn decimal_digits(n: nat) -> Seq<char>
    decreases n,
{
    if n < 10 {
        seq![digit_char(n)]
    } else {
        decimal_digits(n / 10).push(digit_char(n % 10))
    }
}

/// `s` preceded by as many `'0'` as it takes to reach `width` characters.
pub open spec fn left_pad_zeros(s: Seq<char>, width: nat) -> Seq<char> {
    if s.len() < width {
        Seq::new((width - s.len()) as nat, |i: int| '0') + s
    } else {
        s
    }
}

/// The decimal digits of `n`, zero-padded to at least `width` characters.
pub open spec fn zero_padded(n: nat, width: nat) -> Seq<char> {
    left_pad_zeros(decimal_digits(n), width)
}

/// The decimal digits of `n` in groups of three, separated by thin spaces.
pub open spec fn format_uint_text(n: nat) -> Seq<char>
    decreases n,
{
    if n < 1000 {
        decimal_digits(n)
    } else {
        format_uint_text(n / 1000) + seq![THIN_SPACE] + zero_padded(n % 1000, 3)
    }
}

/// Like [`format_uint_text`], with a leading [`MINUS`] for negative numbers.
pub open spec fn format_int_text(n: int) -> Seq<char> {
    if n < 0 {
        seq![MINUS] + format_uint_text((-n) as nat)
    } else {
        format_uint_text(n as nat)
    }
}

/// The plain decimal text of `n`, with an ASCII `-` for negative numbers.
pub open spec fn plain_int_text(n: int) -> Seq<char> {
    if n < 0 {
        seq!['-'] + decimal_digits((-n) as nat)
    } else {
        decimal_digits(n as nat)
    }
}

/// `s` with thin spaces removed and each [`MINUS`] replaced by an ASCII `-`.
pub open spec fn strip_number_formatting(s: Seq<char>) -> Seq<char>
    decreases s.len(),
{
    if s.len() == 0 {
        seq![]
    } else {
        let rest = strip_number_formatting(s.drop_last());
        let c = s.last();
        if c == THIN_SPACE {
            rest
        } else if c == MINUS {
            rest.push('-')
        } else {
            rest.push(c)
        }
    }
}

/// Appends the decimal digits of `n`.
pub(crate) fn push_decimal(out: &mut String, n: u64)
    ensures
        final(out)@ == old(out)@ + decimal_digits(n as nat),
    decreases n,
{
    if n >= 10 {
        push_decimal(out, n / 10);
    }
    let d: u8 = (n % 10) as u8;
    push_char(out, (d + 48) as char);
    proof {
        if n >= 10 {
            assert(old(out)@ + decimal_digits(n as nat) =~= (old(out)@ + decimal_digits(
                (n / 10) as nat,
            )).push(digit_char((n % 10) as nat)));
        } else {
            assert(old(out)@ + decimal_digits(n as nat) =~= old(out)@.push(digit_char(n as nat)));
        }
    }
}

/// The number of decimal digits of `n`.
pub open spec fn decimal_len(n: nat) -> nat
    decreases n,
{
    if n < 10 {
        1
    } else {
        decimal_len(n / 10) + 1
    }
}

pub proof fn lemma_decimal_digits_len(n: nat)
    ensures
        decimal_digits(n).len() == decimal_len(n),
        decimal_len(n) >= 1,
    decreases n,
{
    if n >= 10 {
        lemma_decimal_digits_len(n / 10);
    }
}

fn decimal_len_exec(n: u64) -> (r: u64)
    ensures
        r == decimal_len(n as nat),
        1 <= r <= n + 1,
    decreases n,
{
    if n < 10 {
        1
    } else {
        let r = decimal_len_exec(n / 10);
        r + 1
    }
}

/// Appends the decimal digits of `n`, zero-padded to `width` characters.
pub(crate) fn push_zero_padded(out: &mut String, n: u64, width: u64)
    ensures
        final(out)@ == old(out)@ + zero_padded(n as nat, width as nat),
{
    let len = decimal_len_exec(n);
    proof {
        lemma_decimal_digits_len(n as nat);
    }
    let ghost start = out@;
    let mut i: u64 = len;
    while i < width
        invariant
            len <= i <= width || (width < len && i == len),
            len == decimal_digits(n as nat).len(),
            out@ == start + Seq::new((i - len) as nat, |k: int| '0'),
        decreases width - i,
    {
        push_char(out, '0');
        i = i + 1;
        assert(out@ =~= start + Seq::new((i - len) as nat, |k: int| '0'));
    }
    let ghost mid = out@;
    push_decimal(out, n);
    assert(out@ =~= old(out)@ + zero_padded(n as nat, width as nat));
}

pub(crate) fn push_grouped(out: &mut String, n: u64)
    ensures
        final(out)@ == old(out)@ + format_uint_text(n as nat),
    decreases n,
{
    if n < 1000 {
        push_decimal(out, n);
    } else {
        push_grouped(out, n / 1000);
        push_char(out, THIN_SPACE);
        push_zero_padded(out, n % 1000, 3);
        assert(out@ =~= old(out)@ + format_uint_text(n as nat));
    }
}

/// Formats an unsigned integer with thin spaces between groups of three digits,
/// e.g. `1 234 567`.
pub fn format_uint(n: u64) -> (r: String)
    ensures
        r@ == format_uint_text(n as nat),
{
    let mut out = String::new();
    push_grouped(&mut out, n);
    assert(out@ =~= format_uint_text(n as nat));
    out
}

/// Formats an integer with thin spaces between groups of three digits and a
/// typographic minus sign in front of negative numbers, e.g. `−1 234`.
pub fn format_int(n: i64) -> (r: String)
    ensures
        r@ == format_int_text(n as int),
{
    let mut out = String::new();
    if n < 0 {
        push_char(&mut out, MINUS);
        let magnitude: u64 = (0i128 - n as i128) as u64;
        push_grouped(&mut out, magnitude);
    } else {
        push_grouped(&mut out, n as u64);
    }
    assert(out@ =~= format_int_text(n as int));
    out
}

/// Removes the number formatting of [`format_int`]: thin spaces are dropped and
/// the typographic minus becomes an ASCII `-`. Useful when copy-pasting.
pub fn remove_number_formatting(s: &str) -> (r: String)
    ensures
        r@ == strip_number_formatting(s@),
{
    let n = s.unicode_len();
    let mut out = String::new();
    let mut i: usize = 0;
    assert(s@.take(0) =~= Seq::<char>::empty());
    while i < n
        invariant
            n == s@.len(),
            i <= n,
            out@ == strip_number_formatting(s@.take(i as int)),
        decreases n - i,
    {
        let c = s.get_char(i);
        assert(s@.take(i + 1).drop_last() =~= s@.take(i as int));
        if c == THIN_SPACE {
        } else if c == MINUS {
            push_char(&mut out, '-');
        } else {
            push_char(&mut out, c);
        }
        i = i + 1;
    }
    assert(s@.take(n as int) =~= s@);
    out
}

/// `s` without its leading characters equal to `c`.
pub open spec fn trim_start_matching(s: Seq<char>, c: char) -> Seq<char>
    decreases s.len(),
{
    if s.len() > 0 && s[0] == c {
        trim_start_matching(s.drop_first(), c)
    } else {
        s
    }
}

/// `s` without its trailing characters equal to `c`.
pub open spec fn trim_end_matching(s: Seq<char>, c: char) -> Seq<char>
    decreases s.len(),
{
    if s.len() > 0 && s.last() == c {
        trim_end_matching(s.drop_last(), c)
    } else {
        s
    }
}

/// Removes all leading occurrences of `c`.
pub fn trim_start_char(s: &str, c: char) -> (r: String)
    ensures
        r@ == trim_start_matching(s@, c),
{
    let n = s.unicode_len();
    let mut k: usize = 0;
    assert(s@.skip(0) =~= s@);
    while k < n && s.get_char(k) == c
        invariant
            n == s@.len(),
            k <= n,
            trim_start_matching(s@.skip(k as int), c) == trim_start_matching(s@, c),
        decreases n - k,
    {
        assert(s@.skip(k as int).drop_first() =~= s@.skip(k + 1));
        k = k + 1;
    }
    let rest = s.substring_char(k, n);
    assert(rest@ =~= s@.skip(k as int));
    rest.to_owned()
}

/// Removes all trailing occurrences of `c`.
pub fn trim_end_char(s: &str, c: char) -> (r: String)
    ensures
        r@ == trim_end_matching(s@, c),
{
    let n = s.unicode_len();
    let mut k: usize = n;
    assert(s@.take(n as int) =~= s@);
    while k > 0 && s.get_char(k - 1) == c
        invariant
            n == s@.len(),
            k <= n,
            trim_end_matching(s@.take(k as int), c) == trim_end_matching(s@, c),
        decreases k,
    {
        assert(s@.take(k as int).drop_last() =~= s@.take(k - 1));
        k = k - 1;
    }
    let rest = s.substring_char(0, k);
    assert(rest@ =~= s@.take(k as int));
    rest.to_owned()
}

/// Whether `s` begins with `prefix`.
pub fn starts_with(s: &str, prefix: &str) -> (r: bool)
    ensures
        r == (prefix@.len() <= s@.len() && s@.take(prefix@.len() as int) == prefix@),
{
    let n = s.unicode_len();
    let m = prefix.unicode_len();
    if m > n {
        return false;
    }
    let mut i: usize = 0;
    while i < m
        invariant
            n == s@.len(),
            m == prefix@.len(),
            m <= n,
            i <= m,
            forall|k: int| 0 <= k < i ==> s@[k] == prefix@[k],
        decreases m - i,
    {
        if s.get_char(i) != prefix.get_char(i) {
            assert(s@.take(m as int)[i as int] != prefix@[i as int]);
            return false;
        }
        i = i + 1;
    }
    assert(s@.take(m as int) =~= prefix@);
    true
}

/// Removing number formatting a second time changes nothing.
pub proof fn lemma_strip_idempotent(s: Seq<char>)
    ensures
        strip_number_formatting(strip_number_formatting(s)) == strip_number_formatting(s),
    decreases s.len(),
{
    if s.len() > 0 {
        lemma_strip_idempotent(s.drop_last());
        let rest = strip_number_formatting(s.drop_last());
        let c = s.last();
        let t = strip_number_formatting(s);
        if c == THIN_SPACE {
        } else {
            let d = if c == MINUS { '-' } else { c };
            assert(t == rest.push(d));
            assert(t.drop_last() =~= rest);
            assert(d != THIN_SPACE && d != MINUS);
        }
    }
}

} // verus!
