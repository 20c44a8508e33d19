//! Display formatting of amounts, addresses, timestamps and transactions,
//! and parsing of user-entered DASH amounts.

use vstd::prelude::*;
use vstd::string::StringSliceAdditionalSpecFns;
use vstd::utf8::{decode_utf8, encode_utf8, encode_utf8_decode_utf8, is_char_boundary};
use crate::backend::types::{
    confirmations_spec, InputInfo, OutputInfo, OutputRole, TransactionDirection, TransactionInfo,
    TransactionType,
};
use crate::text::{
    contains_chars, contains_seq, hash_display, hash_to_hex, lowercase, to_lowercase,
    all_digits, digit_value, digits_value, is_digit, is_whitespace, lemma_decimal_digits,
    lemma_decimal_len_bound, lemma_digits_value_leading_zeros, leading_ws, pow10, trailing_ws,
    zero_pad, decimal, index_of_char, lemma_index_of_char, padded_decimal, parse_u64_chars, parse_u64_spec,
    pop_trailing_zeros, push_char, push_decimal, push_padded_decimal, push_repeat, push_str_chars,
    str_chars, string_from_chars, trim, trim_bounds, trim_trailing_zeros, u64_to_string,
};

verus! {

/// Satoshis in one DASH.
pub const SATS_PER_DASH: u64 = 100_000_000;

/// Combines a parsed whole part and fractional part into satoshis,
/// `None` when either failed or the total does not fit a `u64`.
pub open spec fn combine_amount(whole: Option<nat>, frac: Option<nat>) -> Option<nat> {
    match (whole, frac) {
        (Some(w), Some(f)) => if w * 100_000_000 + f <= u64::MAX {
            Some(w * 100_000_000 + f)
        } else {
            None
        },
        _ => None,
    }
}

/// Value of the fractional digits after the point, right-padded with zeros
/// to eight places.
pub open spec fn frac_value(f: Seq<char>) -> Option<nat> {
    if f.len() == 0 {
        Some(0)
    } else {
        parse_u64_spec(f + Seq::new((8 - f.len()) as nat, |i: int| '0'))
    }
}

/// Satoshis denoted by a DASH amount string: surrounding whitespace is
/// ignored; a leading `-` is rejected; at most eight decimal places.
pub open spec fn parse_dash_amount_spec(s: Seq<char>) -> Option<nat> {
    let t = trim(s);
    if t.len() == 0 || t[0] == '-' {
        None
    } else {
        match index_of_char(t, '.') {
            Some(d) => {
                let f = t.skip(d + 1);
                if f.len() > 8 {
                    None
                } else {
                    combine_amount(parse_u64_spec(t.take(d)), frac_value(f))
                }
            },
            None => combine_amount(parse_u64_spec(t), Some(0)),
        }
    }
}

/// Parse a DASH amount string to satoshis.
///
/// Accepts non-negative decimal strings with up to 8 decimal places.
/// Returns `None` for empty, negative, non-numeric, or overly precise input.
pub fn parse_dash_amount(s: &str) -> (r: Option<u64>)
    ensures
        r matches Some(v) ==> parse_dash_amount_spec(s@) == Some(v as nat),
        r is None ==> parse_dash_amount_spec(s@) is None,
{
    let cs = str_chars(s);
    let (lo, hi) = trim_bounds(&cs);
    let ghost t = cs@.subrange(lo as int, hi as int);
    if lo == hi || cs[lo] == '-' {
        return None;
    }
    let mut d = lo;
    while d < hi && cs[d] != '.'
        invariant
            lo <= d <= hi <= cs@.len(),
            forall|j: int| lo <= j < d ==> #[trigger] cs@[j] != '.',
        decreases hi - d,
    {
        d = d + 1;
    }
    proof {
        assert forall|j: int| 0 <= j < d - lo implies #[trigger] t[j] != '.' by {
            assert(t[j] == cs@[j + lo]);
        }
        lemma_index_of_char(t, '.', d - lo);
    }
    if d < hi {
        let ghost f = t.skip(d - lo + 1);
        assert(f =~= cs@.subrange(d + 1, hi as int));
        if hi - (d + 1) > 8 {
            return None;
        }
        assert(t.take(d - lo) =~= cs@.subrange(lo as int, d as int));
        let whole = match parse_u64_chars(&cs, lo, d) {
            Some(w) => w,
            None => return None,
        };
        let frac: u64 = if d + 1 == hi {
            0
        } else {
            let mut fv: Vec<char> = Vec::new();
            let mut k = d + 1;
            while k < hi
                invariant
                    d + 1 <= k <= hi <= cs@.len(),
                    fv@ == cs@.subrange(d + 1, k as int),
                decreases hi - k,
            {
                fv.push(cs[k]);
                assert(cs@.subrange(d + 1, k + 1) =~= cs@.subrange(d + 1, k as int).push(
                    cs@[k as int],
                ));
                k = k + 1;
            }
            push_repeat(&mut fv, '0', 8 - (hi - (d + 1)));
            assert(fv@ =~= f + Seq::new((8 - f.len()) as nat, |i: int| '0'));
            assert(fv@.subrange(0, fv@.len() as int) =~= fv@);
            match parse_u64_chars(&fv, 0, fv.len()) {
                Some(v) => v,
                None => return None,
            }
        };
        let m = whole.checked_mul(SATS_PER_DASH);
        if m.is_none() {
            return None;
        }
        let a = m.unwrap().checked_add(frac);
        if a.is_none() {
            return None;
        }
        a
    } else {
        assert(t =~= cs@.subrange(lo as int, hi as int));
        let whole = match parse_u64_chars(&cs, lo, hi) {
            Some(w) => w,
            None => return None,
        };
        let m = whole.checked_mul(SATS_PER_DASH);
        if m.is_none() {
            return None;
        }
        m
    }
}

/// The "DASH" number for an amount of satoshis: the whole part, then the
/// fractional part without trailing zeros when it is non-zero.
pub open spec fn dash_number(n: nat) -> Seq<char> {
    let whole = n / 100_000_000;
    let frac = n % 100_000_000;
    if frac == 0 {
        decimal(whole)
    } else {
        decimal(whole) + seq!['.'] + trim_trailing_zeros(padded_decimal(frac, 8))
    }
}

/// The balance number: like [`dash_number`], with `.0` for whole amounts.
pub open spec fn balance_number(n: nat) -> Seq<char> {
    if n % 100_000_000 == 0 {
        decimal(n / 100_000_000) + seq!['.', '0']
    } else {
        dash_number(n)
    }
}

/// Text of [`format_balance`].
pub open spec fn balance_text(n: nat, unit: Seq<char>) -> Seq<char> {
    balance_number(n) + seq![' '] + unit
}

/// Magnitude of a signed amount.
pub open spec fn abs_i64(n: i64) -> nat {
    if n < 0 { (-n) as nat } else { n as nat }
}

/// Text of [`format_amount`]: sign, then the balance text of the magnitude.
pub open spec fn amount_text(n: i64, unit: Seq<char>) -> Seq<char> {
    (if n < 0 { seq!['-'] } else { seq!['+'] }) + balance_text(abs_i64(n), unit)
}

/// Appends the fractional digits of `frac` (`0 < frac < 10^8`): eight
/// zero-padded digits without trailing zeros.
fn push_frac_digits(v: &mut Vec<char>, frac: u64)
    ensures
        final(v)@ == old(v)@ + trim_trailing_zeros(padded_decimal(frac as nat, 8)),
{
    let mut digits: Vec<char> = Vec::new();
    push_padded_decimal(&mut digits, frac, 8);
    assert(digits@ =~= padded_decimal(frac as nat, 8));
    pop_trailing_zeros(&mut digits);
    let ghost before = v@;
    let mut i: usize = 0;
    while i < digits.len()
        invariant
            i <= digits@.len(),
            v@ == before + digits@.subrange(0, i as int),
        decreases digits.len() - i,
    {
        v.push(digits[i]);
        assert(digits@.subrange(0, i + 1) =~= digits@.subrange(0, i as int).push(
            digits@[i as int],
        ));
        i = i + 1;
    }
    assert(digits@.subrange(0, digits@.len() as int) =~= digits@);
}

/// Appends the [`dash_number`] of `n`.
pub fn push_dash_number(v: &mut Vec<char>, n: u64)
    ensures
        final(v)@ == old(v)@ + dash_number(n as nat),
{
    let whole = n / SATS_PER_DASH;
    let frac = n % SATS_PER_DASH;
    let ghost start = v@;
    push_decimal(v, whole);
    if frac != 0 {
        v.push('.');
        push_frac_digits(v, frac);
    }
    assert(v@ =~= start + dash_number(n as nat));
}

/// Format a satoshi amount as a currency string (e.g., "1.23456789 DASH").
pub fn format_balance(satoshis: u64, unit: &str) -> (r: String)
    ensures
        r@ == balance_text(satoshis as nat, unit@),
{
    let mut v: Vec<char> = Vec::new();
    push_dash_number(&mut v, satoshis);
    if satoshis % SATS_PER_DASH == 0 {
        v.push('.');
        v.push('0');
    }
    v.push(' ');
    push_str_chars(&mut v, unit);
    assert(v@ =~= balance_text(satoshis as nat, unit@));
    string_from_chars(&v)
}

/// Magnitude of a signed amount as an unsigned number.
pub fn unsigned_abs(n: i64) -> (r: u64)
    ensures
        r as nat == abs_i64(n),
{
    if n < 0 {
        ((-(n + 1)) as u64) + 1
    } else {
        n as u64
    }
}

/// Format a signed satoshi amount (for transactions).
pub fn format_amount(satoshis: i64, unit: &str) -> (r: String)
    ensures
        r@ == amount_text(satoshis, unit@),
{
    let formatted = format_balance(unsigned_abs(satoshis), unit);
    let mut s = String::new();
    if satoshis < 0 {
        push_char(&mut s, '-');
    } else {
        push_char(&mut s, '+');
    }
    s.append(formatted.as_str());
    assert(s@ =~= amount_text(satoshis, unit@));
    s
}

/// Text of [`format_peer_count`].
pub open spec fn peer_count_text(count: u32) -> Seq<char> {
    if count == 0 {
        "No peers"@
    } else if count == 1 {
        "1 peer"@
    } else {
        decimal(count as nat) + " peers"@
    }
}

/// Format a peer count for display.
pub fn format_peer_count(count: u32) -> (r: String)
    ensures
        r@ == peer_count_text(count),
{
    if count == 0 {
        String::from_str("No peers")
    } else if count == 1 {
        String::from_str("1 peer")
    } else {
        let mut s = u64_to_string(count as u64);
        s.append(" peers");
        s
    }
}

/// Removing trailing zeros and putting them back restores the text.
pub proof fn lemma_trailing_zeros_restore(x: Seq<char>)
    ensures
        trim_trailing_zeros(x).len() <= x.len(),
        trim_trailing_zeros(x) + Seq::new(
            (x.len() - trim_trailing_zeros(x).len()) as nat,
            |i: int| '0',
        ) == x,
        trim_trailing_zeros(x).len() > 0 ==> trim_trailing_zeros(x).last() != '0',
        trim_trailing_zeros(x) == x.take(trim_trailing_zeros(x).len() as int),
    decreases x.len(),
{
    if x.len() > 0 && x.last() == '0' {
        let y = x.drop_last();
        lemma_trailing_zeros_restore(y);
        let t = trim_trailing_zeros(y);
        assert(t + Seq::new((x.len() - t.len()) as nat, |i: int| '0') =~= (t + Seq::new(
            (y.len() - t.len()) as nat,
            |i: int| '0',
        )).push('0'));
        assert(x =~= y.push('0'));
        assert(x.take(t.len() as int) =~= y.take(t.len() as int));
    } else {
        assert(x + Seq::new(0, |i: int| '0') =~= x);
        assert(x.take(x.len() as int) =~= x);
    }
}

/// A text of digits and dots has no surrounding whitespace.
proof fn lemma_trim_plain(s: Seq<char>)
    requires
        s.len() > 0,
        !is_whitespace(s[0]),
        !is_whitespace(s.last()),
    ensures
        trim(s) == s,
{
    assert(leading_ws(s) == 0);
    assert(s.skip(0) =~= s);
    assert(trailing_ws(s) == 0);
    assert(s.take(s.len() as int) =~= s);
}

/// Digits never contain a point.
proof fn lemma_digits_no_point(s: Seq<char>)
    requires
        all_digits(s),
    ensures
        index_of_char(s, '.') is None,
{
    assert forall|j: int| 0 <= j < s.len() implies #[trigger] s[j] != '.' by {
        assert(is_digit(s[j]));
    }
    lemma_index_of_char(s, '.', s.len() as int);
}

/// A number below `10^8` renders as eight zero-padded digits with that value.
proof fn lemma_padded8(f: nat)
    requires
        f < 100_000_000,
    ensures
        padded_decimal(f, 8).len() == 8,
        all_digits(padded_decimal(f, 8)),
        digits_value(padded_decimal(f, 8)) == f,
{
    assert(pow10(8) == 100_000_000nat) by { reveal_with_fuel(pow10, 9); }
    lemma_decimal_len_bound(f, 8);
    lemma_decimal_digits(f);
    let d = decimal(f);
    let z = Seq::new((8 - d.len()) as nat, |i: int| '0');
    assert(padded_decimal(f, 8) == zero_pad(d, 8));
    if d.len() < 8 {
        assert(zero_pad(d, 8) == z + d);
    } else {
        assert(z + d =~= d);
    }
    assert(zero_pad(d, 8) =~= z + d);
    lemma_digits_value_leading_zeros((8 - d.len()) as nat, d);
    assert forall|i: int| 0 <= i < (z + d).len() implies is_digit(#[trigger] (z + d)[i]) by {
        if i >= z.len() {
            assert((z + d)[i] == d[i - z.len()]);
        }
    }
}

/// Parsing the rendered number of whole DASH gives the amount back.
proof fn lemma_parse_whole(w: nat)
    requires
        w <= u64::MAX,
    ensures
        parse_u64_spec(decimal(w)) == Some(w),
{
    lemma_decimal_digits(w);
    assert(is_digit(decimal(w)[0]));
}

/// Reading back the number shown for an amount of satoshis (the "Max"
/// text of the send form) gives the same amount.
pub proof fn law_parse_dash_number_roundtrip(n: u64)
    ensures
        parse_dash_amount_spec(dash_number(n as nat)) == Some(n as nat),
{
    let w = (n / 100_000_000) as nat;
    let f = (n % 100_000_000) as nat;
    let s = dash_number(n as nat);
    lemma_decimal_digits(w);
    lemma_parse_whole(w);
    let dw = decimal(w);
    assert(is_digit(dw[0]));
    if f == 0 {
        assert(s == dw);
        assert(is_digit(s.last()));
        lemma_trim_plain(s);
        lemma_digits_no_point(s);
    } else {
        let x = padded_decimal(f, 8);
        lemma_padded8(f);
        lemma_trailing_zeros_restore(x);
        let z = trim_trailing_zeros(x);
        if z.len() == 0 {
            assert(x =~= Seq::new(8, |i: int| '0'));
            lemma_digits_value_leading_zeros(8, Seq::empty());
            assert(Seq::new(8, |i: int| '0') + Seq::<char>::empty() =~= Seq::new(8, |i: int| '0'));
            assert(false);
        }
        assert(z[z.len() - 1] == x[z.len() - 1]);
        assert(is_digit(z.last()));
        assert(s == dw + seq!['.'] + z);
        assert(s[0] == dw[0]);
        assert(s.last() == z.last());
        lemma_trim_plain(s);
        assert forall|j: int| 0 <= j < dw.len() implies #[trigger] s[j] != '.' by {
            assert(s[j] == dw[j]);
            assert(is_digit(dw[j]));
        }
        assert(s[dw.len() as int] == '.');
        lemma_index_of_char(s, '.', dw.len() as int);
        assert(s.take(dw.len() as int) =~= dw);
        assert(s.skip(dw.len() as int + 1) =~= z);
        assert(z + Seq::new((8 - z.len()) as nat, |i: int| '0') == x);
        assert(x[0] != '+') by { assert(is_digit(x[0])); }
    }
}

/// Reading back the number of a formatted balance gives the same amount.
pub proof fn law_parse_balance_number_roundtrip(n: u64)
    ensures
        parse_dash_amount_spec(balance_number(n as nat)) == Some(n as nat),
{
    if n % 100_000_000 == 0 {
        let w = (n / 100_000_000) as nat;
        let dw = decimal(w);
        let s = balance_number(n as nat);
        lemma_decimal_digits(w);
        lemma_parse_whole(w);
        assert(s == dw + seq!['.', '0']);
        assert(is_digit(dw[0]));
        assert(s[0] == dw[0]);
        lemma_trim_plain(s);
        assert forall|j: int| 0 <= j < dw.len() implies #[trigger] s[j] != '.' by {
            assert(s[j] == dw[j]);
            assert(is_digit(dw[j]));
        }
        lemma_index_of_char(s, '.', dw.len() as int);
        assert(s.take(dw.len() as int) =~= dw);
        assert(s.skip(dw.len() as int + 1) =~= seq!['0']);
        let p = seq!['0'] + Seq::new(7, |i: int| '0');
        assert(p =~= Seq::new(7, |i: int| '0') + seq!['0']);
        lemma_digits_value_leading_zeros(7, seq!['0']);
        assert(digits_value(seq!['0']) == 0) by {
            let one = seq!['0'];
            assert(one.drop_last() =~= Seq::<char>::empty());
            assert(one.last() == '0');
            assert(digit_value('0') == 0);
            assert(digits_value(one) == digits_value(one.drop_last()) * 10 + digit_value(one.last()));
        }
        assert(all_digits(p));
    } else {
        law_parse_dash_number_roundtrip(n);
    }
}

/// Trailing zeros multiply the value by a power of ten.
proof fn lemma_digits_value_trailing_zeros(f: Seq<char>, k: nat)
    ensures
        digits_value(f + Seq::new(k, |i: int| '0')) == digits_value(f) * pow10(k),
    decreases k,
{
    let z = f + Seq::new(k, |i: int| '0');
    if k == 0 {
        assert(z =~= f);
        assert(pow10(0) == 1);
    } else {
        let k1 = (k - 1) as nat;
        assert(z.drop_last() =~= f + Seq::new(k1, |i: int| '0'));
        assert(z.last() == '0');
        assert(digit_value('0') == 0);
        assert(digits_value(z) == digits_value(z.drop_last()) * 10 + digit_value(z.last()));
        lemma_digits_value_trailing_zeros(f, k1);
        let a = digits_value(f);
        let b = pow10(k1);
        assert(pow10(k) == 10 * b);
        assert(a * b * 10 == a * (10 * b)) by (nonlinear_arith);
    }
}

/// A run of `n` digits is worth less than `10^n`.
proof fn lemma_digits_value_bound(s: Seq<char>)
    requires
        all_digits(s),
    ensures
        digits_value(s) < pow10(s.len()),
    decreases s.len(),
{
    if s.len() > 0 {
        let init = s.drop_last();
        assert forall|j: int| 0 <= j < init.len() implies is_digit(#[trigger] init[j]) by {
            assert(init[j] == s[j]);
        }
        lemma_digits_value_bound(init);
        assert(is_digit(s[s.len() - 1]));
    }
}

/// How a plain decimal amount `w.f` (digits, a point, one to eight digits)
/// is read: the whole part as a number, the fractional digits scaled to
/// eight places.
proof fn lemma_parse_decimal(w: Seq<char>, f: Seq<char>)
    requires
        w.len() >= 1,
        all_digits(w),
        1 <= f.len() <= 8,
        all_digits(f),
    ensures
        digits_value(f) * pow10((8 - f.len()) as nat) < 100_000_000,
        parse_dash_amount_spec(w + seq!['.'] + f) == combine_amount(
            parse_u64_spec(w),
            Some(digits_value(f) * pow10((8 - f.len()) as nat)),
        ),
{
    let s = w + seq!['.'] + f;
    assert(s[0] == w[0]);
    assert(is_digit(w[0]));
    assert(s.last() == f[f.len() - 1]);
    assert(is_digit(f[f.len() - 1]));
    lemma_trim_plain(s);
    assert forall|j: int| 0 <= j < w.len() implies #[trigger] s[j] != '.' by {
        assert(s[j] == w[j]);
        assert(is_digit(w[j]));
    }
    assert(s[w.len() as int] == '.');
    lemma_index_of_char(s, '.', w.len() as int);
    assert(s.take(w.len() as int) =~= w);
    assert(s.skip(w.len() as int + 1) =~= f);
    let k = (8 - f.len()) as nat;
    let p = f + Seq::new(k, |i: int| '0');
    lemma_digits_value_trailing_zeros(f, k);
    assert forall|j: int| 0 <= j < p.len() implies is_digit(#[trigger] p[j]) by {
        if j < f.len() {
            assert(p[j] == f[j]);
        }
    }
    assert(p[0] == f[0]);
    lemma_digits_value_bound(p);
    assert(pow10(8) == 100_000_000nat) by { reveal_with_fuel(pow10, 9); }
    assert(frac_value(f) == Some(digits_value(f) * pow10(k)));
}

/// A DASH amount written as digits `w`, a point and one to eight digits `f`
/// is worth `w` whole DASH plus `f` read as that many decimal places: the
/// value of `f` times `10^(8 - len(f))` satoshis.
pub proof fn law_parse_decimal_amount(w: Seq<char>, f: Seq<char>)
    requires
        w.len() >= 1,
        all_digits(w),
        1 <= f.len() <= 8,
        all_digits(f),
        digits_value(w) * 100_000_000 + digits_value(f) * pow10((8 - f.len()) as nat) <= u64::MAX,
    ensures
        parse_dash_amount_spec(w + seq!['.'] + f) == Some(
            digits_value(w) * 100_000_000 + digits_value(f) * pow10((8 - f.len()) as nat),
        ),
{
    lemma_parse_decimal(w, f);
    assert(is_digit(w[0]));
    assert(digits_value(w) <= u64::MAX);
}

/// A trailing zero in the fractional part never changes the amount read.
pub proof fn law_parse_trailing_zero(w: Seq<char>, f: Seq<char>)
    requires
        w.len() >= 1,
        all_digits(w),
        1 <= f.len() <= 7,
        all_digits(f),
    ensures
        parse_dash_amount_spec(w + seq!['.'] + f.push('0')) == parse_dash_amount_spec(
            w + seq!['.'] + f,
        ),
{
    let g = f.push('0');
    assert forall|j: int| 0 <= j < g.len() implies is_digit(#[trigger] g[j]) by {
        if j < f.len() {
            assert(g[j] == f[j]);
        }
    }
    lemma_parse_decimal(w, f);
    lemma_parse_decimal(w, g);
    assert(g =~= f + Seq::new(1, |i: int| '0'));
    lemma_digits_value_trailing_zeros(f, 1);
    assert(pow10(1) == 10) by { reveal_with_fuel(pow10, 2); }
    let k = (8 - g.len()) as nat;
    assert(pow10((8 - f.len()) as nat) == 10 * pow10(k));
    let a = digits_value(f);
    let b = pow10(k);
    assert(a * 10 * b == a * (10 * b)) by (nonlinear_arith);
}

/// `a` shortened to its first four and last four bytes around `...` when it
/// is longer than twelve bytes.
pub open spec fn address_short_text(a: Seq<char>) -> Seq<char> {
    let b = encode_utf8(a);
    if b.len() <= 12 {
        a
    } else {
        decode_utf8(b.subrange(0, 4)) + "..."@ + decode_utf8(b.subrange(b.len() - 4, b.len() as int))
    }
}

/// Whether [`format_address_short`] can cut `a` (its UTF-8 encoding has
/// character boundaries at the cut points).
pub open spec fn shortenable(a: Seq<char>) -> bool {
    let b = encode_utf8(a);
    &&& b.len() <= usize::MAX
    &&& b.len() > 12 ==> is_char_boundary(b, 4) && is_char_boundary(b, b.len() - 4)
}

/// Truncate an address for list display (e.g., "Xq3k...7f2a").
pub fn format_address_short(address: &str) -> (r: String)
    requires
        shortenable(address@),
    ensures
        r@ == address_short_text(address@),
{
    if address.len() <= 12 {
        return String::from_str(address);
    }
    let len = address.len();
    let (prefix, _) = address.split_at(4);
    let (_, suffix) = address.split_at(len - 4);
    proof {
        encode_utf8_decode_utf8(prefix@);
        encode_utf8_decode_utf8(suffix@);
    }
    let mut s = String::from_str(prefix);
    s.append("...");
    s.append(suffix);
    s
}

/// `a` middle-truncated to `keep` leading and `keep` trailing bytes around
/// `...` when it is longer than `max_chars` bytes, where
/// `keep = (max_chars - 3) / 2` (saturating).
pub open spec fn address_responsive_text(a: Seq<char>, max_chars: nat) -> Seq<char> {
    let b = encode_utf8(a);
    let keep: int = if max_chars >= 3 { (max_chars - 3) / 2 } else { 0 };
    if b.len() <= max_chars {
        a
    } else {
        decode_utf8(b.subrange(0, keep)) + "..."@ + decode_utf8(
            b.subrange(b.len() - keep, b.len() as int),
        )
    }
}

/// Middle-truncate an address for responsive display.
pub fn format_address_responsive(address: &str, max_chars: usize) -> (r: String)
    requires
        address.spec_bytes().len() <= usize::MAX,
        ({
            let b = address.spec_bytes();
            let keep: int = if max_chars >= 3 { (max_chars - 3) / 2 } else { 0 };
            b.len() > max_chars ==> is_char_boundary(b, keep) && is_char_boundary(
                b,
                b.len() - keep,
            )
        }),
    ensures
        r@ == address_responsive_text(address@, max_chars as nat),
{
    if address.len() <= max_chars {
        return String::from_str(address);
    }
    let keep = max_chars.saturating_sub(3) / 2;
    let len = address.len();
    let (prefix, _) = address.split_at(keep);
    let (_, suffix) = address.split_at(len - keep);
    proof {
        encode_utf8_decode_utf8(prefix@);
        encode_utf8_decode_utf8(suffix@);
    }
    let mut s = String::from_str(prefix);
    s.append("...");
    s.append(suffix);
    s
}

/// `n` followed by `unit` or, unless `n == 1`, by `units`.
pub open spec fn count_text(n: nat, unit: Seq<char>, units: Seq<char>) -> Seq<char> {
    if n == 1 {
        seq!['1'] + unit
    } else {
        decimal(n) + units
    }
}

/// Text of a timestamp relative to the current time `now` (seconds since
/// the Unix epoch).
pub open spec fn relative_time_text(timestamp: u64, now: u64) -> Seq<char> {
    if timestamp == 0 {
        "Pending"@
    } else if timestamp > now {
        "just now"@
    } else {
        let elapsed = (now - timestamp) as nat;
        if elapsed < 60 {
            "just now"@
        } else if elapsed < 3600 {
            count_text(elapsed / 60, " min ago"@, " min ago"@)
        } else if elapsed < 86400 {
            count_text(elapsed / 3600, " hour ago"@, " hours ago"@)
        } else if elapsed < 86400 * 30 {
            count_text(elapsed / 86400, " day ago"@, " days ago"@)
        } else {
            date_text(timestamp as nat)
        }
    }
}

/// Builds `n unit` / `n units`.
fn count_string(n: u64, unit: &str, units: &str) -> (r: String)
    ensures
        r@ == count_text(n as nat, unit@, units@),
{
    if n == 1 {
        let mut s = String::new();
        push_char(&mut s, '1');
        s.append(unit);
        s
    } else {
        let mut s = u64_to_string(n);
        s.append(units);
        s
    }
}

/// Format a Unix timestamp relative to `now` (seconds since the epoch).
pub fn format_timestamp_at(timestamp: u64, now: u64) -> (r: String)
    ensures
        r@ == relative_time_text(timestamp, now),
{
    if timestamp == 0 {
        return String::from_str("Pending");
    }
    if timestamp > now {
        return String::from_str("just now");
    }
    let elapsed = now - timestamp;
    if elapsed < 60 {
        return String::from_str("just now");
    }
    if elapsed < 3600 {
        return count_string(elapsed / 60, " min ago", " min ago");
    }
    if elapsed < 86400 {
        return count_string(elapsed / 3600, " hour ago", " hours ago");
    }
    if elapsed < 86400 * 30 {
        return count_string(elapsed / 86400, " day ago", " days ago");
    }
    let mut v: Vec<char> = Vec::new();
    push_date(&mut v, timestamp);
    assert(v@ =~= date_text(timestamp as nat));
    string_from_chars(&v)
}

/// `std::time::SystemTime`, a reading of the system clock.
#[verifier::external_type_specification]
#[verifier::external_body]
pub struct ExSystemTime(std::time::SystemTime);

/// The system clock now (`SystemTime::now`); nothing is stated of the
/// reading.
#[verifier::external_body]
fn system_now() -> std::time::SystemTime {
    std::time::SystemTime::now()
}

/// The time from the Unix epoch to `t` (`SystemTime::duration_since` with
/// `UNIX_EPOCH`), `None` when `t` lies before the epoch; nothing is stated
/// of the clock reading it measures.
#[verifier::external_body]
fn since_unix_epoch(t: &std::time::SystemTime) -> Option<std::time::Duration> {
    t.duration_since(std::time::UNIX_EPOCH).ok()
}

/// The whole seconds of a duration (`Duration::as_secs`); durations are
/// opaque here, so nothing is stated of the number.
#[verifier::external_body]
fn whole_secs(d: &std::time::Duration) -> u64 {
    d.as_secs()
}

/// The current time in whole seconds since the Unix epoch, zero if the
/// clock reads before the epoch.
pub(crate) fn unix_now_secs() -> u64 {
    let now = system_now();
    match since_unix_epoch(&now) {
        Some(d) => whole_secs(&d),
        None => 0,
    }
}

/// Format a Unix timestamp as a human-readable relative or absolute date,
/// relative to the current time.
pub fn format_timestamp(timestamp: u64) -> (r: String)
    ensures
        exists|now: u64| r@ == relative_time_text(timestamp, now),
        timestamp == 0 ==> r@ == "Pending"@,
{
    let now = unix_now_secs();
    format_timestamp_at(timestamp, now)
}

/// Gregorian leap year rule.
pub open spec fn is_leap_year_spec(year: int) -> bool {
    (year % 4 == 0 && year % 100 != 0) || year % 400 == 0
}

/// Whether `year` is a Gregorian leap year.
#[verifier::spinoff_prover]
pub fn is_leap_year(year: i64) -> (r: bool)
    ensures
        r == is_leap_year_spec(year as int),
{
    (year % 4 == 0 && year % 100 != 0) || year % 400 == 0
}

/// Days in a Gregorian year.
pub open spec fn days_in_year(year: int) -> int {
    if is_leap_year_spec(year) { 366 } else { 365 }
}

/// Year and day-of-year (from 0) reached after `days` days starting on
/// January 1st of `year`.
pub open spec fn year_and_day(days: int, year: int) -> (int, int)
    decreases days,
{
    if days < days_in_year(year) || days < 0 {
        (year, days)
    } else {
        year_and_day(days - days_in_year(year), year + 1)
    }
}

/// Length of month `i` (0 = January) in a year with or without a leap day.
pub open spec fn month_length(i: int, leap: bool) -> int {
    if i == 1 {
        if leap { 29 } else { 28 }
    } else if i == 3 || i == 5 || i == 8 || i == 10 {
        30
    } else {
        31
    }
}

/// Month number (1-12) and day-of-month (from 0) for day-of-year `rem`,
/// scanning from month index `i`; month 0 if the day lies past December.
pub open spec fn month_and_day(rem: int, leap: bool, i: int) -> (int, int)
    decreases 12 - i,
{
    if i >= 12 {
        (0, rem)
    } else if rem < month_length(i, leap) {
        (i + 1, rem)
    } else {
        month_and_day(rem - month_length(i, leap), leap, i + 1)
    }
}

/// Gregorian calendar date (UTC) of a Unix timestamp: year, month (1-12)
/// and day of the month (from 1).
pub open spec fn calendar_date(timestamp: nat) -> (int, int, int) {
    let (year, doy) = year_and_day((timestamp / 86400) as int, 1970);
    let (month, day0) = month_and_day(doy, is_leap_year_spec(year), 0);
    (year, month, day0 + 1)
}

/// `YYYY-MM-DD`: the calendar date (UTC) of a Unix timestamp.
pub open spec fn date_text(timestamp: nat) -> Seq<char> {
    let (year, month, day) = calendar_date(timestamp);
    decimal(year as nat) + seq!['-'] + padded_decimal(month as nat, 2) + seq!['-']
        + padded_decimal(day as nat, 2)
}

/// `YYYY-MM-DD HH:MM:SS` (UTC) for a nonzero Unix timestamp.
pub open spec fn absolute_time_text(timestamp: nat) -> Seq<char> {
    let secs = timestamp % 86400;
    date_text(timestamp) + seq![' '] + padded_decimal(secs / 3600, 2) + seq![':']
        + padded_decimal((secs % 3600) / 60, 2) + seq![':'] + padded_decimal(secs % 60, 2)
}

/// Text of [`format_timestamp_absolute`].
pub open spec fn timestamp_absolute_text(timestamp: u64) -> Seq<char> {
    if timestamp == 0 {
        "Pending"@
    } else {
        absolute_time_text(timestamp as nat)
    }
}

/// Appends the calendar date (UTC) of a Unix timestamp as `YYYY-MM-DD`.
fn push_date(v: &mut Vec<char>, timestamp: u64)
    ensures
        final(v)@ == old(v)@ + date_text(timestamp as nat),
{
    let mut remaining_days: i64 = (timestamp / 86400) as i64;
    let ghost total = (timestamp / 86400) as int;
    let mut year: i64 = 1970;
    loop
        invariant
            0 <= remaining_days <= total,
            1970 <= year <= 1970 + (total - remaining_days),
            total == (timestamp / 86400) as int,
            total < 213_503_982_334_602,
            year_and_day(remaining_days as int, year as int) == year_and_day(total, 1970),
        ensures
            0 <= remaining_days <= total,
            1970 <= year <= 1970 + total,
            year_and_day(total, 1970) == (year as int, remaining_days as int),
        decreases remaining_days,
    {
        let days_in_year: i64 = if is_leap_year(year) { 366 } else { 365 };
        if remaining_days < days_in_year {
            break;
        }
        remaining_days = remaining_days - days_in_year;
        year = year + 1;
    }
    let leap = is_leap_year(year);
    let ghost doy = remaining_days as int;
    let mut month: u64 = 0;
    let mut i: u64 = 0;
    while i < 12
        invariant_except_break
            month == 0,
            month_and_day(remaining_days as int, leap, i as int) == month_and_day(doy, leap, 0),
        invariant
            i <= 12,
            0 <= remaining_days <= doy,
        ensures
            month_and_day(doy, leap, 0) == (month as int, remaining_days as int),
        decreases 12 - i,
    {
        let days: i64 = if i == 1 {
            if leap { 29 } else { 28 }
        } else if i == 3 || i == 5 || i == 8 || i == 10 {
            30
        } else {
            31
        };
        if remaining_days < days {
            month = i + 1;
            break;
        }
        remaining_days = remaining_days - days;
        i = i + 1;
    }
    let day = remaining_days + 1;
    assert(year_and_day(total, 1970) == (year as int, doy));
    let ghost start = v@;
    push_decimal(v, year as u64);
    v.push('-');
    push_padded_decimal(v, month, 2);
    v.push('-');
    push_padded_decimal(v, day as u64, 2);
    assert(v@ =~= start + date_text(timestamp as nat));
}

/// Format a Unix timestamp as an absolute UTC date/time string.
pub fn format_timestamp_absolute(timestamp: u64) -> (r: String)
    ensures
        r@ == timestamp_absolute_text(timestamp),
{
    if timestamp == 0 {
        return String::from_str("Pending");
    }
    let day_seconds = timestamp % 86400;
    let hours = day_seconds / 3600;
    let minutes = (day_seconds % 3600) / 60;
    let seconds = day_seconds % 60;
    let mut v: Vec<char> = Vec::new();
    push_date(&mut v, timestamp);
    v.push(' ');
    push_padded_decimal(&mut v, hours, 2);
    v.push(':');
    push_padded_decimal(&mut v, minutes, 2);
    v.push(':');
    push_padded_decimal(&mut v, seconds, 2);
    assert(v@ =~= absolute_time_text(timestamp as nat));
    string_from_chars(&v)
}

/// Display-ready transaction input.
#[derive(Debug, Clone, PartialEq)]
pub struct InputView {
    pub index: u32,
    pub address_short: String,
    pub amount_display: String,
}

/// Display-ready transaction output.
#[derive(Debug, Clone, PartialEq)]
pub struct OutputView {
    pub index: u32,
    pub address_short: String,
    pub amount_display: String,
    pub role_label: &'static str,
    pub role_color: &'static str,
}

/// Whether `v` is the display of `input` in `unit`.
pub open spec fn input_view_matches(v: InputView, input: InputInfo, unit: Seq<char>) -> bool {
    &&& v.index == input.index
    &&& v.address_short@ == address_short_text(input.address@)
    &&& v.amount_display@ == balance_text(input.value as nat, unit)
}

/// Label of an output role.
pub open spec fn role_label_spec(role: OutputRole) -> Seq<char> {
    match role {
        OutputRole::Received => "Received"@,
        OutputRole::Change => "Change"@,
        OutputRole::Sent => "Sent"@,
        OutputRole::Unspendable => "Unspendable"@,
    }
}

/// Badge color class of an output role.
pub open spec fn role_color_spec(role: OutputRole) -> Seq<char> {
    match role {
        OutputRole::Received => "bg-success"@,
        OutputRole::Change => "bg-muted"@,
        OutputRole::Sent => "bg-error"@,
        OutputRole::Unspendable => "bg-disabled"@,
    }
}

/// Whether `v` is the display of `output` in `unit`.
pub open spec fn output_view_matches(v: OutputView, output: OutputInfo, unit: Seq<char>) -> bool {
    &&& v.index == output.index
    &&& v.address_short@ == address_short_text(output.address@)
    &&& v.amount_display@ == balance_text(output.value as nat, unit)
    &&& v.role_label@ == role_label_spec(output.role)
    &&& v.role_color@ == role_color_spec(output.role)
}

/// Map an `OutputRole` to a human-readable label and Tailwind color class.
pub fn role_display(role: OutputRole) -> (r: (&'static str, &'static str))
    ensures
        r.0@ == role_label_spec(role),
        r.1@ == role_color_spec(role),
{
    match role {
        OutputRole::Received => ("Received", "bg-success"),
        OutputRole::Change => ("Change", "bg-muted"),
        OutputRole::Sent => ("Sent", "bg-error"),
        OutputRole::Unspendable => ("Unspendable", "bg-disabled"),
    }
}

/// Format a transaction input for display.
pub fn format_input(input: &InputInfo, unit: &str) -> (r: InputView)
    requires
        shortenable(input.address@),
    ensures
        input_view_matches(r, *input, unit@),
{
    InputView {
        index: input.index,
        address_short: format_address_short(input.address.as_str()),
        amount_display: format_balance(input.value, unit),
    }
}

/// Format a transaction output for display.
pub fn format_output(output: &OutputInfo, unit: &str) -> (r: OutputView)
    requires
        shortenable(output.address@),
    ensures
        output_view_matches(r, *output, unit@),
{
    let (role_label, role_color) = role_display(output.role);
    OutputView {
        index: output.index,
        address_short: format_address_short(output.address.as_str()),
        amount_display: format_balance(output.value, unit),
        role_label,
        role_color,
    }
}

/// The number of inputs/outputs shown before a "Show all" toggle appears.
pub const COLLAPSE_THRESHOLD: usize = 5;

/// How many of `len` rows are shown.
pub open spec fn visible_count(len: nat, expanded: bool, threshold: nat) -> nat {
    if expanded || len <= threshold { len } else { threshold }
}

/// Return the visible input views and whether more are hidden.
///
/// When `expanded` is false and the input count exceeds `threshold`, only
/// the first `threshold` inputs are included and `has_more` is `true`.
pub fn visible_input_views(
    inputs: &[InputInfo],
    expanded: bool,
    threshold: usize,
    unit: &str,
) -> (r: (Vec<InputView>, bool))
    requires
        forall|i: int| 0 <= i < inputs@.len() ==> shortenable(#[trigger] inputs@[i].address@),
    ensures
        r.1 == (inputs@.len() > threshold),
        r.0@.len() == visible_count(inputs@.len(), expanded, threshold as nat),
        forall|i: int|
            0 <= i < r.0@.len() ==> input_view_matches(#[trigger] r.0@[i], inputs@[i], unit@),
{
    let has_more = inputs.len() > threshold;
    let count = if expanded || !has_more {
        inputs.len()
    } else {
        threshold
    };
    let mut views: Vec<InputView> = Vec::new();
    let mut i: usize = 0;
    while i < count
        invariant
            i <= count <= inputs@.len(),
            views@.len() == i,
            forall|k: int| 0 <= k < inputs@.len() ==> shortenable(#[trigger] inputs@[k].address@),
            forall|k: int|
                0 <= k < i ==> input_view_matches(#[trigger] views@[k], inputs@[k], unit@),
        decreases count - i,
    {
        views.push(format_input(&inputs[i], unit));
        i = i + 1;
    }
    (views, has_more)
}

/// Return the visible output views and whether more are hidden.
///
/// When `expanded` is false and the output count exceeds `threshold`, only
/// the first `threshold` outputs are included and `has_more` is `true`.
pub fn visible_output_views(
    outputs: &[OutputInfo],
    expanded: bool,
    threshold: usize,
    unit: &str,
) -> (r: (Vec<OutputView>, bool))
    requires
        forall|i: int| 0 <= i < outputs@.len() ==> shortenable(#[trigger] outputs@[i].address@),
    ensures
        r.1 == (outputs@.len() > threshold),
        r.0@.len() == visible_count(outputs@.len(), expanded, threshold as nat),
        forall|i: int|
            0 <= i < r.0@.len() ==> output_view_matches(#[trigger] r.0@[i], outputs@[i], unit@),
{
    let has_more = outputs.len() > threshold;
    let count = if expanded || !has_more {
        outputs.len()
    } else {
        threshold
    };
    let mut views: Vec<OutputView> = Vec::new();
    let mut i: usize = 0;
    while i < count
        invariant
            i <= count <= outputs@.len(),
            views@.len() == i,
            forall|k: int| 0 <= k < outputs@.len() ==> shortenable(#[trigger] outputs@[k].address@),
            forall|k: int|
                0 <= k < i ==> output_view_matches(#[trigger] views@[k], outputs@[k], unit@),
        decreases count - i,
    {
        views.push(format_output(&outputs[i], unit));
        i = i + 1;
    }
    (views, has_more)
}

/// Badge shown for non-standard transaction types; none when it would
/// repeat the direction label.
pub open spec fn type_badge_spec(t: TransactionType, d: TransactionDirection) -> Option<Seq<char>> {
    match t {
        TransactionType::Standard => None,
        TransactionType::CoinJoin => if d == TransactionDirection::CoinJoin {
            None
        } else {
            Some("CoinJoin"@)
        },
        TransactionType::Coinbase => Some("Coinbase"@),
        TransactionType::AssetLock => Some("AssetLock"@),
        TransactionType::AssetUnlock => Some("AssetUnlock"@),
        TransactionType::ProviderRegistration => Some("ProReg"@),
        TransactionType::ProviderUpdateRegistrar => Some("ProUpReg"@),
        TransactionType::ProviderUpdateService => Some("ProUpServ"@),
        TransactionType::ProviderUpdateRevocation => Some("ProUpRev"@),
        TransactionType::Ignored => None,
    }
}

/// Model of an optional static string.
pub open spec fn opt_str_view(s: Option<&'static str>) -> Option<Seq<char>> {
    match s {
        Some(x) => Some(x@),
        None => None,
    }
}

/// Derive the type badge label for non-standard transaction types.
///
/// Returns `None` when the badge would be redundant with the direction label
/// (e.g., CoinJoin direction already shows "CoinJoin").
pub fn type_badge_label(
    tx_type: TransactionType,
    direction: TransactionDirection,
) -> (r: Option<&'static str>)
    ensures
        opt_str_view(r) == type_badge_spec(tx_type, direction),
{
    match tx_type {
        TransactionType::Standard => None,
        TransactionType::CoinJoin => if direction == TransactionDirection::CoinJoin {
            None
        } else {
            Some("CoinJoin")
        },
        TransactionType::Coinbase => Some("Coinbase"),
        TransactionType::AssetLock => Some("AssetLock"),
        TransactionType::AssetUnlock => Some("AssetUnlock"),
        TransactionType::ProviderRegistration => Some("ProReg"),
        TransactionType::ProviderUpdateRegistrar => Some("ProUpReg"),
        TransactionType::ProviderUpdateService => Some("ProUpServ"),
        TransactionType::ProviderUpdateRevocation => Some("ProUpRev"),
        TransactionType::Ignored => None,
    }
}

/// Display-ready transaction info.
#[derive(Debug, Clone, PartialEq)]
pub struct TransactionView {
    pub txid_hex: String,
    pub direction_label: &'static str,
    pub direction_icon: &'static str,
    pub direction_icon_class: &'static str,
    pub border_class: &'static str,
    pub amount_class: &'static str,
    pub type_badge: Option<&'static str>,
    pub amount_display: String,
    pub timestamp_display: String,
    pub absolute_date: String,
    pub confirmations_display: String,
    pub fee_display: Option<String>,
    pub block_hash_display: Option<String>,
    pub height_display: Option<String>,
    pub is_instant_send: bool,
    pub is_chain_locked: bool,
}

/// Label, icon, icon class, border class and amount class for a direction.
pub open spec fn direction_style(d: TransactionDirection) -> (
    Seq<char>,
    Seq<char>,
    Seq<char>,
    Seq<char>,
    Seq<char>,
) {
    match d {
        TransactionDirection::Incoming => (
            "Received"@,
            "\u{25bc}"@,
            "text-success text-lg flex-shrink-0"@,
            "border-success"@,
            "text-success font-medium"@,
        ),
        TransactionDirection::Outgoing => (
            "Sent"@,
            "\u{25b2}"@,
            "text-error text-lg flex-shrink-0"@,
            "border-error"@,
            "text-error font-medium"@,
        ),
        TransactionDirection::Internal => (
            "Internal"@,
            "\u{21c4}"@,
            "text-muted text-lg flex-shrink-0"@,
            "border-muted"@,
            "text-muted font-medium"@,
        ),
        TransactionDirection::CoinJoin => (
            "CoinJoin"@,
            "\u{21cb}"@,
            "text-muted text-lg flex-shrink-0"@,
            "border-muted"@,
            "text-muted font-medium"@,
        ),
    }
}

/// Confirmations text: "Unconfirmed" or "N confirmations".
pub open spec fn confirmations_text(c: nat) -> Seq<char> {
    if c == 0 {
        "Unconfirmed"@
    } else {
        decimal(c) + " confirmations"@
    }
}

/// Whether `v` is the display of `tx` at chain tip `current_height`, in
/// `unit`, with its relative time taken at `now`.
pub open spec fn transaction_view_matches(
    v: TransactionView,
    tx: TransactionInfo,
    current_height: u32,
    unit: Seq<char>,
    now: u64,
) -> bool {
    let style = direction_style(tx.direction);
    &&& v.txid_hex@ == hash_display(tx.txid)
    &&& v.direction_label@ == style.0
    &&& v.direction_icon@ == style.1
    &&& v.direction_icon_class@ == style.2
    &&& v.border_class@ == style.3
    &&& v.amount_class@ == style.4
    &&& opt_str_view(v.type_badge) == type_badge_spec(tx.transaction_type, tx.direction)
    &&& v.amount_display@ == amount_text(tx.amount, unit)
    &&& v.timestamp_display@ == relative_time_text(tx.timestamp, now)
    &&& v.absolute_date@ == timestamp_absolute_text(tx.timestamp)
    &&& v.confirmations_display@ == confirmations_text(confirmations_spec(tx.height, current_height))
    &&& match (v.fee_display, tx.fee) {
        (Some(s), Some(f)) => s@ == balance_text(f as nat, unit),
        (None, None) => true,
        _ => false,
    }
    &&& match (v.block_hash_display, tx.block_hash) {
        (Some(s), Some(h)) => s@ == hash_display(h),
        (None, None) => true,
        _ => false,
    }
    &&& match (v.height_display, tx.height) {
        (Some(s), Some(h)) => s@ == decimal(h as nat),
        (None, None) => true,
        _ => false,
    }
    &&& v.is_instant_send == tx.is_instant_send
    &&& v.is_chain_locked == tx.is_chain_locked
}

/// Convert a transaction record to a display-ready view, with relative
/// times measured from `now` (seconds since the Unix epoch).
pub fn format_transaction_at(
    tx: &TransactionInfo,
    current_height: u32,
    unit: &str,
    now: u64,
) -> (r: TransactionView)
    requires
        !(tx.height == Some(0u32) && current_height == u32::MAX),
    ensures
        transaction_view_matches(r, *tx, current_height, unit@, now),
{
    let txid_hex = hash_to_hex(&tx.txid);
    let (label, icon, icon_class, border_class, amount_class) = match tx.direction {
        TransactionDirection::Incoming => (
            "Received",
            "\u{25bc}",
            "text-success text-lg flex-shrink-0",
            "border-success",
            "text-success font-medium",
        ),
        TransactionDirection::Outgoing => (
            "Sent",
            "\u{25b2}",
            "text-error text-lg flex-shrink-0",
            "border-error",
            "text-error font-medium",
        ),
        TransactionDirection::Internal => (
            "Internal",
            "\u{21c4}",
            "text-muted text-lg flex-shrink-0",
            "border-muted",
            "text-muted font-medium",
        ),
        TransactionDirection::CoinJoin => (
            "CoinJoin",
            "\u{21cb}",
            "text-muted text-lg flex-shrink-0",
            "border-muted",
            "text-muted font-medium",
        ),
    };
    let type_badge = type_badge_label(tx.transaction_type, tx.direction);
    let amount_display = format_amount(tx.amount, unit);
    let timestamp_display = format_timestamp_at(tx.timestamp, now);
    let absolute_date = format_timestamp_absolute(tx.timestamp);
    let confirmations = tx.confirmations(current_height);
    let confirmations_display = if confirmations == 0 {
        String::from_str("Unconfirmed")
    } else {
        let mut s = u64_to_string(confirmations as u64);
        s.append(" confirmations");
        s
    };
    let fee_display = match tx.fee {
        Some(f) => Some(format_balance(f, unit)),
        None => None,
    };
    let block_hash_display = match &tx.block_hash {
        Some(h) => Some(hash_to_hex(h)),
        None => None,
    };
    let height_display = match tx.height {
        Some(h) => Some(u64_to_string(h as u64)),
        None => None,
    };
    TransactionView {
        txid_hex,
        direction_label: label,
        direction_icon: icon,
        direction_icon_class: icon_class,
        border_class,
        amount_class,
        type_badge,
        amount_display,
        timestamp_display,
        absolute_date,
        confirmations_display,
        fee_display,
        block_hash_display,
        height_display,
        is_instant_send: tx.is_instant_send,
        is_chain_locked: tx.is_chain_locked,
    }
}

/// Convert a transaction record to a display-ready view, with relative
/// times measured from the current time.
pub fn format_transaction(tx: &TransactionInfo, current_height: u32, unit: &str) -> (r:
    TransactionView)
    requires
        !(tx.height == Some(0u32) && current_height == u32::MAX),
    ensures
        exists|now: u64| transaction_view_matches(r, *tx, current_height, unit@, now),
{
    let now = unix_now_secs();
    format_transaction_at(tx, current_height, unit, now)
}

/// Texts of a transaction that the search box looks in: the txid, each
/// address, the balance text of the amount's magnitude, and the label.
pub open spec fn search_fields(tx: TransactionInfo, unit: Seq<char>) -> Seq<Seq<char>> {
    seq![hash_display(tx.txid)] + tx.addresses.deep_view() + seq![
        balance_text(abs_i64(tx.amount), unit),
    ] + match tx.label {
        Some(l) => seq![l@],
        None => Seq::empty(),
    }
}

/// Whether a transaction matches a search query: an empty query matches
/// everything; otherwise the lowercased query must occur in the lowercased
/// form of one of the [`search_fields`].
pub open spec fn matches_search_spec(tx: TransactionInfo, query: Seq<char>, unit: Seq<char>) -> bool {
    query.len() == 0 || exists|i: int|
        0 <= i < search_fields(tx, unit).len() && contains_seq(
            lowercase(#[trigger] search_fields(tx, unit)[i]),
            lowercase(query),
        )
}

/// Whether the (already lowercased) query occurs in one of the (already
/// lowercased) fields.
pub fn matches_lowered(fields: &Vec<String>, query: &str) -> (r: bool)
    ensures
        r == exists|i: int| 0 <= i < fields@.len() && contains_seq(#[trigger] fields@[i]@, query@),
{
    let q = str_chars(query);
    let mut i: usize = 0;
    while i < fields.len()
        invariant
            i <= fields@.len(),
            q@ == query@,
            forall|k: int| 0 <= k < i ==> !contains_seq(#[trigger] fields@[k]@, query@),
        decreases fields.len() - i,
    {
        let hay = str_chars(fields[i].as_str());
        if contains_chars(&hay, &q) {
            return true;
        }
        i = i + 1;
    }
    false
}

/// Check whether a transaction matches a search query.
///
/// Matches against txid, addresses, formatted amount and label
/// (case-insensitive).
pub fn matches_search(tx: &TransactionInfo, query: &str, unit: &str) -> (r: bool)
    ensures
        r == matches_search_spec(*tx, query@, unit@),
{
    if query.unicode_len() == 0 {
        return true;
    }
    let q = to_lowercase(query);
    let ghost fields = search_fields(*tx, unit@);
    let mut lowered: Vec<String> = Vec::new();
    let txid = hash_to_hex(&tx.txid);
    lowered.push(to_lowercase(txid.as_str()));
    let mut i: usize = 0;
    while i < tx.addresses.len()
        invariant
            i <= tx.addresses@.len(),
            fields == search_fields(*tx, unit@),
            lowered@.len() == i + 1,
            forall|k: int| 0 <= k < lowered@.len() ==> #[trigger] lowered@[k]@ == lowercase(fields[k]),
        decreases tx.addresses.len() - i,
    {
        lowered.push(to_lowercase(tx.addresses[i].as_str()));
        assert(fields[i + 1] == tx.addresses.deep_view()[i as int]);
        i = i + 1;
    }
    let amount = format_balance(unsigned_abs(tx.amount), unit);
    lowered.push(to_lowercase(amount.as_str()));
    match &tx.label {
        Some(l) => {
            lowered.push(to_lowercase(l.as_str()));
        },
        None => {},
    }
    assert(lowered@.len() == fields.len());
    let r = matches_lowered(&lowered, q.as_str());
    proof {
        if r {
            let i = choose|i: int| 0 <= i < lowered@.len() && contains_seq(#[trigger] lowered@[i]@, q@);
            assert(contains_seq(lowercase(fields[i]), lowercase(query@)));
        } else {
            assert forall|i: int| 0 <= i < fields.len() implies !contains_seq(
                lowercase(#[trigger] fields[i]),
                lowercase(query@),
            ) by {
                assert(lowered@[i]@ == lowercase(fields[i]));
            }
        }
    }
    r
}

/// The search looks in every field: an empty query matches every
/// transaction, and a query that occurs, ignoring case, in the txid, in any
/// one of the addresses, in the amount text or in the label makes the
/// transaction match.
pub proof fn law_search_looks_in_every_field(tx: TransactionInfo, query: Seq<char>, unit: Seq<char>)
    ensures
        query.len() == 0 ==> matches_search_spec(tx, query, unit),
        contains_seq(lowercase(hash_display(tx.txid)), lowercase(query)) ==> matches_search_spec(
            tx,
            query,
            unit,
        ),
        forall|i: int|
            0 <= i < tx.addresses@.len() && contains_seq(
                lowercase(#[trigger] tx.addresses@[i]@),
                lowercase(query),
            ) ==> matches_search_spec(tx, query, unit),
        contains_seq(lowercase(balance_text(abs_i64(tx.amount), unit)), lowercase(query))
            ==> matches_search_spec(tx, query, unit),
        (tx.label matches Some(l) && contains_seq(lowercase(l@), lowercase(query)))
            ==> matches_search_spec(tx, query, unit),
{
    let fields = search_fields(tx, unit);
    let n: int = tx.addresses@.len() as int;
    assert(fields[0] == hash_display(tx.txid));
    assert forall|i: int|
        0 <= i < n && contains_seq(
            lowercase(#[trigger] tx.addresses@[i]@),
            lowercase(query),
        ) implies matches_search_spec(tx, query, unit) by {
        assert(fields[i + 1] == tx.addresses.deep_view()[i]);
        assert(tx.addresses.deep_view()[i] == tx.addresses@[i]@);
    }
    assert(fields[n + 1] == balance_text(abs_i64(tx.amount), unit));
    if let Some(l) = tx.label {
        assert(fields[n + 2] == l@);
    }
}

/// A timestamp thirty days old or more is shown as its calendar date: the
/// date part of its absolute UTC rendering.
pub proof fn law_old_timestamp_shows_calendar_date(timestamp: u64, now: u64)
    requires
        timestamp > 0,
        now >= timestamp + 86400 * 30,
    ensures
        relative_time_text(timestamp, now) == timestamp_absolute_text(timestamp).subrange(
            0,
            date_text(timestamp as nat).len() as int,
        ),
{
    let d = date_text(timestamp as nat);
    assert(timestamp_absolute_text(timestamp).subrange(0, d.len() as int) =~= d);
}

} // verus!
