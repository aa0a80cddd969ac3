//! Decimal rendering of integers and fixed-point values.
//!
//! Quantities that the job description carries as fractions are held as
//! integers scaled by a power of ten (a thousandth of a unit, most often), and
//! are rendered here as the external tool reads them.
use vstd::prelude::*;
use vstd::string::StringExecFns;

verus! {

/// The decimal digit character for `d < 10`.
pub open spec fn digit_char(d: nat) -> char {
    if d == 0 { '0' }
    else if d == 1 { '1' }
    else if d == 2 { '2' }
    else if d == 3 { '3' }
    else if d == 4 { '4' }
    else if d == 5 { '5' }
    else if d == 6 { '6' }
    else if d == 7 { '7' }
    else if d == 8 { '8' }
    else { '9' }
}

/// The shortest decimal text of `n` (no leading zeros; `0` is "0").
pub open spec fn nat_text(n: nat) -> Seq<char>
    decreases n,
{
    if n < 10 {
        seq![digit_char(n)]
    } else {
        nat_text(n / 10).push(digit_char(n % 10))
    }
}

/// The last `places` decimal digits of `n`, zeros in front where needed.
pub open spec fn padded_text(n: nat, places: nat) -> Seq<char>
    decreases places,
{
    if places == 0 {
        Seq::empty()
    } else {
        padded_text(n / 10, (places - 1) as nat).push(digit_char(n % 10))
    }
}

/// The fraction `n / 10^places` written after the point with its trailing zeros
/// dropped.
pub open spec fn trimmed_text(n: nat, places: nat) -> Seq<char>
    decreases places,
{
    if places > 0 && n % 10 == 0 {
        trimmed_text(n / 10, (places - 1) as nat)
    } else {
        padded_text(n, places)
    }
}

pub open spec fn abs(v: int) -> nat {
    if v < 0 { (-v) as nat } else { v as nat }
}

pub open spec fn sign_text(v: int) -> Seq<char> {
    if v < 0 { seq!['-'] } else { Seq::empty() }
}

/// A value held in thousandths, written in its shortest decimal form:
/// 2500 is "2.5", 2000 is "2", -125 is "-0.125".
pub open spec fn milli_text(v: int) -> Seq<char> {
    let a = abs(v);
    let whole = sign_text(v) + nat_text(a / 1000);
    if a % 1000 == 0 {
        whole
    } else {
        whole + seq!['.'] + trimmed_text(a % 1000, 3)
    }
}

/// A value held in hundredths, written with exactly two decimals:
/// 10 is "0.10", -250 is "-2.50".
pub open spec fn centi_text(v: int) -> Seq<char> {
    let a = abs(v);
    sign_text(v) + nat_text(a / 100) + seq!['.'] + padded_text(a % 100, 2)
}

/// A value held in thousandths, written with exactly three decimals.
pub open spec fn milli_fixed_text(v: int) -> Seq<char> {
    let a = abs(v);
    sign_text(v) + nat_text(a / 1000) + seq!['.'] + padded_text(a % 1000, 3)
}

/// `a / b` rounded to the nearest integer, halves away from zero.
pub open spec fn div_round(a: int, b: int) -> int {
    if a >= 0 {
        (a + b / 2) / b
    } else {
        -((-a + b / 2) / b)
    }
}

fn digit_str(d: u64) -> (r: &'static str)
    requires
        d < 10,
    ensures
        r@ == seq![digit_char(d as nat)],
{
    if d == 0 {
        proof { reveal_strlit("0"); }
        "0"
    } else if d == 1 {
        proof { reveal_strlit("1"); }
        "1"
    } else if d == 2 {
        proof { reveal_strlit("2"); }
        "2"
    } else if d == 3 {
        proof { reveal_strlit("3"); }
        "3"
    } else if d == 4 {
        proof { reveal_strlit("4"); }
        "4"
    } else if d == 5 {
        proof { reveal_strlit("5"); }
        "5"
    } else if d == 6 {
        proof { reveal_strlit("6"); }
        "6"
    } else if d == 7 {
        proof { reveal_strlit("7"); }
        "7"
    } else if d == 8 {
        proof { reveal_strlit("8"); }
        "8"
    } else {
        proof { reveal_strlit("9"); }
        "9"
    }
}

/// `n` in decimal.
pub fn render_nat(n: u64) -> (r: String)
    ensures
        r@ == nat_text(n as nat),
    decreases n,
{
    if n < 10 {
        String::from_str(digit_str(n))
    } else {
        let mut s = render_nat(n / 10);
        s.append(digit_str(n % 10));
        s
    }
}

fn render_padded(n: u64, places: u32) -> (r: String)
    ensures
        r@ == padded_text(n as nat, places as nat),
    decreases places,
{
    if places == 0 {
        String::new()
    } else {
        let mut s = render_padded(n / 10, places - 1);
        s.append(digit_str(n % 10));
        s
    }
}

fn render_trimmed(n: u64, places: u32) -> (r: String)
    ensures
        r@ == trimmed_text(n as nat, places as nat),
    decreases places,
{
    if places > 0 && n % 10 == 0 {
        render_trimmed(n / 10, places - 1)
    } else {
        render_padded(n, places)
    }
}

fn unsigned_abs(v: i64) -> (r: u64)
    ensures
        r as int == abs(v as int),
{
    if v < 0 {
        if v == i64::MIN {
            9223372036854775808u64
        } else {
            (-v) as u64
        }
    } else {
        v as u64
    }
}

fn render_sign(v: i64) -> (r: String)
    ensures
        r@ == sign_text(v as int),
{
    if v < 0 {
        proof { reveal_strlit("-"); }
        String::from_str("-")
    } else {
        String::new()
    }
}

/// A value in thousandths in its shortest decimal form.
pub fn render_milli(v: i64) -> (r: String)
    ensures
        r@ == milli_text(v as int),
{
    let a = unsigned_abs(v);
    let mut s = render_sign(v);
    let whole = render_nat(a / 1000);
    s.append(whole.as_str());
    if a % 1000 != 0 {
        proof { reveal_strlit("."); }
        s.append(".");
        let frac = render_trimmed(a % 1000, 3);
        s.append(frac.as_str());
    }
    s
}

/// A non-negative value in thousandths in its shortest decimal form.
pub fn render_milli_u64(a: u64) -> (r: String)
    ensures
        r@ == milli_text(a as int),
{
    let mut s = String::new();
    let whole = render_nat(a / 1000);
    s.append(whole.as_str());
    if a % 1000 != 0 {
        proof { reveal_strlit("."); }
        s.append(".");
        let frac = render_trimmed(a % 1000, 3);
        s.append(frac.as_str());
    }
    s
}

/// A value in hundredths with exactly two decimals.
pub fn render_centi(v: i64) -> (r: String)
    ensures
        r@ == centi_text(v as int),
{
    let a = unsigned_abs(v);
    let mut s = render_sign(v);
    let whole = render_nat(a / 100);
    s.append(whole.as_str());
    proof { reveal_strlit("."); }
    s.append(".");
    let frac = render_padded(a % 100, 2);
    s.append(frac.as_str());
    s
}

/// A non-negative value in thousandths with exactly three decimals.
pub fn render_milli_fixed(a: u64) -> (r: String)
    ensures
        r@ == milli_fixed_text(a as int),
{
    let mut s = String::new();
    let whole = render_nat(a / 1000);
    s.append(whole.as_str());
    proof { reveal_strlit("."); }
    s.append(".");
    let frac = render_padded(a % 1000, 3);
    s.append(frac.as_str());
    s
}

/// `a / b` rounded to the nearest integer, halves away from zero.
pub fn round_div(a: i64, b: i64) -> (r: i64)
    requires
        b > 0,
        -0x4000_0000_0000_0000 <= a <= 0x4000_0000_0000_0000,
        b <= 0x4000_0000_0000_0000,
    ensures
        r == div_round(a as int, b as int),
{
    if a >= 0 {
        (a + b / 2) / b
    } else {
        -((-a + b / 2) / b)
    }
}

} // verus!
