use vstd::prelude::*;

verus! {

/// A pixel in the fixed 32-bit layout: blue, green, red, alpha.
#[derive(Clone, Copy, Debug, PartialEq, Eq, Structural)]
pub struct Color {
    pub b: u8,
    pub g: u8,
    pub r: u8,
    pub a: u8,
}

impl Color {
    pub fn new(b: u8, g: u8, r: u8, a: u8) -> (c: Color)
        ensures
            c == (Color { b, g, r, a }),
    {
        Color { b, g, r, a }
    }
}

/// Result of comparing an observed color with the expected one.
pub enum ColorCheck {
    Success,
    Different(String),
}

/// The decimal digit character for `d < 10`.
pub open spec fn digit_char(d: nat) -> char {
    if d == 0 { '0' }
    else if d == 1 { '1' }
    else if d == 2 { '2' }
    else if d == 3 { '3' }
    else if d == 4 { '4' }
    else if d == 5 { '5' }
    else if d == 6 { '6' }
    else if d == 7 { '7' }
    else if d == 8 { '8' }
    else { '9' }
}

/// Decimal rendering of a natural number, without leading zeros.
pub open spec fn decimal(n: nat) -> Seq<char>
    decreases n,
{
    if n < 10 {
        seq![digit_char(n)]
    } else {
        decimal(n / 10) + seq![digit_char(n % 10)]
    }
}

/// `( B: .., G: .., R: .., A: .. )` for one color.
pub open spec fn channels_text(c: Color) -> Seq<char> {
    "( B: "@ + decimal(c.b as nat) + ", G: "@ + decimal(c.g as nat) + ", R: "@ + decimal(
        c.r as nat,
    ) + ", A: "@ + decimal(c.a as nat) + " )"@
}

/// The diagnostic text reported when `actual` differs from `expected`.
pub open spec fn mismatch_message(actual: Color, expected: Color) -> Seq<char> {
    "Color comparison failed!\n  Actual: "@ + channels_text(actual) + "\n  Expected: "@
        + channels_text(expected) + "\n"@
}

fn digit_str(d: u8) -> (s: &'static str)
    requires
        d < 10,
    ensures
        s@ == seq![digit_char(d as nat)],
{
    proof {
        reveal_strlit("0");
        reveal_strlit("1");
        reveal_strlit("2");
        reveal_strlit("3");
        reveal_strlit("4");
        reveal_strlit("5");
        reveal_strlit("6");
        reveal_strlit("7");
        reveal_strlit("8");
        reveal_strlit("9");
    }
    match d {
        0 => "0",
        1 => "1",
        2 => "2",
        3 => "3",
        4 => "4",
        5 => "5",
        6 => "6",
        7 => "7",
        8 => "8",
        _ => "9",
    }
}

/// Appends the decimal rendering of `n` to `out`.
fn push_decimal(out: &mut String, n: u8)
    ensures
        final(out)@ == old(out)@ + decimal(n as nat),
{
    let ghost start = out@;
    let ghost m = n as nat;
    if n >= 100 {
        proof {
            assert(m / 10 / 10 == m / 100);
            assert(m / 100 < 10);
            assert(m / 10 >= 10);
            assert(decimal(m / 10) == decimal(m / 10 / 10) + seq![digit_char((m / 10) % 10)]);
            assert(decimal(m) == decimal(m / 10) + seq![digit_char(m % 10)]);
        }
        out.append(digit_str(n / 100));
        out.append(digit_str((n / 10) % 10));
        out.append(digit_str(n % 10));
        assert(out@ =~= start + decimal(m));
    } else if n >= 10 {
        proof {
            assert(decimal(m) == decimal(m / 10) + seq![digit_char(m % 10)]);
        }
        out.append(digit_str(n / 10));
        out.append(digit_str(n % 10));
        assert(out@ =~= start + decimal(m));
    } else {
        out.append(digit_str(n));
    }
}

fn push_channels(out: &mut String, c: Color)
    ensures
        final(out)@ == old(out)@ + channels_text(c),
{
    out.append("( B: ");
    push_decimal(out, c.b);
    out.append(", G: ");
    push_decimal(out, c.g);
    out.append(", R: ");
    push_decimal(out, c.r);
    out.append(", A: ");
    push_decimal(out, c.a);
    out.append(" )");
}

/// Exact, component-wise comparison over all four channels.
pub fn check_color(actual: Color, expected: Color) -> (r: ColorCheck)
    ensures
        actual == expected <==> r is Success,
        r matches ColorCheck::Different(m) ==> m@ == mismatch_message(actual, expected),
{
    if actual.b == expected.b && actual.g == expected.g && actual.r == expected.r && actual.a
        == expected.a {
        ColorCheck::Success
    } else {
        let mut m = String::from_str("Color comparison failed!\n  Actual: ");
        push_channels(&mut m, actual);
        m.append("\n  Expected: ");
        push_channels(&mut m, expected);
        m.append("\n");
        proof {
            assert(m@ =~= mismatch_message(actual, expected));
        }
        ColorCheck::Different(m)
    }
}

} // verus!
