use vstd::prelude::*;

verus! {

/// The character of one decimal digit.
pub open spec fn digit_char(d: int) -> char
    recommends
        0 <= d < 10,
{
    if d == 0 {
        '0'
    } else if d == 1 {
        '1'
    } else if d == 2 {
        '2'
    } else if d == 3 {
        '3'
    } else if d == 4 {
        '4'
    } else if d == 5 {
        '5'
    } else if d == 6 {
        '6'
    } else if d == 7 {
        '7'
    } else if d == 8 {
        '8'
    } else {
        '9'
    }
}

/// The digit that a character stands for, if it is one.
pub open spec fn digit_value(c: char) -> Option<int> {
    if c == '0' {
        Some(0)
    } else if c == '1' {
        Some(1)
    } else if c == '2' {
        Some(2)
    } else if c == '3' {
        Some(3)
    } else if c == '4' {
        Some(4)
    } else if c == '5' {
        Some(5)
    } else if c == '6' {
        Some(6)
    } else if c == '7' {
        Some(7)
    } else if c == '8' {
        Some(8)
    } else if c == '9' {
        Some(9)
    } else {
        None
    }
}

/// The canonical decimal text of a natural number: its digits, most
/// significant first, with no leading zero but for zero itself.
pub open spec fn nat_text(n: nat) -> Seq<char>
    decreases n,
{
    if n < 10 {
        seq![digit_char(n as int)]
    } else {
        nat_text(n / 10).push(digit_char((n % 10) as int))
    }
}

/// The canonical decimal text of an integer: a minus sign for a negative
/// number, then the text of its magnitude.
pub open spec fn int_text(i: int) -> Seq<char> {
    if i < 0 {
        seq!['-'] + nat_text((-i) as nat)
    } else {
        nat_text(i as nat)
    }
}

/// The canonical text of a truth value.
pub open spec fn bool_text(b: bool) -> Seq<char> {
    if b {
        seq!['t', 'r', 'u', 'e']
    } else {
        seq!['f', 'a', 'l', 's', 'e']
    }
}

/// The canonical text of a character: the character alone.
pub open spec fn char_text(c: char) -> Seq<char> {
    seq![c]
}

/// The text that stands for a float that is not a number.
pub open spec fn nan_text() -> Seq<char> {
    seq!['N', 'a', 'N']
}

/// The fixed texts are the literals `true`, `false` and `NaN`.
pub proof fn lemma_fixed_texts()
    ensures
        bool_text(true) == "true"@,
        bool_text(false) == "false"@,
        nan_text() == "NaN"@,
{
    reveal_strlit("true");
    reveal_strlit("false");
    reveal_strlit("NaN");
    assert(bool_text(true) =~= "true"@);
    assert(bool_text(false) =~= "false"@);
    assert(nan_text() =~= "NaN"@);
}

/// The number that a non-empty run of decimal digits denotes.
pub open spec fn digits_value(s: Seq<char>) -> Option<nat>
    decreases s.len(),
{
    if s.len() == 0 {
        None
    } else if s.len() == 1 {
        match digit_value(s[0]) {
            Some(d) => Some(d as nat),
            None => None,
        }
    } else {
        match (digits_value(s.drop_last()), digit_value(s.last())) {
            (Some(high), Some(d)) => Some((high * 10 + d) as nat),
            _ => None,
        }
    }
}

/// Reading a decimal text back as an integer of a width whose range is
/// `min..=max`: an optional sign (a minus only where the width is signed),
/// then digits, and the number must lie in the range.
pub open spec fn parse_decimal(s: Seq<char>, min: int, max: int) -> Option<int> {
    let signed: Option<int> = if s.len() > 0 && s[0] == '-' {
        if min < 0 {
            match digits_value(s.skip(1)) {
                Some(n) => Some(-(n as int)),
                None => None,
            }
        } else {
            None
        }
    } else if s.len() > 0 && s[0] == '+' {
        match digits_value(s.skip(1)) {
            Some(n) => Some(n as int),
            None => None,
        }
    } else {
        match digits_value(s) {
            Some(n) => Some(n as int),
            None => None,
        }
    };
    match signed {
        Some(v) => if min <= v <= max {
            Some(v)
        } else {
            None
        },
        None => None,
    }
}

/// The text of a natural number is a non-empty run of digits that denotes it.
pub proof fn lemma_nat_text_digits(n: nat)
    ensures
        nat_text(n).len() >= 1,
        digit_value(nat_text(n)[0]) is Some,
        digits_value(nat_text(n)) == Some(n),
    decreases n,
{
    if n >= 10 {
        let high = n / 10;
        lemma_nat_text_digits(high);
        let t = nat_text(n);
        assert(t.drop_last() =~= nat_text(high));
        assert(t.last() == digit_char((n % 10) as int));
        assert(t[0] == nat_text(high)[0]);
        assert(digit_value(digit_char((n % 10) as int)) == Some((n % 10) as int));
        assert(high * 10 + n % 10 == n);
    }
}

/// Integer round trip: the canonical text of a number that a width can hold,
/// read back as that width, is the number. `min` and `max` are the width's
/// least and greatest values.
pub proof fn lemma_int_text_round_trip(x: int, min: int, max: int)
    requires
        min <= x <= max,
    ensures
        parse_decimal(int_text(x), min, max) == Some(x),
{
    if x < 0 {
        let magnitude = (-x) as nat;
        lemma_nat_text_digits(magnitude);
        assert(int_text(x).skip(1) =~= nat_text(magnitude));
        assert(int_text(x)[0] == '-');
    } else {
        lemma_nat_text_digits(x as nat);
    }
}

/// Integer round trip, width by width: the canonical text of any value of
/// a supported integer type, read back as that type, is the value.
pub proof fn lemma_round_trip_of_each_width(
    a: i8,
    b: u8,
    c: i16,
    d: u16,
    e: i32,
    f: u32,
    g: i64,
    h: u64,
)
    ensures
        parse_decimal(int_text(a as int), i8::MIN as int, i8::MAX as int) == Some(a as int),
        parse_decimal(int_text(b as int), u8::MIN as int, u8::MAX as int) == Some(b as int),
        parse_decimal(int_text(c as int), i16::MIN as int, i16::MAX as int) == Some(c as int),
        parse_decimal(int_text(d as int), u16::MIN as int, u16::MAX as int) == Some(d as int),
        parse_decimal(int_text(e as int), i32::MIN as int, i32::MAX as int) == Some(e as int),
        parse_decimal(int_text(f as int), u32::MIN as int, u32::MAX as int) == Some(f as int),
        parse_decimal(int_text(g as int), i64::MIN as int, i64::MAX as int) == Some(g as int),
        parse_decimal(int_text(h as int), u64::MIN as int, u64::MAX as int) == Some(h as int),
{
    lemma_int_text_round_trip(a as int, i8::MIN as int, i8::MAX as int);
    lemma_int_text_round_trip(b as int, u8::MIN as int, u8::MAX as int);
    lemma_int_text_round_trip(c as int, i16::MIN as int, i16::MAX as int);
    lemma_int_text_round_trip(d as int, u16::MIN as int, u16::MAX as int);
    lemma_int_text_round_trip(e as int, i32::MIN as int, i32::MAX as int);
    lemma_int_text_round_trip(f as int, u32::MIN as int, u32::MAX as int);
    lemma_int_text_round_trip(g as int, i64::MIN as int, i64::MAX as int);
    lemma_int_text_round_trip(h as int, u64::MIN as int, u64::MAX as int);
}

/// The canonical texts of two different integers differ.
pub proof fn lemma_int_text_injective(x: int, y: int)
    requires
        int_text(x) == int_text(y),
    ensures
        x == y,
{
    let lo = if x <= y { x } else { y };
    let hi = if x <= y { y } else { x };
    lemma_int_text_round_trip(x, lo, hi);
    lemma_int_text_round_trip(y, lo, hi);
}

/// `String::push` of std: the string afterwards is the string before with
/// the character appended.
pub assume_specification[ std::string::String::push ](s: &mut std::string::String, c: char)
    ensures
        final(s)@ == old(s)@.push(c),
;

fn digit_of(d: u64) -> (c: char)
    requires
        d < 10,
    ensures
        c == digit_char(d as int),
{
    if d == 0 {
        '0'
    } else if d == 1 {
        '1'
    } else if d == 2 {
        '2'
    } else if d == 3 {
        '3'
    } else if d == 4 {
        '4'
    } else if d == 5 {
        '5'
    } else if d == 6 {
        '6'
    } else if d == 7 {
        '7'
    } else if d == 8 {
        '8'
    } else {
        '9'
    }
}

fn push_nat(out: &mut String, n: u64)
    ensures
        final(out)@ == old(out)@ + nat_text(n as nat),
    decreases n,
{
    if n >= 10 {
        push_nat(out, n / 10);
    }
    out.push(digit_of(n % 10));
    assert(out@ =~= old(out)@ + nat_text(n as nat));
}

/// Renders an unsigned number as its canonical decimal text.
pub fn render_unsigned(n: u64) -> (s: String)
    ensures
        s@ == nat_text(n as nat),
        s@ == int_text(n as int),
{
    let mut out = String::new();
    push_nat(&mut out, n);
    assert(out@ =~= nat_text(n as nat));
    out
}

/// Renders a signed number as its canonical decimal text.
pub fn render_signed(i: i64) -> (s: String)
    ensures
        s@ == int_text(i as int),
{
    let mut out = String::new();
    if i < 0 {
        out.push('-');
        let magnitude: u64 = if i == i64::MIN {
            0x8000_0000_0000_0000
        } else {
            (-i) as u64
        };
        push_nat(&mut out, magnitude);
    } else {
        push_nat(&mut out, i as u64);
    }
    assert(out@ =~= int_text(i as int));
    out
}

/// Renders a truth value as `true` or `false`.
pub fn render_bool(b: bool) -> (s: String)
    ensures
        s@ == bool_text(b),
{
    let mut out = String::new();
    if b {
        out.push('t');
        out.push('r');
        out.push('u');
        out.push('e');
    } else {
        out.push('f');
        out.push('a');
        out.push('l');
        out.push('s');
        out.push('e');
    }
    assert(out@ =~= bool_text(b));
    out
}

/// Renders a character as the text that holds it alone.
pub fn render_char(c: char) -> (s: String)
    ensures
        s@ == char_text(c),
{
    let mut out = String::new();
    out.push(c);
    assert(out@ =~= char_text(c));
    out
}

/// The text that stands for a float that is not a number.
pub fn render_nan() -> (s: String)
    ensures
        s@ == nan_text(),
{
    let mut out = String::new();
    out.push('N');
    out.push('a');
    out.push('N');
    assert(out@ =~= nan_text());
    out
}

} // verus!
