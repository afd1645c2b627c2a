use intercomm::text::{render_bool, render_char, render_nan, render_signed, render_unsigned};

#[test]
fn signed_numbers_render_as_decimal_text() {
    assert_eq!(render_signed(0), "0");
    assert_eq!(render_signed(7), "7");
    assert_eq!(render_signed(-1), "-1");
    assert_eq!(render_signed(10), "10");
    assert_eq!(render_signed(-128), "-128");
    assert_eq!(render_signed(127), "127");
    assert_eq!(render_signed(1_000_000), "1000000");
    assert_eq!(render_signed(i64::MAX), "9223372036854775807");
    assert_eq!(render_signed(i64::MIN), "-9223372036854775808");
}

#[test]
fn unsigned_numbers_render_as_decimal_text() {
    assert_eq!(render_unsigned(0), "0");
    assert_eq!(render_unsigned(9), "9");
    assert_eq!(render_unsigned(10), "10");
    assert_eq!(render_unsigned(255), "255");
    assert_eq!(render_unsigned(4_294_967_295), "4294967295");
    assert_eq!(render_unsigned(u64::MAX), "18446744073709551615");
}

#[test]
fn fixed_texts() {
    assert_eq!(render_bool(true), "true");
    assert_eq!(render_bool(false), "false");
    assert_eq!(render_nan(), "NaN");
    assert_eq!(render_char('x'), "x");
    assert_eq!(render_char('é'), "é");
    assert_eq!(render_char(' '), " ");
}

#[test]
fn every_8_bit_number_parses_back() {
    for x in i8::MIN..=i8::MAX {
        assert_eq!(render_signed(x as i64).parse::<i8>(), Ok(x));
    }
    for x in u8::MIN..=u8::MAX {
        assert_eq!(render_unsigned(x as u64).parse::<u8>(), Ok(x));
    }
}

#[test]
fn every_16_bit_number_parses_back() {
    for x in i16::MIN..=i16::MAX {
        assert_eq!(render_signed(x as i64).parse::<i16>(), Ok(x));
    }
    for x in u16::MIN..=u16::MAX {
        assert_eq!(render_unsigned(x as u64).parse::<u16>(), Ok(x));
    }
}

#[test]
fn wide_numbers_parse_back() {
    let signed32 = [i32::MIN, i32::MIN + 1, -1_000_000_007, -10, -1, 0, 1, 99, 100, i32::MAX];
    for x in signed32 {
        assert_eq!(render_signed(x as i64).parse::<i32>(), Ok(x));
    }
    let unsigned32 = [0u32, 1, 9, 10, 11, 4_000_000_000, u32::MAX];
    for x in unsigned32 {
        assert_eq!(render_unsigned(x as u64).parse::<u32>(), Ok(x));
    }
    let signed64 = [i64::MIN, i64::MIN + 1, -9_999_999_999, -1, 0, 1, 1 << 40, i64::MAX];
    for x in signed64 {
        assert_eq!(render_signed(x).parse::<i64>(), Ok(x));
    }
    let unsigned64 = [0u64, 1, 1 << 63, u64::MAX - 1, u64::MAX];
    for x in unsigned64 {
        assert_eq!(render_unsigned(x).parse::<u64>(), Ok(x));
    }
}

#[test]
fn rendering_agrees_with_the_host_formatting() {
    let mut x: i64 = 1;
    for step in 0..62 {
        assert_eq!(render_signed(x), x.to_string());
        assert_eq!(render_signed(-x), (-x).to_string());
        assert_eq!(render_unsigned(x as u64 + step), (x as u64 + step).to_string());
        x *= 2;
    }
    let mut p: u64 = 1;
    for _ in 0..19 {
        assert_eq!(render_unsigned(p), p.to_string());
        assert_eq!(render_unsigned(p - 1), (p - 1).to_string());
        p *= 10;
    }
}
