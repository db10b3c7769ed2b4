use waterdrop::size::format_size;
use waterdrop::text::{hex_byte_string, parse_u16, push_decimal, same, trim};

#[test]
fn sizes_are_shown_in_the_largest_unit() {
    assert_eq!(format_size(0), "0 B");
    assert_eq!(format_size(1023), "1023 B");
    assert_eq!(format_size(1024), "1.00 KiB");
    assert_eq!(format_size(1536), "1.50 KiB");
    assert_eq!(format_size(1_048_575), "1024.00 KiB");
    assert_eq!(format_size(1_048_576), "1.00 MiB");
    assert_eq!(format_size(1_572_864), "1.50 MiB");
    assert_eq!(format_size(1_073_741_824), "1.00 GiB");
    assert_eq!(format_size(5_368_709_120), "5.00 GiB");
    assert_eq!(format_size(u64::MAX), "17179869184.00 GiB");
}

#[test]
fn halves_are_rounded_to_even() {
    assert_eq!(format_size(1152), "1.12 KiB");
    assert_eq!(format_size(1408), "1.38 KiB");
    assert_eq!(format_size(1_179_648), "1.12 MiB");
}

fn with_floats(bytes: u64) -> String {
    let (kib, mib, gib) = (1024u64, 1024u64 * 1024, 1024u64 * 1024 * 1024);
    if bytes >= gib {
        format!("{:.2} GiB", bytes as f64 / gib as f64)
    } else if bytes >= mib {
        format!("{:.2} MiB", bytes as f64 / mib as f64)
    } else if bytes >= kib {
        format!("{:.2} KiB", bytes as f64 / kib as f64)
    } else {
        format!("{bytes} B")
    }
}

#[test]
fn sizes_agree_with_floating_point_formatting() {
    let mut bytes: u64 = 1;
    for step in 0..20_000u64 {
        assert_eq!(format_size(bytes), with_floats(bytes));
        bytes = bytes.wrapping_mul(6_364_136_223_846_793_005).wrapping_add(step);
        let shift = step % 64;
        let small = bytes >> shift;
        assert_eq!(format_size(small), with_floats(small));
    }
    for power in 10..64u32 {
        let base = 1u64 << power;
        for near in [base - 1, base, base + 1, base + (base >> 3), base + (base >> 8)] {
            assert_eq!(format_size(near), with_floats(near));
        }
    }
    for bytes in 1024..20_000u64 {
        assert_eq!(format_size(bytes), with_floats(bytes));
    }
}

#[test]
fn white_space_is_trimmed_like_the_standard_library_does() {
    for s in ["", " ", "  a b \n", "\u{3000}x\u{85}", "x", "\u{200b}y\u{2003}", "\t\r\n"] {
        assert_eq!(trim(s), s.trim());
    }
    for n in 0..=0x3100u32 {
        if let Some(c) = char::from_u32(n) {
            let s: String = vec![c, 'x', c].into_iter().collect();
            assert_eq!(trim(&s), s.trim());
        }
    }
}

#[test]
fn port_numbers_are_read_like_the_standard_library_does() {
    let samples = [
        "", "+", "-", "0", "-0", "+0", "4242", "65535", "65536", "+65535", "99999", "007",
        "00000000000000000004242", "4 2", "４", "1e3", "0x10", "++1", "1+",
    ];
    for s in samples {
        assert_eq!(parse_u16(s), s.parse::<u16>().ok());
    }
    for n in 0..70_000u32 {
        let s = format!("{n}");
        assert_eq!(parse_u16(&s), s.parse::<u16>().ok());
    }
}

#[test]
fn numbers_are_written_out() {
    let mut s = String::from("n=");
    push_decimal(&mut s, 0);
    push_decimal(&mut s, 1_000_050);
    assert_eq!(s, "n=01000050");
    let mut max = String::new();
    push_decimal(&mut max, u64::MAX);
    assert_eq!(max, "18446744073709551615");
    assert!(same("a", "a") && !same("a", "A"));
    assert_eq!(hex_byte_string(0), "0x00");
    assert_eq!(hex_byte_string(0x9F), "0x9F");
}
