use binfmt::leb::leb64;
use binfmt::Formatter;

#[test]
fn varint_zero_is_one_zero_byte() {
    assert_eq!(leb64(0), vec![0x00]);
}

#[test]
fn varint_single_byte_values() {
    assert_eq!(leb64(1), vec![0x01]);
    assert_eq!(leb64(42), vec![42]);
    assert_eq!(leb64(127), vec![0x7f]);
}

#[test]
fn varint_two_byte_values() {
    assert_eq!(leb64(128), vec![0x80, 0x01]);
    assert_eq!(leb64(300), vec![0xac, 0x02]);
    assert_eq!(leb64(16383), vec![0xff, 0x7f]);
}

#[test]
fn varint_three_byte_values() {
    assert_eq!(leb64(16384), vec![0x80, 0x80, 0x01]);
    assert_eq!(leb64(0x1f_ffff), vec![0xff, 0xff, 0x7f]);
}

#[test]
fn varint_full_width_value_takes_ten_bytes() {
    assert_eq!(
        leb64(u64::MAX),
        vec![0xff, 0xff, 0xff, 0xff, 0xff, 0xff, 0xff, 0xff, 0xff, 0x01]
    );
}

#[test]
fn varint_length_is_minimal_at_every_threshold() {
    for k in 1..=9u32 {
        let high = (1u64 << (7 * k)) - 1;
        assert_eq!(leb64(high).len(), k as usize, "value {high}");
        if k > 1 {
            let low = 1u64 << (7 * (k - 1));
            assert_eq!(leb64(low).len(), k as usize, "value {low}");
        }
    }
    assert_eq!(leb64(1u64 << 63).len(), 10);
    assert_eq!(leb64(u64::MAX).len(), 10);
}

fn decode(bytes: &[u8]) -> u64 {
    let mut value: u64 = 0;
    let mut shift = 0;
    for &b in bytes {
        value |= u64::from(b & 0x7f) << shift;
        shift += 7;
    }
    value
}

#[test]
fn varint_round_trips_through_a_host_style_decoder() {
    for v in [
        0,
        1,
        127,
        128,
        300,
        16383,
        16384,
        0xdead_beef,
        u64::from(u32::MAX),
        1u64 << 56,
        u64::MAX,
    ] {
        assert_eq!(decode(&leb64(v)), v);
    }
}

#[test]
fn varint_continuation_bits_mark_every_byte_but_the_last() {
    for v in [0u64, 5, 127, 128, 300, 16384, u64::MAX] {
        let bytes = leb64(v);
        for (i, b) in bytes.iter().enumerate() {
            if i + 1 == bytes.len() {
                assert_eq!(b & 0x80, 0, "value {v}");
            } else {
                assert_eq!(b & 0x80, 0x80, "value {v}");
            }
        }
    }
}

#[test]
fn formatter_leb64_appends_the_same_bytes() {
    let mut f = Formatter::new();
    f.leb64(300);
    f.leb64(0);
    assert_eq!(f.bytes(), &[0xac, 0x02, 0x00]);
}
