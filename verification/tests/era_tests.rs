use parity_scale_codec::Encode;
use sf_api::era::Era;

fn bytes(period: u64, current: u64) -> Vec<u8> {
    let mut out = Vec::new();
    Era::mortal(period, current).encode_to(&mut out);
    out
}

#[test]
fn period_is_rounded_up_to_a_power_of_two() {
    assert_eq!(Era::mortal(5, 0).length(), 8);
    assert_eq!(Era::mortal(8, 0).length(), 8);
    assert_eq!(Era::mortal(9, 0).length(), 16);
    assert_eq!(Era::mortal(64, 42).length(), 64);
    assert_eq!(Era::mortal(65, 42).length(), 128);
    assert_eq!(Era::mortal(32768, 20000).length(), 32768);
}

#[test]
fn period_is_kept_between_4_and_65536() {
    assert_eq!(Era::mortal(0, 0).length(), 4);
    assert_eq!(Era::mortal(1, 7).length(), 4);
    assert_eq!(Era::mortal(3, 7).length(), 4);
    assert_eq!(Era::mortal(4, 7).length(), 4);
    assert_eq!(Era::mortal(65536, 7).length(), 65536);
    assert_eq!(Era::mortal(65537, 7).length(), 65536);
    assert_eq!(Era::mortal(1_000_000, 7).length(), 65536);
    assert_eq!(Era::mortal(u64::MAX, 7).length(), 65536);
}

#[test]
fn phase_is_the_block_number_in_the_period() {
    assert_eq!(Era::mortal(64, 42).start(), 42);
    assert_eq!(Era::mortal(64, 64).start(), 0);
    assert_eq!(Era::mortal(64, 130).start(), 2);
    assert_eq!(Era::mortal(5, 13).start(), 5);
}

#[test]
fn phase_of_a_long_period_is_quantized() {
    assert_eq!(Era::mortal(1_000_000, 1_000_001).start(), 1_000_001 % 65536 / 16 * 16);
    assert_eq!(Era::mortal(8192, 8191).start(), 8190);
    assert_eq!(Era::mortal(4096, 4095).start(), 4095);
    assert_eq!(Era::mortal(32768, 20000).start(), 20000);
    assert_eq!(Era::mortal(32768, 20001).start(), 20000);
}

#[test]
fn era_bytes_hold_exponent_and_phase() {
    assert_eq!(bytes(64, 42), vec![5 + 42 % 16 * 16, 42 / 16]);
    assert_eq!(bytes(32768, 20000), vec![(14 + 2500 % 16 * 16) as u8, (2500 / 16) as u8]);
    assert_eq!(bytes(5, 13), vec![2 + 5 * 16, 0]);
    assert_eq!(bytes(4, 0), vec![1, 0]);
    assert_eq!(bytes(65536, 65535), vec![0xff, 0xff]);
}

#[test]
fn era_bytes_are_appended() {
    let mut out = vec![0xeeu8];
    Era::mortal(64, 42).encode_to(&mut out);
    assert_eq!(out, vec![0xee, 165, 2]);
}

#[test]
fn era_is_the_runtimes_era() {
    let periods = [
        0u64, 1, 2, 3, 4, 5, 7, 8, 9, 63, 64, 65, 1000, 4095, 4096, 4097, 8192, 10000, 32768,
        65535, 65536, 65537, 1 << 20, u64::MAX,
    ];
    let heads = [
        0u64, 1, 2, 3, 5, 7, 8, 41, 42, 4095, 4096, 8191, 20000, 65535, 65536, 1_000_001,
        u32::MAX as u64, u64::MAX,
    ];
    for period in periods {
        for head in heads {
            let theirs = sp_runtime::generic::Era::mortal(period, head);
            assert_eq!(bytes(period, head), theirs.encode(), "period {period} head {head}");
            match theirs {
                sp_runtime::generic::Era::Mortal(length, phase) => {
                    let ours = Era::mortal(period, head);
                    assert_eq!(ours.length(), length);
                    assert_eq!(ours.start(), phase);
                },
                sp_runtime::generic::Era::Immortal => panic!("a mortal era is not immortal"),
            }
        }
    }
}

#[test]
fn era_is_the_runtimes_era_for_every_head_of_a_period() {
    for head in 0u64..300 {
        let theirs = sp_runtime::generic::Era::mortal(5, head);
        assert_eq!(bytes(5, head), theirs.encode());
    }
}
