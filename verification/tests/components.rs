use vanity58::derive::derive_public_key;
use vanity58::encode::encode_public_key;
use vanity58::keygen::clamp_scalar;
use vanity58::keypair::make_key_pair;
use vanity58::matcher::starts_with_prefix;
use vanity58::worker::should_report;
use vanity58::worker::throughput;

#[test]
fn clamp_masks_exactly_the_required_bits() {
    let raw = vec![0xffu8; 32];
    let key = clamp_scalar(raw);
    assert_eq!(key.len(), 32);
    assert_eq!(key[0], 0xf8);
    for i in 1..31 {
        assert_eq!(key[i], 0xff);
    }
    assert_eq!(key[31], 0x7f);
}

#[test]
fn clamp_leaves_already_clamped_bytes_alone() {
    let mut raw = vec![0u8; 32];
    raw[31] = 0x40;
    let key = clamp_scalar(raw.clone());
    assert_eq!(key, raw);
}

#[test]
fn clamp_invariant_bits_hold() {
    for fill in [0x00u8, 0x55, 0xaa, 0xff] {
        let key = clamp_scalar(vec![fill; 32]);
        assert_eq!(key[0] & 0b0000_0111, 0);
        assert_eq!(key[31] & 0b1000_0000, 0);
        assert_eq!(key[31] & 0b0100_0000, 0b0100_0000);
    }
}

#[test]
fn derive_matches_reference_vector() {
    // RFC 8032, test vector 1.
    let secret = vec![
        0x9du8, 0x61, 0xb1, 0x9d, 0xef, 0xfd, 0x5a, 0x60, 0xba, 0x84, 0x4a, 0xf4, 0x92, 0xec,
        0x2c, 0xc4, 0x44, 0x49, 0xc5, 0x69, 0x7b, 0x32, 0x69, 0x19, 0x70, 0x3b, 0xac, 0x03,
        0x1c, 0xae, 0x7f, 0x60,
    ];
    let expected_public = vec![
        0xd7u8, 0x5a, 0x98, 0x01, 0x82, 0xb1, 0x0a, 0xb7, 0xd5, 0x4b, 0xfe, 0xd3, 0xc9, 0x64,
        0x07, 0x3a, 0x0e, 0xe1, 0x72, 0xf3, 0xda, 0xa6, 0x23, 0x25, 0xaf, 0x02, 0x1a, 0x68,
        0xf7, 0x07, 0x51, 0x1a,
    ];
    let public = derive_public_key(&secret);
    assert_eq!(public, expected_public);
}

#[test]
fn derive_is_deterministic() {
    let mut private = vec![0x11u8; 32];
    private[0] = 0x10;
    private[31] = 0x51;
    let a = derive_public_key(&private);
    let b = derive_public_key(&private);
    assert_eq!(a, b);
    assert_eq!(a.len(), 32);
    // The derivation really transforms its input.
    assert_ne!(a, private);
}

#[test]
fn encode_is_deterministic() {
    let public = vec![0x42u8; 32];
    let a = encode_public_key(&public);
    let b = encode_public_key(&public);
    assert_eq!(a, b);
}

#[test]
fn encode_all_zero_key_is_all_ones_text() {
    // Base-58 maps each leading zero byte to the digit '1'.
    let public = vec![0u8; 32];
    let encoded = encode_public_key(&public);
    assert_eq!(encoded, vec![b'1'; 32]);
}

#[test]
fn encode_empty_input_is_empty_text() {
    let encoded = encode_public_key(&Vec::new());
    assert_eq!(encoded, Vec::<u8>::new());
}

#[test]
fn key_pair_layout_private_then_public() {
    let public = vec![1u8; 32];
    let private = vec![2u8; 32];
    let pair = make_key_pair(&public, &private);
    assert_eq!(pair.len(), 64);
    assert_eq!(&pair[0..32], &private[..]);
    assert_eq!(&pair[32..64], &public[..]);
}

#[test]
fn matcher_true_for_every_leading_slice() {
    let text = b"abc123XYZ".to_vec();
    for n in 0..=text.len() {
        let prefix = text[0..n].to_vec();
        assert!(starts_with_prefix(&text, &prefix));
    }
}

#[test]
fn matcher_false_on_mismatch_at_any_position() {
    let text = b"abcde".to_vec();
    for pos in 0..text.len() {
        let mut prefix = text[0..pos + 1].to_vec();
        prefix[pos] = prefix[pos].wrapping_add(1);
        assert!(!starts_with_prefix(&text, &prefix));
    }
}

#[test]
fn matcher_false_when_text_shorter_than_prefix() {
    let text = b"ab".to_vec();
    let prefix = b"abc".to_vec();
    assert!(!starts_with_prefix(&text, &prefix));
}

#[test]
fn matcher_empty_prefix_always_matches() {
    assert!(starts_with_prefix(&b"anything".to_vec(), &Vec::new()));
    assert!(starts_with_prefix(&Vec::new(), &Vec::new()));
}

#[test]
fn throughput_zero_elapsed_is_not_yet_measurable() {
    assert_eq!(throughput(1_000_000, 0), None);
}

#[test]
fn throughput_divides_when_elapsed_positive() {
    assert_eq!(throughput(1_000_000, 2), Some(500_000));
    assert_eq!(throughput(10, 3), Some(3));
    assert_eq!(throughput(0, 5), Some(0));
}

#[test]
fn report_fires_exactly_at_interval_multiples() {
    assert!(should_report(1_000_000));
    assert!(should_report(2_000_000));
    assert!(!should_report(999_999));
    assert!(!should_report(1_000_001));
    assert!(!should_report(1));
}
