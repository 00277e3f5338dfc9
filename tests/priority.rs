use ntfy::NtfyPriority;

const LEVELS: [NtfyPriority; 5] = [
    NtfyPriority::Minimum,
    NtfyPriority::Low,
    NtfyPriority::Default,
    NtfyPriority::High,
    NtfyPriority::Maximum,
];

#[test]
fn priority_encodes_to_one_through_five() {
    let codes: Vec<u8> = LEVELS.iter().map(|p| u8::from(*p)).collect();
    assert_eq!(codes, vec![1, 2, 3, 4, 5]);
    assert_eq!(NtfyPriority::High.code(), 4);
}

#[test]
fn priority_round_trips_through_its_code() {
    for p in LEVELS {
        assert_eq!(NtfyPriority::from(u8::from(p)), p);
        assert_eq!(NtfyPriority::from_wire_int(p.code() as u64), p);
    }
}

#[test]
fn priority_decodes_known_codes() {
    assert_eq!(NtfyPriority::from(1u8), NtfyPriority::Minimum);
    assert_eq!(NtfyPriority::from(2u8), NtfyPriority::Low);
    assert_eq!(NtfyPriority::from(4u8), NtfyPriority::High);
    assert_eq!(NtfyPriority::from(5u8), NtfyPriority::Maximum);
}

#[test]
fn priority_unknown_codes_fall_back_to_default() {
    for n in [0u8, 3, 6, 7, 100, 254, 255] {
        assert_eq!(NtfyPriority::from(n), NtfyPriority::Default);
    }
    for n in [0u64, 3, 256, 257, 260, 1 << 40, u64::MAX] {
        assert_eq!(NtfyPriority::from_wire_int(n), NtfyPriority::Default);
    }
}

#[test]
fn priority_default_is_default_level() {
    assert_eq!(NtfyPriority::default(), NtfyPriority::Default);
}
