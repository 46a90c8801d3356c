use ibus_gonhanh::modifiers::decode_modifiers;
use ibus_gonhanh::pipeline::KeyRoute;
use ibus_gonhanh::pipeline::RawKeyEvent;
use ibus_gonhanh::pipeline::route_key_event;

fn event(key_identifier: u32, modifier_bits: u32) -> RawKeyEvent {
    RawKeyEvent { key_identifier, scan_code: 0, modifier_bits }
}

#[test]
fn test_decode_modifiers_all_sixteen_combinations() {
    for bits in 0u32..16 {
        let m = decode_modifiers(bits);
        let shift = bits & 0x1 != 0;
        let caps_lock = bits & 0x2 != 0;
        let control = bits & 0x4 != 0;
        let alt = bits & 0x8 != 0;
        assert_eq!(m.shift, shift);
        assert_eq!(m.caps_lock, caps_lock);
        assert_eq!(m.control, control);
        assert_eq!(m.alt, alt);
        assert_eq!(m.effective_uppercase(), shift ^ caps_lock);
        assert_eq!(m.bypass_transformation(), control || alt);
    }
}

#[test]
fn test_decode_modifiers_ignores_higher_bits() {
    let m = decode_modifiers(0xFFFF_FFF0);
    assert!(!m.shift);
    assert!(!m.caps_lock);
    assert!(!m.control);
    assert!(!m.alt);
}

#[test]
fn test_modifier_keys_route_to_passthrough() {
    for keysym in [0xFFE1u32, 0xFFE2, 0xFFE3, 0xFFE4, 0xFFE9, 0xFFEA, 0xFFEB, 0xFFEC, 0xFFE5] {
        for bits in 0u32..16 {
            assert!(matches!(route_key_event(event(keysym, bits)), KeyRoute::ModifierPass));
        }
    }
}

#[test]
fn test_boundary_keys_route_to_buffer_clear() {
    for keysym in [0x0020u32, 0xFF0D, 0xFF8D, 0xFF09, 0xFF1B, 0xFF51, 0xFF52, 0xFF53, 0xFF54] {
        assert!(matches!(route_key_event(event(keysym, 0)), KeyRoute::BoundaryClear));
    }
}

#[test]
fn test_unmapped_key_routes_to_passthrough() {
    assert!(matches!(route_key_event(event(0xFFBE, 0)), KeyRoute::UnmappedPass)); // F1
    assert!(matches!(route_key_event(event(0x7B, 0)), KeyRoute::UnmappedPass)); // '{'
}

#[test]
fn test_letter_routes_to_engine_with_flags() {
    // 'a' with no modifiers
    match route_key_event(event(0x061, 0)) {
        KeyRoute::Engine { key, uppercase, bypass, shift } => {
            assert_eq!(key, 0);
            assert!(!uppercase);
            assert!(!bypass);
            assert!(!shift);
        }
        other => panic!("expected an engine route, got {:?}", other),
    }
    // 'a' with shift held
    match route_key_event(event(0x061, 0x1)) {
        KeyRoute::Engine { key, uppercase, bypass, shift } => {
            assert_eq!(key, 0);
            assert!(uppercase);
            assert!(!bypass);
            assert!(shift);
        }
        other => panic!("expected an engine route, got {:?}", other),
    }
    // 'a' with shift and caps-lock: the two cancel out
    match route_key_event(event(0x061, 0x3)) {
        KeyRoute::Engine { uppercase, shift, .. } => {
            assert!(!uppercase);
            assert!(shift);
        }
        other => panic!("expected an engine route, got {:?}", other),
    }
    // 'a' with control: still translated, but the engine is told to bypass
    match route_key_event(event(0x061, 0x4)) {
        KeyRoute::Engine { key, bypass, .. } => {
            assert_eq!(key, 0);
            assert!(bypass);
        }
        other => panic!("expected an engine route, got {:?}", other),
    }
    // 'a' with alt bypasses as well
    match route_key_event(event(0x061, 0x8)) {
        KeyRoute::Engine { bypass, .. } => assert!(bypass),
        other => panic!("expected an engine route, got {:?}", other),
    }
}

#[test]
fn test_modifier_wins_over_boundary_and_table() {
    // Caps_Lock is a modifier even though other 0xFFxx keys are boundaries.
    assert!(matches!(route_key_event(event(0xFFE5, 0)), KeyRoute::ModifierPass));
    // Space is in the translation table, but the boundary check comes first.
    assert!(matches!(route_key_event(event(0x0020, 0)), KeyRoute::BoundaryClear));
}
