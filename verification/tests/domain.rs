use binance_btc::domain::{MacroEventClass, SystemMode, VolatilityRegime};

#[test]
fn codes_are_one_through_nine_in_order() {
    let all = [
        MacroEventClass::Cpi,
        MacroEventClass::CoreCpi,
        MacroEventClass::Ppi,
        MacroEventClass::Nfp,
        MacroEventClass::UnemploymentRate,
        MacroEventClass::CorePce,
        MacroEventClass::GdpAdvance,
        MacroEventClass::FomcRateDecision,
        MacroEventClass::PowellPressConference,
    ];
    for (i, class) in all.iter().enumerate() {
        assert_eq!(class.code(), (i + 1) as u16);
    }
}

#[test]
fn macro_event_class_serializes_to_numeric_codes() {
    let value = serde_json::to_string(&MacroEventClass::PowellPressConference.code()).expect("serialize macro event");
    assert_eq!(value, "9");
}

#[test]
fn macro_event_class_deserializes_known_codes() {
    let code: u16 = serde_json::from_str("2").expect("deserialize known class");
    assert_eq!(MacroEventClass::from_code(code), Some(MacroEventClass::CoreCpi));
}

#[test]
fn macro_event_class_rejects_unknown_codes() {
    let code: u16 = serde_json::from_str("99").expect("a number");
    assert_eq!(MacroEventClass::from_code(code), None);
    assert_eq!(MacroEventClass::from_code(0), None);
    assert_eq!(MacroEventClass::from_code(10), None);
    assert_eq!(MacroEventClass::from_code(u16::MAX), None);
}

#[test]
fn every_code_round_trips() {
    for value in 0..=u16::MAX {
        if let Some(class) = MacroEventClass::from_code(value) {
            assert_eq!(class.code(), value);
        }
    }
    for value in 1..=9u16 {
        let class = MacroEventClass::from_code(value).expect("known code");
        assert_eq!(MacroEventClass::from_code(class.code()), Some(class));
    }
}

#[test]
fn regime_and_mode_compare_by_variant() {
    assert_ne!(VolatilityRegime::Normal, VolatilityRegime::High);
    assert_ne!(SystemMode::Active, SystemMode::Halted);
}
