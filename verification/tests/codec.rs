use heatzy::{DeviceMode, HeatzyError, ModeValue};

const ALL_MODES: [DeviceMode; 6] = [
    DeviceMode::Comfort,
    DeviceMode::Eco,
    DeviceMode::FrostProtection,
    DeviceMode::Stop,
    DeviceMode::ComfortMinus1,
    DeviceMode::ComfortMinus2,
];

fn invalid_mode_detail(result: Result<DeviceMode, HeatzyError>) -> String {
    match result {
        Err(HeatzyError::InvalidMode(detail)) => detail,
        other => panic!("expected an invalid mode, got {:?}", other),
    }
}

#[test]
fn int_codes_are_zero_to_five_in_order() {
    let codes: Vec<i32> = ALL_MODES.iter().map(|mode| mode.to_int()).collect();
    assert_eq!(codes, vec![0, 1, 2, 3, 4, 5]);
}

#[test]
fn api_names_in_order() {
    let names: Vec<&str> = ALL_MODES.iter().map(|mode| mode.to_str_api()).collect();
    assert_eq!(names, vec!["cft", "eco", "fro", "stop", "cft1", "cft2"]);
}

#[test]
fn cli_names_in_order() {
    let names: Vec<&str> = ALL_MODES.iter().map(|mode| mode.to_cli_str()).collect();
    assert_eq!(
        names,
        vec!["comfort", "eco", "frost-protection", "stop", "comfort-1", "comfort-2"]
    );
}

#[test]
fn int_round_trip() {
    for mode in ALL_MODES {
        assert_eq!(DeviceMode::from_int(mode.to_int()).unwrap(), mode);
    }
}

#[test]
fn api_round_trip() {
    for mode in ALL_MODES {
        assert_eq!(DeviceMode::from_str_api(mode.to_str_api()).unwrap(), mode);
    }
}

#[test]
fn cli_round_trip() {
    for mode in ALL_MODES {
        assert_eq!(DeviceMode::from_cli_str(mode.to_cli_str()).unwrap(), mode);
    }
}

#[test]
fn decode_then_encode_is_identity() {
    for code in 0..6 {
        assert_eq!(DeviceMode::from_int(code).unwrap().to_int(), code);
    }
    for name in ["cft", "eco", "fro", "stop", "cft1", "cft2"] {
        assert_eq!(DeviceMode::from_str_api(name).unwrap().to_str_api(), name);
    }
    for name in ["comfort", "eco", "frost-protection", "stop", "comfort-1", "comfort-2"] {
        assert_eq!(DeviceMode::from_cli_str(name).unwrap().to_cli_str(), name);
    }
}

#[test]
fn from_int_rejects_six() {
    assert_eq!(invalid_mode_detail(DeviceMode::from_int(6)), "Invalid mode number: 6");
}

#[test]
fn from_int_rejects_minus_one() {
    assert_eq!(invalid_mode_detail(DeviceMode::from_int(-1)), "Invalid mode number: -1");
}

#[test]
fn from_int_rejects_the_extremes() {
    assert_eq!(
        invalid_mode_detail(DeviceMode::from_int(i32::MAX)),
        "Invalid mode number: 2147483647"
    );
    assert_eq!(
        invalid_mode_detail(DeviceMode::from_int(i32::MIN)),
        "Invalid mode number: -2147483648"
    );
}

#[test]
fn from_str_api_rejects_bogus() {
    assert_eq!(
        invalid_mode_detail(DeviceMode::from_str_api("bogus")),
        "Invalid mode string: bogus"
    );
}

#[test]
fn from_str_api_is_case_sensitive() {
    assert!(matches!(DeviceMode::from_str_api("ECO"), Err(HeatzyError::InvalidMode(_))));
    assert!(matches!(DeviceMode::from_str_api(""), Err(HeatzyError::InvalidMode(_))));
    assert!(matches!(DeviceMode::from_str_api("comfort"), Err(HeatzyError::InvalidMode(_))));
}

#[test]
fn from_cli_str_rejects_warm() {
    assert_eq!(
        invalid_mode_detail(DeviceMode::from_cli_str("warm")),
        "Invalid mode: warm. Valid modes are: comfort, eco, frost-protection, stop, comfort-1, comfort-2"
    );
}

#[test]
fn from_cli_str_reports_the_value_as_typed() {
    assert_eq!(
        invalid_mode_detail(DeviceMode::from_cli_str("WaRm")),
        "Invalid mode: WaRm. Valid modes are: comfort, eco, frost-protection, stop, comfort-1, comfort-2"
    );
}

#[test]
fn from_cli_str_rejects_api_names() {
    assert!(matches!(DeviceMode::from_cli_str("cft"), Err(HeatzyError::InvalidMode(_))));
    assert!(matches!(DeviceMode::from_cli_str("fro"), Err(HeatzyError::InvalidMode(_))));
    assert!(matches!(DeviceMode::from_cli_str(""), Err(HeatzyError::InvalidMode(_))));
}

#[test]
fn from_cli_str_ignores_case() {
    assert_eq!(DeviceMode::from_cli_str("FROST").unwrap(), DeviceMode::FrostProtection);
    assert_eq!(DeviceMode::from_cli_str("Comfort").unwrap(), DeviceMode::Comfort);
    assert_eq!(DeviceMode::from_cli_str("ECO").unwrap(), DeviceMode::Eco);
    assert_eq!(DeviceMode::from_cli_str("sToP").unwrap(), DeviceMode::Stop);
    assert_eq!(DeviceMode::from_cli_str("COMFORT-MINUS-2").unwrap(), DeviceMode::ComfortMinus2);
}

#[test]
fn from_cli_str_accepts_both_alias_forms() {
    assert_eq!(DeviceMode::from_cli_str("frost").unwrap(), DeviceMode::FrostProtection);
    assert_eq!(DeviceMode::from_cli_str("frost-protection").unwrap(), DeviceMode::FrostProtection);
    assert_eq!(DeviceMode::from_cli_str("comfort-minus-1").unwrap(), DeviceMode::ComfortMinus1);
    assert_eq!(DeviceMode::from_cli_str("comfort-1").unwrap(), DeviceMode::ComfortMinus1);
    assert_eq!(DeviceMode::from_cli_str("comfort-minus-2").unwrap(), DeviceMode::ComfortMinus2);
    assert_eq!(DeviceMode::from_cli_str("comfort-2").unwrap(), DeviceMode::ComfortMinus2);
}

#[test]
fn from_cli_str_lower_cases_beyond_ascii() {
    // The only capital letters here are outside ASCII: they are lower-cased
    // too, and the result is no mode name.
    assert!(matches!(DeviceMode::from_cli_str("ÉCO"), Err(HeatzyError::InvalidMode(_))));
}

#[test]
fn mode_shows_as_its_cli_name() {
    assert_eq!(DeviceMode::FrostProtection.to_string(), "frost-protection");
    assert_eq!(DeviceMode::ComfortMinus1.to_string(), "comfort-1");
}

#[test]
fn json_number_one_decodes_to_eco() {
    let value = serde_json::Value::from(1);
    assert_eq!(DeviceMode::from_json(&value).unwrap(), DeviceMode::Eco);
}

#[test]
fn json_string_eco_decodes_to_eco() {
    let value = serde_json::Value::from("eco");
    assert_eq!(DeviceMode::from_json(&value).unwrap(), DeviceMode::Eco);
}

#[test]
fn json_boolean_is_no_mode() {
    let value = serde_json::Value::Bool(true);
    assert_eq!(
        invalid_mode_detail(DeviceMode::from_json(&value)),
        "Invalid mode value: Bool(true)"
    );
}

#[test]
fn json_null_and_float_are_no_mode() {
    assert_eq!(
        invalid_mode_detail(DeviceMode::from_json(&serde_json::Value::Null)),
        "Invalid mode value: Null"
    );
    let parsed: serde_json::Value = serde_json::from_str("1.0").unwrap();
    assert!(matches!(DeviceMode::from_json(&parsed), Err(HeatzyError::InvalidMode(_))));
}

#[test]
fn json_values_parsed_from_text() {
    let number: serde_json::Value = serde_json::from_str("5").unwrap();
    assert_eq!(DeviceMode::from_json(&number).unwrap(), DeviceMode::ComfortMinus2);
    let text: serde_json::Value = serde_json::from_str("\"cft1\"").unwrap();
    assert_eq!(DeviceMode::from_json(&text).unwrap(), DeviceMode::ComfortMinus1);
}

#[test]
fn json_number_out_of_range_is_rejected() {
    assert_eq!(
        invalid_mode_detail(DeviceMode::from_json(&serde_json::Value::from(6))),
        "Invalid mode number: 6"
    );
    assert_eq!(
        invalid_mode_detail(DeviceMode::from_json(&serde_json::Value::from(-1))),
        "Invalid mode number: -1"
    );
}

#[test]
fn json_number_beyond_32_bits_is_rejected() {
    // 2^32 + 1 must not be mistaken for 1.
    assert_eq!(
        invalid_mode_detail(DeviceMode::from_json(&serde_json::Value::from(4294967297i64))),
        "Invalid mode number: 4294967297"
    );
    assert_eq!(
        invalid_mode_detail(DeviceMode::from_json(&serde_json::Value::from(i64::MIN))),
        "Invalid mode number: -9223372036854775808"
    );
}

#[test]
fn json_string_outside_the_names_is_rejected() {
    assert_eq!(
        invalid_mode_detail(DeviceMode::from_json(&serde_json::Value::from("bogus"))),
        "Invalid mode string: bogus"
    );
}

#[test]
fn mode_value_sorts_json_by_kind() {
    assert!(matches!(ModeValue::of(&serde_json::Value::from(3)), ModeValue::Integer(3)));
    match ModeValue::of(&serde_json::Value::from("stop")) {
        ModeValue::Text(text) => assert_eq!(text, "stop"),
        other => panic!("expected a text, got {:?}", other),
    }
    match ModeValue::of(&serde_json::Value::Bool(false)) {
        ModeValue::Other(description) => assert_eq!(description, "Bool(false)"),
        other => panic!("expected another kind, got {:?}", other),
    }
    // An integer too large for 64 signed bits is neither number nor text here.
    assert!(matches!(ModeValue::of(&serde_json::Value::from(u64::MAX)), ModeValue::Other(_)));
}

#[test]
fn from_value_decodes_each_kind() {
    assert_eq!(DeviceMode::from_value(&ModeValue::Integer(0)).unwrap(), DeviceMode::Comfort);
    assert_eq!(
        DeviceMode::from_value(&ModeValue::Text("fro".to_string())).unwrap(),
        DeviceMode::FrostProtection
    );
    assert_eq!(
        invalid_mode_detail(DeviceMode::from_value(&ModeValue::Other("Array []".to_string()))),
        "Invalid mode value: Array []"
    );
}

#[test]
fn lookup_cli_name_takes_names_and_aliases_as_they_are() {
    assert_eq!(DeviceMode::lookup_cli_name("comfort"), Some(DeviceMode::Comfort));
    assert_eq!(DeviceMode::lookup_cli_name("eco"), Some(DeviceMode::Eco));
    assert_eq!(DeviceMode::lookup_cli_name("frost"), Some(DeviceMode::FrostProtection));
    assert_eq!(DeviceMode::lookup_cli_name("frost-protection"), Some(DeviceMode::FrostProtection));
    assert_eq!(DeviceMode::lookup_cli_name("stop"), Some(DeviceMode::Stop));
    assert_eq!(DeviceMode::lookup_cli_name("comfort-1"), Some(DeviceMode::ComfortMinus1));
    assert_eq!(DeviceMode::lookup_cli_name("comfort-minus-1"), Some(DeviceMode::ComfortMinus1));
    assert_eq!(DeviceMode::lookup_cli_name("comfort-2"), Some(DeviceMode::ComfortMinus2));
    assert_eq!(DeviceMode::lookup_cli_name("comfort-minus-2"), Some(DeviceMode::ComfortMinus2));
    assert_eq!(DeviceMode::lookup_cli_name("Comfort"), None);
    assert_eq!(DeviceMode::lookup_cli_name("comfort-3"), None);
    assert_eq!(DeviceMode::lookup_cli_name(""), None);
}

#[test]
fn from_parts_puts_an_integer_before_a_string() {
    assert!(matches!(
        ModeValue::from_parts(Some(4), Some("eco"), "4".to_string()),
        ModeValue::Integer(4)
    ));
    assert!(matches!(
        ModeValue::from_parts(Some(-7), None, "-7".to_string()),
        ModeValue::Integer(-7)
    ));
    match ModeValue::from_parts(None, Some("eco"), "String(\"eco\")".to_string()) {
        ModeValue::Text(text) => assert_eq!(text, "eco"),
        other => panic!("expected a text, got {:?}", other),
    }
    match ModeValue::from_parts(None, None, "Null".to_string()) {
        ModeValue::Other(description) => assert_eq!(description, "Null"),
        other => panic!("expected another kind, got {:?}", other),
    }
}
