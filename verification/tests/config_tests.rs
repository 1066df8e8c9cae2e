use config_editor::commands::{parse_config, serialize_config, validate_config};
use config_editor::config::{
    default_initial, default_max, default_threshold, is_default_off_mode, ButtonColor,
    ButtonConfig, ButtonMode, DeviceType, EncoderConfig, EncoderPush, ExpressionConfig,
    ExpressionPedals, MidiCaptainConfig, OffMode, Polarity,
};

fn button(label: &str, cc: u8) -> ButtonConfig {
    ButtonConfig {
        label: label.to_string(),
        cc,
        color: ButtonColor::Green,
        mode: ButtonMode::Toggle,
        off_mode: OffMode::Dim,
    }
}

fn ten_button_config() -> MidiCaptainConfig {
    MidiCaptainConfig {
        device: DeviceType::Std10,
        buttons: (0u8..10).map(|i| button("BTN", 20 + i)).collect(),
        encoder: None,
        expression: None,
    }
}

fn encoder(min: u8, max: u8, initial: u8) -> EncoderConfig {
    EncoderConfig {
        enabled: true,
        cc: 11,
        label: "ENC".to_string(),
        min,
        max,
        initial,
        steps: None,
        push: None,
    }
}

#[test]
fn test_deserialize_std10_config() {
    let json = r#"{
            "buttons": [
                {"label": "TSC", "cc": 20, "color": "green"}
            ],
            "encoder": {
                "enabled": true,
                "cc": 11,
                "label": "ENC",
                "min": 0,
                "max": 127,
                "initial": 64,
                "steps": null,
                "push": {
                    "enabled": true,
                    "cc": 14,
                    "label": "PUSH",
                    "mode": "momentary"
                }
            }
        }"#;

    let config = parse_config(json).unwrap();
    assert_eq!(config.buttons.len(), 1);
    assert!(config.encoder.is_some());
}

#[test]
fn test_deserialize_mini6_config() {
    let json = r#"{
            "device": "mini6",
            "buttons": [
                {"label": "BOOM", "cc": 20, "color": "green"}
            ]
        }"#;

    let config = parse_config(json).unwrap();
    assert_eq!(config.device, DeviceType::Mini6);
    assert!(config.encoder.is_none());
}

#[test]
fn test_parse_fills_defaults() {
    let json = r#"{"buttons": [{"label": "A", "cc": 1, "color": "red"}]}"#;
    let config = parse_config(json).unwrap();
    assert_eq!(config.device, DeviceType::Std10);
    assert_eq!(config.buttons[0].mode, ButtonMode::Toggle);
    assert_eq!(config.buttons[0].off_mode, OffMode::Dim);
}

#[test]
fn test_parse_encoder_defaults() {
    let json = r#"{
        "buttons": [],
        "encoder": {"enabled": true, "cc": 3, "label": "E"}
    }"#;
    let config = parse_config(json).unwrap();
    let enc = config.encoder.unwrap();
    assert_eq!(enc.min, 0);
    assert_eq!(enc.max, default_max());
    assert_eq!(enc.initial, default_initial());
    assert!(enc.steps.is_none());
    assert!(enc.push.is_none());
}

#[test]
fn test_parse_rejects_malformed_text() {
    let err = parse_config("{not json").unwrap_err();
    assert!(err.message.starts_with("JSON parse error: "));
    assert!(err.details.is_none());
}

#[test]
fn test_parse_rejects_cc_out_of_range() {
    let json = r#"{"buttons": [{"label": "A", "cc": 300, "color": "red"}]}"#;
    assert!(parse_config(json).is_err());
}

#[test]
fn test_parse_rejects_missing_label() {
    let json = r#"{"buttons": [{"cc": 3, "color": "red"}]}"#;
    assert!(parse_config(json).is_err());
}

#[test]
fn test_parse_rejects_unknown_color() {
    let json = r#"{"buttons": [{"label": "A", "cc": 3, "color": "pink"}]}"#;
    assert!(parse_config(json).is_err());
}

#[test]
fn test_valid_ten_button_passes() {
    assert!(ten_button_config().validate().is_ok());
}

#[test]
fn test_button_count_mismatch_single_message() {
    let mut config = ten_button_config();
    config.buttons.truncate(1);
    let errors = config.validate().unwrap_err();
    assert_eq!(errors, vec!["Expected 10 buttons for Std10, found 1".to_string()]);
}

#[test]
fn test_button_count_mismatch_mini6() {
    let config = MidiCaptainConfig {
        device: DeviceType::Mini6,
        buttons: vec![button("A", 1)],
        encoder: None,
        expression: None,
    };
    let errors = config.validate().unwrap_err();
    assert_eq!(errors, vec!["Expected 6 buttons for Mini6, found 1".to_string()]);
}

#[test]
fn test_mini6_rejects_encoder_and_expression() {
    let pedal = ExpressionConfig {
        enabled: true,
        cc: 4,
        label: "EXP".to_string(),
        min: 0,
        max: 127,
        polarity: Polarity::Normal,
        threshold: default_threshold(),
    };
    let config = MidiCaptainConfig {
        device: DeviceType::Mini6,
        buttons: (0u8..6).map(|i| button("B", i)).collect(),
        encoder: Some(encoder(0, 127, 64)),
        expression: Some(ExpressionPedals { exp1: pedal.clone(), exp2: pedal }),
    };
    let errors = config.validate().unwrap_err();
    assert!(errors.contains(&"Mini6 does not support encoder".to_string()));
    assert!(errors.contains(&"Mini6 does not support expression pedals".to_string()));
}

#[test]
fn test_encoder_inverted_range_rejected() {
    let mut config = ten_button_config();
    config.encoder = Some(encoder(20, 10, 15));
    let errors = config.validate().unwrap_err();
    assert!(errors.contains(&"Encoder max (10) must be >= min (20)".to_string()));
}

#[test]
fn test_encoder_initial_out_of_range_rejected() {
    let mut config = ten_button_config();
    config.encoder = Some(encoder(10, 20, 99));
    let errors = config.validate().unwrap_err();
    assert!(
        errors.contains(&"Encoder initial (99) must be between min (10) and max (20)".to_string())
    );
}

#[test]
fn test_long_label_rejected() {
    let mut config = ten_button_config();
    config.buttons[2].label = "TOOLONGLABEL".to_string();
    let errors = config.validate().unwrap_err();
    assert_eq!(errors, vec!["Button 3 label 'TOOLONGLABEL' exceeds 8 chars".to_string()]);
}

#[test]
fn test_validate_is_idempotent() {
    let mut config = ten_button_config();
    config.encoder = Some(encoder(20, 10, 15));
    let first = config.validate();
    let second = config.validate();
    assert_eq!(first, second);
}

#[test]
fn test_validate_config_text() {
    let ok = r#"{"buttons": [
        {"label": "1", "cc": 1, "color": "red"},
        {"label": "2", "cc": 2, "color": "red"},
        {"label": "3", "cc": 3, "color": "red"},
        {"label": "4", "cc": 4, "color": "red"},
        {"label": "5", "cc": 5, "color": "red"},
        {"label": "6", "cc": 6, "color": "red"},
        {"label": "7", "cc": 7, "color": "red"},
        {"label": "8", "cc": 8, "color": "red"},
        {"label": "9", "cc": 9, "color": "red"},
        {"label": "10", "cc": 10, "color": "red"}
    ]}"#;
    assert!(validate_config(ok).is_ok());
    let bad = r#"{"buttons": []}"#;
    let err = validate_config(bad).unwrap_err();
    assert_eq!(err.message, "Validation failed");
    assert_eq!(err.details, Some(vec!["Expected 10 buttons for Std10, found 0".to_string()]));
}

#[test]
fn test_serialized_text_exact() {
    let config = MidiCaptainConfig {
        device: DeviceType::Mini6,
        buttons: vec![ButtonConfig {
            label: "GO".to_string(),
            cc: 7,
            color: ButtonColor::Blue,
            mode: ButtonMode::Momentary,
            off_mode: OffMode::Off,
        }],
        encoder: None,
        expression: None,
    };
    let expected = "{\n  \"device\": \"mini6\",\n  \"buttons\": [\n    {\n      \"label\": \"GO\",\n      \"cc\": 7,\n      \"color\": \"blue\",\n      \"mode\": \"momentary\",\n      \"off_mode\": \"off\"\n    }\n  ]\n}";
    assert_eq!(serialize_config(&config), expected);
}

#[test]
fn test_serialized_text_is_valid_json() {
    let mut config = ten_button_config();
    config.encoder = Some(EncoderConfig {
        enabled: true,
        cc: 11,
        label: "ENC".to_string(),
        min: 0,
        max: 127,
        initial: 64,
        steps: Some(4),
        push: Some(EncoderPush {
            enabled: true,
            cc: 14,
            label: "PUSH".to_string(),
            mode: ButtonMode::Momentary,
        }),
    });
    let text = serialize_config(&config);
    let value: serde_json::Value = serde_json::from_str(&text).unwrap();
    assert_eq!(value["device"], serde_json::Value::String("std10".to_string()));
    assert_eq!(value["buttons"].as_array().unwrap().len(), 10);
    assert_eq!(value["buttons"][0]["cc"].as_u64(), Some(20));
    assert_eq!(value["encoder"]["steps"].as_u64(), Some(4));
    assert_eq!(
        value["encoder"]["push"]["mode"],
        serde_json::Value::String("momentary".to_string())
    );
}

#[test]
fn test_schema_round_trip() {
    let pedal1 = ExpressionConfig {
        enabled: true,
        cc: 40,
        label: "WAH".to_string(),
        min: 5,
        max: 120,
        polarity: Polarity::Inverted,
        threshold: 3,
    };
    let pedal2 = ExpressionConfig {
        enabled: false,
        cc: 41,
        label: "VOL".to_string(),
        min: 0,
        max: 127,
        polarity: Polarity::Normal,
        threshold: default_threshold(),
    };
    let mut config = ten_button_config();
    config.encoder = Some(EncoderConfig {
        enabled: true,
        cc: 11,
        label: "ENC".to_string(),
        min: 1,
        max: 100,
        initial: 50,
        steps: Some(2),
        push: Some(EncoderPush {
            enabled: false,
            cc: 14,
            label: "PUSH".to_string(),
            mode: ButtonMode::Toggle,
        }),
    });
    config.expression = Some(ExpressionPedals { exp1: pedal1, exp2: pedal2 });
    assert!(config.validate().is_ok());

    let text = serialize_config(&config);
    let back = parse_config(&text).unwrap();

    assert_eq!(back.device, config.device);
    assert_eq!(back.buttons.len(), config.buttons.len());
    for (a, b) in back.buttons.iter().zip(config.buttons.iter()) {
        assert_eq!(a.label, b.label);
        assert_eq!(a.cc, b.cc);
        assert_eq!(a.color, b.color);
        assert_eq!(a.mode, b.mode);
        assert_eq!(a.off_mode, b.off_mode);
    }
    let (e1, e2) = (back.encoder.unwrap(), config.encoder.unwrap());
    assert_eq!(e1.cc, e2.cc);
    assert_eq!(e1.label, e2.label);
    assert_eq!(e1.min, e2.min);
    assert_eq!(e1.max, e2.max);
    assert_eq!(e1.initial, e2.initial);
    assert_eq!(e1.steps, e2.steps);
    let (p1, p2) = (e1.push.unwrap(), e2.push.unwrap());
    assert_eq!(p1.cc, p2.cc);
    assert_eq!(p1.label, p2.label);
    assert_eq!(p1.mode, p2.mode);
    let (x1, x2) = (back.expression.unwrap(), config.expression.unwrap());
    assert_eq!(x1.exp1.cc, x2.exp1.cc);
    assert_eq!(x1.exp1.label, x2.exp1.label);
    assert_eq!(x1.exp1.polarity, x2.exp1.polarity);
    assert_eq!(x1.exp1.threshold, x2.exp1.threshold);
    assert_eq!(x1.exp2.cc, x2.exp2.cc);
    assert_eq!(x1.exp2.polarity, x2.exp2.polarity);
}

#[test]
fn test_default_helpers() {
    assert_eq!(default_max(), 127);
    assert_eq!(default_initial(), 64);
    assert_eq!(default_threshold(), 2);
    assert!(is_default_off_mode(&OffMode::Dim));
    assert!(!is_default_off_mode(&OffMode::Off));
}
