use mdcmd::commands::{read_settings_pins, settings_base, StoredPin};

fn seen(pins: &[StoredPin]) -> Vec<(String, Option<bool>)> {
    pins.iter().map(|p| (p.path.clone(), p.is_dir)).collect()
}

#[test]
fn settings_text_gives_the_stored_pins() {
    let content = r#"{
        "view_mode": "Tree",
        "pinned_workspaces": [
            "/plain",
            {"path": "/rec", "isDir": false},
            {"isDir": true},
            42,
            {"path": "/open"},
            {"path": "/odd", "isDir": "yes"},
            {"path": 7, "isDir": true}
        ]
    }"#;
    let pins = read_settings_pins(content).unwrap();
    assert_eq!(
        seen(&pins),
        vec![
            ("/plain".to_string(), None),
            ("/rec".to_string(), Some(false)),
            ("/open".to_string(), None),
            ("/odd".to_string(), None),
        ]
    );
}

#[test]
fn settings_without_a_pin_list_give_no_pins() {
    assert!(read_settings_pins("{}").unwrap().is_empty());
    assert!(read_settings_pins(r#"{"pinned_workspaces": "nope"}"#).unwrap().is_empty());
    assert!(read_settings_pins("[1, 2]").unwrap().is_empty());
    assert!(read_settings_pins(r#"{"pinned_workspaces": []}"#).unwrap().is_empty());
}

#[test]
fn invalid_settings_text_is_an_error() {
    let err = read_settings_pins("not json").err().unwrap();
    assert!(err.contains("line 1"));
    assert!(read_settings_pins("").is_err());
}

#[test]
fn settings_base_keeps_objects_only() {
    let text = r#"{"theme": "dark", "pinned_workspaces": []}"#;
    assert_eq!(settings_base(Some(text)), text);
    assert_eq!(settings_base(Some("[1, 2]")), "{}");
    assert_eq!(settings_base(Some("garbage")), "{}");
    assert_eq!(settings_base(Some("")), "{}");
    assert_eq!(settings_base(None), "{}");
}
