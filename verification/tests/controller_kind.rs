use mihomoctl::kind::{
    controller_kind_choices, controller_kind_default_index, controller_kind_from_choice,
    ControllerKind,
};

#[test]
fn detected_controller_kind_is_default_confirmation_choice() {
    assert_eq!(controller_kind_default_index(Some(ControllerKind::Mihomo)), 0);
    assert_eq!(controller_kind_default_index(Some(ControllerKind::Clash)), 1);
}

#[test]
fn unknown_controller_kind_defaults_to_mihomo_but_keeps_clash_choice() {
    assert_eq!(controller_kind_default_index(None), 0);
    assert_eq!(controller_kind_choices(), ["mihomo", "clash"]);
}

#[test]
fn detect_controller_kind_from_version_payloads() {
    assert_eq!(
        ControllerKind::detect_from_version_body(r#"{"version":"Mihomo v1.18.0"}"#),
        Some(ControllerKind::Mihomo)
    );
    assert_eq!(
        ControllerKind::detect_from_version_body(r#"{"version":"1.18.0","meta":true}"#),
        Some(ControllerKind::Mihomo)
    );
    assert_eq!(
        ControllerKind::detect_from_version_body(r#"{"version":"1.18.0"}"#),
        Some(ControllerKind::Clash)
    );
    assert_eq!(ControllerKind::detect_from_version_body("not json"), None);
}

#[test]
fn version_body_without_version_or_marker_is_unknown() {
    assert_eq!(ControllerKind::detect_from_version_body(r#"{"meta":false}"#), None);
    assert_eq!(ControllerKind::detect_from_version_body(r#"["mihomo"]"#), None);
    assert_eq!(
        ControllerKind::detect_from_version_body(r#"{"version":"1.0","premium":"MIHOMO build"}"#),
        Some(ControllerKind::Mihomo)
    );
}

#[test]
fn kind_names_round_trip_through_the_choice_list() {
    assert_eq!(ControllerKind::Mihomo.as_str(), "mihomo");
    assert_eq!(ControllerKind::Clash.as_str(), "clash");
    for choice in controller_kind_choices() {
        assert_eq!(controller_kind_from_choice(choice).as_str(), choice);
    }
    assert_eq!(
        controller_kind_choices()[controller_kind_default_index(Some(ControllerKind::Clash))],
        "clash"
    );
}
