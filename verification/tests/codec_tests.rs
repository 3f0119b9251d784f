use deck_protocol::codec::JsonCodec;
use deck_protocol::json::{DecodeError, Json};
use deck_protocol::manifest::{Manifest, WindowSize};
use deck_protocol::messages::MessageOut;
use deck_protocol::runner::Registration;
use deck_protocol::messages::{GlobalSettingsPayload, KeyPayload, LogMessagePayload, Message, UrlPayload};
use deck_protocol::property_inspector::Message as PiMessage;

fn s(x: &str) -> String {
    x.to_string()
}

fn minimal_manifest_json(extra: Vec<(String, Json)>) -> Json {
    let os_entry = Json::Obj(vec![
        (s("Platform"), Json::Str(s("mac"))),
        (s("MinimumVersion"), Json::Str(s("10.11"))),
    ]);
    let mut fields = vec![
        (s("Author"), Json::Str(s("a"))),
        (s("Description"), Json::Str(s("d"))),
        (s("Icon"), Json::Str(s("i"))),
        (s("Name"), Json::Str(s("n"))),
        (s("CodePath"), Json::Str(s("c"))),
        (s("Version"), Json::Str(s("1.0"))),
        (s("SDKVersion"), Json::Int(2)),
        (s("OS"), Json::Arr(vec![os_entry])),
        (
            s("Software"),
            Json::Obj(vec![(s("MinimumVersion"), Json::Str(s("4.1")))]),
        ),
        (s("Actions"), Json::Arr(vec![])),
    ];
    for e in extra {
        fields.push(e);
    }
    Json::Obj(fields)
}

#[test]
fn manifest_example_decodes_with_default_window_size() {
    let j = minimal_manifest_json(vec![]);
    let m = Manifest::dec(&j).expect("example manifest should decode");
    assert_eq!(m.author, "a");
    assert_eq!(m.description, "d");
    assert_eq!(m.icon, "i");
    assert_eq!(m.name, "n");
    assert_eq!(m.code_path, "c");
    assert_eq!(m.version, "1.0");
    assert_eq!(m.sdk_version, 2);
    assert_eq!(m.default_window_size, WindowSize(500, 650));
    assert_eq!(m.actions.len(), 0);
    assert_eq!(m.os.len(), 1);
    assert_eq!(m.software.minimum_version, "4.1");
    assert!(m.category.is_none());
    assert!(m.applications_to_monitor.is_none());
}

#[test]
fn manifest_round_trip_with_optionals_absent() {
    let j = minimal_manifest_json(vec![]);
    let m = Manifest::dec(&j).expect("decode");
    let e = m.enc();
    let m2 = Manifest::dec(&e).expect("re-decode");
    assert_eq!(m, m2);
}

#[test]
fn manifest_round_trip_with_optionals_present() {
    let j = minimal_manifest_json(vec![
        (s("Category"), Json::Str(s("Tools"))),
        (s("URL"), Json::Str(s("https://example.invalid"))),
        (s("DefaultWindowSize"), Json::Arr(vec![Json::Int(10), Json::Int(20)])),
        (
            s("ApplicationsToMonitor"),
            Json::Obj(vec![(
                s("mac"),
                Json::Arr(vec![Json::Str(s("com.example.app"))]),
            )]),
        ),
    ]);
    let m = Manifest::dec(&j).expect("decode");
    assert_eq!(m.default_window_size, WindowSize(10, 20));
    assert_eq!(m.category.as_deref(), Some("Tools"));
    let e = m.enc();
    let m2 = Manifest::dec(&e).expect("re-decode");
    assert_eq!(m, m2);
}

#[test]
fn action_defaults_substituted() {
    let state = Json::Obj(vec![(s("Image"), Json::Str(s("img")))]);
    let j = Json::Obj(vec![
        (s("Name"), Json::Str(s("act"))),
        (s("UUID"), Json::Str(s("com.example.act"))),
        (s("States"), Json::Arr(vec![state])),
    ]);
    let a = deck_protocol::manifest::Action::dec(&j).expect("decode");
    assert!(a.supported_in_multi_actions);
    assert!(!a.disable_caching);
    assert!(a.visible_in_actions_list);
    assert!(a.states[0].show_title);
    assert!(!a.states[0].font_underline);
}

#[test]
fn plugin_frame_get_settings_decodes_and_round_trips() {
    let j = Json::Obj(vec![
        (s("event"), Json::Str(s("getSettings"))),
        (s("context"), Json::Str(s("abc123"))),
    ]);
    let m = MessageOut::dec(&j).expect("decode");
    assert_eq!(
        m,
        MessageOut::GetSettings {
            context: s("abc123")
        }
    );
    let e = m.enc();
    let m2 = MessageOut::dec(&e).expect("re-decode");
    assert_eq!(m, m2);
}

#[test]
fn unknown_event_is_rejected_with_the_raw_tag() {
    let j = Json::Obj(vec![
        (s("event"), Json::Str(s("willVanish"))),
        (s("context"), Json::Str(s("abc"))),
    ]);
    let e = MessageOut::dec(&j).unwrap_err();
    assert_eq!(e, DecodeError::UnknownVariant(s("willVanish")));
    let e2 = deck_protocol::messages::Message::dec(&j).unwrap_err();
    assert_eq!(e2, DecodeError::UnknownVariant(s("willVanish")));
}

#[test]
fn unknown_fields_are_ignored() {
    let j = Json::Obj(vec![
        (s("event"), Json::Str(s("getSettings"))),
        (s("mystery"), Json::Null),
        (s("context"), Json::Str(s("abc123"))),
        (s("another"), Json::Int(7)),
    ]);
    let m = MessageOut::dec(&j).expect("decode");
    assert_eq!(
        m,
        MessageOut::GetSettings {
            context: s("abc123")
        }
    );
}

#[test]
fn missing_required_field_is_reported_by_name() {
    let j = minimal_manifest_json(vec![]);
    let stripped = match j {
        Json::Obj(fields) => Json::Obj(
            fields
                .into_iter()
                .filter(|(k, _)| k != "Author")
                .collect(),
        ),
        _ => unreachable!(),
    };
    let e = Manifest::dec(&stripped).unwrap_err();
    assert_eq!(e, DecodeError::MissingField(s("Author")));
}

#[test]
fn wrong_shape_is_a_type_mismatch() {
    let j = minimal_manifest_json(vec![(s("DefaultWindowSize"), Json::Str(s("big")))]);
    let e = Manifest::dec(&j).unwrap_err();
    assert_eq!(e, DecodeError::TypeMismatch(s("DefaultWindowSize")));
}

#[test]
fn non_object_input_is_rejected() {
    let e = Manifest::dec(&Json::Int(3)).unwrap_err();
    assert_eq!(e, DecodeError::NotAnObject);
}

#[test]
fn payload_error_is_wrapped_with_the_variant_name() {
    let j = Json::Obj(vec![
        (s("event"), Json::Str(s("openUrl"))),
        (s("payload"), Json::Obj(vec![])),
    ]);
    let e = MessageOut::dec(&j).unwrap_err();
    assert_eq!(
        e,
        DecodeError::Payload(
            s("openUrl"),
            Box::new(DecodeError::MissingField(s("url")))
        )
    );
}

#[test]
fn message_union_round_trips_every_variant() {
    let variants = vec![
        Message::DidReceiveSettings {
            action: s("com.example.act"),
            context: s("ctx"),
            device: s("dev"),
            payload: KeyPayload {
                settings: Json::Obj(vec![(s("volume"), Json::Int(11))]),
            },
        },
        Message::DidReceiveGlobalSettings {
            payload: GlobalSettingsPayload {
                settings: Json::Null,
            },
        },
        Message::SendToPropertyInspector {
            action: s("com.example.act"),
            context: s("ctx"),
            payload: Json::Arr(vec![Json::Bool(true)]),
        },
    ];
    for v in variants {
        let e = v.enc();
        let v2 = Message::dec(&e).expect("round trip");
        assert_eq!(v, v2);
    }
    let outs = vec![
        MessageOut::GetSettings { context: s("c") },
        MessageOut::SetSettings {
            context: s("c"),
            payload: Json::Int(1),
        },
        MessageOut::OpenUrl {
            payload: UrlPayload {
                url: s("https://example.invalid"),
            },
        },
        MessageOut::GetGlobalSettings { context: s("c") },
        MessageOut::SetGlobalSettings {
            context: s("c"),
            payload: Json::Bool(false),
        },
        MessageOut::LogMessage {
            payload: LogMessagePayload {
                message: s("hello"),
            },
        },
        MessageOut::SendToPlugin {
            action: s("a"),
            context: s("c"),
            payload: Json::Null,
        },
    ];
    for v in outs {
        let e = v.enc();
        let v2 = MessageOut::dec(&e).expect("round trip");
        assert_eq!(v, v2);
    }
}

#[test]
fn property_inspector_union_round_trips() {
    let v = PiMessage::DidReceiveSettings {
        action: s("com.example.act"),
        context: s("ctx"),
        device: s("dev"),
        payload: KeyPayload {
            settings: Json::Int(9),
        },
    };
    let e = v.enc();
    let v2 = PiMessage::dec(&e).expect("round trip");
    assert_eq!(v, v2);
}

#[test]
fn registration_round_trips() {
    let r = Registration {
        event: s("register"),
        uuid: s("ABCD-1234"),
    };
    let e = r.enc();
    let r2 = Registration::dec(&e).expect("round trip");
    assert_eq!(r, r2);
}

#[test]
fn return_true_returns_true() {
    assert!(deck_protocol::return_true());
}
