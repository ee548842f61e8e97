use desktoprecorder::portal::{
    get_first_stream, get_text, get_value, negotiate, request_path, OptionValue, PortalEntry,
    PortalError, PortalValue, Stage, TokenCounter,
};

fn entry(key: &str, value: PortalValue) -> PortalEntry {
    PortalEntry { key: key.to_string(), value }
}

#[test]
fn request_path_strips_colon_and_replaces_dots() {
    let path = request_path(":1.42", "mytoken").unwrap();
    assert_eq!(path.as_str(), "/org/freedesktop/portal/desktop/request/1_42/mytoken");
}

#[test]
fn request_path_rejects_a_token_with_invalid_object_path_characters() {
    assert!(request_path(":1.42", "not a valid token").is_err());
}

#[test]
fn get_value_extracts_a_present_key_of_the_expected_type() {
    let results = vec![entry(
        "session_handle",
        PortalValue::Text("/org/freedesktop/portal/desktop/session/1_42/foo".to_string()),
    )];
    let handle: String = get_text(&results, "session_handle").unwrap();
    assert_eq!(handle, "/org/freedesktop/portal/desktop/session/1_42/foo");
}

#[test]
fn get_value_errors_on_a_missing_key() {
    let results: Vec<PortalEntry> = Vec::new();
    let err = get_value(&results, "session_handle").unwrap_err();
    assert!(err.message().contains("session_handle"));
}

#[test]
fn get_value_errors_on_a_type_mismatch() {
    // A number where a text is asked for.
    let results = vec![entry("streams", PortalValue::Other)];
    assert!(get_text(&results, "streams").is_err());
}

#[test]
fn a_slash_in_a_token_only_makes_a_deeper_path() {
    assert!(request_path(":1.42", "a/b").is_ok());
    for token in ["", "/b", "a//b", "a/", "\u{e9}"] {
        let made = request_path(":1.42", token);
        let text = format!("/org/freedesktop/portal/desktop/request/1_42/{token}");
        let expected = zbus::zvariant::OwnedObjectPath::try_from(text).is_ok();
        assert_eq!(made.is_ok(), expected, "{token:?}");
    }
    assert_eq!(
        request_path(":1.42", "").unwrap_err().message(),
        "portal produced an invalid request object path"
    );
    assert!(request_path("::a-b", "t").is_err());
}

#[test]
fn tokens_are_never_the_same_twice() {
    let mut tokens = TokenCounter { next: 0 };
    assert_eq!(tokens.next_token(), "desktoprecorder_0");
    assert_eq!(tokens.next_token(), "desktoprecorder_1");
    let mut last = TokenCounter { next: u64::MAX };
    assert_eq!(last.next_token(), format!("desktoprecorder_{}", u64::MAX));
    assert_eq!(last.next, 0);
}

#[test]
fn a_negotiation_runs_through_its_calls() {
    let mut tokens = TokenCounter { next: 5 };
    let mut negotiation = negotiate(true);

    let call = negotiation.next_call(":1.7", &mut tokens).unwrap();
    assert_eq!(call.stage, Stage::CreateSession);
    assert_eq!(call.session, "");
    assert_eq!(call.request_path, "/org/freedesktop/portal/desktop/request/1_7/desktoprecorder_5");
    assert_eq!(call.options.iter().map(|o| o.name).collect::<Vec<_>>(), ["handle_token", "session_handle_token"]);
    let handle = vec![entry("session_handle", PortalValue::Text("/session/one".to_string()))];
    negotiation.on_response(0, &handle).unwrap();
    assert_eq!(negotiation.session, "/session/one");

    let call = negotiation.next_call(":1.7", &mut tokens).unwrap();
    assert_eq!(call.stage, Stage::SelectSources);
    assert_eq!(call.session, "/session/one");
    assert_eq!(call.options.len(), 4);
    assert!(matches!(&call.options[0].value, OptionValue::Text(t) if t == "desktoprecorder_6"));
    assert!(matches!(call.options[1].value, OptionValue::Number(3)));
    assert!(matches!(call.options[2].value, OptionValue::Flag(false)));
    assert!(matches!(call.options[3].value, OptionValue::Number(2)));
    negotiation.on_response(0, &Vec::new()).unwrap();

    let call = negotiation.next_call(":1.7", &mut tokens).unwrap();
    assert_eq!(call.stage, Stage::Start);
    assert_eq!(call.session, "/session/one");
    assert_eq!(call.options.len(), 1);
    negotiation.on_response(0, &vec![entry("streams", PortalValue::Streams(vec![42, 43]))]).unwrap();
    assert_eq!(negotiation.stage, Stage::OpenRemote);
    let session = negotiation.session(11);
    assert_eq!((session.fd, session.node), (11, 42));
}

#[test]
fn a_hidden_pointer_is_asked_for_as_such() {
    let mut tokens = TokenCounter { next: 0 };
    let mut negotiation = negotiate(false);
    negotiation.stage = Stage::SelectSources;
    negotiation.session = "/s".to_string();
    let call = negotiation.next_call(":1.7", &mut tokens).unwrap();
    assert!(matches!(call.options[3].value, OptionValue::Number(1)));
}

#[test]
fn portal_errors_are_told_apart() {
    let mut negotiation = negotiate(true);
    let refused = negotiation.on_response(1, &Vec::new()).unwrap_err();
    assert_eq!(refused.message(), "the portal request was cancelled or failed (response code 1)");
    assert_eq!(negotiation.stage, Stage::CreateSession);

    let missing = negotiation.on_response(0, &Vec::new()).unwrap_err();
    assert_eq!(missing.message(), "portal response is missing 'session_handle'");

    let odd = vec![entry("session_handle", PortalValue::Streams(Vec::new()))];
    let mismatch = negotiation.on_response(0, &odd).unwrap_err();
    assert_eq!(mismatch.message(), "portal response's 'session_handle' had an unexpected type: incorrect type");

    let bad = vec![entry("session_handle", PortalValue::Text("no path".to_string()))];
    let invalid = negotiation.on_response(0, &bad).unwrap_err();
    assert!(matches!(invalid, PortalError::InvalidSessionHandle));

    let none = vec![entry("streams", PortalValue::Streams(Vec::new()))];
    let empty = get_first_stream(&none, "streams").unwrap_err();
    assert_eq!(empty.message(), "the portal reported success but selected no streams");
    assert!(get_first_stream(&odd, "session_handle").is_err());
    assert!(get_first_stream(&bad, "session_handle").is_err());
}

#[test]
fn each_call_says_when_it_failed() {
    assert_eq!(Stage::CreateSession.context(), "CreateSession failed");
    assert_eq!(Stage::SelectSources.context(), "SelectSources failed");
    assert_eq!(Stage::Start.context(), "Start failed (did the picker dialog get cancelled?)");
    assert_eq!(Stage::OpenRemote.context(), "OpenPipeWireRemote failed");
}

#[test]
fn the_type_mismatch_reads_as_zbus_says_it() {
    let value = zbus::zvariant::Value::from(42u32);
    let error = String::try_from(value).unwrap_err();
    let expected = format!("portal response's 'streams' had an unexpected type: {error}");
    assert_eq!(PortalError::UnexpectedType("streams".to_string()).message(), expected);
}
