use discord_presence_rs::activities::{
    Activity, ActivityType, Assets, Button, Party, Secrets, StatusDisplayType, Timestamps,
};

#[test]
fn empty_activity_renders_as_empty_object() {
    assert_eq!(Activity::new().to_json(), "{}");
}

#[test]
fn absent_fields_are_left_out() {
    let a = Activity::new().set_state("playing".to_string());
    assert_eq!(a.to_json(), "{\"state\":\"playing\"}");
}

#[test]
fn members_keep_declaration_order() {
    let a = Activity::new()
        .set_state("the state".to_string())
        .set_details("the details".to_string());
    assert_eq!(a.to_json(), "{\"details\":\"the details\",\"state\":\"the state\"}");
}

#[test]
fn assets_render_in_order() {
    let assets = Assets::new()
        .set_large_image("img1".to_string())
        .set_large_text("text1".to_string())
        .set_large_url("url1".to_string())
        .set_small_image("img2".to_string())
        .set_small_text("text2".to_string())
        .set_small_url("url2".to_string());
    assert_eq!(
        assets.to_json(),
        "{\"large_image\":\"img1\",\"large_text\":\"text1\",\"large_url\":\"url1\",\
         \"small_image\":\"img2\",\"small_text\":\"text2\",\"small_url\":\"url2\"}"
    );
}

#[test]
fn timestamps_render_as_numbers() {
    let t = Timestamps::new().set_start(1700000000).set_end(1700003600);
    assert_eq!(t.to_json(), "{\"start\":1700000000,\"end\":1700003600}");
}

#[test]
fn party_size_renders_as_pair() {
    let p = Party::new().set_id("party1".to_string()).set_size(1, 10);
    assert_eq!(p.to_json(), "{\"id\":\"party1\",\"size\":[1,10]}");
}

#[test]
fn secrets_render_match_under_its_wire_name() {
    let s = Secrets::new()
        .set_join("j".to_string())
        .set_spectate("s".to_string())
        .set_instance(true)
        .set_match("m".to_string());
    assert_eq!(
        s.to_json(),
        "{\"join\":\"j\",\"spectate\":\"s\",\"instance\":true,\"match\":\"m\"}"
    );
}

#[test]
fn button_always_writes_both_members() {
    assert_eq!(Button::new().to_json(), "{\"label\":null,\"url\":null}");
    let b = Button::new().set_label("Open".to_string()).set_url("https://example.org".to_string());
    assert_eq!(b.to_json(), "{\"label\":\"Open\",\"url\":\"https://example.org\"}");
}

#[test]
fn buttons_render_as_array() {
    let a = Activity::new().set_buttons(vec![
        Button::new().set_label("A".to_string()),
        Button::new().set_url("u".to_string()),
    ]);
    assert_eq!(
        a.to_json(),
        "{\"buttons\":[{\"label\":\"A\",\"url\":null},{\"label\":null,\"url\":\"u\"}]}"
    );
}

#[test]
fn activity_type_codes_cover_every_kind() {
    let kinds = [
        (ActivityType::Playing, "0"),
        (ActivityType::Streaming, "1"),
        (ActivityType::Listening, "2"),
        (ActivityType::Watching, "3"),
        (ActivityType::Custom, "4"),
        (ActivityType::Competing, "5"),
    ];
    for (kind, code) in kinds {
        let a = Activity::new().set_activity_type(kind);
        assert_eq!(a.to_json(), format!("{{\"type\":{}}}", code));
    }
}

#[test]
fn status_display_type_codes_cover_every_choice() {
    let choices = [
        (StatusDisplayType::Name, "0"),
        (StatusDisplayType::State, "1"),
        (StatusDisplayType::Details, "2"),
    ];
    for (choice, code) in choices {
        let a = Activity::new().set_status_display_type(choice);
        assert_eq!(a.to_json(), format!("{{\"status_display_type\":{}}}", code));
    }
}

#[test]
fn full_activity_parses_back_as_json() {
    let a = Activity::new()
        .set_details("details line".to_string())
        .set_state("state line".to_string())
        .set_assets(Assets::new().set_large_image("img".to_string()))
        .set_timestamps(Timestamps::new().set_start(12345))
        .set_party(Party::new().set_id("p".to_string()).set_size(2, 4))
        .set_secrets(Secrets::new().set_join("jj".to_string()))
        .set_buttons(vec![Button::new().set_label("L".to_string())])
        .set_activity_type(ActivityType::Watching)
        .set_status_display_type(StatusDisplayType::Details);
    let text = a.to_json();
    let value: serde_json::Value = serde_json::from_str(&text).unwrap();
    assert_eq!(value["details"].as_str(), Some("details line"));
    assert_eq!(value["state"].as_str(), Some("state line"));
    assert_eq!(value["assets"]["large_image"].as_str(), Some("img"));
    assert_eq!(value["timestamps"]["start"].as_u64(), Some(12345));
    assert_eq!(value["party"]["size"][1].as_u64(), Some(4));
    assert_eq!(value["secrets"]["join"].as_str(), Some("jj"));
    assert_eq!(value["buttons"][0]["label"].as_str(), Some("L"));
    assert_eq!(value["type"].as_u64(), Some(3));
    assert_eq!(value["status_display_type"].as_u64(), Some(2));
}
