use gekidan::activity_pub::{
    activity_note_item_json, follow_accept_json, json_string_array, ActivityItemParams,
    ActivityNoteItem, FollowAccept, FollowAcceptObject,
};
use gekidan::json::{json_escape, json_string};

#[test]
fn plain_text_is_quoted_unchanged() {
    assert_eq!(json_string("abc"), "\"abc\"");
    assert_eq!(json_string(""), "\"\"");
}

#[test]
fn special_characters_are_escaped() {
    assert_eq!(json_escape("say \"hi\""), "say \\\"hi\\\"");
    assert_eq!(json_escape("a\\b"), "a\\\\b");
    assert_eq!(json_escape("line\nbreak"), "line\\nbreak");
    assert_eq!(json_escape("tab\there"), "tab\\there");
    assert_eq!(json_escape("cr\rlf"), "cr\\rlf");
    assert_eq!(json_escape("\u{8}\u{c}"), "\\b\\f");
    assert_eq!(json_escape("\u{1}\u{1f}"), "\\u0001\\u001f");
    assert_eq!(json_escape("höhe"), "höhe");
}

#[test]
fn string_arrays_render_with_commas() {
    let empty: Vec<String> = vec![];
    assert_eq!(json_string_array(&empty), "[]");
    assert_eq!(json_string_array(&vec!["a".to_string()]), "[\"a\"]");
    assert_eq!(
        json_string_array(&vec!["a".to_string(), "b\"c".to_string()]),
        "[\"a\",\"b\\\"c\"]"
    );
}

#[test]
fn note_create_body_matches_the_wire_format() {
    let params = ActivityItemParams {
        app_url: "https://ap.example/".to_string(),
        user_id: "u1".to_string(),
        note_id: "n1".to_string(),
        content: "Hello".to_string(),
        published: "2023-01-01T00:00:00+00:00".to_string(),
    };
    let item = ActivityNoteItem::new(&params);
    let body = activity_note_item_json(&item);
    let expected = "{\"@context\":\"https://www.w3.org/ns/activitystreams\",\"type\":\"Create\",\"id\":\"https://ap.example/notes/n1\",\"published\":\"2023-01-01T00:00:00+00:00\",\"to\":[\"https://www.w3.org/ns/activitystreams#Public\"],\"cc\":[\"https://ap.example/users/u1/followers\"],\"actor\":\"https://ap.example/users/u1\",\"object\":{\"@context\":\"https://www.w3.org/ns/activitystreams\",\"type\":\"Note\",\"id\":\"https://ap.example/notes/n1\",\"published\":\"2023-01-01T00:00:00+00:00\",\"to\":[\"https://www.w3.org/ns/activitystreams#Public\"],\"cc\":[\"https://ap.example/users/u1/followers\"],\"content\":\"Hello\"}}";
    assert_eq!(body, expected);

    // The body is valid JSON and carries the fields where serde sees them.
    let value: serde_json::Value = serde_json::from_str(&body).unwrap();
    assert_eq!(value["type"], "Create");
    assert_eq!(value["object"]["content"], "Hello");
    assert_eq!(value["object"]["type"], "Note");
}

#[test]
fn accept_body_matches_the_wire_format() {
    let accept = FollowAccept {
        context: "https://www.w3.org/ns/activitystreams".to_string(),
        summary: "Accepted".to_string(),
        kind: "Accept".to_string(),
        actor: "https://local/users/u1".to_string(),
        object: FollowAcceptObject {
            kind: "Follow".to_string(),
            actor: "https://remote/alice".to_string(),
            object: "https://local/users/u1".to_string(),
        },
    };
    let body = follow_accept_json(&accept);
    let expected = "{\"@context\":\"https://www.w3.org/ns/activitystreams\",\"summary\":\"Accepted\",\"type\":\"Accept\",\"actor\":\"https://local/users/u1\",\"object\":{\"type\":\"Follow\",\"actor\":\"https://remote/alice\",\"object\":\"https://local/users/u1\"}}";
    assert_eq!(body, expected);

    let value: serde_json::Value = serde_json::from_str(&body).unwrap();
    assert_eq!(value["type"], "Accept");
    assert_eq!(value["object"]["actor"], "https://remote/alice");
}
