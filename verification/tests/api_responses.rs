use microsoft_365::api::{
    create_calendar_event, list_calendar_events, list_channels, list_drive, list_recent_messages,
    list_teams, me, read_excel_range, send_channel_message, send_mail, uploaded_file_from_value,
    write_excel_range,
};
use microsoft_365::json::{Json, JsonNumber};

fn obj(members: Vec<(&str, Json)>) -> Json {
    Json::Object(members.into_iter().map(|(k, v)| (k.to_string(), v)).collect())
}

fn s(text: &str) -> Json {
    Json::String(text.to_string())
}

fn n(v: u64) -> Json {
    Json::Number(JsonNumber::PosInt(v))
}

fn listing(items: Vec<Json>) -> Json {
    obj(vec![("value", Json::Array(items))])
}

#[test]
fn me_reads_profile_fields() {
    let v = obj(vec![
        ("id", s("u1")),
        ("displayName", s("Ada Lovelace")),
        ("mail", s("ada@example.com")),
        ("jobTitle", s("Analyst")),
    ]);
    let r = me(&v).unwrap();
    assert_eq!(r.id, "u1");
    assert_eq!(r.display_name, "Ada Lovelace");
    assert_eq!(r.mail.as_deref(), Some("ada@example.com"));
    assert_eq!(r.user_principal_name, None);
    assert_eq!(r.job_title.as_deref(), Some("Analyst"));
}

#[test]
fn me_requires_an_id() {
    let v = obj(vec![("displayName", s("No Id"))]);
    assert_eq!(me(&v).err().unwrap(), "Graph /me response missing id");
    let numeric = obj(vec![("id", n(7))]);
    assert!(me(&numeric).is_err());
}

#[test]
fn me_defaults_display_name_to_empty() {
    let r = me(&obj(vec![("id", s("x"))])).unwrap();
    assert_eq!(r.display_name, "");
}

#[test]
fn list_recent_messages_reads_each_message() {
    let item = obj(vec![
        ("id", s("m1")),
        ("subject", s("Hello")),
        ("from", obj(vec![("emailAddress", obj(vec![("address", s("bob@example.com"))]))])),
        ("receivedDateTime", s("2024-05-01T10:00:00Z")),
        ("isRead", Json::Bool(true)),
        ("bodyPreview", s("Hi there")),
    ]);
    let bare = obj(vec![]);
    let r = list_recent_messages(&listing(vec![item, bare])).unwrap();
    assert_eq!(r.count, 2);
    assert_eq!(r.messages[0].id, "m1");
    assert_eq!(r.messages[0].from.as_deref(), Some("bob@example.com"));
    assert_eq!(r.messages[0].received.as_deref(), Some("2024-05-01T10:00:00Z"));
    assert!(r.messages[0].is_read);
    assert_eq!(r.messages[0].preview, "Hi there");
    assert_eq!(r.messages[1].id, "");
    assert_eq!(r.messages[1].subject, "");
    assert_eq!(r.messages[1].from, None);
    assert!(!r.messages[1].is_read);
}

#[test]
fn list_recent_messages_requires_value_array() {
    let r = list_recent_messages(&obj(vec![("value", s("nope"))]));
    assert_eq!(r.err().unwrap(), "Graph /me/messages response missing value array");
}

#[test]
fn list_drive_reads_items() {
    let folder = obj(vec![
        ("id", s("f1")),
        ("name", s("Reports")),
        ("folder", obj(vec![("childCount", n(3))])),
        ("webUrl", s("https://example/f1")),
    ]);
    let file = obj(vec![
        ("id", s("d1")),
        ("name", s("a.txt")),
        ("size", n(42)),
        ("lastModifiedDateTime", s("2024-01-01T00:00:00Z")),
        ("file", obj(vec![("mimeType", s("text/plain"))])),
    ]);
    let r = list_drive(&listing(vec![folder, file])).unwrap();
    assert_eq!(r.count, 2);
    assert!(r.items[0].is_folder);
    assert_eq!(r.items[0].size, 0);
    assert_eq!(r.items[0].mime_type, None);
    assert_eq!(r.items[0].web_url.as_deref(), Some("https://example/f1"));
    assert!(!r.items[1].is_folder);
    assert_eq!(r.items[1].size, 42);
    assert_eq!(r.items[1].mime_type.as_deref(), Some("text/plain"));
    assert_eq!(r.items[1].last_modified.as_deref(), Some("2024-01-01T00:00:00Z"));
}

#[test]
fn list_drive_requires_value_array() {
    assert_eq!(list_drive(&Json::Null).err().unwrap(), "Graph drive listing missing value array");
}

#[test]
fn negative_sizes_read_as_zero() {
    let file = obj(vec![("size", Json::Number(JsonNumber::NegInt(-5)))]);
    let r = list_drive(&listing(vec![file])).unwrap();
    assert_eq!(r.items[0].size, 0);
}

#[test]
fn uploaded_file_reads_download_url() {
    let v = obj(vec![
        ("id", s("i")),
        ("name", s("n.docx")),
        ("size", n(10)),
        ("webUrl", s("w")),
        ("@microsoft.graph.downloadUrl", s("d")),
    ]);
    let f = uploaded_file_from_value(&v);
    assert_eq!(f.id, "i");
    assert_eq!(f.name, "n.docx");
    assert_eq!(f.size, 10);
    assert_eq!(f.web_url.as_deref(), Some("w"));
    assert_eq!(f.download_url.as_deref(), Some("d"));
}

#[test]
fn read_excel_range_moves_the_grids() {
    let v = obj(vec![
        ("address", s("Sheet1!A1:B2")),
        ("rowCount", n(2)),
        ("columnCount", n(2)),
        ("values", Json::Array(vec![Json::Array(vec![n(1), s("x")])])),
        ("text", Json::Array(vec![])),
    ]);
    let r = read_excel_range(v);
    assert_eq!(r.address, "Sheet1!A1:B2");
    assert_eq!(r.row_count, 2);
    assert_eq!(r.column_count, 2);
    match &r.values {
        Json::Array(rows) => assert_eq!(rows.len(), 1),
        other => panic!("unexpected {:?}", other),
    }
    assert!(matches!(r.text, Json::Array(ref t) if t.is_empty()));
    assert!(matches!(r.formulas, Json::Null));
    assert!(matches!(r.number_format, Json::Null));
}

#[test]
fn read_excel_range_keeps_first_of_duplicate_members() {
    let v = obj(vec![("values", s("first")), ("values", s("second"))]);
    let r = read_excel_range(v);
    assert!(matches!(r.values, Json::String(ref t) if t == "first"));
}

#[test]
fn write_excel_range_reports_written_range() {
    let v = obj(vec![("address", s("Sheet1!A1")), ("rowCount", n(1)), ("columnCount", n(3))]);
    let r = write_excel_range(&v);
    assert!(r.ok);
    assert_eq!(r.address, "Sheet1!A1");
    assert_eq!(r.row_count, 1);
    assert_eq!(r.column_count, 3);
}

#[test]
fn list_teams_and_channels() {
    let team = obj(vec![("id", s("t1")), ("displayName", s("Team"))]);
    let t = list_teams(&listing(vec![team])).unwrap();
    assert_eq!(t.count, 1);
    assert_eq!(t.teams[0].display_name, "Team");
    assert_eq!(t.teams[0].description, None);
    assert_eq!(
        list_teams(&obj(vec![])).err().unwrap(),
        "Graph joinedTeams response missing value array"
    );

    let channel = obj(vec![
        ("id", s("c1")),
        ("displayName", s("General")),
        ("description", s("d")),
        ("membershipType", s("standard")),
    ]);
    let c = list_channels(&listing(vec![channel])).unwrap();
    assert_eq!(c.count, 1);
    assert_eq!(c.channels[0].membership_type.as_deref(), Some("standard"));
    assert_eq!(
        list_channels(&obj(vec![])).err().unwrap(),
        "Graph channels response missing value array"
    );
}

#[test]
fn send_channel_message_reads_post() {
    let v = obj(vec![("id", s("p1")), ("createdDateTime", s("2024")), ("webUrl", s("u"))]);
    let r = send_channel_message(&v);
    assert_eq!(r.id, "p1");
    assert_eq!(r.created_date_time.as_deref(), Some("2024"));
    assert_eq!(r.web_url.as_deref(), Some("u"));
}

#[test]
fn list_calendar_events_drops_empty_location_and_preview() {
    let event = obj(vec![
        ("id", s("e1")),
        ("subject", s("Standup")),
        ("start", obj(vec![("dateTime", s("2024-05-01T09:00:00")), ("timeZone", s("UTC"))])),
        ("end", obj(vec![("dateTime", s("2024-05-01T09:15:00"))])),
        ("organizer", obj(vec![("emailAddress", obj(vec![("address", s("o@example.com"))]))])),
        ("location", obj(vec![("displayName", s(""))])),
        ("bodyPreview", s("")),
        ("webLink", s("link")),
    ]);
    let with_place = obj(vec![
        ("location", obj(vec![("displayName", s("Room 1"))])),
        ("bodyPreview", s("Agenda")),
    ]);
    let r = list_calendar_events(&listing(vec![event, with_place])).unwrap();
    assert_eq!(r.count, 2);
    let e = &r.events[0];
    assert_eq!(e.start.as_deref(), Some("2024-05-01T09:00:00"));
    assert_eq!(e.end.as_deref(), Some("2024-05-01T09:15:00"));
    assert_eq!(e.time_zone.as_deref(), Some("UTC"));
    assert_eq!(e.organizer.as_deref(), Some("o@example.com"));
    assert_eq!(e.location, None);
    assert_eq!(e.preview, None);
    assert_eq!(e.web_link.as_deref(), Some("link"));
    assert_eq!(r.events[1].location.as_deref(), Some("Room 1"));
    assert_eq!(r.events[1].preview.as_deref(), Some("Agenda"));
    assert_eq!(
        list_calendar_events(&obj(vec![])).err().unwrap(),
        "Graph calendar response missing value array"
    );
}

#[test]
fn create_calendar_event_reads_created_event() {
    let v = obj(vec![
        ("id", s("e9")),
        ("subject", s("Review")),
        ("webLink", s("l")),
        ("start", obj(vec![("dateTime", s("2024-06-01T10:00:00"))])),
    ]);
    let r = create_calendar_event(&v);
    assert_eq!(r.id, "e9");
    assert_eq!(r.subject, "Review");
    assert_eq!(r.start.as_deref(), Some("2024-06-01T10:00:00"));
    assert_eq!(r.end, None);
}

#[test]
fn send_mail_is_ok_only_on_202_and_never_verified() {
    let accepted = send_mail(202);
    assert!(accepted.ok);
    assert!(accepted.unverified);
    assert_eq!(accepted.message, "Send queued by Graph. Delivery happens asynchronously.");
    let other = send_mail(200);
    assert!(!other.ok);
    assert!(other.unverified);
}
