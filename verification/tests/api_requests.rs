use microsoft_365::api::{
    create_calendar_event_request, iso8601_is_splittable, list_calendar_events_request,
    list_channels_request, list_drive_request, list_recent_messages_request, list_teams_request,
    me_request, read_excel_range_request, send_channel_message_request, send_mail_request,
    split_iso8601, write_excel_range_request, call_request, GraphRequest,
};
use microsoft_365::graph::MISSING_TOKEN_MESSAGE;
use microsoft_365::json::{Json, JsonNumber};

fn member<'a>(v: &'a Json, key: &str) -> &'a Json {
    match v {
        Json::Object(ms) => &ms.iter().find(|(k, _)| k == key).expect(key).1,
        other => panic!("not an object: {:?}", other),
    }
}

fn text(v: &Json) -> &str {
    match v {
        Json::String(t) => t.as_str(),
        other => panic!("not a string: {:?}", other),
    }
}

fn items(v: &Json) -> &Vec<Json> {
    match v {
        Json::Array(a) => a,
        other => panic!("not an array: {:?}", other),
    }
}

fn keys(v: &Json) -> Vec<String> {
    match v {
        Json::Object(ms) => ms.iter().map(|(k, _)| k.clone()).collect(),
        other => panic!("not an object: {:?}", other),
    }
}

fn strings(list: &[&str]) -> Vec<String> {
    list.iter().map(|x| x.to_string()).collect()
}

fn get(r: Result<GraphRequest, String>) -> GraphRequest {
    r.unwrap()
}

#[test]
fn me_request_gets_me() {
    let r = get(me_request(true));
    assert_eq!(r.method, "GET");
    assert_eq!(r.endpoint, "/me");
    assert!(r.payload.is_none());
}

#[test]
fn every_action_needs_the_token() {
    assert_eq!(me_request(false).err().unwrap(), MISSING_TOKEN_MESSAGE);
    assert_eq!(list_teams_request(false).err().unwrap(), MISSING_TOKEN_MESSAGE);
    assert_eq!(list_drive_request(false, None).err().unwrap(), MISSING_TOKEN_MESSAGE);
    assert_eq!(list_channels_request(false, "").err().unwrap(), MISSING_TOKEN_MESSAGE);
    assert_eq!(
        send_mail_request(false, &[], &[], &[], "", "", false, true).err().unwrap(),
        MISSING_TOKEN_MESSAGE
    );
    assert!(MISSING_TOKEN_MESSAGE.starts_with("Microsoft OAuth token not configured."));
}

#[test]
fn recent_messages_limit_is_clamped() {
    let low = get(list_recent_messages_request(true, 0, None));
    assert_eq!(
        low.endpoint,
        "/me/messages?$top=1&$select=id,subject,from,receivedDateTime,isRead,bodyPreview&$orderby=receivedDateTime desc"
    );
    let high = get(list_recent_messages_request(true, 500, None));
    assert!(high.endpoint.starts_with("/me/messages?$top=100&"));
    let mid = get(list_recent_messages_request(true, 25, None));
    assert!(mid.endpoint.starts_with("/me/messages?$top=25&"));
}

#[test]
fn recent_messages_filter_is_encoded_and_blank_ignored() {
    let r = get(list_recent_messages_request(true, 10, Some("isRead eq false")));
    assert!(r.endpoint.ends_with("&$filter=isRead%20eq%20false"));
    let blank = get(list_recent_messages_request(true, 10, Some("   ")));
    assert!(!blank.endpoint.contains("$filter"));
}

#[test]
fn drive_listing_endpoints() {
    assert_eq!(get(list_drive_request(true, None)).endpoint, "/me/drive/root/children");
    assert_eq!(get(list_drive_request(true, Some("ABC"))).endpoint, "/me/drive/items/ABC/children");
}

#[test]
fn excel_range_endpoint_encodes_sheet_and_range() {
    let r = get(read_excel_range_request(true, "WB1", "My Sheet", "A1:B2"));
    assert_eq!(r.method, "GET");
    assert_eq!(
        r.endpoint,
        "/me/drive/items/WB1/workbook/worksheets('My%20Sheet')/range(address='A1%3AB2')"
    );
}

#[test]
fn write_excel_range_needs_rows_and_sends_values() {
    assert_eq!(
        write_excel_range_request(true, "WB", "S", "A1", vec![]).err().unwrap(),
        "write_excel_range requires at least one row of values"
    );
    let rows = vec![
        vec![Json::Number(JsonNumber::PosInt(1)), Json::String("a".to_string())],
        vec![Json::Bool(true)],
    ];
    let r = get(write_excel_range_request(true, "WB", "S", "A1", rows));
    assert_eq!(r.method, "PATCH");
    let payload = r.payload.unwrap();
    let values = items(member(&payload, "values"));
    assert_eq!(values.len(), 2);
    assert_eq!(items(&values[0]).len(), 2);
    assert!(matches!(items(&values[1])[0], Json::Bool(true)));
}

#[test]
fn list_channels_needs_a_team() {
    assert_eq!(
        list_channels_request(true, "  ").err().unwrap(),
        "list_channels requires a team_id. Run list_teams first."
    );
    assert_eq!(get(list_channels_request(true, "T1")).endpoint, "/teams/T1/channels");
    assert_eq!(get(list_teams_request(true)).endpoint, "/me/joinedTeams");
}

#[test]
fn channel_message_checks_and_payload() {
    assert_eq!(
        send_channel_message_request(true, "", "c", "hi", false).err().unwrap(),
        "send_channel_message requires both team_id and channel_id"
    );
    assert_eq!(
        send_channel_message_request(true, "t", "c", " \n", false).err().unwrap(),
        "send_channel_message requires non-empty content"
    );
    let r = get(send_channel_message_request(true, "t", "c", "<b>hi</b>", true));
    assert_eq!(r.method, "POST");
    assert_eq!(r.endpoint, "/teams/t/channels/c/messages");
    let payload = r.payload.unwrap();
    let body = member(&payload, "body");
    assert_eq!(text(member(body, "contentType")), "html");
    assert_eq!(text(member(body, "content")), "<b>hi</b>");
}

#[test]
fn send_mail_checks_and_payload() {
    let to = strings(&["a@example.com", "b@example.com"]);
    assert_eq!(
        send_mail_request(true, &[], &[], &[], "s", "b", false, true).err().unwrap(),
        "send_mail requires at least one recipient in `to`"
    );
    assert_eq!(
        send_mail_request(true, &to, &[], &[], " ", "b", false, true).err().unwrap(),
        "send_mail requires a non-empty subject"
    );
    let cc = strings(&["c@example.com"]);
    let r = get(send_mail_request(true, &to, &cc, &[], "Hello", "Body", false, false));
    assert_eq!(r.method, "POST");
    assert_eq!(r.endpoint, "/me/sendMail");
    let payload = r.payload.unwrap();
    assert!(matches!(member(&payload, "saveToSentItems"), Json::Bool(false)));
    let message = member(&payload, "message");
    assert_eq!(text(member(message, "subject")), "Hello");
    assert_eq!(text(member(member(message, "body"), "contentType")), "Text");
    assert_eq!(text(member(member(message, "body"), "content")), "Body");
    let to_json = items(member(message, "toRecipients"));
    assert_eq!(to_json.len(), 2);
    assert_eq!(text(member(member(&to_json[1], "emailAddress"), "address")), "b@example.com");
    assert_eq!(items(member(message, "ccRecipients")).len(), 1);
    assert_eq!(items(member(message, "bccRecipients")).len(), 0);
}

#[test]
fn calendar_view_needs_both_bounds() {
    let view = get(list_calendar_events_request(
        true,
        Some("2024-01-01T00:00:00Z"),
        Some("2024-01-02T00:00:00Z"),
    ));
    assert_eq!(
        view.endpoint,
        "/me/calendarView?startDateTime=2024-01-01T00%3A00%3A00Z&endDateTime=2024-01-02T00%3A00%3A00Z&$top=50&$orderby=start/dateTime"
    );
    let next = get(list_calendar_events_request(true, Some("2024-01-01"), Some("")));
    assert_eq!(
        next.endpoint,
        "/me/events?$top=50&$orderby=start/dateTime&$select=id,subject,start,end,organizer,location,bodyPreview,webLink"
    );
}

#[test]
fn split_iso8601_cases() {
    assert_eq!(
        split_iso8601("2024-01-15T10:00:00+05:30"),
        ("2024-01-15T10:00:00".to_string(), "+05:30".to_string())
    );
    assert_eq!(
        split_iso8601("2024-01-15T10:00:00-05:00"),
        ("2024-01-15T10:00:00".to_string(), "-05:00".to_string())
    );
    assert_eq!(
        split_iso8601("2024-01-15T10:00:00Z"),
        ("2024-01-15T10:00:00".to_string(), "UTC".to_string())
    );
    assert_eq!(
        split_iso8601("2024-01-15T10:00:00ZZ"),
        ("2024-01-15T10:00:00".to_string(), "UTC".to_string())
    );
    assert_eq!(
        split_iso8601("2024-01-15T10:00:00"),
        ("2024-01-15T10:00:00".to_string(), "UTC".to_string())
    );
}

#[test]
fn split_iso8601_offset_split_keeps_all_text() {
    let ts = "2024-01-15T10:00:00+05:30";
    let (a, b) = split_iso8601(ts);
    assert_eq!(format!("{}{}", a, b), ts);
}

#[test]
fn iso8601_splittable_inputs() {
    assert!(iso8601_is_splittable("2024-01-15T10:00:00"));
    assert!(iso8601_is_splittable("2024-01-15"));
    assert!(!iso8601_is_splittable("2024"));
    assert!(!iso8601_is_splittable("2024-01-1é"));
}

#[test]
fn create_event_checks_and_payload() {
    let attendees = strings(&["x@example.com"]);
    assert_eq!(
        create_calendar_event_request(true, " ", "", "", &[], None, None).err().unwrap(),
        "create_calendar_event requires a subject"
    );
    assert_eq!(
        create_calendar_event_request(true, "Sync", "2024-01-15T10:00:00Z", "", &[], None, None)
            .err()
            .unwrap(),
        "create_calendar_event requires both start and end in ISO-8601 format"
    );
    let r = get(create_calendar_event_request(
        true,
        "Sync",
        "2024-01-15T10:00:00+02:00",
        "2024-01-15T11:00:00Z",
        &attendees,
        Some("Room 4"),
        Some("  "),
    ));
    assert_eq!(r.method, "POST");
    assert_eq!(r.endpoint, "/me/events");
    let payload = r.payload.unwrap();
    assert_eq!(keys(&payload), vec!["subject", "start", "end", "attendees", "location"]);
    let start = member(&payload, "start");
    assert_eq!(text(member(start, "dateTime")), "2024-01-15T10:00:00");
    assert_eq!(text(member(start, "timeZone")), "+02:00");
    let end = member(&payload, "end");
    assert_eq!(text(member(end, "timeZone")), "UTC");
    let people = items(member(&payload, "attendees"));
    assert_eq!(text(member(&people[0], "type")), "required");
    assert_eq!(text(member(member(&people[0], "emailAddress"), "address")), "x@example.com");
    assert_eq!(text(member(member(&payload, "location"), "displayName")), "Room 4");
}

#[test]
fn call_request_sends_the_payload_as_json_text() {
    let rows = vec![vec![Json::Number(JsonNumber::PosInt(1)), Json::String("a".to_string())]];
    let http = call_request(get(write_excel_range_request(true, "WB", "S", "A1", rows)));
    assert_eq!(http.method, "PATCH");
    assert_eq!(
        http.url,
        "https://graph.microsoft.com/v1.0/me/drive/items/WB/workbook/worksheets('S')/range(address='A1')"
    );
    assert_eq!(http.headers, "{\"Content-Type\": \"application/json; charset=utf-8\"}");
    assert_eq!(http.body.unwrap(), br#"{"values":[[1,"a"]]}"#.to_vec());
    let http = call_request(get(me_request(true)));
    assert_eq!(http.url, "https://graph.microsoft.com/v1.0/me");
    assert_eq!(http.headers, "{}");
    assert!(http.body.is_none());
}
