//! The Microsoft 365 actions. Each action has two halves: a request
//! builder (`*_request`) that checks the arguments and says which Graph
//! call to make, and an interpreter, named after the action, that reads
//! Graph's answer into the action's result.

use vstd::prelude::*;
use vstd::string::StringSliceAdditionalSpecFns;
use crate::json::{
    Json, JsonV, field, and_field, str_of, u64_of, bool_of, array_of, or_empty, opt_view,
    opt_str_field, str_field_or_empty, opt_nested_str, opt_nested_str3, u64_field_or_zero,
};

verus! {

// ---------------------------------------------------------------------------
// Results
// ---------------------------------------------------------------------------

pub struct MeResult {
    pub id: String,
    pub display_name: String,
    pub mail: Option<String>,
    pub user_principal_name: Option<String>,
    pub job_title: Option<String>,
}

pub struct SendMailResult {
    pub ok: bool,
    pub message: &'static str,
    pub unverified: bool,
}

pub struct MessageSummary {
    pub id: String,
    pub subject: String,
    pub from: Option<String>,
    pub received: Option<String>,
    pub is_read: bool,
    pub preview: String,
}

pub struct MessagesResult {
    pub count: usize,
    pub messages: Vec<MessageSummary>,
}

pub struct DriveItem {
    pub id: String,
    pub name: String,
    pub is_folder: bool,
    pub size: u64,
    pub last_modified: Option<String>,
    pub web_url: Option<String>,
    pub mime_type: Option<String>,
}

pub struct DriveListing {
    pub count: usize,
    pub items: Vec<DriveItem>,
}

pub struct UploadedFile {
    pub id: String,
    pub name: String,
    pub size: u64,
    pub web_url: Option<String>,
    pub download_url: Option<String>,
}

pub struct ExcelRangeRead {
    pub address: String,
    pub row_count: u64,
    pub column_count: u64,
    pub values: Json,
    pub text: Json,
    pub formulas: Json,
    pub number_format: Json,
}

pub struct ExcelRangeWrite {
    pub ok: bool,
    pub address: String,
    pub row_count: u64,
    pub column_count: u64,
}

pub struct TeamSummary {
    pub id: String,
    pub display_name: String,
    pub description: Option<String>,
}

pub struct TeamsListing {
    pub count: usize,
    pub teams: Vec<TeamSummary>,
}

pub struct ChannelSummary {
    pub id: String,
    pub display_name: String,
    pub description: Option<String>,
    pub membership_type: Option<String>,
}

pub struct ChannelsListing {
    pub count: usize,
    pub channels: Vec<ChannelSummary>,
}

pub struct ChannelPostResult {
    pub id: String,
    pub created_date_time: Option<String>,
    pub web_url: Option<String>,
}

pub struct CalendarEventSummary {
    pub id: String,
    pub subject: String,
    pub start: Option<String>,
    pub end: Option<String>,
    pub time_zone: Option<String>,
    pub organizer: Option<String>,
    pub location: Option<String>,
    pub preview: Option<String>,
    pub web_link: Option<String>,
}

pub struct CalendarEventsListing {
    pub count: usize,
    pub events: Vec<CalendarEventSummary>,
}

pub struct CreatedEvent {
    pub id: String,
    pub subject: String,
    pub web_link: Option<String>,
    pub start: Option<String>,
    pub end: Option<String>,
}

// ---------------------------------------------------------------------------
// Reading fields of a response
// ---------------------------------------------------------------------------

/// `v.get(key).and_then(|v| v.as_str()).unwrap_or("")`.
pub open spec fn text_or_empty(v: Json, key: Seq<char>) -> Seq<char> {
    or_empty(str_of(field(v, key)))
}

/// `v.get(key).and_then(|v| v.as_str())`.
pub open spec fn opt_text(v: Json, key: Seq<char>) -> Option<Seq<char>> {
    str_of(field(v, key))
}

/// `v.get(k1).and_then(|v| v.get(k2)).and_then(|v| v.as_str())`.
pub open spec fn opt_text2(v: Json, k1: Seq<char>, k2: Seq<char>) -> Option<Seq<char>> {
    str_of(and_field(field(v, k1), k2))
}

/// `v.get(k1)..get(k2)..get(k3).and_then(|v| v.as_str())`.
pub open spec fn opt_text3(v: Json, k1: Seq<char>, k2: Seq<char>, k3: Seq<char>) -> Option<
    Seq<char>,
> {
    str_of(and_field(and_field(field(v, k1), k2), k3))
}

/// `v.get(key).and_then(|v| v.as_u64()).unwrap_or(0)`.
pub open spec fn count_or_zero(v: Json, key: Seq<char>) -> u64 {
    match u64_of(field(v, key)) {
        Some(n) => n,
        None => 0,
    }
}

/// `o.filter(|s| !s.is_empty())`.
pub open spec fn non_empty(o: Option<Seq<char>>) -> Option<Seq<char>> {
    match o {
        Some(s) => if s.len() == 0 {
            None
        } else {
            Some(s)
        },
        None => None,
    }
}

fn non_empty_string(o: Option<String>) -> (r: Option<String>)
    ensures
        opt_view(r) == non_empty(opt_view(o)),
{
    match o {
        Some(s) => if s.as_str().is_empty() {
            None
        } else {
            Some(s)
        },
        None => None,
    }
}

/// The `value` array of a listing response.
pub open spec fn listing_items(v: Json) -> Option<Seq<Json>> {
    array_of(field(v, "value"@))
}

fn value_array(v: &Json) -> (r: Option<&Vec<Json>>)
    ensures
        match r {
            Some(items) => listing_items(*v) == Some(items@),
            None => listing_items(*v) is None,
        },
{
    match v.get("value") {
        Some(a) => a.as_array(),
        None => None,
    }
}

// ---------------------------------------------------------------------------
// Interpreters
// ---------------------------------------------------------------------------

pub open spec fn me_matches(r: MeResult, v: Json) -> bool {
    &&& opt_text(v, "id"@) == Some(r.id@)
    &&& r.display_name@ == text_or_empty(v, "displayName"@)
    &&& opt_view(r.mail) == opt_text(v, "mail"@)
    &&& opt_view(r.user_principal_name) == opt_text(v, "userPrincipalName"@)
    &&& opt_view(r.job_title) == opt_text(v, "jobTitle"@)
}

/// The signed-in user, read from the `/me` response.
pub fn me(value: &Json) -> (r: Result<MeResult, String>)
    ensures
        r is Ok <==> opt_text(*value, "id"@) is Some,
        match r {
            Ok(m) => me_matches(m, *value),
            Err(e) => e@ == "Graph /me response missing id"@,
        },
{
    let id = match opt_str_field(value, "id") {
        Some(id) => id,
        None => return Err("Graph /me response missing id".to_string()),
    };
    Ok(MeResult {
        id,
        display_name: str_field_or_empty(value, "displayName"),
        mail: opt_str_field(value, "mail"),
        user_principal_name: opt_str_field(value, "userPrincipalName"),
        job_title: opt_str_field(value, "jobTitle"),
    })
}

pub open spec fn message_matches(m: MessageSummary, item: Json) -> bool {
    &&& m.id@ == text_or_empty(item, "id"@)
    &&& m.subject@ == text_or_empty(item, "subject"@)
    &&& opt_view(m.from) == opt_text3(item, "from"@, "emailAddress"@, "address"@)
    &&& opt_view(m.received) == opt_text(item, "receivedDateTime"@)
    &&& m.is_read == match bool_of(field(item, "isRead"@)) {
        Some(b) => b,
        None => false,
    }
    &&& m.preview@ == text_or_empty(item, "bodyPreview"@)
}

fn message_summary(item: &Json) -> (r: MessageSummary)
    ensures
        message_matches(r, *item),
{
    let is_read = match item.get("isRead") {
        Some(v) => match v.as_bool() {
            Some(b) => b,
            None => false,
        },
        None => false,
    };
    MessageSummary {
        id: str_field_or_empty(item, "id"),
        subject: str_field_or_empty(item, "subject"),
        from: opt_nested_str3(item, "from", "emailAddress", "address"),
        received: opt_str_field(item, "receivedDateTime"),
        is_read,
        preview: str_field_or_empty(item, "bodyPreview"),
    }
}

/// The recent messages, read from a `/me/messages` response.
pub fn list_recent_messages(value: &Json) -> (r: Result<MessagesResult, String>)
    ensures
        r is Ok <==> listing_items(*value) is Some,
        match r {
            Ok(res) => {
                let items = listing_items(*value)->0;
                &&& res.messages@.len() == items.len()
                &&& res.count == items.len()
                &&& forall|i: int|
                    0 <= i < items.len() ==> message_matches(#[trigger] res.messages@[i], items[i])
            },
            Err(e) => e@ == "Graph /me/messages response missing value array"@,
        },
{
    let items = match value_array(value) {
        Some(items) => items,
        None => return Err("Graph /me/messages response missing value array".to_string()),
    };
    let mut messages: Vec<MessageSummary> = Vec::new();
    let mut i: usize = 0;
    while i < items.len()
        invariant
            i <= items@.len(),
            messages@.len() == i,
            forall|j: int| 0 <= j < i ==> message_matches(#[trigger] messages@[j], items@[j]),
        decreases items@.len() - i,
    {
        messages.push(message_summary(&items[i]));
        i = i + 1;
    }
    let count = messages.len();
    Ok(MessagesResult { count, messages })
}

} // verus!

verus! {

pub open spec fn drive_item_matches(d: DriveItem, item: Json) -> bool {
    &&& d.id@ == text_or_empty(item, "id"@)
    &&& d.name@ == text_or_empty(item, "name"@)
    &&& d.is_folder == field(item, "folder"@) is Some
    &&& d.size == count_or_zero(item, "size"@)
    &&& opt_view(d.last_modified) == opt_text(item, "lastModifiedDateTime"@)
    &&& opt_view(d.web_url) == opt_text(item, "webUrl"@)
    &&& opt_view(d.mime_type) == opt_text2(item, "file"@, "mimeType"@)
}

fn drive_item(item: &Json) -> (r: DriveItem)
    ensures
        drive_item_matches(r, *item),
{
    DriveItem {
        id: str_field_or_empty(item, "id"),
        name: str_field_or_empty(item, "name"),
        is_folder: item.get("folder").is_some(),
        size: u64_field_or_zero(item, "size"),
        last_modified: opt_str_field(item, "lastModifiedDateTime"),
        web_url: opt_str_field(item, "webUrl"),
        mime_type: opt_nested_str(item, "file", "mimeType"),
    }
}

/// The children of a drive folder, read from a listing response.
pub fn list_drive(value: &Json) -> (r: Result<DriveListing, String>)
    ensures
        r is Ok <==> listing_items(*value) is Some,
        match r {
            Ok(res) => {
                let items = listing_items(*value)->0;
                &&& res.items@.len() == items.len()
                &&& res.count == items.len()
                &&& forall|i: int|
                    0 <= i < items.len() ==> drive_item_matches(#[trigger] res.items@[i], items[i])
            },
            Err(e) => e@ == "Graph drive listing missing value array"@,
        },
{
    let items_json = match value_array(value) {
        Some(items) => items,
        None => return Err("Graph drive listing missing value array".to_string()),
    };
    let mut items: Vec<DriveItem> = Vec::new();
    let mut i: usize = 0;
    while i < items_json.len()
        invariant
            i <= items_json@.len(),
            items@.len() == i,
            forall|j: int| 0 <= j < i ==> drive_item_matches(#[trigger] items@[j], items_json@[j]),
        decreases items_json@.len() - i,
    {
        items.push(drive_item(&items_json[i]));
        i = i + 1;
    }
    let count = items.len();
    Ok(DriveListing { count, items })
}

pub open spec fn uploaded_file_matches(f: UploadedFile, v: Json) -> bool {
    &&& f.id@ == text_or_empty(v, "id"@)
    &&& f.name@ == text_or_empty(v, "name"@)
    &&& f.size == count_or_zero(v, "size"@)
    &&& opt_view(f.web_url) == opt_text(v, "webUrl"@)
    &&& opt_view(f.download_url) == opt_text(v, "@microsoft.graph.downloadUrl"@)
}

/// The uploaded drive item, read from an upload response.
pub fn uploaded_file_from_value(value: &Json) -> (r: UploadedFile)
    ensures
        uploaded_file_matches(r, *value),
{
    UploadedFile {
        id: str_field_or_empty(value, "id"),
        name: str_field_or_empty(value, "name"),
        size: u64_field_or_zero(value, "size"),
        web_url: opt_str_field(value, "webUrl"),
        download_url: opt_str_field(value, "@microsoft.graph.downloadUrl"),
    }
}

/// `v.get(key).cloned().unwrap_or(Value::Null)`.
pub open spec fn field_or_null(v: Json, key: Seq<char>) -> Json {
    match field(v, key) {
        Some(x) => x,
        None => Json::Null,
    }
}

pub open spec fn first_or_null(members: Seq<(String, Json)>, key: Seq<char>) -> Json {
    match crate::json::member(members, key) {
        Some(x) => x,
        None => Json::Null,
    }
}

/// Takes the members `values`, `text`, `formulas` and `numberFormat` out of
/// an object's members (the first of each name, `Null` when absent).
fn take_range_members(members: Vec<(String, Json)>) -> (r: (Json, Json, Json, Json))
    ensures
        r.0 == first_or_null(members@, "values"@),
        r.1 == first_or_null(members@, "text"@),
        r.2 == first_or_null(members@, "formulas"@),
        r.3 == first_or_null(members@, "numberFormat"@),
{
    let ghost original = members@;
    let mut members = members;
    let mut values = Json::Null;
    let mut text = Json::Null;
    let mut formulas = Json::Null;
    let mut number_format = Json::Null;
    // Walk the members from the last to the first, so that what each slot
    // holds at the end is the first member with that name.
    while members.len() > 0
        invariant
            members@ == original.take(members@.len() as int),
            members@.len() <= original.len(),
            values == first_or_null(original.skip(members@.len() as int), "values"@),
            text == first_or_null(original.skip(members@.len() as int), "text"@),
            formulas == first_or_null(original.skip(members@.len() as int), "formulas"@),
            number_format == first_or_null(original.skip(members@.len() as int), "numberFormat"@),
        decreases members@.len(),
    {
        let k = members.len();
        let (name, v) = members.pop().unwrap();
        proof {
            reveal_strlit("values");
            reveal_strlit("text");
            reveal_strlit("formulas");
            reveal_strlit("numberFormat");
            assert("values"@.len() == 6);
            assert("text"@.len() == 4);
            assert("formulas"@.len() == 8);
            assert("numberFormat"@.len() == 12);
            assert(original.skip(k - 1).drop_first() =~= original.skip(k as int));
            assert(original.skip(k - 1)[0] == original[k - 1]);
            assert(original.take(k - 1) =~= original.take(k as int).drop_last());
        }
        if crate::text::str_eq(name.as_str(), "values") {
            values = v;
        } else if crate::text::str_eq(name.as_str(), "text") {
            text = v;
        } else if crate::text::str_eq(name.as_str(), "formulas") {
            formulas = v;
        } else if crate::text::str_eq(name.as_str(), "numberFormat") {
            number_format = v;
        }
    }
    assert(original.skip(0) =~= original);
    (values, text, formulas, number_format)
}

pub open spec fn excel_read_matches(r: ExcelRangeRead, v: Json) -> bool {
    &&& r.address@ == text_or_empty(v, "address"@)
    &&& r.row_count == count_or_zero(v, "rowCount"@)
    &&& r.column_count == count_or_zero(v, "columnCount"@)
    &&& r.values == field_or_null(v, "values"@)
    &&& r.text == field_or_null(v, "text"@)
    &&& r.formulas == field_or_null(v, "formulas"@)
    &&& r.number_format == field_or_null(v, "numberFormat"@)
}

/// A worksheet range, read from a range response.
pub fn read_excel_range(value: Json) -> (r: ExcelRangeRead)
    ensures
        excel_read_matches(r, value),
{
    let address = str_field_or_empty(&value, "address");
    let row_count = u64_field_or_zero(&value, "rowCount");
    let column_count = u64_field_or_zero(&value, "columnCount");
    match value {
        Json::Object(members) => {
            let (values, text, formulas, number_format) = take_range_members(members);
            ExcelRangeRead {
                address,
                row_count,
                column_count,
                values,
                text,
                formulas,
                number_format,
            }
        },
        _ => ExcelRangeRead {
            address,
            row_count,
            column_count,
            values: Json::Null,
            text: Json::Null,
            formulas: Json::Null,
            number_format: Json::Null,
        },
    }
}

} // verus!

verus! {

pub open spec fn excel_write_matches(r: ExcelRangeWrite, v: Json) -> bool {
    &&& r.ok
    &&& r.address@ == text_or_empty(v, "address"@)
    &&& r.row_count == count_or_zero(v, "rowCount"@)
    &&& r.column_count == count_or_zero(v, "columnCount"@)
}

/// The written range, read from the PATCH response.
pub fn write_excel_range(value: &Json) -> (r: ExcelRangeWrite)
    ensures
        excel_write_matches(r, *value),
{
    ExcelRangeWrite {
        ok: true,
        address: str_field_or_empty(value, "address"),
        row_count: u64_field_or_zero(value, "rowCount"),
        column_count: u64_field_or_zero(value, "columnCount"),
    }
}

pub open spec fn team_matches(t: TeamSummary, item: Json) -> bool {
    &&& t.id@ == text_or_empty(item, "id"@)
    &&& t.display_name@ == text_or_empty(item, "displayName"@)
    &&& opt_view(t.description) == opt_text(item, "description"@)
}

/// The joined teams, read from a `/me/joinedTeams` response.
pub fn list_teams(value: &Json) -> (r: Result<TeamsListing, String>)
    ensures
        r is Ok <==> listing_items(*value) is Some,
        match r {
            Ok(res) => {
                let items = listing_items(*value)->0;
                &&& res.teams@.len() == items.len()
                &&& res.count == items.len()
                &&& forall|i: int|
                    0 <= i < items.len() ==> team_matches(#[trigger] res.teams@[i], items[i])
            },
            Err(e) => e@ == "Graph joinedTeams response missing value array"@,
        },
{
    let items = match value_array(value) {
        Some(items) => items,
        None => return Err("Graph joinedTeams response missing value array".to_string()),
    };
    let mut teams: Vec<TeamSummary> = Vec::new();
    let mut i: usize = 0;
    while i < items.len()
        invariant
            i <= items@.len(),
            teams@.len() == i,
            forall|j: int| 0 <= j < i ==> team_matches(#[trigger] teams@[j], items@[j]),
        decreases items@.len() - i,
    {
        let item = &items[i];
        teams.push(
            TeamSummary {
                id: str_field_or_empty(item, "id"),
                display_name: str_field_or_empty(item, "displayName"),
                description: opt_str_field(item, "description"),
            },
        );
        i = i + 1;
    }
    let count = teams.len();
    Ok(TeamsListing { count, teams })
}

pub open spec fn channel_matches(c: ChannelSummary, item: Json) -> bool {
    &&& c.id@ == text_or_empty(item, "id"@)
    &&& c.display_name@ == text_or_empty(item, "displayName"@)
    &&& opt_view(c.description) == opt_text(item, "description"@)
    &&& opt_view(c.membership_type) == opt_text(item, "membershipType"@)
}

/// The channels of a team, read from a `/teams/{id}/channels` response.
pub fn list_channels(value: &Json) -> (r: Result<ChannelsListing, String>)
    ensures
        r is Ok <==> listing_items(*value) is Some,
        match r {
            Ok(res) => {
                let items = listing_items(*value)->0;
                &&& res.channels@.len() == items.len()
                &&& res.count == items.len()
                &&& forall|i: int|
                    0 <= i < items.len() ==> channel_matches(#[trigger] res.channels@[i], items[i])
            },
            Err(e) => e@ == "Graph channels response missing value array"@,
        },
{
    let items = match value_array(value) {
        Some(items) => items,
        None => return Err("Graph channels response missing value array".to_string()),
    };
    let mut channels: Vec<ChannelSummary> = Vec::new();
    let mut i: usize = 0;
    while i < items.len()
        invariant
            i <= items@.len(),
            channels@.len() == i,
            forall|j: int| 0 <= j < i ==> channel_matches(#[trigger] channels@[j], items@[j]),
        decreases items@.len() - i,
    {
        let item = &items[i];
        channels.push(
            ChannelSummary {
                id: str_field_or_empty(item, "id"),
                display_name: str_field_or_empty(item, "displayName"),
                description: opt_str_field(item, "description"),
                membership_type: opt_str_field(item, "membershipType"),
            },
        );
        i = i + 1;
    }
    let count = channels.len();
    Ok(ChannelsListing { count, channels })
}

pub open spec fn channel_post_matches(r: ChannelPostResult, v: Json) -> bool {
    &&& r.id@ == text_or_empty(v, "id"@)
    &&& opt_view(r.created_date_time) == opt_text(v, "createdDateTime"@)
    &&& opt_view(r.web_url) == opt_text(v, "webUrl"@)
}

/// The posted channel message, read from the POST response.
pub fn send_channel_message(value: &Json) -> (r: ChannelPostResult)
    ensures
        channel_post_matches(r, *value),
{
    ChannelPostResult {
        id: str_field_or_empty(value, "id"),
        created_date_time: opt_str_field(value, "createdDateTime"),
        web_url: opt_str_field(value, "webUrl"),
    }
}

pub open spec fn event_matches(e: CalendarEventSummary, item: Json) -> bool {
    &&& e.id@ == text_or_empty(item, "id"@)
    &&& e.subject@ == text_or_empty(item, "subject"@)
    &&& opt_view(e.start) == opt_text2(item, "start"@, "dateTime"@)
    &&& opt_view(e.end) == opt_text2(item, "end"@, "dateTime"@)
    &&& opt_view(e.time_zone) == opt_text2(item, "start"@, "timeZone"@)
    &&& opt_view(e.organizer) == opt_text3(item, "organizer"@, "emailAddress"@, "address"@)
    &&& opt_view(e.location) == non_empty(opt_text2(item, "location"@, "displayName"@))
    &&& opt_view(e.preview) == non_empty(opt_text(item, "bodyPreview"@))
    &&& opt_view(e.web_link) == opt_text(item, "webLink"@)
}

fn event_summary(item: &Json) -> (r: CalendarEventSummary)
    ensures
        event_matches(r, *item),
{
    CalendarEventSummary {
        id: str_field_or_empty(item, "id"),
        subject: str_field_or_empty(item, "subject"),
        start: opt_nested_str(item, "start", "dateTime"),
        end: opt_nested_str(item, "end", "dateTime"),
        time_zone: opt_nested_str(item, "start", "timeZone"),
        organizer: opt_nested_str3(item, "organizer", "emailAddress", "address"),
        location: non_empty_string(opt_nested_str(item, "location", "displayName")),
        preview: non_empty_string(opt_str_field(item, "bodyPreview")),
        web_link: opt_str_field(item, "webLink"),
    }
}

/// The calendar events, read from an events or calendar-view response.
pub fn list_calendar_events(value: &Json) -> (r: Result<CalendarEventsListing, String>)
    ensures
        r is Ok <==> listing_items(*value) is Some,
        match r {
            Ok(res) => {
                let items = listing_items(*value)->0;
                &&& res.events@.len() == items.len()
                &&& res.count == items.len()
                &&& forall|i: int|
                    0 <= i < items.len() ==> event_matches(#[trigger] res.events@[i], items[i])
            },
            Err(e) => e@ == "Graph calendar response missing value array"@,
        },
{
    let items = match value_array(value) {
        Some(items) => items,
        None => return Err("Graph calendar response missing value array".to_string()),
    };
    let mut events: Vec<CalendarEventSummary> = Vec::new();
    let mut i: usize = 0;
    while i < items.len()
        invariant
            i <= items@.len(),
            events@.len() == i,
            forall|j: int| 0 <= j < i ==> event_matches(#[trigger] events@[j], items@[j]),
        decreases items@.len() - i,
    {
        events.push(event_summary(&items[i]));
        i = i + 1;
    }
    let count = events.len();
    Ok(CalendarEventsListing { count, events })
}

pub open spec fn created_event_matches(r: CreatedEvent, v: Json) -> bool {
    &&& r.id@ == text_or_empty(v, "id"@)
    &&& r.subject@ == text_or_empty(v, "subject"@)
    &&& opt_view(r.web_link) == opt_text(v, "webLink"@)
    &&& opt_view(r.start) == opt_text2(v, "start"@, "dateTime"@)
    &&& opt_view(r.end) == opt_text2(v, "end"@, "dateTime"@)
}

/// The created event, read from the POST response.
pub fn create_calendar_event(value: &Json) -> (r: CreatedEvent)
    ensures
        created_event_matches(r, *value),
{
    CreatedEvent {
        id: str_field_or_empty(value, "id"),
        subject: str_field_or_empty(value, "subject"),
        web_link: opt_str_field(value, "webLink"),
        start: opt_nested_str(value, "start", "dateTime"),
        end: opt_nested_str(value, "end", "dateTime"),
    }
}

pub const SEND_MAIL_QUEUED_MESSAGE: &'static str =
    "Send queued by Graph. Delivery happens asynchronously.";

/// The outcome of `sendMail`, given the response status. Graph answers
/// 202 Accepted and delivers later, so the send is never confirmed here.
pub fn send_mail(status: u16) -> (r: SendMailResult)
    ensures
        r.ok == (status == 202),
        r.message@ == SEND_MAIL_QUEUED_MESSAGE@,
        r.unverified,
{
    SendMailResult {
        ok: status == 202,
        message: SEND_MAIL_QUEUED_MESSAGE,
        unverified: true,
    }
}

} // verus!

verus! {

// ---------------------------------------------------------------------------
// ISO-8601 date-times
// ---------------------------------------------------------------------------

/// Largest index at which `b` holds `x`.
pub open spec fn last_index_of(b: Seq<u8>, x: u8) -> Option<int>
    decreases b.len(),
{
    if b.len() == 0 {
        None
    } else if b.last() == x {
        Some(b.len() - 1)
    } else {
        last_index_of(b.drop_last(), x)
    }
}

/// Length of `b` once every trailing `Z` is removed.
pub open spec fn len_without_trailing_z(b: Seq<u8>) -> int
    decreases b.len(),
{
    if b.len() == 0 {
        0
    } else if b.last() == 0x5Au8 {
        len_without_trailing_z(b.drop_last())
    } else {
        b.len() as int
    }
}

/// Where the time-zone offset starts: the last `+` when it stands past the
/// tenth byte, else the last `-` from the tenth byte on.
pub open spec fn offset_start(b: Seq<u8>) -> Option<int> {
    match last_index_of(b, 0x2Bu8) {
        Some(p) if p > 10 => Some(p),
        _ => match last_index_of(b.skip(10), 0x2Du8) {
            Some(m) => Some(m + 10),
            None => None,
        },
    }
}

/// The inputs on which splitting does not fail: either an offset `+` past
/// the tenth byte, or a tenth byte that starts a character.
pub open spec fn iso8601_splittable(b: Seq<u8>) -> bool {
    ||| (last_index_of(b, 0x2Bu8) matches Some(p) && p > 10)
    ||| (b.len() >= 10 && vstd::utf8::is_char_boundary(b, 10))
}

/// `(date_time, time_zone)` as splitting the string with UTF-8 bytes `b`
/// yields them.
pub open spec fn iso8601_split(b: Seq<u8>) -> (Seq<char>, Seq<char>) {
    match offset_start(b) {
        Some(k) => (vstd::utf8::decode_utf8(b.take(k)), vstd::utf8::decode_utf8(b.skip(k))),
        None => if b.len() > 0 && b.last() == 0x5Au8 {
            (vstd::utf8::decode_utf8(b.take(len_without_trailing_z(b))), "UTC"@)
        } else {
            (vstd::utf8::decode_utf8(b), "UTC"@)
        },
    }
}

fn last_byte_index(b: &[u8], x: u8) -> (r: Option<usize>)
    ensures
        match r {
            Some(i) => last_index_of(b@, x) == Some(i as int),
            None => last_index_of(b@, x) is None,
        },
{
    let mut k: usize = b.len();
    assert(b@.take(k as int) =~= b@);
    while k > 0
        invariant
            k <= b@.len(),
            last_index_of(b@, x) == last_index_of(b@.take(k as int), x),
        decreases k,
    {
        assert(b@.take(k as int).drop_last() =~= b@.take(k - 1));
        if b[k - 1] == x {
            return Some(k - 1);
        }
        k = k - 1;
    }
    None
}

proof fn lemma_last_index_in_range(b: Seq<u8>, x: u8)
    ensures
        last_index_of(b, x) matches Some(i) ==> 0 <= i < b.len() && b[i] == x,
    decreases b.len(),
{
    if b.len() > 0 && b.last() != x {
        lemma_last_index_in_range(b.drop_last(), x);
    }
}

proof fn lemma_trailing_z_bound(b: Seq<u8>)
    ensures
        0 <= len_without_trailing_z(b) <= b.len(),
        len_without_trailing_z(b) < b.len() ==> b[len_without_trailing_z(b)] == 0x5Au8,
        len_without_trailing_z(b) > 0 ==> b[len_without_trailing_z(b) - 1] != 0x5Au8,
    decreases b.len(),
{
    if b.len() > 0 && b.last() == 0x5Au8 {
        lemma_trailing_z_bound(b.drop_last());
    }
}

/// Splits `s` at a byte `k` that holds an ASCII character or is the end.
fn split_at_ascii(s: &str, k: usize) -> (r: (String, String))
    requires
        k <= s.spec_bytes().len(),
        k < s.spec_bytes().len() ==> s.spec_bytes()[k as int] < 0x80,
    ensures
        r.0@ == vstd::utf8::decode_utf8(s.spec_bytes().take(k as int)),
        r.1@ == vstd::utf8::decode_utf8(s.spec_bytes().skip(k as int)),
{
    broadcast use vstd::utf8::group_utf8_lib;

    proof {
        if k < s.spec_bytes().len() {
            assert(!vstd::utf8::is_continuation_byte(s.spec_bytes()[k as int]));
        } else {
            assert(vstd::utf8::is_char_boundary(s.spec_bytes(), s.spec_bytes().len() as int));
        }
    }
    let (a, b) = s.split_at(k);
    assert(s.spec_bytes().take(k as int) =~= s.spec_bytes().subrange(0, k as int));
    assert(s.spec_bytes().skip(k as int) =~= s.spec_bytes().subrange(
        k as int,
        s.spec_bytes().len() as int,
    ));
    (a.to_string(), b.to_string())
}

/// Splits an ISO-8601 date-time into the date-time proper and its time
/// zone: an explicit `+hh:mm` / `-hh:mm` offset is cut off and returned as
/// the zone; otherwise a trailing `Z` (or nothing) means `UTC`.
pub fn split_iso8601(ts: &str) -> (r: (String, String))
    requires
        iso8601_splittable(ts.spec_bytes()),
    ensures
        (r.0@, r.1@) == iso8601_split(ts.spec_bytes()),
{
    broadcast use vstd::utf8::group_utf8_lib;

    let bytes = ts.as_bytes();
    proof {
        lemma_last_index_in_range(bytes@, 0x2Bu8);
    }
    if let Some(plus_idx) = last_byte_index(bytes, 0x2B) {
        if plus_idx > 10 {
            return split_at_ascii(ts, plus_idx);
        }
    }
    let (_, tail) = ts.split_at(10);
    let tail_bytes = tail.as_bytes();
    assert(tail_bytes@ =~= bytes@.skip(10));
    proof {
        lemma_last_index_in_range(tail_bytes@, 0x2Du8);
    }
    if let Some(m) = last_byte_index(tail_bytes, 0x2D) {
        assert(m < tail_bytes@.len() && tail_bytes@.len() == bytes@.len() - 10);
        assert(bytes@.len() == bytes.len());
        return split_at_ascii(ts, m + 10);
    }
    let n = bytes.len();
    if n > 0 && bytes[n - 1] == 0x5A {
        let mut k = n;
        assert(bytes@.take(k as int) =~= bytes@);
        while k > 0 && bytes[k - 1] == 0x5A
            invariant
                k <= bytes@.len(),
                bytes@ == ts.spec_bytes(),
                len_without_trailing_z(bytes@) == len_without_trailing_z(bytes@.take(k as int)),
            decreases k,
        {
            assert(bytes@.take(k as int).drop_last() =~= bytes@.take(k - 1));
            k = k - 1;
        }
        proof {
            if k > 0 {
                assert(bytes@.take(k as int).last() != 0x5Au8);
            }
            assert(bytes@.take(0) =~= Seq::<u8>::empty());
            lemma_trailing_z_bound(bytes@);
        }
        let (date_time, _) = split_at_ascii(ts, k);
        return (date_time, "UTC".to_string());
    }
    (ts.to_string(), "UTC".to_string())
}

} // verus!

verus! {

/// Whether `split_iso8601(ts)` can split `ts`.
pub fn iso8601_is_splittable(ts: &str) -> (r: bool)
    ensures
        r == iso8601_splittable(ts.spec_bytes()),
{
    let bytes = ts.as_bytes();
    if let Some(p) = last_byte_index(bytes, 0x2B) {
        if p > 10 {
            return true;
        }
    }
    bytes.len() >= 10 && ts.is_char_boundary(10)
}

// ---------------------------------------------------------------------------
// Requests
// ---------------------------------------------------------------------------

/// A call to Microsoft Graph: method, endpoint below the API base, and the
/// JSON payload, if any.
pub struct GraphRequest {
    pub method: String,
    pub endpoint: String,
    pub payload: Option<Json>,
}

pub open spec fn is_call(r: GraphRequest, method: Seq<char>, endpoint: Seq<char>) -> bool {
    &&& r.method@ == method
    &&& r.endpoint@ == endpoint
    &&& r.payload is None
}

pub open spec fn is_call_with(
    r: GraphRequest,
    method: Seq<char>,
    endpoint: Seq<char>,
    payload: JsonV,
) -> bool {
    &&& r.method@ == method
    &&& r.endpoint@ == endpoint
    &&& r.payload matches Some(p) && crate::json::jv(p) == payload
}

fn call(method: &str, endpoint: String) -> (r: GraphRequest)
    ensures
        is_call(r, method@, endpoint@),
{
    GraphRequest { method: method.to_string(), endpoint, payload: None }
}

fn call_with(method: &str, endpoint: String, payload: Json) -> (r: GraphRequest)
    ensures
        r.method@ == method@,
        r.endpoint@ == endpoint@,
        r.payload == Some(payload),
{
    GraphRequest { method: method.to_string(), endpoint, payload: Some(payload) }
}

/// The HTTP request that sends a Graph call: the endpoint under the Graph
/// base URL, and the payload, if any, as the JSON text `serde_json` writes.
pub fn call_request(call: GraphRequest) -> (r: crate::graph::HttpRequest)
    ensures
        r.method@ == call.method@,
        r.url@ == crate::graph::GRAPH_API_BASE@ + call.endpoint@,
        match call.payload {
            Some(p) => {
                &&& r.headers@ == crate::graph::JSON_BODY_HEADERS@
                &&& r.body matches Some(b) && b@ == vstd::utf8::encode_utf8(
                    crate::json_codec::json_text(crate::json_codec::value_built(crate::json::jv(p))),
                )
            },
            None => r.headers@ == crate::graph::NO_BODY_HEADERS@ && r.body is None,
        },
{
    let GraphRequest { method, endpoint, payload } = call;
    match payload {
        Some(p) => {
            let text = crate::json_codec::json_to_text(p);
            crate::graph::prepare_request(method.as_str(), endpoint.as_str(), Some(text.as_str()))
        },
        None => crate::graph::prepare_request(method.as_str(), endpoint.as_str(), None),
    }
}

pub open spec fn ok_call(r: Result<GraphRequest, String>, method: Seq<char>, endpoint: Seq<char>) -> bool {
    r matches Ok(req) && is_call(req, method, endpoint)
}

pub open spec fn ok_call_with(
    r: Result<GraphRequest, String>,
    method: Seq<char>,
    endpoint: Seq<char>,
    payload: JsonV,
) -> bool {
    r matches Ok(req) && is_call_with(req, method, endpoint, payload)
}

pub open spec fn token_error<T>(r: Result<T, String>) -> bool {
    r matches Err(e) && e@ == crate::graph::MISSING_TOKEN_MESSAGE@
}

pub open spec fn fails_with<T>(r: Result<T, String>, message: Seq<char>) -> bool {
    r matches Err(e) && e@ == message
}

/// `GET /me`.
pub fn me_request(token_configured: bool) -> (r: Result<GraphRequest, String>)
    ensures
        !token_configured ==> token_error(r),
        token_configured ==> ok_call(r, "GET"@, "/me"@),
{
    crate::graph::require_token(token_configured)?;
    Ok(call("GET", "/me".to_string()))
}

pub open spec fn clamp_limit(limit: u32) -> u32 {
    if limit < 1 {
        1
    } else if limit > 100 {
        100
    } else {
        limit
    }
}

pub open spec fn messages_endpoint(limit: u32, filter: Option<Seq<char>>, filter_bytes: Seq<u8>) -> Seq<char> {
    let base = "/me/messages?$top="@ + crate::text::decimal(clamp_limit(limit) as nat)
        + "&$select=id,subject,from,receivedDateTime,isRead,bodyPreview&$orderby=receivedDateTime desc"@;
    match filter {
        Some(f) => if crate::text::is_blank_seq(f) {
            base
        } else {
            base + "&$filter="@ + crate::graph::url_encoded(filter_bytes)
        },
        None => base,
    }
}

pub open spec fn opt_str_view(o: Option<&str>) -> Option<Seq<char>> {
    match o {
        Some(s) => Some(s@),
        None => None,
    }
}

pub open spec fn opt_str_bytes(o: Option<&str>) -> Seq<u8> {
    match o {
        Some(s) => s.spec_bytes(),
        None => Seq::empty(),
    }
}

/// `GET /me/messages` for the newest messages, `limit` kept within
/// 1..=100, with an OData filter when one that is not blank is given.
pub fn list_recent_messages_request(token_configured: bool, limit: u32, filter: Option<&str>) -> (r:
    Result<GraphRequest, String>)
    ensures
        !token_configured ==> token_error(r),
        token_configured ==> ok_call(r, "GET"@,
            messages_endpoint(limit, opt_str_view(filter), opt_str_bytes(filter)),
        ),
{
    crate::graph::require_token(token_configured)?;
    let capped = if limit < 1 {
        1
    } else if limit > 100 {
        100
    } else {
        limit
    };
    let mut endpoint = "/me/messages?$top=".to_string();
    let n = crate::text::decimal_string(capped as u128);
    endpoint.append(n.as_str());
    endpoint.append(
        "&$select=id,subject,from,receivedDateTime,isRead,bodyPreview&$orderby=receivedDateTime desc",
    );
    if let Some(f) = filter {
        if !crate::text::is_blank(f) {
            endpoint.append("&$filter=");
            let enc = crate::graph::url_encode(f);
            endpoint.append(enc.as_str());
        }
    }
    Ok(call("GET", endpoint))
}

pub open spec fn drive_children_endpoint(folder_id: Option<Seq<char>>) -> Seq<char> {
    match folder_id {
        Some(id) => "/me/drive/items/"@ + id + "/children"@,
        None => "/me/drive/root/children"@,
    }
}

/// `GET` the children of a drive folder, or of the drive root.
pub fn list_drive_request(token_configured: bool, folder_id: Option<&str>) -> (r: Result<
    GraphRequest,
    String,
>)
    ensures
        !token_configured ==> token_error(r),
        token_configured ==> ok_call(r, "GET"@,
            drive_children_endpoint(opt_str_view(folder_id)),
        ),
{
    crate::graph::require_token(token_configured)?;
    let endpoint = match folder_id {
        Some(id) => {
            let mut e = "/me/drive/items/".to_string();
            e.append(id);
            e.append("/children");
            e
        },
        None => "/me/drive/root/children".to_string(),
    };
    Ok(call("GET", endpoint))
}

pub open spec fn range_endpoint(workbook_id: Seq<char>, worksheet: Seq<u8>, range: Seq<u8>) -> Seq<
    char,
> {
    "/me/drive/items/"@ + workbook_id + "/workbook/worksheets('"@ + crate::graph::url_encoded(
        worksheet,
    ) + "')/range(address='"@ + crate::graph::url_encoded(range) + "')"@
}

fn range_endpoint_string(workbook_id: &str, worksheet: &str, range: &str) -> (r: String)
    ensures
        r@ == range_endpoint(workbook_id@, worksheet.spec_bytes(), range.spec_bytes()),
{
    let mut e = "/me/drive/items/".to_string();
    e.append(workbook_id);
    e.append("/workbook/worksheets('");
    let ws = crate::graph::url_encode(worksheet);
    e.append(ws.as_str());
    e.append("')/range(address='");
    let rg = crate::graph::url_encode(range);
    e.append(rg.as_str());
    e.append("')");
    e
}

/// `GET` a worksheet range.
pub fn read_excel_range_request(
    token_configured: bool,
    workbook_id: &str,
    worksheet: &str,
    range: &str,
) -> (r: Result<GraphRequest, String>)
    ensures
        !token_configured ==> token_error(r),
        token_configured ==> ok_call(r, "GET"@,
            range_endpoint(workbook_id@, worksheet.spec_bytes(), range.spec_bytes()),
        ),
{
    crate::graph::require_token(token_configured)?;
    Ok(call("GET", range_endpoint_string(workbook_id, worksheet, range)))
}

/// `GET /me/joinedTeams`.
pub fn list_teams_request(token_configured: bool) -> (r: Result<GraphRequest, String>)
    ensures
        !token_configured ==> token_error(r),
        token_configured ==> ok_call(r, "GET"@, "/me/joinedTeams"@),
{
    crate::graph::require_token(token_configured)?;
    Ok(call("GET", "/me/joinedTeams".to_string()))
}

pub const LIST_CHANNELS_NEEDS_TEAM: &'static str =
    "list_channels requires a team_id. Run list_teams first.";

/// `GET /teams/{team_id}/channels`; the team id must not be blank.
pub fn list_channels_request(token_configured: bool, team_id: &str) -> (r: Result<
    GraphRequest,
    String,
>)
    ensures
        !token_configured ==> token_error(r),
        token_configured && crate::text::is_blank_seq(team_id@) ==> fails_with(
            r,
            LIST_CHANNELS_NEEDS_TEAM@,
        ),
        token_configured && !crate::text::is_blank_seq(team_id@) ==> ok_call(r, "GET"@,
            "/teams/"@ + team_id@ + "/channels"@,
        ),
{
    crate::graph::require_token(token_configured)?;
    if crate::text::is_blank(team_id) {
        return Err(LIST_CHANNELS_NEEDS_TEAM.to_string());
    }
    let mut e = "/teams/".to_string();
    e.append(team_id);
    e.append("/channels");
    Ok(call("GET", e))
}

pub open spec fn events_endpoint(
    start: Option<Seq<char>>,
    end: Option<Seq<char>>,
    start_bytes: Seq<u8>,
    end_bytes: Seq<u8>,
) -> Seq<char> {
    if start matches Some(s) && end matches Some(e) && s.len() != 0 && e.len() != 0 {
        "/me/calendarView?startDateTime="@ + crate::graph::url_encoded(start_bytes)
            + "&endDateTime="@ + crate::graph::url_encoded(end_bytes)
            + "&$top=50&$orderby=start/dateTime"@
    } else {
        "/me/events?$top=50&$orderby=start/dateTime&$select=id,subject,start,end,organizer,location,bodyPreview,webLink"@
    }
}

/// `GET` the calendar view between `start` and `end` when both are given
/// and non-empty, otherwise the next events.
pub fn list_calendar_events_request(
    token_configured: bool,
    start: Option<&str>,
    end: Option<&str>,
) -> (r: Result<GraphRequest, String>)
    ensures
        !token_configured ==> token_error(r),
        token_configured ==> ok_call(r, "GET"@,
            events_endpoint(
                opt_str_view(start),
                opt_str_view(end),
                opt_str_bytes(start),
                opt_str_bytes(end),
            ),
        ),
{
    crate::graph::require_token(token_configured)?;
    if let (Some(s), Some(e)) = (start, end) {
        if !s.is_empty() && !e.is_empty() {
            let mut ep = "/me/calendarView?startDateTime=".to_string();
            let se = crate::graph::url_encode(s);
            ep.append(se.as_str());
            ep.append("&endDateTime=");
            let ee = crate::graph::url_encode(e);
            ep.append(ee.as_str());
            ep.append("&$top=50&$orderby=start/dateTime");
            return Ok(call("GET", ep));
        }
    }
    Ok(
        call(
            "GET",
            "/me/events?$top=50&$orderby=start/dateTime&$select=id,subject,start,end,organizer,location,bodyPreview,webLink".to_string(),
        ),
    )
}

} // verus!

verus! {

pub open spec fn strings_v(v: Seq<String>) -> Seq<Seq<char>> {
    v.map_values(|s: String| s@)
}

/// `{"emailAddress": {"address": addr}}`.
pub open spec fn recipient_v(addr: Seq<char>) -> JsonV {
    JsonV::Object(seq![("emailAddress"@, JsonV::Object(seq![("address"@, JsonV::Str(addr))]))])
}

/// `{"emailAddress": {"address": addr}, "type": "required"}`.
pub open spec fn attendee_v(addr: Seq<char>) -> JsonV {
    JsonV::Object(
        seq![
            ("emailAddress"@, JsonV::Object(seq![("address"@, JsonV::Str(addr))])),
            ("type"@, JsonV::Str("required"@)),
        ],
    )
}

pub open spec fn recipients_v(addrs: Seq<Seq<char>>) -> Seq<JsonV> {
    addrs.map_values(|a: Seq<char>| recipient_v(a))
}

pub open spec fn attendees_v(addrs: Seq<Seq<char>>) -> Seq<JsonV> {
    addrs.map_values(|a: Seq<char>| attendee_v(a))
}

/// One JSON item per address: an attendee or a mail recipient.
fn address_items(addrs: &[String], attendees: bool) -> (r: Json)
    ensures
        attendees ==> crate::json::jv(r) == JsonV::Array(attendees_v(strings_v(addrs@))),
        !attendees ==> crate::json::jv(r) == JsonV::Array(recipients_v(strings_v(addrs@))),
{
    let mut items: Vec<Json> = Vec::new();
    let mut i: usize = 0;
    while i < addrs.len()
        invariant
            i <= addrs@.len(),
            items@.len() == i,
            forall|j: int|
                0 <= j < i ==> crate::json::jv(#[trigger] items@[j]) == (if attendees {
                    attendee_v(addrs@[j]@)
                } else {
                    recipient_v(addrs@[j]@)
                }),
        decreases addrs@.len() - i,
    {
        let address = crate::json::json_object1("address", crate::json::json_string(addrs[i].as_str()));
        let item = if attendees {
            crate::json::json_object2(
                "emailAddress",
                address,
                "type",
                crate::json::json_string("required"),
            )
        } else {
            crate::json::json_object1("emailAddress", address)
        };
        items.push(item);
        i = i + 1;
    }
    proof {
        crate::json::lemma_jv_array(items);
        if attendees {
            assert(crate::json::items_v(items@) =~= attendees_v(strings_v(addrs@)));
        } else {
            assert(crate::json::items_v(items@) =~= recipients_v(strings_v(addrs@)));
        }
    }
    Json::Array(items)
}

pub open spec fn send_mail_payload(
    to: Seq<Seq<char>>,
    cc: Seq<Seq<char>>,
    bcc: Seq<Seq<char>>,
    subject: Seq<char>,
    body: Seq<char>,
    body_is_html: bool,
    save_to_sent_items: bool,
) -> JsonV {
    JsonV::Object(
        seq![
            ("message"@, JsonV::Object(
                seq![
                    ("subject"@, JsonV::Str(subject)),
                    ("body"@, JsonV::Object(
                        seq![
                            ("contentType"@, JsonV::Str(
                                if body_is_html {
                                    "HTML"@
                                } else {
                                    "Text"@
                                },
                            )),
                            ("content"@, JsonV::Str(body)),
                        ],
                    )),
                    ("toRecipients"@, JsonV::Array(recipients_v(to))),
                    ("ccRecipients"@, JsonV::Array(recipients_v(cc))),
                    ("bccRecipients"@, JsonV::Array(recipients_v(bcc))),
                ],
            )),
            ("saveToSentItems"@, JsonV::Bool(save_to_sent_items)),
        ],
    )
}

pub const SEND_MAIL_NEEDS_RECIPIENT: &'static str =
    "send_mail requires at least one recipient in `to`";

pub const SEND_MAIL_NEEDS_SUBJECT: &'static str = "send_mail requires a non-empty subject";

/// `POST /me/sendMail` with the message; there must be a recipient in `to`
/// and a subject that is not blank.
pub fn send_mail_request(
    token_configured: bool,
    to: &[String],
    cc: &[String],
    bcc: &[String],
    subject: &str,
    body: &str,
    body_is_html: bool,
    save_to_sent_items: bool,
) -> (r: Result<GraphRequest, String>)
    ensures
        !token_configured ==> token_error(r),
        token_configured && to@.len() == 0 ==> fails_with(r, SEND_MAIL_NEEDS_RECIPIENT@),
        token_configured && to@.len() != 0 && crate::text::is_blank_seq(subject@) ==> fails_with(
            r,
            SEND_MAIL_NEEDS_SUBJECT@,
        ),
        token_configured && to@.len() != 0 && !crate::text::is_blank_seq(subject@) ==> ok_call_with(
            r,
            "POST"@,
            "/me/sendMail"@,
            send_mail_payload(
                strings_v(to@),
                strings_v(cc@),
                strings_v(bcc@),
                subject@,
                body@,
                body_is_html,
                save_to_sent_items,
            ),
        ),
{
    crate::graph::require_token(token_configured)?;
    if to.len() == 0 {
        return Err(SEND_MAIL_NEEDS_RECIPIENT.to_string());
    }
    if crate::text::is_blank(subject) {
        return Err(SEND_MAIL_NEEDS_SUBJECT.to_string());
    }
    let content_type = if body_is_html {
        "HTML"
    } else {
        "Text"
    };
    let body_json = crate::json::json_object2(
        "contentType",
        crate::json::json_string(content_type),
        "content",
        crate::json::json_string(body),
    );
    let to_json = address_items(to, false);
    let cc_json = address_items(cc, false);
    let bcc_json = address_items(bcc, false);
    let message_members = vec![
        crate::json::json_member("subject", crate::json::json_string(subject)),
        crate::json::json_member("body", body_json),
        crate::json::json_member("toRecipients", to_json),
        crate::json::json_member("ccRecipients", cc_json),
        crate::json::json_member("bccRecipients", bcc_json),
    ];
    let ghost mv = message_members@;
    proof {
        crate::json::lemma_jv_object(message_members);
    }
    let message = Json::Object(message_members);
    let payload = crate::json::json_object2(
        "message",
        message,
        "saveToSentItems",
        Json::Bool(save_to_sent_items),
    );
    proof {
        assert(crate::json::members_v(mv) =~= seq![
            ("subject"@, JsonV::Str(subject@)),
            ("body"@, JsonV::Object(
                seq![
                    ("contentType"@, JsonV::Str(
                        if body_is_html {
                            "HTML"@
                        } else {
                            "Text"@
                        },
                    )),
                    ("content"@, JsonV::Str(body@)),
                ],
            )),
            ("toRecipients"@, JsonV::Array(recipients_v(strings_v(to@)))),
            ("ccRecipients"@, JsonV::Array(recipients_v(strings_v(cc@)))),
            ("bccRecipients"@, JsonV::Array(recipients_v(strings_v(bcc@)))),
        ]);
    }
    Ok(call_with("POST", "/me/sendMail".to_string(), payload))
}

} // verus!

verus! {

/// Rows of cells as JSON arrays.
pub open spec fn rows_v(rows: Seq<Vec<Json>>) -> Seq<JsonV> {
    rows.map_values(|row: Vec<Json>| JsonV::Array(crate::json::items_v(row@)))
}

pub const WRITE_RANGE_NEEDS_ROWS: &'static str =
    "write_excel_range requires at least one row of values";

/// `PATCH` a worksheet range with `{"values": rows}`; there must be a row.
pub fn write_excel_range_request(
    token_configured: bool,
    workbook_id: &str,
    worksheet: &str,
    range: &str,
    values: Vec<Vec<Json>>,
) -> (r: Result<GraphRequest, String>)
    ensures
        !token_configured ==> token_error(r),
        token_configured && values@.len() == 0 ==> fails_with(r, WRITE_RANGE_NEEDS_ROWS@),
        token_configured && values@.len() != 0 ==> ok_call_with(
            r,
            "PATCH"@,
            range_endpoint(workbook_id@, worksheet.spec_bytes(), range.spec_bytes()),
            JsonV::Object(seq![("values"@, JsonV::Array(rows_v(values@)))]),
        ),
{
    crate::graph::require_token(token_configured)?;
    if values.len() == 0 {
        return Err(WRITE_RANGE_NEEDS_ROWS.to_string());
    }
    let endpoint = range_endpoint_string(workbook_id, worksheet, range);
    let ghost original = values@;
    // Move the rows out from the last to the first, then back in order.
    let mut values = values;
    let mut reversed: Vec<Vec<Json>> = Vec::new();
    while values.len() > 0
        invariant
            values@.len() + reversed@.len() == original.len(),
            values@ == original.take(values@.len() as int),
            forall|j: int|
                0 <= j < reversed@.len() ==> #[trigger] reversed@[j] == original[original.len() - 1
                    - j],
        decreases values@.len(),
    {
        assert(original.take(values@.len() - 1) =~= original.take(values@.len() as int).drop_last());
        let row = values.pop().unwrap();
        reversed.push(row);
    }
    let mut rows: Vec<Json> = Vec::new();
    while reversed.len() > 0
        invariant
            rows@.len() + reversed@.len() == original.len(),
            forall|j: int|
                0 <= j < reversed@.len() ==> #[trigger] reversed@[j] == original[original.len() - 1
                    - j],
            forall|j: int|
                0 <= j < rows@.len() ==> crate::json::jv(#[trigger] rows@[j]) == JsonV::Array(
                    crate::json::items_v(original[j]@),
                ),
        decreases reversed@.len(),
    {
        let row = reversed.pop().unwrap();
        proof {
            crate::json::lemma_jv_array(row);
        }
        rows.push(Json::Array(row));
    }
    proof {
        crate::json::lemma_jv_array(rows);
        assert(crate::json::items_v(rows@) =~= rows_v(original));
    }
    let payload = crate::json::json_object1("values", Json::Array(rows));
    Ok(call_with("PATCH", endpoint, payload))
}

pub const CHANNEL_MESSAGE_NEEDS_IDS: &'static str =
    "send_channel_message requires both team_id and channel_id";

pub const CHANNEL_MESSAGE_NEEDS_CONTENT: &'static str =
    "send_channel_message requires non-empty content";

pub open spec fn channel_message_payload(content: Seq<char>, content_is_html: bool) -> JsonV {
    JsonV::Object(
        seq![
            ("body"@, JsonV::Object(
                seq![
                    ("contentType"@, JsonV::Str(
                        if content_is_html {
                            "html"@
                        } else {
                            "text"@
                        },
                    )),
                    ("content"@, JsonV::Str(content)),
                ],
            )),
        ],
    )
}

/// `POST` a message to a Teams channel; the ids and the content must not
/// be blank.
pub fn send_channel_message_request(
    token_configured: bool,
    team_id: &str,
    channel_id: &str,
    content: &str,
    content_is_html: bool,
) -> (r: Result<GraphRequest, String>)
    ensures
        !token_configured ==> token_error(r),
        token_configured && (crate::text::is_blank_seq(team_id@) || crate::text::is_blank_seq(
            channel_id@,
        )) ==> fails_with(r, CHANNEL_MESSAGE_NEEDS_IDS@),
        token_configured && !crate::text::is_blank_seq(team_id@) && !crate::text::is_blank_seq(
            channel_id@,
        ) && crate::text::is_blank_seq(content@) ==> fails_with(r, CHANNEL_MESSAGE_NEEDS_CONTENT@),
        token_configured && !crate::text::is_blank_seq(team_id@) && !crate::text::is_blank_seq(
            channel_id@,
        ) && !crate::text::is_blank_seq(content@) ==> ok_call_with(
            r,
            "POST"@,
            "/teams/"@ + team_id@ + "/channels/"@ + channel_id@ + "/messages"@,
            channel_message_payload(content@, content_is_html),
        ),
{
    crate::graph::require_token(token_configured)?;
    if crate::text::is_blank(team_id) || crate::text::is_blank(channel_id) {
        return Err(CHANNEL_MESSAGE_NEEDS_IDS.to_string());
    }
    if crate::text::is_blank(content) {
        return Err(CHANNEL_MESSAGE_NEEDS_CONTENT.to_string());
    }
    let mut endpoint = "/teams/".to_string();
    endpoint.append(team_id);
    endpoint.append("/channels/");
    endpoint.append(channel_id);
    endpoint.append("/messages");
    let content_type = if content_is_html {
        "html"
    } else {
        "text"
    };
    let body = crate::json::json_object2(
        "contentType",
        crate::json::json_string(content_type),
        "content",
        crate::json::json_string(content),
    );
    let payload = crate::json::json_object1("body", body);
    Ok(call_with("POST", endpoint, payload))
}

} // verus!

verus! {

pub const EVENT_NEEDS_SUBJECT: &'static str = "create_calendar_event requires a subject";

pub const EVENT_NEEDS_TIMES: &'static str =
    "create_calendar_event requires both start and end in ISO-8601 format";

/// `{"dateTime": .., "timeZone": ..}` for a split date-time.
pub open spec fn date_time_v(split: (Seq<char>, Seq<char>)) -> JsonV {
    JsonV::Object(seq![("dateTime"@, JsonV::Str(split.0)), ("timeZone"@, JsonV::Str(split.1))])
}

/// `[(key, value)]` when the text is given and not blank, else nothing.
pub open spec fn present_when_filled(text: Option<Seq<char>>, member: (Seq<char>, JsonV)) -> Seq<
    (Seq<char>, JsonV),
> {
    match text {
        Some(t) => if crate::text::is_blank_seq(t) {
            Seq::empty()
        } else {
            seq![member]
        },
        None => Seq::empty(),
    }
}

pub open spec fn location_member(location: Option<Seq<char>>) -> Seq<(Seq<char>, JsonV)> {
    present_when_filled(location, ("location"@, location_v(location->0)))
}

pub open spec fn body_member(body: Option<Seq<char>>) -> Seq<(Seq<char>, JsonV)> {
    present_when_filled(body, ("body"@, event_body_v(body->0)))
}

pub open spec fn location_v(loc: Seq<char>) -> JsonV {
    JsonV::Object(seq![("displayName"@, JsonV::Str(loc))])
}

pub open spec fn event_body_v(body: Seq<char>) -> JsonV {
    JsonV::Object(seq![("contentType"@, JsonV::Str("text"@)), ("content"@, JsonV::Str(body))])
}

pub open spec fn event_payload(
    subject: Seq<char>,
    start: Seq<u8>,
    end: Seq<u8>,
    attendees: Seq<Seq<char>>,
    location: Option<Seq<char>>,
    body: Option<Seq<char>>,
) -> JsonV {
    JsonV::Object(
        seq![
            ("subject"@, JsonV::Str(subject)),
            ("start"@, date_time_v(iso8601_split(start))),
            ("end"@, date_time_v(iso8601_split(end))),
            ("attendees"@, JsonV::Array(attendees_v(attendees))),
        ] + location_member(location) + body_member(body),
    )
}

fn date_time_json(ts: &str) -> (r: Json)
    requires
        iso8601_splittable(ts.spec_bytes()),
    ensures
        crate::json::jv(r) == date_time_v(iso8601_split(ts.spec_bytes())),
{
    let (date_time, zone) = split_iso8601(ts);
    crate::json::json_object2(
        "dateTime",
        crate::json::json_string(date_time.as_str()),
        "timeZone",
        crate::json::json_string(zone.as_str()),
    )
}

/// `POST /me/events`: an event with a subject, a start and an end (each
/// split into date-time and zone), required attendees, and a location and
/// a text body when given and not blank.
pub fn create_calendar_event_request(
    token_configured: bool,
    subject: &str,
    start: &str,
    end: &str,
    attendees: &[String],
    location: Option<&str>,
    body: Option<&str>,
) -> (r: Result<GraphRequest, String>)
    requires
        token_configured && !crate::text::is_blank_seq(subject@) && !crate::text::is_blank_seq(
            start@,
        ) && !crate::text::is_blank_seq(end@) ==> iso8601_splittable(start.spec_bytes())
            && iso8601_splittable(end.spec_bytes()),
    ensures
        !token_configured ==> token_error(r),
        token_configured && crate::text::is_blank_seq(subject@) ==> fails_with(
            r,
            EVENT_NEEDS_SUBJECT@,
        ),
        token_configured && !crate::text::is_blank_seq(subject@) && (crate::text::is_blank_seq(
            start@,
        ) || crate::text::is_blank_seq(end@)) ==> fails_with(r, EVENT_NEEDS_TIMES@),
        token_configured && !crate::text::is_blank_seq(subject@) && !crate::text::is_blank_seq(
            start@,
        ) && !crate::text::is_blank_seq(end@) ==> ok_call_with(
            r,
            "POST"@,
            "/me/events"@,
            event_payload(
                subject@,
                start.spec_bytes(),
                end.spec_bytes(),
                strings_v(attendees@),
                opt_str_view(location),
                opt_str_view(body),
            ),
        ),
{
    crate::graph::require_token(token_configured)?;
    if crate::text::is_blank(subject) {
        return Err(EVENT_NEEDS_SUBJECT.to_string());
    }
    if crate::text::is_blank(start) || crate::text::is_blank(end) {
        return Err(EVENT_NEEDS_TIMES.to_string());
    }
    let mut members: Vec<(String, Json)> = vec![
        crate::json::json_member("subject", crate::json::json_string(subject)),
        crate::json::json_member("start", date_time_json(start)),
        crate::json::json_member("end", date_time_json(end)),
        crate::json::json_member("attendees", address_items(attendees, true)),
    ];
    let ghost base = crate::json::members_v(members@);
    assert(base =~= seq![
        ("subject"@, JsonV::Str(subject@)),
        ("start"@, date_time_v(iso8601_split(start.spec_bytes()))),
        ("end"@, date_time_v(iso8601_split(end.spec_bytes()))),
        ("attendees"@, JsonV::Array(attendees_v(strings_v(attendees@)))),
    ]);
    let ghost loc_part = location_member(opt_str_view(location));
    let ghost body_part = body_member(opt_str_view(body));
    if let Some(loc) = location {
        if !crate::text::is_blank(loc) {
            let lj = crate::json::json_object1("displayName", crate::json::json_string(loc));
            members.push(crate::json::json_member("location", lj));
        }
    }
    assert(crate::json::members_v(members@) =~= base + loc_part);
    if let Some(b) = body {
        if !crate::text::is_blank(b) {
            let bj = crate::json::json_object2(
                "contentType",
                crate::json::json_string("text"),
                "content",
                crate::json::json_string(b),
            );
            members.push(crate::json::json_member("body", bj));
        }
    }
    assert(crate::json::members_v(members@) =~= base + loc_part + body_part);
    proof {
        crate::json::lemma_jv_object(members);
    }
    Ok(call_with("POST", "/me/events".to_string(), Json::Object(members)))
}

} // verus!

verus! {

// ---------------------------------------------------------------------------
// Uploads
// ---------------------------------------------------------------------------

pub open spec fn upload_endpoint(parent_folder_id: Option<Seq<char>>, name_bytes: Seq<u8>) -> Seq<
    char,
> {
    match parent_folder_id {
        Some(id) => "/me/drive/items/"@ + id + ":/"@ + crate::graph::url_encoded(name_bytes)
            + ":/content"@,
        None => "/me/drive/root:/"@ + crate::graph::url_encoded(name_bytes) + ":/content"@,
    }
}

/// The PUT that uploads `bytes` as `name` with the given content type.
pub open spec fn is_upload(
    r: crate::graph::HttpRequest,
    parent_folder_id: Option<Seq<char>>,
    name_bytes: Seq<u8>,
    bytes: Seq<u8>,
    content_type: Seq<char>,
) -> bool {
    &&& r.method@ == "PUT"@
    &&& r.url@ == crate::graph::GRAPH_API_BASE@ + upload_endpoint(parent_folder_id, name_bytes)
    &&& r.headers@ == "{\"Content-Type\": \""@ + content_type + "\"}"@
    &&& r.body matches Some(b) && b@ == bytes
}

pub open spec fn ok_upload(
    r: Result<crate::graph::HttpRequest, String>,
    parent_folder_id: Option<Seq<char>>,
    name_bytes: Seq<u8>,
    bytes: Seq<u8>,
    content_type: Seq<char>,
) -> bool {
    r matches Ok(req) && is_upload(req, parent_folder_id, name_bytes, bytes, content_type)
}

pub open spec fn too_large_message(len: nat) -> Seq<char> {
    crate::text::decimal(len) + " bytes exceeds the "@ + crate::text::decimal(
        crate::graph::SIMPLE_UPLOAD_LIMIT as nat,
    ) + "-byte simple-upload limit; chunked upload session not yet supported"@
}

/// The simple upload of `bytes`, refused above `SIMPLE_UPLOAD_LIMIT`.
pub fn upload_bytes(
    parent_folder_id: Option<&str>,
    name: &str,
    bytes: Vec<u8>,
    content_type: &str,
) -> (r: Result<crate::graph::HttpRequest, String>)
    ensures
        bytes@.len() > crate::graph::SIMPLE_UPLOAD_LIMIT ==> fails_with(
            r,
            too_large_message(bytes@.len()),
        ),
        bytes@.len() <= crate::graph::SIMPLE_UPLOAD_LIMIT ==> ok_upload(
            r,
            opt_str_view(parent_folder_id),
            name.spec_bytes(),
            bytes@,
            content_type@,
        ),
{
    if bytes.len() > crate::graph::SIMPLE_UPLOAD_LIMIT {
        let mut msg = crate::text::decimal_string(bytes.len() as u128);
        msg.append(" bytes exceeds the ");
        let limit = crate::text::decimal_string(crate::graph::SIMPLE_UPLOAD_LIMIT as u128);
        msg.append(limit.as_str());
        msg.append("-byte simple-upload limit; chunked upload session not yet supported");
        return Err(msg);
    }
    let encoded_name = crate::graph::url_encode(name);
    let endpoint = match parent_folder_id {
        Some(id) => {
            let mut e = "/me/drive/items/".to_string();
            e.append(id);
            e.append(":/");
            e.append(encoded_name.as_str());
            e.append(":/content");
            e
        },
        None => {
            let mut e = "/me/drive/root:/".to_string();
            e.append(encoded_name.as_str());
            e.append(":/content");
            e
        },
    };
    Ok(crate::graph::prepare_put(endpoint.as_str(), bytes, content_type))
}

pub const UPLOAD_NEEDS_NAME: &'static str = "upload requires a non-empty name";

/// What uploading `bytes` under `name` gives: the token error, the blank
/// name error, the size error, or the upload request, in that order.
pub open spec fn upload_outcome(
    r: Result<crate::graph::HttpRequest, String>,
    token_configured: bool,
    parent_folder_id: Option<Seq<char>>,
    name: Seq<char>,
    bytes: Seq<u8>,
    content_type: Seq<char>,
) -> bool {
    &&& !token_configured ==> token_error(r)
    &&& token_configured && crate::text::is_blank_seq(name) ==> fails_with(r, UPLOAD_NEEDS_NAME@)
    &&& token_configured && !crate::text::is_blank_seq(name) && bytes.len()
        > crate::graph::SIMPLE_UPLOAD_LIMIT ==> fails_with(r, too_large_message(bytes.len()))
    &&& token_configured && !crate::text::is_blank_seq(name) && bytes.len()
        <= crate::graph::SIMPLE_UPLOAD_LIMIT ==> ok_upload(
        r,
        parent_folder_id,
        vstd::utf8::encode_utf8(name),
        bytes,
        content_type,
    )
}

/// Uploads `bytes` into the drive (into a folder when one is given) under
/// `name`, which must not be blank.
pub fn upload_to_drive(
    token_configured: bool,
    parent_folder_id: Option<&str>,
    name: &str,
    bytes: Vec<u8>,
    content_type: &str,
) -> (r: Result<crate::graph::HttpRequest, String>)
    ensures
        upload_outcome(
            r,
            token_configured,
            opt_str_view(parent_folder_id),
            name@,
            bytes@,
            content_type@,
        ),
{
    crate::graph::require_token(token_configured)?;
    if crate::text::is_blank(name) {
        return Err(UPLOAD_NEEDS_NAME.to_string());
    }
    upload_bytes(parent_folder_id, name, bytes, content_type)
}

/// Uploads a file given as standard Base64 text.
pub fn upload_file(
    token_configured: bool,
    parent_folder_id: Option<&str>,
    name: &str,
    content_base64: &str,
) -> (r: Result<crate::graph::HttpRequest, String>)
    ensures
        crate::base64_codec::base64_standard_decoded(content_base64.spec_bytes()) is None ==> (r matches Err(
            e,
        ) && e@ == "Invalid base64 content: "@ + crate::base64_codec::base64_decode_error(
            content_base64.spec_bytes(),
        )),
        crate::base64_codec::base64_standard_decoded(content_base64.spec_bytes()) matches Some(
            bytes,
        ) ==> upload_outcome(
            r,
            token_configured,
            opt_str_view(parent_folder_id),
            name@,
            bytes,
            crate::graph::OCTET_STREAM_MIME@,
        ),
{
    let bytes = match crate::base64_codec::base64_decode(content_base64) {
        Ok(b) => b,
        Err(e) => {
            return Err(crate::text::concat("Invalid base64 content: ", e.as_str()));
        },
    };
    upload_to_drive(
        token_configured,
        parent_folder_id,
        name,
        bytes,
        crate::graph::OCTET_STREAM_MIME,
    )
}

} // verus!

verus! {

/// Whatever is uploaded (a file, a Word document, a deck), a request is
/// only produced with the token configured, for a name that is not blank
/// and for at most `SIMPLE_UPLOAD_LIMIT` bytes, and it puts exactly those
/// bytes.
pub proof fn lemma_upload_only_when_allowed(
    r: Result<crate::graph::HttpRequest, String>,
    token_configured: bool,
    parent_folder_id: Option<Seq<char>>,
    name: Seq<char>,
    bytes: Seq<u8>,
    content_type: Seq<char>,
)
    requires
        upload_outcome(r, token_configured, parent_folder_id, name, bytes, content_type),
        r is Ok,
    ensures
        token_configured,
        !crate::text::is_blank_seq(name),
        bytes.len() <= crate::graph::SIMPLE_UPLOAD_LIMIT,
        r->Ok_0.method@ == "PUT"@,
        r->Ok_0.body matches Some(b) && b@ == bytes,
{
}

/// When a date-time carries an explicit offset, splitting it loses
/// nothing: the date-time followed by the zone is the input again.
pub proof fn lemma_split_iso8601_at_offset_keeps_text(ts: Seq<char>)
    requires
        iso8601_splittable(vstd::utf8::encode_utf8(ts)),
        offset_start(vstd::utf8::encode_utf8(ts)) is Some,
    ensures
        iso8601_split(vstd::utf8::encode_utf8(ts)).0 + iso8601_split(vstd::utf8::encode_utf8(ts)).1
            == ts,
{
    broadcast use vstd::utf8::group_utf8_lib;

    let b = vstd::utf8::encode_utf8(ts);
    let k = offset_start(b)->0;
    lemma_last_index_in_range(b, 0x2Bu8);
    lemma_last_index_in_range(b.skip(10), 0x2Du8);
    if !(last_index_of(b, 0x2Bu8) matches Some(p) && p > 10) {
        let m = last_index_of(b.skip(10), 0x2Du8)->0;
        assert(b.skip(10)[m] == b[m + 10]);
    }
    assert(0 <= k < b.len() && b[k] < 0x80);
    assert(!vstd::utf8::is_continuation_byte(b[k]));
    assert(vstd::utf8::is_char_boundary(b, k));
    assert(b.take(k) =~= b.subrange(0, k));
    assert(b.skip(k) =~= b.subrange(k, b.len() as int));
    vstd::utf8::decode_utf8_split(b, k);
}

} // verus!
