//! Laws of the request builders and response readers, stated over the JSON
//! itself: which member of a response each result field comes from, and
//! which member of a payload carries each argument.

use vstd::prelude::*;
use crate::api::{
    send_mail_payload, channel_message_payload, event_payload, iso8601_split, strings_v,
    message_matches, drive_item_matches, me_matches, uploaded_file_matches, team_matches,
    channel_matches, channel_post_matches, event_matches, created_event_matches,
    excel_write_matches, MessageSummary, DriveItem, MeResult, UploadedFile, TeamSummary,
    ChannelSummary, ChannelPostResult, CalendarEventSummary, CreatedEvent, ExcelRangeWrite,
};
use crate::json::{Json, JsonNumber, JsonV, field, field_v, member_v};
use crate::documents::{section_model, sections_model, table_model, docx_layout, max_row_len};
use crate::docx_render::{BlockV, ParagraphV, RunV, CellV, BorderV, BorderSide, without_newlines};
use crate::types::WordSection;
use crate::api::{clamp_limit, messages_endpoint, rows_v, upload_endpoint};
use crate::text::decimal;
use crate::graph::url_encoded;

verus! {

// ---------------------------------------------------------------------------
// Looking members up
// ---------------------------------------------------------------------------

/// The member at `idx` is the first named `key`, so a lookup finds it.
proof fn lemma_lookup(ms: Seq<(Seq<char>, JsonV)>, key: Seq<char>, idx: int)
    requires
        0 <= idx < ms.len(),
        ms[idx].0 == key,
        forall|j: int| 0 <= j < idx ==> (#[trigger] ms[j]).0 != key,
    ensures
        member_v(ms, key) == Some(ms[idx].1),
    decreases idx,
{
    if idx > 0 {
        assert(ms[0].0 != key);
        let rest = ms.drop_first();
        assert forall|j: int| 0 <= j < idx - 1 implies (#[trigger] rest[j]).0 != key by {
            assert(rest[j] == ms[j + 1]);
        }
        assert(rest[idx - 1] == ms[idx]);
        lemma_lookup(rest, key, idx - 1);
    }
}

/// No member is named `key`, so a lookup finds nothing.
proof fn lemma_member_none(ms: Seq<(Seq<char>, JsonV)>, key: Seq<char>)
    requires
        forall|j: int| 0 <= j < ms.len() ==> (#[trigger] ms[j]).0 != key,
    ensures
        member_v(ms, key) is None,
    decreases ms.len(),
{
    if ms.len() > 0 {
        assert(ms[0].0 != key);
        let rest = ms.drop_first();
        assert forall|j: int| 0 <= j < rest.len() implies (#[trigger] rest[j]).0 != key by {
            assert(rest[j] == ms[j + 1]);
        }
        lemma_member_none(rest, key);
    }
}

/// A string member `key` of `item`.
pub open spec fn string_member(item: Json, key: Seq<char>) -> Option<Seq<char>> {
    match field(item, key) {
        Some(Json::String(s)) => Some(s@),
        _ => None,
    }
}

/// The text of a string member, empty when there is none.
pub open spec fn string_member_or_empty(item: Json, key: Seq<char>) -> Seq<char> {
    match field(item, key) {
        Some(Json::String(s)) => s@,
        _ => Seq::empty(),
    }
}

/// A string member found by following `k1` then `k2`.
pub open spec fn nested_string(item: Json, k1: Seq<char>, k2: Seq<char>) -> Option<Seq<char>> {
    match field(item, k1) {
        Some(inner) => string_member(inner, k2),
        None => None,
    }
}

/// A string member found by following `k1`, `k2`, then `k3`.
pub open spec fn nested_string3(item: Json, k1: Seq<char>, k2: Seq<char>, k3: Seq<char>) -> Option<
    Seq<char>,
> {
    match field(item, k1) {
        Some(inner) => nested_string(inner, k2, k3),
        None => None,
    }
}

/// A non-negative integer member, 0 when there is none.
pub open spec fn count_member(item: Json, key: Seq<char>) -> u64 {
    match field(item, key) {
        Some(Json::Number(JsonNumber::PosInt(n))) => n,
        _ => 0,
    }
}

pub open spec fn string_view(s: Option<String>) -> Option<Seq<char>> {
    match s {
        Some(t) => Some(t@),
        None => None,
    }
}

// ---------------------------------------------------------------------------
// Response readers
// ---------------------------------------------------------------------------

/// A listed message carries the item's id, subject, sender address,
/// receipt time, read flag and preview, as the item's members give them
/// (text members missing or not strings read as empty, the flag as false).
pub proof fn lemma_message_fields(m: MessageSummary, item: Json)
    requires
        message_matches(m, item),
    ensures
        m.id@ == string_member_or_empty(item, "id"@),
        m.subject@ == string_member_or_empty(item, "subject"@),
        string_view(m.from) == nested_string3(item, "from"@, "emailAddress"@, "address"@),
        string_view(m.received) == string_member(item, "receivedDateTime"@),
        m.is_read == (field(item, "isRead"@) == Some(Json::Bool(true))),
        m.preview@ == string_member_or_empty(item, "bodyPreview"@),
{
}

/// A listed drive item carries the item's id, name, folder flag, size,
/// modification time, web link and MIME type, as the item's members give
/// them.
pub proof fn lemma_drive_item_fields(d: DriveItem, item: Json)
    requires
        drive_item_matches(d, item),
    ensures
        d.id@ == string_member_or_empty(item, "id"@),
        d.name@ == string_member_or_empty(item, "name"@),
        d.is_folder == field(item, "folder"@) is Some,
        d.size == count_member(item, "size"@),
        string_view(d.last_modified) == string_member(item, "lastModifiedDateTime"@),
        string_view(d.web_url) == string_member(item, "webUrl"@),
        string_view(d.mime_type) == nested_string(item, "file"@, "mimeType"@),
{
}

/// The profile carries the response's id, display name, mail, user
/// principal name and job title.
pub proof fn lemma_me_fields(r: MeResult, v: Json)
    requires
        me_matches(r, v),
    ensures
        string_member(v, "id"@) == Some(r.id@),
        r.display_name@ == string_member_or_empty(v, "displayName"@),
        string_view(r.mail) == string_member(v, "mail"@),
        string_view(r.user_principal_name) == string_member(v, "userPrincipalName"@),
        string_view(r.job_title) == string_member(v, "jobTitle"@),
{
}

/// An uploaded file carries the response's id, name, size, web link and
/// download link.
pub proof fn lemma_uploaded_file_fields(f: UploadedFile, v: Json)
    requires
        uploaded_file_matches(f, v),
    ensures
        f.id@ == string_member_or_empty(v, "id"@),
        f.name@ == string_member_or_empty(v, "name"@),
        f.size == count_member(v, "size"@),
        string_view(f.web_url) == string_member(v, "webUrl"@),
        string_view(f.download_url) == string_member(v, "@microsoft.graph.downloadUrl"@),
{
}

/// A team carries the item's id, display name and description.
pub proof fn lemma_team_fields(t: TeamSummary, item: Json)
    requires
        team_matches(t, item),
    ensures
        t.id@ == string_member_or_empty(item, "id"@),
        t.display_name@ == string_member_or_empty(item, "displayName"@),
        string_view(t.description) == string_member(item, "description"@),
{
}

/// A channel carries the item's id, display name, description and
/// membership type.
pub proof fn lemma_channel_fields(c: ChannelSummary, item: Json)
    requires
        channel_matches(c, item),
    ensures
        c.id@ == string_member_or_empty(item, "id"@),
        c.display_name@ == string_member_or_empty(item, "displayName"@),
        string_view(c.description) == string_member(item, "description"@),
        string_view(c.membership_type) == string_member(item, "membershipType"@),
{
}

/// A posted channel message carries the response's id, creation time and
/// web link.
pub proof fn lemma_channel_post_fields(r: ChannelPostResult, v: Json)
    requires
        channel_post_matches(r, v),
    ensures
        r.id@ == string_member_or_empty(v, "id"@),
        string_view(r.created_date_time) == string_member(v, "createdDateTime"@),
        string_view(r.web_url) == string_member(v, "webUrl"@),
{
}

/// A listed event carries the item's id, subject, start and end times, the
/// start's time zone, the organizer's address and the web link; its
/// location and preview are those of the item unless empty.
pub proof fn lemma_event_fields(e: CalendarEventSummary, item: Json)
    requires
        event_matches(e, item),
    ensures
        e.id@ == string_member_or_empty(item, "id"@),
        e.subject@ == string_member_or_empty(item, "subject"@),
        string_view(e.start) == nested_string(item, "start"@, "dateTime"@),
        string_view(e.end) == nested_string(item, "end"@, "dateTime"@),
        string_view(e.time_zone) == nested_string(item, "start"@, "timeZone"@),
        string_view(e.organizer) == nested_string3(item, "organizer"@, "emailAddress"@, "address"@),
        string_view(e.web_link) == string_member(item, "webLink"@),
        match nested_string(item, "location"@, "displayName"@) {
            Some(l) => if l.len() == 0 {
                e.location is None
            } else {
                string_view(e.location) == Some(l)
            },
            None => e.location is None,
        },
        match string_member(item, "bodyPreview"@) {
            Some(p) => if p.len() == 0 {
                e.preview is None
            } else {
                string_view(e.preview) == Some(p)
            },
            None => e.preview is None,
        },
{
}

/// A created event carries the response's id, subject, web link and start
/// and end times.
pub proof fn lemma_created_event_fields(r: CreatedEvent, v: Json)
    requires
        created_event_matches(r, v),
    ensures
        r.id@ == string_member_or_empty(v, "id"@),
        r.subject@ == string_member_or_empty(v, "subject"@),
        string_view(r.web_link) == string_member(v, "webLink"@),
        string_view(r.start) == nested_string(v, "start"@, "dateTime"@),
        string_view(r.end) == nested_string(v, "end"@, "dateTime"@),
{
}

/// A written range reports success with the response's address and row
/// and column counts.
pub proof fn lemma_excel_write_fields(r: ExcelRangeWrite, v: Json)
    requires
        excel_write_matches(r, v),
    ensures
        r.ok,
        r.address@ == string_member_or_empty(v, "address"@),
        r.row_count == count_member(v, "rowCount"@),
        r.column_count == count_member(v, "columnCount"@),
{
}

// ---------------------------------------------------------------------------
// Request payloads
// ---------------------------------------------------------------------------

/// The text of a string member of a JSON value.
pub open spec fn text_at(v: Option<JsonV>, key: Seq<char>) -> Option<Seq<char>> {
    match v {
        Some(o) => match field_v(o, key) {
            Some(JsonV::Str(s)) => Some(s),
            _ => None,
        },
        None => None,
    }
}

/// `v` is an array of one item per address, in order, each naming its
/// address under `emailAddress.address`.
pub open spec fn addresses_are(v: Option<JsonV>, addrs: Seq<Seq<char>>) -> bool {
    v matches Some(JsonV::Array(items)) && items.len() == addrs.len() && forall|i: int|
        0 <= i < items.len() ==> text_at(field_v(#[trigger] items[i], "emailAddress"@), "address"@)
            == Some(addrs[i])
}

proof fn lemma_address_items(addrs: Seq<Seq<char>>, attendees: bool)
    ensures
        addresses_are(
            Some(
                JsonV::Array(
                    if attendees {
                        crate::api::attendees_v(addrs)
                    } else {
                        crate::api::recipients_v(addrs)
                    },
                ),
            ),
            addrs,
        ),
        attendees ==> forall|i: int|
            0 <= i < addrs.len() ==> text_at(
                Some(#[trigger] crate::api::attendees_v(addrs)[i]),
                "type"@,
            ) == Some("required"@),
{
    reveal_strlit("emailAddress");
    reveal_strlit("type");
    assert("emailAddress"@ != "type"@) by {
        assert("emailAddress"@.len() != "type"@.len());
    }
    let items = if attendees {
        crate::api::attendees_v(addrs)
    } else {
        crate::api::recipients_v(addrs)
    };
    assert forall|i: int| 0 <= i < items.len() implies text_at(
        field_v(#[trigger] items[i], "emailAddress"@),
        "address"@,
    ) == Some(addrs[i]) by {
        let addr = seq![("address"@, JsonV::Str(addrs[i]))];
        lemma_lookup(addr, "address"@, 0);
        if attendees {
            let ms = seq![
                ("emailAddress"@, JsonV::Object(addr)),
                ("type"@, JsonV::Str("required"@)),
            ];
            assert(items[i] == JsonV::Object(ms));
            lemma_lookup(ms, "emailAddress"@, 0);
        } else {
            let ms = seq![("emailAddress"@, JsonV::Object(addr))];
            assert(items[i] == JsonV::Object(ms));
            lemma_lookup(ms, "emailAddress"@, 0);
        }
    }
    if attendees {
        assert forall|i: int| 0 <= i < addrs.len() implies text_at(
            Some(#[trigger] crate::api::attendees_v(addrs)[i]),
            "type"@,
        ) == Some("required"@) by {
            let addr = seq![("address"@, JsonV::Str(addrs[i]))];
            let ms = seq![
                ("emailAddress"@, JsonV::Object(addr)),
                ("type"@, JsonV::Str("required"@)),
            ];
            assert(crate::api::attendees_v(addrs)[i] == JsonV::Object(ms));
            lemma_lookup(ms, "type"@, 1);
        }
    }
}

/// A mail's payload: `message.subject` is the subject, `message.body` has
/// `contentType` `"HTML"` for an HTML body and `"Text"` otherwise and
/// `content` the body, the three recipient lists carry the addresses in
/// order, and `saveToSentItems` is the flag.
pub proof fn lemma_send_mail_payload(
    to: Seq<Seq<char>>,
    cc: Seq<Seq<char>>,
    bcc: Seq<Seq<char>>,
    subject: Seq<char>,
    body: Seq<char>,
    body_is_html: bool,
    save_to_sent_items: bool,
)
    ensures
        ({
            let p = send_mail_payload(to, cc, bcc, subject, body, body_is_html, save_to_sent_items);
            let message = field_v(p, "message"@);
            let mail_body = match message {
                Some(m) => field_v(m, "body"@),
                None => None,
            };
            &&& message is Some
            &&& text_at(message, "subject"@) == Some(subject)
            &&& text_at(mail_body, "contentType"@) == Some(
                if body_is_html {
                    "HTML"@
                } else {
                    "Text"@
                },
            )
            &&& text_at(mail_body, "content"@) == Some(body)
            &&& addresses_are(field_v(message->0, "toRecipients"@), to)
            &&& addresses_are(field_v(message->0, "ccRecipients"@), cc)
            &&& addresses_are(field_v(message->0, "bccRecipients"@), bcc)
            &&& field_v(p, "saveToSentItems"@) == Some(JsonV::Bool(save_to_sent_items))
        }),
{
    reveal_strlit("message");
    reveal_strlit("saveToSentItems");
    reveal_strlit("subject");
    reveal_strlit("body");
    reveal_strlit("contentType");
    reveal_strlit("content");
    reveal_strlit("toRecipients");
    reveal_strlit("ccRecipients");
    reveal_strlit("bccRecipients");
    assert("message"@ != "saveToSentItems"@) by {
        assert("message"@.len() != "saveToSentItems"@.len());
    }
    assert("subject"@ != "body"@ && "subject"@ != "toRecipients"@ && "subject"@ != "ccRecipients"@
        && "subject"@ != "bccRecipients"@) by {
        assert("subject"@.len() == 7 && "body"@.len() == 4 && "toRecipients"@.len() == 12);
        assert("ccRecipients"@.len() == 12 && "bccRecipients"@.len() == 13);
    }
    assert("body"@ != "toRecipients"@ && "body"@ != "ccRecipients"@ && "body"@ != "bccRecipients"@);
    assert("toRecipients"@ != "ccRecipients"@ && "toRecipients"@ != "bccRecipients"@
        && "ccRecipients"@ != "bccRecipients"@) by {
        assert("toRecipients"@[0] != "ccRecipients"@[0]);
    }
    assert("contentType"@ != "content"@) by {
        assert("contentType"@.len() != "content"@.len());
    }
    let body_ms = seq![
        ("contentType"@, JsonV::Str(
            if body_is_html {
                "HTML"@
            } else {
                "Text"@
            },
        )),
        ("content"@, JsonV::Str(body)),
    ];
    let message_ms = seq![
        ("subject"@, JsonV::Str(subject)),
        ("body"@, JsonV::Object(body_ms)),
        ("toRecipients"@, JsonV::Array(crate::api::recipients_v(to))),
        ("ccRecipients"@, JsonV::Array(crate::api::recipients_v(cc))),
        ("bccRecipients"@, JsonV::Array(crate::api::recipients_v(bcc))),
    ];
    let top = seq![
        ("message"@, JsonV::Object(message_ms)),
        ("saveToSentItems"@, JsonV::Bool(save_to_sent_items)),
    ];
    assert(send_mail_payload(to, cc, bcc, subject, body, body_is_html, save_to_sent_items)
        == JsonV::Object(top));
    lemma_lookup(top, "message"@, 0);
    lemma_lookup(top, "saveToSentItems"@, 1);
    lemma_lookup(message_ms, "subject"@, 0);
    lemma_lookup(message_ms, "body"@, 1);
    lemma_lookup(message_ms, "toRecipients"@, 2);
    lemma_lookup(message_ms, "ccRecipients"@, 3);
    lemma_lookup(message_ms, "bccRecipients"@, 4);
    lemma_lookup(body_ms, "contentType"@, 0);
    lemma_lookup(body_ms, "content"@, 1);
    lemma_address_items(to, false);
    lemma_address_items(cc, false);
    lemma_address_items(bcc, false);
}

/// A channel message's payload: `body.contentType` is `"html"` for HTML
/// content and `"text"` otherwise, and `body.content` is the content.
pub proof fn lemma_channel_message_payload(content: Seq<char>, content_is_html: bool)
    ensures
        ({
            let b = field_v(channel_message_payload(content, content_is_html), "body"@);
            &&& text_at(b, "contentType"@) == Some(
                if content_is_html {
                    "html"@
                } else {
                    "text"@
                },
            )
            &&& text_at(b, "content"@) == Some(content)
        }),
{
    let inner = seq![
        ("contentType"@, JsonV::Str(
            if content_is_html {
                "html"@
            } else {
                "text"@
            },
        )),
        ("content"@, JsonV::Str(content)),
    ];
    let outer = seq![("body"@, JsonV::Object(inner))];
    assert(channel_message_payload(content, content_is_html) == JsonV::Object(outer));
    assert(member_v(outer, "body"@) == Some(JsonV::Object(inner)));
    assert(member_v(inner, "contentType"@) == Some(inner[0].1));
    reveal_strlit("contentType");
    reveal_strlit("content");
    assert("contentType"@ != "content"@) by {
        assert("contentType"@.len() != "content"@.len());
    }
    assert(inner.drop_first() =~= seq![("content"@, JsonV::Str(content))]);
    assert(member_v(inner, "content"@) == member_v(inner.drop_first(), "content"@));
    assert(member_v(inner.drop_first(), "content"@) == Some(JsonV::Str(content)));
}

/// A text that is given and not blank.
pub open spec fn given(text: Option<Seq<char>>) -> bool {
    text matches Some(t) && !crate::text::is_blank_seq(t)
}

/// An event's payload: the subject; `start` and `end` with the date-time
/// and zone that splitting each time gives; one required attendee per
/// address in order; `location.displayName` exactly when a location is
/// given and not blank; and `body` with `contentType` `"text"` and the
/// body as `content` exactly when a body is given and not blank.
pub proof fn lemma_event_payload(
    subject: Seq<char>,
    start: Seq<u8>,
    end: Seq<u8>,
    attendees: Seq<Seq<char>>,
    location: Option<Seq<char>>,
    body: Option<Seq<char>>,
)
    ensures
        ({
            let p = event_payload(subject, start, end, attendees, location, body);
            &&& text_at(Some(p), "subject"@) == Some(subject)
            &&& text_at(field_v(p, "start"@), "dateTime"@) == Some(iso8601_split(start).0)
            &&& text_at(field_v(p, "start"@), "timeZone"@) == Some(iso8601_split(start).1)
            &&& text_at(field_v(p, "end"@), "dateTime"@) == Some(iso8601_split(end).0)
            &&& text_at(field_v(p, "end"@), "timeZone"@) == Some(iso8601_split(end).1)
            &&& addresses_are(field_v(p, "attendees"@), attendees)
            &&& (field_v(p, "attendees"@) matches Some(JsonV::Array(items)) && forall|i: int|
                0 <= i < items.len() ==> text_at(Some(#[trigger] items[i]), "type"@) == Some(
                    "required"@,
                ))
            &&& (given(location) ==> text_at(field_v(p, "location"@), "displayName"@)
                == Some(location->0))
            &&& (!given(location) ==> field_v(p, "location"@) is None)
            &&& (given(body) ==> text_at(field_v(p, "body"@), "content"@) == Some(body->0))
            &&& (given(body) ==> text_at(field_v(p, "body"@), "contentType"@) == Some("text"@))
            &&& (!given(body) ==> field_v(p, "body"@) is None)
        }),
{
    reveal_strlit("subject");
    reveal_strlit("start");
    reveal_strlit("end");
    reveal_strlit("attendees");
    reveal_strlit("location");
    reveal_strlit("body");
    reveal_strlit("dateTime");
    reveal_strlit("timeZone");
    reveal_strlit("displayName");
    reveal_strlit("contentType");
    reveal_strlit("content");
    assert("subject"@.len() == 7 && "start"@.len() == 5 && "end"@.len() == 3);
    assert("attendees"@.len() == 9 && "location"@.len() == 8 && "body"@.len() == 4);
    assert("dateTime"@ != "timeZone"@) by {
        assert("dateTime"@[0] != "timeZone"@[0]);
    }
    assert("contentType"@ != "content"@) by {
        assert("contentType"@.len() != "content"@.len());
    }
    let base = seq![
        ("subject"@, JsonV::Str(subject)),
        ("start"@, crate::api::date_time_v(iso8601_split(start))),
        ("end"@, crate::api::date_time_v(iso8601_split(end))),
        ("attendees"@, JsonV::Array(crate::api::attendees_v(attendees))),
    ];
    let loc = crate::api::location_member(location);
    let bm = crate::api::body_member(body);
    let all = base + loc + bm;
    assert(event_payload(subject, start, end, attendees, location, body) == JsonV::Object(all));
    lemma_address_items(attendees, true);
    assert forall|k: int| 0 <= k < 4 implies #[trigger] all[k] == base[k] by {}
    lemma_lookup(all, "subject"@, 0);
    lemma_lookup(all, "start"@, 1);
    lemma_lookup(all, "end"@, 2);
    lemma_lookup(all, "attendees"@, 3);
    let s_ms = seq![("dateTime"@, JsonV::Str(iso8601_split(start).0)), ("timeZone"@, JsonV::Str(iso8601_split(start).1))];
    let e_ms = seq![("dateTime"@, JsonV::Str(iso8601_split(end).0)), ("timeZone"@, JsonV::Str(iso8601_split(end).1))];
    lemma_lookup(s_ms, "dateTime"@, 0);
    lemma_lookup(s_ms, "timeZone"@, 1);
    lemma_lookup(e_ms, "dateTime"@, 0);
    lemma_lookup(e_ms, "timeZone"@, 1);
    let loc_len: int = if given(location) { 1 } else { 0 };
    let body_len: int = if given(body) { 1 } else { 0 };
    assert(loc.len() == loc_len);
    assert(bm.len() == body_len);
    if given(location) {
        let l_ms = seq![("displayName"@, JsonV::Str(location->0))];
        assert(all[4] == ("location"@, JsonV::Object(l_ms)));
        lemma_lookup(all, "location"@, 4);
        lemma_lookup(l_ms, "displayName"@, 0);
    } else {
        assert forall|j: int| 0 <= j < all.len() implies (#[trigger] all[j]).0 != "location"@ by {
            if j >= 4 {
                assert(all[j] == bm[j - 4]);
            }
        }
        lemma_member_none(all, "location"@);
    }
    if given(body) {
        let b_ms = seq![("contentType"@, JsonV::Str("text"@)), ("content"@, JsonV::Str(body->0))];
        assert(all[4 + loc_len] == ("body"@, JsonV::Object(b_ms)));
        assert forall|j: int| 0 <= j < 4 + loc_len implies (#[trigger] all[j]).0 != "body"@ by {
            if j >= 4 {
                assert(all[j] == loc[j - 4]);
            }
        }
        lemma_lookup(all, "body"@, 4 + loc_len);
        lemma_lookup(b_ms, "contentType"@, 0);
        lemma_lookup(b_ms, "content"@, 1);
    } else {
        assert forall|j: int| 0 <= j < all.len() implies (#[trigger] all[j]).0 != "body"@ by {
            if j >= 4 {
                assert(all[j] == loc[j - 4]);
            }
        }
        lemma_member_none(all, "body"@);
    }
}

// ---------------------------------------------------------------------------
// The Word document
// ---------------------------------------------------------------------------

/// A paragraph of one run of `text` (line feeds removed) at `size`
/// half-points, bold or not, without alignment.
pub open spec fn one_run_paragraph(text: Seq<char>, size: usize, bold: bool) -> ParagraphV {
    ParagraphV {
        runs: seq![RunV { texts: seq![without_newlines(text)], size: Some(size), bold, italic: false }],
        alignment: None,
    }
}

/// Whether a section has a heading to show, and a table to show.
pub open spec fn shows_heading(s: WordSection) -> bool {
    s.heading matches Some(h) && !crate::text::is_blank_seq(h@)
}

pub open spec fn shows_table(s: WordSection) -> bool {
    s.table matches Some(rows) && rows@.len() > 0
}

/// A section contributes, in order: its heading (bold, 16 pt) when it has
/// one that is not blank; one 11-pt paragraph per paragraph text, each
/// with that text; and, when its table has rows, the table followed by an
/// empty paragraph. Nothing else.
pub proof fn lemma_section_blocks(s: WordSection)
    ensures
        ({
            let blocks = section_model(s);
            let h: int = if shows_heading(s) { 1 } else { 0 };
            let n = s.paragraphs@.len() as int;
            &&& blocks.len() == h + n + (if shows_table(s) { 2int } else { 0 })
            &&& shows_heading(s) ==> blocks[0] == BlockV::Paragraph(
                one_run_paragraph(s.heading->0@, 32, true),
            )
            &&& forall|k: int|
                0 <= k < n ==> #[trigger] blocks[h + k] == BlockV::Paragraph(
                    one_run_paragraph(s.paragraphs@[k]@, 22, false),
                )
            &&& shows_table(s) ==> blocks[h + n] == BlockV::Table(table_model(s.table->0@))
            &&& shows_table(s) ==> blocks[h + n + 1] == BlockV::Paragraph(
                ParagraphV { runs: Seq::empty(), alignment: None },
            )
        }),
{
    let blocks = section_model(s);
    let h: int = if shows_heading(s) { 1 } else { 0 };
    let n = s.paragraphs@.len() as int;
    let paras = crate::documents::body_paragraphs(s.paragraphs@);
    assert(paras.len() == n);
    assert forall|k: int| 0 <= k < n implies #[trigger] blocks[h + k] == BlockV::Paragraph(
        one_run_paragraph(s.paragraphs@[k]@, 22, false),
    ) by {
        assert(blocks[h + k] == paras[k]);
        assert(one_run_paragraph(s.paragraphs@[k]@, 22, false) =~~= crate::documents::body_paragraph(
            s.paragraphs@[k]@,
        ));
    }
    if shows_heading(s) {
        assert(one_run_paragraph(s.heading->0@, 32, true) =~~= crate::documents::heading_paragraph(
            s.heading->0@,
        ));
    }
}

/// Each section's blocks follow those of the sections before it.
pub proof fn lemma_sections_in_order(sections: Seq<WordSection>, s: WordSection)
    ensures
        sections_model(sections.push(s)) == sections_model(sections) + section_model(s),
{
    assert(sections.push(s).drop_last() =~= sections);
}

/// The document opens with the title (bold, 24 pt, centered), then the
/// subtitle (italic, 12 pt, centered) when one is given and not blank, then
/// an empty paragraph; the sections' blocks follow, in order.
pub proof fn lemma_document_blocks(
    title: Seq<char>,
    subtitle: Option<Seq<char>>,
    sections: Seq<WordSection>,
)
    ensures
        ({
            let blocks = docx_layout(title, subtitle, sections);
            let sub = subtitle matches Some(t) && !crate::text::is_blank_seq(t);
            let head: int = if sub { 3 } else { 2 };
            &&& blocks.len() == head + sections_model(sections).len()
            &&& blocks[0] == BlockV::Paragraph(
                ParagraphV {
                    runs: seq![RunV { texts: seq![without_newlines(title)], size: Some(48), bold: true, italic: false }],
                    alignment: Some("center"@),
                },
            )
            &&& sub ==> blocks[1] == BlockV::Paragraph(
                ParagraphV {
                    runs: seq![RunV { texts: seq![without_newlines(subtitle->0)], size: Some(24), bold: false, italic: true }],
                    alignment: Some("center"@),
                },
            )
            &&& blocks[head - 1] == BlockV::Paragraph(ParagraphV { runs: Seq::empty(), alignment: None })
            &&& blocks.skip(head) == sections_model(sections)
        }),
{
    let blocks = docx_layout(title, subtitle, sections);
    let sub = subtitle matches Some(t) && !crate::text::is_blank_seq(t);
    let head: int = if sub { 3 } else { 2 };
    let h = crate::documents::doc_head(title, subtitle);
    assert(h.len() == head);
    assert(blocks.skip(head) =~= sections_model(sections));
    assert(blocks[0] == h[0]);
    assert(blocks[head - 1] == h[head - 1]);
    if sub {
        assert(blocks[1] == h[1]);
    }
}

proof fn lemma_max_row_len(rows: Seq<Vec<String>>)
    ensures
        forall|i: int| 0 <= i < rows.len() ==> (#[trigger] rows[i])@.len() <= max_row_len(rows),
        rows.len() > 0 ==> exists|i: int| 0 <= i < rows.len() && (#[trigger] rows[i])@.len() == max_row_len(rows),
        rows.len() == 0 ==> max_row_len(rows) == 0,
    decreases rows.len(),
{
    if rows.len() > 0 {
        let rest = rows.drop_last();
        lemma_max_row_len(rest);
        assert forall|i: int| 0 <= i < rows.len() implies (#[trigger] rows[i])@.len() <= max_row_len(rows) by {
            if i < rest.len() {
                assert(rows[i] == rest[i]);
            }
        }
        if rows.last()@.len() > max_row_len(rest) || rest.len() == 0 {
            assert(rows[rows.len() - 1]@.len() == max_row_len(rows));
        } else {
            let j = choose|j: int| 0 <= j < rest.len() && (#[trigger] rest[j])@.len() == max_row_len(rest);
            assert(rows[j] == rest[j]);
        }
    }
}

/// A section's table: one row per row given; every row has as many cells
/// as the grid has columns, which is the length of the longest row (and at
/// least one); each column is 9000 twips divided evenly; cell `c` of row
/// `i` holds the row's `c`-th text (empty past its end) at 10 pt, bold in
/// the first row only; and all six sides have a single black border of
/// size 4.
pub proof fn lemma_table_layout(rows: Seq<Vec<String>>)
    requires
        rows.len() > 0,
    ensures
        ({
            let t = table_model(rows);
            let cols = t.grid.len();
            &&& t.rows.len() == rows.len()
            &&& cols >= 1
            &&& forall|i: int| 0 <= i < rows.len() ==> (#[trigger] rows[i])@.len() <= cols
            &&& (cols == 1 || exists|i: int| 0 <= i < rows.len() && (#[trigger] rows[i])@.len() == cols)
            &&& forall|c: int| 0 <= c < cols ==> #[trigger] t.grid[c] == 9000nat / cols
            &&& forall|i: int| 0 <= i < rows.len() ==> (#[trigger] t.rows[i]).len() == cols
            &&& forall|i: int, c: int|
                0 <= i < rows.len() && 0 <= c < cols ==> #[trigger] t.rows[i][c] == CellV {
                    paragraphs: seq![
                        one_run_paragraph(
                            if c < rows[i]@.len() {
                                rows[i]@[c]@
                            } else {
                                Seq::empty()
                            },
                            20,
                            i == 0,
                        ),
                    ],
                    width: Some(((9000nat / cols) as usize, "dxa"@)),
                }
            &&& forall|side: BorderSide|
                #[trigger] t.borders.contains_key(side) && t.borders[side] == BorderV {
                    side,
                    style: "single"@,
                    size: 4,
                    color: "000000"@,
                }
        }),
{
    lemma_max_row_len(rows);
    let t = table_model(rows);
    let cols = t.grid.len();
    assert(cols == crate::documents::column_count(rows));
    assert forall|i: int, c: int| 0 <= i < rows.len() && 0 <= c < cols implies #[trigger] t.rows[i][c]
        == CellV {
        paragraphs: seq![
            one_run_paragraph(
                if c < rows[i]@.len() {
                    rows[i]@[c]@
                } else {
                    Seq::empty()
                },
                20,
                i == 0,
            ),
        ],
        width: Some(((9000nat / cols) as usize, "dxa"@)),
    } by {
        let expected = CellV {
            paragraphs: seq![
                one_run_paragraph(
                    if c < rows[i]@.len() {
                        rows[i]@[c]@
                    } else {
                        Seq::empty()
                    },
                    20,
                    i == 0,
                ),
            ],
            width: Some(((9000nat / cols) as usize, "dxa"@)),
        };
        assert(t.rows[i][c] =~~= expected);
    }
}

// ---------------------------------------------------------------------------
// Endpoints and rows
// ---------------------------------------------------------------------------

/// The number of messages asked for is the limit kept within 1..=100.
pub proof fn lemma_message_limit(limit: u32)
    ensures
        1 <= clamp_limit(limit) <= 100,
        1 <= limit <= 100 ==> clamp_limit(limit) == limit,
        limit > 100 ==> clamp_limit(limit) == 100,
        limit == 0 ==> clamp_limit(limit) == 1,
{
}

/// The messages endpoint asks for the clamped number of messages, and ends
/// with the URL-encoded filter exactly when a filter that is not blank is
/// given.
pub proof fn lemma_messages_endpoint(limit: u32, filter: Option<Seq<char>>, filter_bytes: Seq<u8>)
    ensures
        ({
            let e = messages_endpoint(limit, filter, filter_bytes);
            let top = "/me/messages?$top="@ + decimal(clamp_limit(limit) as nat) + "&"@;
            let tail = "&$filter="@ + url_encoded(filter_bytes);
            &&& top.len() <= e.len() && e.take(top.len() as int) == top
            &&& (filter matches Some(f) && !crate::text::is_blank_seq(f)) ==> (tail.len() <= e.len()
                && e.skip(e.len() - tail.len()) == tail)
        }),
{
    let e = messages_endpoint(limit, filter, filter_bytes);
    let top = "/me/messages?$top="@ + decimal(clamp_limit(limit) as nat) + "&"@;
    let sel = "&$select=id,subject,from,receivedDateTime,isRead,bodyPreview&$orderby=receivedDateTime desc"@;
    let base = "/me/messages?$top="@ + decimal(clamp_limit(limit) as nat) + sel;
    reveal_strlit("&$select=id,subject,from,receivedDateTime,isRead,bodyPreview&$orderby=receivedDateTime desc");
    reveal_strlit("&");
    assert(base.take(top.len() as int) =~= top);
    let tail = "&$filter="@ + url_encoded(filter_bytes);
    if filter matches Some(f) && !crate::text::is_blank_seq(f) {
        assert(e == base + tail);
        assert(e.take(top.len() as int) =~= top);
        assert(e.skip(e.len() - tail.len()) =~= tail);
    } else {
        assert(e == base);
    }
}

/// An upload goes to the URL-encoded name followed by `:/content`, under
/// the given folder or under the drive root.
pub proof fn lemma_upload_endpoint(parent_folder_id: Option<Seq<char>>, name_bytes: Seq<u8>)
    ensures
        ({
            let e = upload_endpoint(parent_folder_id, name_bytes);
            let tail = url_encoded(name_bytes) + ":/content"@;
            let head = match parent_folder_id {
                Some(id) => "/me/drive/items/"@ + id + ":/"@,
                None => "/me/drive/root:/"@,
            };
            e == head + tail
        }),
{
    let tail = url_encoded(name_bytes) + ":/content"@;
    match parent_folder_id {
        Some(id) => {
            assert(upload_endpoint(parent_folder_id, name_bytes) =~= "/me/drive/items/"@ + id + ":/"@ + tail);
        },
        None => {
            assert(upload_endpoint(parent_folder_id, name_bytes) =~= "/me/drive/root:/"@ + tail);
        },
    }
}

/// The values written to a range: one array per row, in order, each
/// holding that row's cells in order.
pub proof fn lemma_rows_payload(rows: Seq<Vec<Json>>)
    ensures
        rows_v(rows).len() == rows.len(),
        forall|i: int|
            0 <= i < rows.len() ==> ((#[trigger] rows_v(rows)[i]) matches JsonV::Array(cells)
                && cells.len() == rows[i]@.len() && forall|j: int|
                0 <= j < cells.len() ==> #[trigger] cells[j] == crate::json::jv(rows[i]@[j])),
{
}

} // verus!
