//! The actions that the tool accepts, and the document parts they carry.

use vstd::prelude::*;
use crate::json::Json;

verus! {

/// One action requested of the tool, with its arguments.
pub enum MicrosoftAction {
    Me,
    SendMail {
        to: Vec<String>,
        cc: Vec<String>,
        bcc: Vec<String>,
        subject: String,
        body: String,
        body_is_html: bool,
        save_to_sent_items: bool,
    },
    ListRecentMessages { limit: u32, filter: Option<String> },
    SendChannelMessage {
        team_id: String,
        channel_id: String,
        content: String,
        content_is_html: bool,
    },
    ListTeams,
    ListChannels { team_id: String },
    ReadExcelRange { workbook_id: String, worksheet: String, range: String },
    WriteExcelRange {
        workbook_id: String,
        worksheet: String,
        range: String,
        values: Vec<Vec<Json>>,
    },
    ListDrive { folder_id: Option<String> },
    UploadFile { parent_folder_id: Option<String>, name: String, content_base64: String },
    ListCalendarEvents { start: Option<String>, end: Option<String> },
    CreateCalendarEvent {
        subject: String,
        start: String,
        end: String,
        attendees: Vec<String>,
        location: Option<String>,
        body: Option<String>,
    },
    CreateWordDocument {
        parent_folder_id: Option<String>,
        name: String,
        title: String,
        subtitle: Option<String>,
        sections: Vec<WordSection>,
    },
    CreatePowerpoint { parent_folder_id: Option<String>, name: String, slides: Vec<PowerpointSlide> },
}

/// A section of a Word document: an optional heading, paragraphs, and an
/// optional table given as rows of cell texts.
pub struct WordSection {
    pub heading: Option<String>,
    pub paragraphs: Vec<String>,
    pub table: Option<Vec<Vec<String>>>,
}

/// A slide: a title and its bullets.
pub struct PowerpointSlide {
    pub title: String,
    pub bullets: Vec<String>,
}

/// How many messages `list_recent_messages` asks for when no limit is given.
pub fn default_mail_limit() -> (r: u32)
    ensures
        r == 25,
{
    25
}

/// Sent mail is kept in Sent Items unless asked otherwise.
pub fn default_true() -> (r: bool)
    ensures
        r,
{
    true
}

} // verus!
