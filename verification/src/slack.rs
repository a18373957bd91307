//! Sending a file to a Slack channel: the three calls of Slack's external
//! upload, as a state machine. The caller performs each action it is
//! given (reading the file, posting a form or the file's bytes) and hands
//! back what came of it.
use crate::form::fields_view;
use crate::json::{object_list, object_list_text};
use crate::text::{decimal, decimal_text, law_parse_decimal_round_trip, parse_usize_spec};
use vstd::prelude::*;

verus! {

/// Where uploads begin: Slack hands out an address to send the file to.
pub const GET_UPLOAD_URL: &'static str = "https://slack.com/api/files.getUploadURLExternal";

/// Where uploads end: Slack shares the uploaded file in a channel.
pub const COMPLETE_UPLOAD: &'static str = "https://slack.com/api/files.completeUploadExternal";

/// A bot token and the channel that files are shared in.
pub struct SlackFileSender {
    token: String,
    channel: String,
}

/// How far an upload has come.
pub enum Stage {
    /// Waiting for the file's contents to be read.
    ReadFile,
    /// Waiting for Slack's reply that names the upload address.
    AwaitUploadUrl,
    /// Waiting for the status of sending the bytes; Slack's reply named the
    /// file's id, if it did.
    AwaitUploadStatus { file_id: Option<String> },
    /// Waiting for Slack's reply to completing the upload.
    AwaitCompletion,
    /// The file was shared.
    Done,
    /// The upload failed.
    Failed,
}

/// What came of the last action.
pub enum SlackEvent {
    /// The file was read; it holds `length` bytes.
    FileRead { length: usize },
    /// Slack answered the request for an upload address: whether its `ok`
    /// was true, its `upload_url` and `file_id` where they are strings, and
    /// the reply's text for error messages.
    UploadUrlReply { ok: bool, upload_url: Option<String>, file_id: Option<String>, reply: String },
    /// Sending the bytes gave this HTTP status: its code, and its text.
    UploadStatus { code: u16, status: String },
    /// Slack answered the completion: whether its `ok` was true, and the
    /// reply's text for error messages.
    CompletionReply { ok: bool, reply: String },
}

/// What to do next.
pub enum SlackAction {
    /// Read the whole file at `path`.
    ReadFile { path: String },
    /// POST a multipart form with these text fields, in this order.
    PostForm { url: String, fields: Vec<(String, String)> },
    /// POST the file's bytes to `url`.
    PostFile { url: String },
    /// The file was shared; nothing is left to do.
    Finished,
    /// The upload failed with this message.
    Failed { message: String },
}

/// An upload in progress.
pub struct SlackUpload {
    token: String,
    channel: String,
    path: String,
    stage: Stage,
}

// ---------------------------------------------------------------------------
// Views
// ---------------------------------------------------------------------------
pub enum StageView {
    ReadFile,
    AwaitUploadUrl,
    AwaitUploadStatus { file_id: Option<Seq<char>> },
    AwaitCompletion,
    Done,
    Failed,
}

pub enum EventView {
    FileRead { length: usize },
    UploadUrlReply {
        ok: bool,
        upload_url: Option<Seq<char>>,
        file_id: Option<Seq<char>>,
        reply: Seq<char>,
    },
    UploadStatus { code: u16, status: Seq<char> },
    CompletionReply { ok: bool, reply: Seq<char> },
}

pub enum ActionView {
    ReadFile { path: Seq<char> },
    PostForm { url: Seq<char>, fields: Seq<(Seq<char>, Seq<char>)> },
    PostFile { url: Seq<char> },
    Finished,
    Failed { message: Seq<char> },
}

pub open spec fn opt_view(o: Option<String>) -> Option<Seq<char>> {
    match o {
        Some(s) => Some(s@),
        None => None,
    }
}

impl View for Stage {
    type V = StageView;

    open spec fn view(&self) -> StageView {
        match self {
            Stage::ReadFile => StageView::ReadFile,
            Stage::AwaitUploadUrl => StageView::AwaitUploadUrl,
            Stage::AwaitUploadStatus { file_id } => StageView::AwaitUploadStatus {
                file_id: opt_view(*file_id),
            },
            Stage::AwaitCompletion => StageView::AwaitCompletion,
            Stage::Done => StageView::Done,
            Stage::Failed => StageView::Failed,
        }
    }
}

impl View for SlackEvent {
    type V = EventView;

    open spec fn view(&self) -> EventView {
        match self {
            SlackEvent::FileRead { length } => EventView::FileRead { length: *length },
            SlackEvent::UploadUrlReply { ok, upload_url, file_id, reply } => EventView::UploadUrlReply {
                ok: *ok,
                upload_url: opt_view(*upload_url),
                file_id: opt_view(*file_id),
                reply: reply@,
            },
            SlackEvent::UploadStatus { code, status } => EventView::UploadStatus {
                code: *code,
                status: status@,
            },
            SlackEvent::CompletionReply { ok, reply } => EventView::CompletionReply {
                ok: *ok,
                reply: reply@,
            },
        }
    }
}

impl View for SlackAction {
    type V = ActionView;

    open spec fn view(&self) -> ActionView {
        match self {
            SlackAction::ReadFile { path } => ActionView::ReadFile { path: path@ },
            SlackAction::PostForm { url, fields } => ActionView::PostForm {
                url: url@,
                fields: fields_view(fields@),
            },
            SlackAction::PostFile { url } => ActionView::PostFile { url: url@ },
            SlackAction::Finished => ActionView::Finished,
            SlackAction::Failed { message } => ActionView::Failed { message: message@ },
        }
    }
}

// ---------------------------------------------------------------------------
// The protocol
// ---------------------------------------------------------------------------
/// The form that asks Slack for an upload address.
pub open spec fn upload_url_form(length: usize, path: Seq<char>, token: Seq<char>) -> Seq<(Seq<char>, Seq<char>)> {
    seq![("length"@, decimal(length as nat)), ("filename"@, path), ("token"@, token)]
}

/// The JSON list that names the uploaded file and its title,
/// `[{"id":file_id,"title":path}]`.
pub open spec fn files_json(file_id: Seq<char>, path: Seq<char>) -> Seq<char> {
    object_list_text("id"@, file_id, "title"@, path)
}

/// The form that completes the upload and shares the file in the channel.
pub open spec fn completion_form(file_id: Seq<char>, path: Seq<char>, token: Seq<char>, channel: Seq<char>) -> Seq<(Seq<char>, Seq<char>)> {
    seq![("files"@, files_json(file_id, path)), ("token"@, token), ("channel_id"@, channel)]
}

/// Whether the event is one that the stage waits for, with what the
/// protocol cannot go on without: an upload address in a reply that says
/// ok, and the file's id once the bytes were sent with status 200.
pub open spec fn stage_accepts(stage: StageView, event: EventView) -> bool {
    match (stage, event) {
        (StageView::ReadFile, EventView::FileRead { .. }) => true,
        (StageView::AwaitUploadUrl, EventView::UploadUrlReply { ok, upload_url, .. }) => ok
            ==> upload_url is Some,
        (StageView::AwaitUploadStatus { file_id }, EventView::UploadStatus { code, .. }) => code
            == 200 ==> file_id is Some,
        (StageView::AwaitCompletion, EventView::CompletionReply { .. }) => true,
        _ => false,
    }
}

/// One step of the upload: the stage it moves to and the action to take.
pub open spec fn upload_step(
    token: Seq<char>,
    channel: Seq<char>,
    path: Seq<char>,
    stage: StageView,
    event: EventView,
) -> (StageView, ActionView) {
    match (stage, event) {
        (StageView::ReadFile, EventView::FileRead { length }) => (
            StageView::AwaitUploadUrl,
            ActionView::PostForm {
                url: GET_UPLOAD_URL@,
                fields: upload_url_form(length, path, token),
            },
        ),
        (StageView::AwaitUploadUrl, EventView::UploadUrlReply { ok, upload_url, file_id, reply }) => {
            if ok {
                (
                    StageView::AwaitUploadStatus { file_id },
                    ActionView::PostFile { url: upload_url->0 },
                )
            } else {
                (
                    StageView::Failed,
                    ActionView::Failed {
                        message: "non-ok response on getUploadURLExternal: "@ + reply,
                    },
                )
            }
        },
        (StageView::AwaitUploadStatus { file_id }, EventView::UploadStatus { code, status }) => {
            if code == 200 {
                (
                    StageView::AwaitCompletion,
                    ActionView::PostForm {
                        url: COMPLETE_UPLOAD@,
                        fields: completion_form(file_id->0, path, token, channel),
                    },
                )
            } else {
                (
                    StageView::Failed,
                    ActionView::Failed { message: "non-200 response on upload_url: "@ + status },
                )
            }
        },
        (StageView::AwaitCompletion, EventView::CompletionReply { ok, reply }) => {
            if ok {
                (StageView::Done, ActionView::Finished)
            } else {
                (
                    StageView::Failed,
                    ActionView::Failed {
                        message: "non-ok response on completeUploadExternal: "@ + reply,
                    },
                )
            }
        },
        _ => (stage, ActionView::Failed { message: Seq::empty() }),
    }
}

fn field(name: &str, value: String) -> (f: (String, String))
    ensures
        f.0@ == name@,
        f.1@ == value@,
{
    (String::from_str(name), value)
}

fn copy_string(s: &String) -> (r: String)
    ensures
        r@ == s@,
{
    s.clone()
}

fn message(prefix: &str, detail: &String) -> (m: String)
    ensures
        m@ == prefix@ + detail@,
{
    let mut m = String::from_str(prefix);
    m.append(detail.as_str());
    m
}

impl SlackFileSender {
    pub closed spec fn token(&self) -> Seq<char> {
        self.token@
    }

    pub closed spec fn channel(&self) -> Seq<char> {
        self.channel@
    }

    /// A sender with bot token `token` that shares files in `channel`.
    pub fn new(token: String, channel: String) -> (s: SlackFileSender)
        ensures
            s.token() == token@,
            s.channel() == channel@,
    {
        SlackFileSender { token, channel }
    }

    /// Begins sending the file at `path`: first its contents are read.
    pub fn send_file(&self, path: &str) -> (r: (SlackUpload, SlackAction))
        ensures
            r.0.token() == self.token(),
            r.0.channel() == self.channel(),
            r.0.path() == path@,
            r.0.stage() == StageView::ReadFile,
            r.1@ == (ActionView::ReadFile { path: path@ }),
    {
        let upload = SlackUpload {
            token: copy_string(&self.token),
            channel: copy_string(&self.channel),
            path: String::from_str(path),
            stage: Stage::ReadFile,
        };
        (upload, SlackAction::ReadFile { path: String::from_str(path) })
    }
}

impl SlackUpload {
    pub closed spec fn token(&self) -> Seq<char> {
        self.token@
    }

    pub closed spec fn channel(&self) -> Seq<char> {
        self.channel@
    }

    pub closed spec fn path(&self) -> Seq<char> {
        self.path@
    }

    pub closed spec fn stage(&self) -> StageView {
        self.stage@
    }

    /// Whether the upload is over, done or failed.
    pub fn is_over(&self) -> (b: bool)
        ensures
            b == (self.stage() is Done || self.stage() is Failed),
    {
        match self.stage {
            Stage::Done | Stage::Failed => true,
            _ => false,
        }
    }

    /// Whether the upload waits for Slack's answer to the request for an
    /// upload address (rather than to the completion).
    pub fn awaits_upload_url(&self) -> (b: bool)
        ensures
            b == (self.stage() is AwaitUploadUrl),
    {
        match self.stage {
            Stage::AwaitUploadUrl => true,
            _ => false,
        }
    }

    /// Whether `event` is one the upload can take now (see
    /// `stage_accepts`); where it is not, the upload cannot go on.
    pub fn accepts(&self, event: &SlackEvent) -> (b: bool)
        ensures
            b == stage_accepts(self.stage(), event@),
    {
        match (&self.stage, event) {
            (Stage::ReadFile, SlackEvent::FileRead { .. }) => true,
            (Stage::AwaitUploadUrl, SlackEvent::UploadUrlReply { ok, upload_url, .. }) => !*ok
                || upload_url.is_some(),
            (Stage::AwaitUploadStatus { file_id }, SlackEvent::UploadStatus { code, .. }) => *code
                != 200 || file_id.is_some(),
            (Stage::AwaitCompletion, SlackEvent::CompletionReply { .. }) => true,
            _ => false,
        }
    }

    /// Takes what came of the last action and gives the next one.
    pub fn step(&mut self, event: SlackEvent) -> (action: SlackAction)
        requires
            stage_accepts(old(self).stage(), event@),
        ensures
            final(self).token() == old(self).token(),
            final(self).channel() == old(self).channel(),
            final(self).path() == old(self).path(),
            (final(self).stage(), action@) == upload_step(
                old(self).token(),
                old(self).channel(),
                old(self).path(),
                old(self).stage(),
                event@,
            ),
    {
        let mut stage = Stage::Failed;
        std::mem::swap(&mut stage, &mut self.stage);
        match (stage, event) {
            (Stage::ReadFile, SlackEvent::FileRead { length }) => {
                let mut fields: Vec<(String, String)> = Vec::new();
                fields.push(field("length", decimal_text(length)));
                fields.push(field("filename", copy_string(&self.path)));
                fields.push(field("token", copy_string(&self.token)));
                assert(fields_view(fields@) =~= upload_url_form(length, self.path@, self.token@));
                self.stage = Stage::AwaitUploadUrl;
                SlackAction::PostForm { url: String::from_str(GET_UPLOAD_URL), fields }
            },
            (Stage::AwaitUploadUrl, SlackEvent::UploadUrlReply { ok, upload_url, file_id, reply }) => {
                if ok {
                    let url = match upload_url {
                        Some(u) => u,
                        None => String::new(),
                    };
                    self.stage = Stage::AwaitUploadStatus { file_id };
                    SlackAction::PostFile { url }
                } else {
                    SlackAction::Failed {
                        message: message("non-ok response on getUploadURLExternal: ", &reply),
                    }
                }
            },
            (Stage::AwaitUploadStatus { file_id }, SlackEvent::UploadStatus { code, status }) => {
                if code == 200 {
                    let id = match file_id {
                        Some(f) => f,
                        None => String::new(),
                    };
                    let files = object_list("id", id.as_str(), "title", self.path.as_str());
                    let mut fields: Vec<(String, String)> = Vec::new();
                    fields.push(field("files", files));
                    fields.push(field("token", copy_string(&self.token)));
                    fields.push(field("channel_id", copy_string(&self.channel)));
                    assert(fields_view(fields@) =~= completion_form(
                        id@,
                        self.path@,
                        self.token@,
                        self.channel@,
                    ));
                    self.stage = Stage::AwaitCompletion;
                    SlackAction::PostForm { url: String::from_str(COMPLETE_UPLOAD), fields }
                } else {
                    SlackAction::Failed {
                        message: message("non-200 response on upload_url: ", &status),
                    }
                }
            },
            (Stage::AwaitCompletion, SlackEvent::CompletionReply { ok, reply }) => {
                if ok {
                    self.stage = Stage::Done;
                    SlackAction::Finished
                } else {
                    SlackAction::Failed {
                        message: message("non-ok response on completeUploadExternal: ", &reply),
                    }
                }
            },
            (stage, _) => {
                assert(false);
                self.stage = stage;
                SlackAction::Failed { message: String::new() }
            },
        }
    }
}

/// The request for an upload address tells Slack the file's size exactly:
/// once the file is read, the upload posts to `files.getUploadURLExternal`
/// a form whose `length` field reads back as the number of bytes read, and
/// whose other fields name the file and carry the token.
pub proof fn law_upload_form_states_the_length(
    token: Seq<char>,
    channel: Seq<char>,
    path: Seq<char>,
    length: usize,
)
    ensures
        ({
            let (next, action) = upload_step(
                token,
                channel,
                path,
                StageView::ReadFile,
                EventView::FileRead { length },
            );
            &&& next is AwaitUploadUrl
            &&& action matches ActionView::PostForm { url, fields } && url == GET_UPLOAD_URL@
                && fields.len() == 3 && fields[0].0 == "length"@ && parse_usize_spec(fields[0].1)
                == Some(length) && fields[1] == ("filename"@, path) && fields[2] == ("token"@, token)
        }),
{
    law_parse_decimal_round_trip(length);
}

/// How far along the protocol a stage is.
pub open spec fn stage_progress(stage: StageView) -> int {
    match stage {
        StageView::ReadFile => 0,
        StageView::AwaitUploadUrl => 1,
        StageView::AwaitUploadStatus { .. } => 2,
        StageView::AwaitCompletion => 3,
        StageView::Done => 4,
        StageView::Failed => 4,
    }
}

/// Every step of an upload moves it forward, so that an upload is over
/// after at most four steps; once over it takes no event. Every form it
/// posts carries the sender's token, the file's bytes go only to the
/// address that Slack named, and the upload is over exactly when the
/// action says it finished or failed.
pub proof fn law_upload_progresses(
    token: Seq<char>,
    channel: Seq<char>,
    path: Seq<char>,
    stage: StageView,
    event: EventView,
)
    requires
        stage_accepts(stage, event),
    ensures
        ({
            let (next, action) = upload_step(token, channel, path, stage, event);
            &&& stage_progress(next) > stage_progress(stage)
            &&& (next is Done || next is Failed) ==> forall|e: EventView| !stage_accepts(next, e)
            &&& (next is Done || next is Failed) <==> (action is Finished || action is Failed)
            &&& action matches ActionView::PostForm { fields, .. } ==> fields.contains(
                ("token"@, token),
            )
            &&& action matches ActionView::PostFile { url } ==> event matches EventView::UploadUrlReply {
                upload_url,
                ..
            } && upload_url == Some(url)
        }),
{
    let (next, action) = upload_step(token, channel, path, stage, event);
    match action {
        ActionView::PostForm { fields, .. } => {
            if stage is ReadFile {
                assert(fields[2] == ("token"@, token));
            } else {
                assert(fields[1] == ("token"@, token));
            }
        },
        _ => {},
    }
}

} // verus!
