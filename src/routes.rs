//! What each route decides. A route turns a request into a `Plan`: either a
//! reply straight away, or one storage operation for the caller to carry out.
//! `reply` then turns the operation's `Outcome` into the response.
use vstd::prelude::*;
use vstd::string::StringExecFns;
use crate::auth::{authorized, is_authorized, token_view};
use crate::paste_id::{join, name_error, is_alphanumeric, PasteId};

verus! {

/// The usage text served at the root.
pub const USAGE: &'static str = "
    USAGE

      POST /

          accepts raw data in the body of the request and responds with a URL of
          a page containing the body's content

      GET /<id>

          retrieves the content for the paste with id `<id>`

      PUT /<filename>

          same as POST / but makes a file with the appended name
          requires authentication

      DELETE /<filename>

          removes the paste with the given name
          requires authentication
    ";

/// GET of a name that holds no paste.
pub const NOT_FOUND: &'static str = "Not found";

/// PUT or DELETE without the right token.
pub const UNAUTHORIZED: &'static str = "Unauthorized";

/// PUT or DELETE of a name that cannot be a file name here.
pub const INVALID_NAME: &'static str = "Invalid identifier";

/// PUT of a name that already holds a paste.
pub const CONFLICT: &'static str = "Cannot PUT: id exists";

/// Any other storage failure; no path is ever shown.
pub const INTERNAL_ERROR: &'static str = "Internal error";

/// Start of the confirmation of a DELETE, followed by the name.
pub const DELETED: &'static str = "Deleted: ";

/// What the service is configured with.
pub struct Config {
    /// The public base URL that links to pastes start with.
    pub host: String,
    /// The token that PUT and DELETE must carry.
    pub secret: String,
    /// The directory that holds one file per paste.
    pub root: String,
    /// The length of generated identifiers.
    pub id_length: usize,
}

impl Config {
    /// Generated identifiers are usable names.
    pub open spec fn wf(&self) -> bool {
        1 <= self.id_length <= crate::paste_id::MAX_NAME_LEN
    }
}

/// A response.
#[derive(Debug, PartialEq, Eq)]
pub enum Reply {
    /// A short plain-text message with its HTTP status.
    Text { status: u16, text: String },
    /// A paste's bytes, served with status 200.
    Content { bytes: Vec<u8> },
}

/// A `Reply` as values.
pub enum ReplyView {
    Text { status: u16, text: Seq<char> },
    Content { bytes: Seq<u8> },
}

impl View for Reply {
    type V = ReplyView;

    open spec fn view(&self) -> ReplyView {
        match self {
            Reply::Text { status, text } => ReplyView::Text { status: *status, text: text@ },
            Reply::Content { bytes } => ReplyView::Content { bytes: bytes@ },
        }
    }
}

/// What a route asks for.
#[derive(Debug, PartialEq, Eq)]
pub enum Plan {
    /// Answer without touching storage.
    Respond { reply: Reply },
    /// Read the file at `path`.
    Fetch { path: String },
    /// Write `body` to `path`, replacing any file there; link to `url`.
    Store { path: String, body: Vec<u8>, url: String },
    /// Create `path` holding `body` only if no file is there (one atomic
    /// step); link to `url`.
    Create { path: String, body: Vec<u8>, url: String },
    /// Remove the file at `path` if there is one; report `name`.
    Remove { path: String, name: String },
}

/// A `Plan` as values.
pub enum PlanView {
    Respond { reply: ReplyView },
    Fetch { path: Seq<char> },
    Store { path: Seq<char>, body: Seq<u8>, url: Seq<char> },
    Create { path: Seq<char>, body: Seq<u8>, url: Seq<char> },
    Remove { path: Seq<char>, name: Seq<char> },
}

impl View for Plan {
    type V = PlanView;

    open spec fn view(&self) -> PlanView {
        match self {
            Plan::Respond { reply } => PlanView::Respond { reply: reply@ },
            Plan::Fetch { path } => PlanView::Fetch { path: path@ },
            Plan::Store { path, body, url } => PlanView::Store {
                path: path@,
                body: body@,
                url: url@,
            },
            Plan::Create { path, body, url } => PlanView::Create {
                path: path@,
                body: body@,
                url: url@,
            },
            Plan::Remove { path, name } => PlanView::Remove { path: path@, name: name@ },
        }
    }
}

/// How a storage operation went.
#[derive(Debug, PartialEq, Eq)]
pub enum Outcome {
    /// Written, created or removed.
    Done,
    /// The file's bytes.
    Contents(Vec<u8>),
    /// No file was there.
    Missing,
    /// A file was already there, and was left alone.
    Exists,
    /// Any other storage error.
    Failed,
}

/// An `Outcome` as values.
pub enum OutcomeView {
    Done,
    Contents(Seq<u8>),
    Missing,
    Exists,
    Failed,
}

impl View for Outcome {
    type V = OutcomeView;

    open spec fn view(&self) -> OutcomeView {
        match self {
            Outcome::Done => OutcomeView::Done,
            Outcome::Contents(b) => OutcomeView::Contents(b@),
            Outcome::Missing => OutcomeView::Missing,
            Outcome::Exists => OutcomeView::Exists,
            Outcome::Failed => OutcomeView::Failed,
        }
    }
}

/// A plain-text reply.
pub open spec fn text(status: u16, t: Seq<char>) -> ReplyView {
    ReplyView::Text { status, text: t }
}

/// A plan that answers with a plain-text reply and touches nothing.
pub open spec fn respond(status: u16, t: Seq<char>) -> PlanView {
    PlanView::Respond { reply: text(status, t) }
}

/// GET of `name`: read its file, or 404 for a name that no paste can have.
pub open spec fn retrieve_plan(cfg: Config, name: Seq<char>) -> PlanView {
    if name_error(name) is None {
        PlanView::Fetch { path: join(cfg.root@, name) }
    } else {
        respond(404, NOT_FOUND@)
    }
}

/// POST under the generated identifier `id`.
pub open spec fn upload_plan(cfg: Config, id: Seq<char>, body: Seq<u8>) -> PlanView {
    PlanView::Store { path: join(cfg.root@, id), body, url: join(cfg.host@, id) }
}

/// PUT of `body` under `name`: the token is checked before anything else.
pub open spec fn upload_path_plan(
    cfg: Config,
    name: Seq<char>,
    token: Option<Seq<char>>,
    body: Seq<u8>,
) -> PlanView {
    if !is_authorized(token, cfg.secret@) {
        respond(401, UNAUTHORIZED@)
    } else if name_error(name) is Some {
        respond(400, INVALID_NAME@)
    } else {
        PlanView::Create { path: join(cfg.root@, name), body, url: join(cfg.host@, name) }
    }
}

/// DELETE of `name`: the token is checked before anything else.
pub open spec fn delete_plan(cfg: Config, name: Seq<char>, token: Option<Seq<char>>) -> PlanView {
    if !is_authorized(token, cfg.secret@) {
        respond(401, UNAUTHORIZED@)
    } else if name_error(name) is Some {
        respond(400, INVALID_NAME@)
    } else {
        PlanView::Remove { path: join(cfg.root@, name), name }
    }
}

/// The response once the storage operation of `plan` ended in `outcome`.
/// Error texts never contain a path.
pub open spec fn reply_for(plan: PlanView, outcome: OutcomeView) -> ReplyView {
    match plan {
        PlanView::Respond { reply } => reply,
        PlanView::Fetch { .. } => match outcome {
            OutcomeView::Contents(b) => ReplyView::Content { bytes: b },
            OutcomeView::Missing => text(404, NOT_FOUND@),
            _ => text(500, INTERNAL_ERROR@),
        },
        PlanView::Store { url, .. } => match outcome {
            OutcomeView::Done => text(200, url),
            _ => text(500, INTERNAL_ERROR@),
        },
        PlanView::Create { url, .. } => match outcome {
            OutcomeView::Done => text(200, url),
            OutcomeView::Exists => text(409, CONFLICT@),
            _ => text(500, INTERNAL_ERROR@),
        },
        PlanView::Remove { name, .. } => match outcome {
            OutcomeView::Done | OutcomeView::Missing => text(200, DELETED@ + name),
            _ => text(500, INTERNAL_ERROR@),
        },
    }
}

/// The usage text.
pub fn index() -> (r: &'static str)
    ensures
        r@ == USAGE@,
{
    USAGE
}

/// GET /<name>.
pub fn retrieve(cfg: &Config, name: &str) -> (r: Plan)
    ensures
        r@ == retrieve_plan(*cfg, name@),
{
    match PasteId::from_raw(name) {
        Ok(id) => Plan::Fetch { path: id.to_path(cfg.root.as_str()) },
        Err(_) => Plan::Respond {
            reply: Reply::Text { status: 404, text: String::from_str(NOT_FOUND) },
        },
    }
}

/// POST / under a given identifier.
pub fn upload_as(cfg: &Config, id: &PasteId, body: Vec<u8>) -> (r: Plan)
    ensures
        r@ == upload_plan(*cfg, id@, body@),
{
    Plan::Store {
        path: id.to_path(cfg.root.as_str()),
        body,
        url: id.to_path(cfg.host.as_str()),
    }
}

/// POST /: stores `body` under a fresh random identifier.
pub fn upload(cfg: &Config, body: Vec<u8>) -> (r: Plan)
    ensures
        exists|id: Seq<char>|
            #![trigger upload_plan(*cfg, id, body@)]
            id.len() == cfg.id_length && (forall|i: int|
                0 <= i < id.len() ==> is_alphanumeric(#[trigger] id[i])) && (cfg.wf()
                ==> name_error(id) is None) && r@ == upload_plan(*cfg, id, body@),
{
    let id = PasteId::new(cfg.id_length);
    upload_as(cfg, &id, body)
}

/// PUT /<name>.
pub fn upload_path(cfg: &Config, name: &str, token: Option<&str>, body: Vec<u8>) -> (r: Plan)
    ensures
        r@ == upload_path_plan(*cfg, name@, token_view(token), body@),
{
    if !authorized(token, cfg.secret.as_str()) {
        return Plan::Respond {
            reply: Reply::Text { status: 401, text: String::from_str(UNAUTHORIZED) },
        };
    }
    match PasteId::from_raw(name) {
        Ok(id) => Plan::Create {
            path: id.to_path(cfg.root.as_str()),
            body,
            url: id.to_path(cfg.host.as_str()),
        },
        Err(_) => Plan::Respond {
            reply: Reply::Text { status: 400, text: String::from_str(INVALID_NAME) },
        },
    }
}

/// DELETE /<name>.
pub fn delete(cfg: &Config, name: &str, token: Option<&str>) -> (r: Plan)
    ensures
        r@ == delete_plan(*cfg, name@, token_view(token)),
{
    if !authorized(token, cfg.secret.as_str()) {
        return Plan::Respond {
            reply: Reply::Text { status: 401, text: String::from_str(UNAUTHORIZED) },
        };
    }
    match PasteId::from_raw(name) {
        Ok(id) => Plan::Remove {
            path: id.to_path(cfg.root.as_str()),
            name: String::from_str(id.as_str()),
        },
        Err(_) => Plan::Respond {
            reply: Reply::Text { status: 400, text: String::from_str(INVALID_NAME) },
        },
    }
}

fn message(status: u16, t: &str) -> (r: Reply)
    ensures
        r@ == text(status, t@),
{
    Reply::Text { status, text: String::from_str(t) }
}

/// The response to a request whose plan was `plan` and whose storage
/// operation, if any, ended in `outcome`.
pub fn reply(plan: Plan, outcome: Outcome) -> (r: Reply)
    ensures
        r@ == reply_for(plan@, outcome@),
{
    match plan {
        Plan::Respond { reply } => reply,
        Plan::Fetch { .. } => match outcome {
            Outcome::Contents(bytes) => Reply::Content { bytes },
            Outcome::Missing => message(404, NOT_FOUND),
            _ => message(500, INTERNAL_ERROR),
        },
        Plan::Store { url, .. } => match outcome {
            Outcome::Done => Reply::Text { status: 200, text: url },
            _ => message(500, INTERNAL_ERROR),
        },
        Plan::Create { url, .. } => match outcome {
            Outcome::Done => Reply::Text { status: 200, text: url },
            Outcome::Exists => message(409, CONFLICT),
            _ => message(500, INTERNAL_ERROR),
        },
        Plan::Remove { name, .. } => match outcome {
            Outcome::Done | Outcome::Missing => {
                let mut t = String::from_str(DELETED);
                t.append(name.as_str());
                Reply::Text { status: 200, text: t }
            },
            _ => message(500, INTERNAL_ERROR),
        },
    }
}

} // verus!
