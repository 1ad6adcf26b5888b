//! One user's synchronisation, as a sequence of outside requests.
//!
//! The library decides, the caller performs. `begin` gives the first request
//! of a synchronisation; the caller carries it out and hands the outcome to
//! `update_profile`, which gives the next one, until the request is `Finish`
//! or `Abort`. The order is fixed: the page is fetched, the title is written
//! to the user store, the cover is cached, the profile fields are written,
//! the photo is uploaded. The first failure ends the synchronisation: what
//! would have followed is not attempted.

use vstd::prelude::*;
use vstd::string::*;
use crate::book::{
    book_view, get_book_info, page_address, profile_url, scrape, BookInfo, BookInfoView,
};
use crate::cover::{cover_path, path_text};
use crate::error::{Cause, CauseView, ExtractionError, MyError, MyErrorView, Step};
use crate::profile::{build_fields, check_reply, fields_for, ProfileFields, ProfileFieldsView};
use crate::structs::{AppUser, AppUserView, ResponseSuccess, UserProfileGet};

verus! {

/// The outcome of a request, as the caller reports it.
#[derive(Debug)]
pub enum Event {
    /// The reading page was fetched; this is its text.
    Page(String),
    /// The user store took the title.
    TitlePersisted,
    /// The cover store was asked; `true` if it holds the cover.
    CoverLookup(bool),
    /// The cover image was downloaded; these are its bytes.
    CoverDownloaded(Vec<u8>),
    /// The cover store took the image.
    CoverStored,
    /// The profile was read.
    Emoji(UserProfileGet),
    /// The profile API answered a write of fields.
    FieldsReply(ResponseSuccess),
    /// The profile API answered an upload of the photo.
    PhotoReply(ResponseSuccess),
    /// The request could not be carried out.
    Fault(Cause),
}

/// An outcome with its strings as sequences.
pub enum EventView {
    Page(Seq<char>),
    TitlePersisted,
    CoverLookup(bool),
    CoverDownloaded(Seq<u8>),
    CoverStored,
    Emoji(Seq<char>),
    FieldsReply { ok: bool, error: Seq<char> },
    PhotoReply { ok: bool, error: Seq<char> },
    Fault(CauseView),
}

impl View for Event {
    type V = EventView;

    open spec fn view(&self) -> EventView {
        match self {
            Event::Page(text) => EventView::Page(text@),
            Event::TitlePersisted => EventView::TitlePersisted,
            Event::CoverLookup(held) => EventView::CoverLookup(*held),
            Event::CoverDownloaded(image) => EventView::CoverDownloaded(image@),
            Event::CoverStored => EventView::CoverStored,
            Event::Emoji(answer) => EventView::Emoji(answer.profile.status_emoji@),
            Event::FieldsReply(reply) => EventView::FieldsReply {
                ok: reply.ok,
                error: reply.error@,
            },
            Event::PhotoReply(reply) => EventView::PhotoReply { ok: reply.ok, error: reply.error@ },
            Event::Fault(cause) => EventView::Fault(cause@),
        }
    }
}

/// What the caller is asked to do next.
#[derive(Debug, PartialEq, Eq)]
pub enum Action {
    /// Fetch the reading page at `url`; answer with `Page`.
    FetchPage { url: String },
    /// Write `title` to the row of user `id`; answer with `TitlePersisted`.
    PersistTitle { id: String, title: String },
    /// Ask the cover store whether `path` exists; answer with `CoverLookup`.
    LookupCover { path: String },
    /// Download the image at `url`; answer with `CoverDownloaded`.
    DownloadCover { url: String },
    /// Write `image` to `path`; answer with `CoverStored`.
    StoreCover { path: String, image: Vec<u8> },
    /// Read the profile of the owner of `token`; answer with `Emoji`.
    GetStatusEmoji { token: String },
    /// Write `fields` to the profile; answer with `FieldsReply`.
    SetProfileFields { token: String, fields: ProfileFields },
    /// Upload the file at `path` as the profile photo; answer with `PhotoReply`.
    SetPhoto { token: String, path: String },
    /// The synchronisation is complete. Nothing is left to do.
    Finish,
    /// The synchronisation has failed. Nothing more is attempted.
    Abort(MyError),
}

/// A request with its strings as sequences.
pub enum ActionView {
    FetchPage { url: Seq<char> },
    PersistTitle { id: Seq<char>, title: Seq<char> },
    LookupCover { path: Seq<char> },
    DownloadCover { url: Seq<char> },
    StoreCover { path: Seq<char>, image: Seq<u8> },
    GetStatusEmoji { token: Seq<char> },
    SetProfileFields { token: Seq<char>, fields: ProfileFieldsView },
    SetPhoto { token: Seq<char>, path: Seq<char> },
    Finish,
    Abort(MyErrorView),
}

impl View for Action {
    type V = ActionView;

    open spec fn view(&self) -> ActionView {
        match self {
            Action::FetchPage { url } => ActionView::FetchPage { url: url@ },
            Action::PersistTitle { id, title } => ActionView::PersistTitle {
                id: id@,
                title: title@,
            },
            Action::LookupCover { path } => ActionView::LookupCover { path: path@ },
            Action::DownloadCover { url } => ActionView::DownloadCover { url: url@ },
            Action::StoreCover { path, image } => ActionView::StoreCover {
                path: path@,
                image: image@,
            },
            Action::GetStatusEmoji { token } => ActionView::GetStatusEmoji { token: token@ },
            Action::SetProfileFields { token, fields } => ActionView::SetProfileFields {
                token: token@,
                fields: fields@,
            },
            Action::SetPhoto { token, path } => ActionView::SetPhoto { token: token@, path: path@ },
            Action::Finish => ActionView::Finish,
            Action::Abort(err) => ActionView::Abort(err@),
        }
    }
}

impl ActionView {
    /// Whether the request ends the synchronisation.
    pub open spec fn is_final(self) -> bool {
        self is Finish || self is Abort
    }

    /// Whether the request goes to the profile API.
    pub open spec fn is_profile_call(self) -> bool {
        self is GetStatusEmoji || self is SetProfileFields || self is SetPhoto
    }

    /// Whether the request goes to the cover store or fetches a cover.
    pub open spec fn is_cache_call(self) -> bool {
        self is LookupCover || self is DownloadCover || self is StoreCover
    }
}

/// Where a synchronisation stands.
#[derive(Debug, PartialEq, Eq)]
pub enum Status {
    /// The page has been asked for. No book is known yet.
    Scraping,
    /// The book is known, and the request of the given step is under way.
    Working(Step, BookInfo),
    /// Everything that the user chose has been done.
    Done,
    /// A request failed, and nothing was attempted after it.
    Failed(MyError),
}

/// A status with its strings as sequences.
pub enum StatusView {
    Scraping,
    Working(Step, BookInfoView),
    Done,
    Failed(MyErrorView),
}

impl View for Status {
    type V = StatusView;

    open spec fn view(&self) -> StatusView {
        match self {
            Status::Scraping => StatusView::Scraping,
            Status::Working(at, book) => StatusView::Working(*at, book@),
            Status::Done => StatusView::Done,
            Status::Failed(err) => StatusView::Failed(err@),
        }
    }
}

/// A synchronisation in progress: the user row as it stands, and the status.
#[derive(Debug)]
pub struct Sync {
    pub user: AppUser,
    pub status: Status,
}

/// A synchronisation with its strings as sequences.
pub struct SyncView {
    pub user: AppUserView,
    pub status: StatusView,
}

impl View for Sync {
    type V = SyncView;

    open spec fn view(&self) -> SyncView {
        SyncView { user: self.user@, status: self.status@ }
    }
}

impl SyncView {
    /// Whether the synchronisation has ended, well or badly.
    pub open spec fn is_over(self) -> bool {
        self.status is Done || self.status is Failed
    }
}

/// The cause that is recorded when an outcome answers another request than
/// the one under way.
pub open spec fn unexpected() -> CauseView {
    CauseView::Malformed("unexpected reply"@)
}

/// The synchronisation stops at `at` because of `cause`.
pub open spec fn failed(user: AppUserView, at: Step, cause: CauseView) -> (SyncView, ActionView) {
    let err = MyErrorView { step: at, cause };
    (SyncView { user, status: StatusView::Failed(err) }, ActionView::Abort(err))
}

/// What follows the profile fields: the photo, if the user chose it.
pub open spec fn after_fields(user: AppUserView, book: BookInfoView) -> (SyncView, ActionView) {
    if user.update_picture {
        (
            SyncView { user, status: StatusView::Working(Step::UploadingPhoto, book) },
            ActionView::SetPhoto { token: user.access_token, path: path_text(book.title) },
        )
    } else {
        (SyncView { user, status: StatusView::Done }, ActionView::Finish)
    }
}

/// What follows the cover: a read of the emoji if the status is to be
/// written, else a write of the title alone if the user chose that, else
/// whatever follows the fields.
pub open spec fn after_cover(user: AppUserView, book: BookInfoView) -> (SyncView, ActionView) {
    if user.update_status {
        (
            SyncView { user, status: StatusView::Working(Step::ReadingEmoji, book) },
            ActionView::GetStatusEmoji { token: user.access_token },
        )
    } else if user.update_title {
        (
            SyncView { user, status: StatusView::Working(Step::WritingTitle, book) },
            ActionView::SetProfileFields {
                token: user.access_token,
                fields: fields_for(false, true, book.title, Seq::empty()),
            },
        )
    } else {
        after_fields(user, book)
    }
}

/// What follows the page: its book is recorded on the user row and sent to
/// the user store, whatever the user chose; a page without a book ends the
/// synchronisation.
pub open spec fn scraped(user: AppUserView, found: Result<BookInfoView, ExtractionError>) -> (
    SyncView,
    ActionView,
) {
    match found {
        Err(e) => failed(user, Step::Scraping, CauseView::Extraction(e)),
        Ok(book) => (
            SyncView {
                user: AppUserView { title: Some(book.title), ..user },
                status: StatusView::Working(Step::Persisting, book),
            },
            ActionView::PersistTitle { id: user.id, title: book.title },
        ),
    }
}

/// What follows an answer of the profile API: the next request if it says
/// `ok`, the end of the synchronisation with the reason it gave if not.
pub open spec fn replied(
    user: AppUserView,
    at: Step,
    ok: bool,
    error: Seq<char>,
    next: (SyncView, ActionView),
) -> (SyncView, ActionView) {
    if ok {
        next
    } else {
        failed(user, at, CauseView::RemoteLogical(error))
    }
}

/// What follows the outcome `e` of the request of step `at`.
pub open spec fn answered(user: AppUserView, at: Step, book: BookInfoView, e: EventView) -> (
    SyncView,
    ActionView,
) {
    match (at, e) {
        (_, EventView::Fault(cause)) => failed(user, at, cause),
        (Step::Scraping, EventView::Page(text)) => scraped(user, scrape(text)),
        (Step::Persisting, EventView::TitlePersisted) => (
            SyncView { user, status: StatusView::Working(Step::Probing, book) },
            ActionView::LookupCover { path: path_text(book.title) },
        ),
        (Step::Probing, EventView::CoverLookup(held)) => if held {
            after_cover(user, book)
        } else {
            (
                SyncView { user, status: StatusView::Working(Step::Downloading, book) },
                ActionView::DownloadCover { url: book.cover },
            )
        },
        (Step::Downloading, EventView::CoverDownloaded(image)) => (
            SyncView { user, status: StatusView::Working(Step::Storing, book) },
            ActionView::StoreCover { path: path_text(book.title), image },
        ),
        (Step::Storing, EventView::CoverStored) => after_cover(user, book),
        (Step::ReadingEmoji, EventView::Emoji(emoji)) => (
            SyncView { user, status: StatusView::Working(Step::WritingStatus, book) },
            ActionView::SetProfileFields {
                token: user.access_token,
                fields: fields_for(true, user.update_title, book.title, emoji),
            },
        ),
        (Step::WritingStatus, EventView::FieldsReply { ok, error }) => replied(
            user,
            at,
            ok,
            error,
            after_fields(user, book),
        ),
        (Step::WritingTitle, EventView::FieldsReply { ok, error }) => replied(
            user,
            at,
            ok,
            error,
            after_fields(user, book),
        ),
        (Step::UploadingPhoto, EventView::PhotoReply { ok, error }) => replied(
            user,
            at,
            ok,
            error,
            (SyncView { user, status: StatusView::Done }, ActionView::Finish),
        ),
        _ => failed(user, at, unexpected()),
    }
}

/// How a synchronisation starts: a user without a reading profile has
/// nothing to synchronise; for any other the reading page is fetched.
pub open spec fn start(user: AppUserView) -> (SyncView, ActionView) {
    match user.profile_id {
        None => (SyncView { user, status: StatusView::Done }, ActionView::Finish),
        Some(profile_id) => (
            SyncView { user, status: StatusView::Scraping },
            ActionView::FetchPage { url: page_address(profile_id) },
        ),
    }
}

/// How a synchronisation goes on when the outcome `e` of its last request
/// comes in. One that has ended stays as it is and repeats its last word.
pub open spec fn step(s: SyncView, e: EventView) -> (SyncView, ActionView) {
    match s.status {
        StatusView::Done => (s, ActionView::Finish),
        StatusView::Failed(err) => (s, ActionView::Abort(err)),
        StatusView::Scraping => match e {
            EventView::Fault(cause) => failed(s.user, Step::Scraping, cause),
            EventView::Page(text) => scraped(s.user, scrape(text)),
            _ => failed(s.user, Step::Scraping, unexpected()),
        },
        StatusView::Working(at, book) => answered(s.user, at, book, e),
    }
}

/// The synchronisation stops at `at` because of `cause`.
fn fail(user: AppUser, at: Step, cause: Cause) -> (r: (Sync, Action))
    ensures
        (r.0@, r.1@) == failed(user@, at, cause@),
{
    let err = MyError { step: at, cause };
    let again = err.duplicate();
    (Sync { user, status: Status::Failed(err) }, Action::Abort(again))
}

/// Goes on to the photo, or ends.
fn photo_or_end(user: AppUser, book: BookInfo) -> (r: (Sync, Action))
    ensures
        (r.0@, r.1@) == after_fields(user@, book@),
{
    if user.update_picture {
        let token = user.access_token.clone();
        let path = cover_path(book.title.as_str());
        (
            Sync { user, status: Status::Working(Step::UploadingPhoto, book) },
            Action::SetPhoto { token, path },
        )
    } else {
        (Sync { user, status: Status::Done }, Action::Finish)
    }
}

/// Goes on to the profile fields, or to what follows them.
fn fields_or_later(user: AppUser, book: BookInfo) -> (r: (Sync, Action))
    ensures
        (r.0@, r.1@) == after_cover(user@, book@),
{
    if user.update_status {
        let token = user.access_token.clone();
        (
            Sync { user, status: Status::Working(Step::ReadingEmoji, book) },
            Action::GetStatusEmoji { token },
        )
    } else if user.update_title {
        let token = user.access_token.clone();
        let fields = build_fields(false, true, book.title.as_str(), "");
        proof {
            reveal_strlit("");
            assert(""@ =~= Seq::<char>::empty());
        }
        (
            Sync { user, status: Status::Working(Step::WritingTitle, book) },
            Action::SetProfileFields { token, fields },
        )
    } else {
        photo_or_end(user, book)
    }
}

/// Records the book of the page, or ends on a page without one.
fn record(user: AppUser, found: Result<BookInfo, ExtractionError>) -> (r: (Sync, Action))
    ensures
        (r.0@, r.1@) == scraped(user@, book_view(found)),
{
    match found {
        Err(e) => fail(user, Step::Scraping, Cause::Extraction(e)),
        Ok(book) => {
            let id = user.id.clone();
            let title = book.title.clone();
            let mut user = user;
            user.title = Some(book.title.clone());
            (
                Sync { user, status: Status::Working(Step::Persisting, book) },
                Action::PersistTitle { id, title },
            )
        },
    }
}

/// The cause that is recorded for an outcome that answers another request.
fn stray() -> (cause: Cause)
    ensures
        cause@ == unexpected(),
{
    Cause::Malformed(String::from_str("unexpected reply"))
}

/// Goes on after the outcome of the request of step `at`.
fn answer(user: AppUser, at: Step, book: BookInfo, event: Event) -> (r: (Sync, Action))
    ensures
        (r.0@, r.1@) == answered(user@, at, book@, event@),
{
    match event {
        Event::Fault(cause) => fail(user, at, cause),
        Event::Page(text) => match at {
            Step::Scraping => record(user, get_book_info(text.as_str())),
            _ => fail(user, at, stray()),
        },
        Event::TitlePersisted => match at {
            Step::Persisting => {
                let path = cover_path(book.title.as_str());
                (
                    Sync { user, status: Status::Working(Step::Probing, book) },
                    Action::LookupCover { path },
                )
            },
            _ => fail(user, at, stray()),
        },
        Event::CoverLookup(held) => match at {
            Step::Probing => if held {
                fields_or_later(user, book)
            } else {
                let url = book.cover.clone();
                (
                    Sync { user, status: Status::Working(Step::Downloading, book) },
                    Action::DownloadCover { url },
                )
            },
            _ => fail(user, at, stray()),
        },
        Event::CoverDownloaded(image) => match at {
            Step::Downloading => {
                let path = cover_path(book.title.as_str());
                (
                    Sync { user, status: Status::Working(Step::Storing, book) },
                    Action::StoreCover { path, image },
                )
            },
            _ => fail(user, at, stray()),
        },
        Event::CoverStored => match at {
            Step::Storing => fields_or_later(user, book),
            _ => fail(user, at, stray()),
        },
        Event::Emoji(answer) => match at {
            Step::ReadingEmoji => {
                let token = user.access_token.clone();
                let fields = build_fields(
                    true,
                    user.update_title,
                    book.title.as_str(),
                    answer.profile.status_emoji.as_str(),
                );
                (
                    Sync { user, status: Status::Working(Step::WritingStatus, book) },
                    Action::SetProfileFields { token, fields },
                )
            },
            _ => fail(user, at, stray()),
        },
        Event::FieldsReply(reply) => match at {
            Step::WritingStatus | Step::WritingTitle => match check_reply(reply) {
                Ok(()) => photo_or_end(user, book),
                Err(reason) => fail(user, at, Cause::RemoteLogical(reason)),
            },
            _ => fail(user, at, stray()),
        },
        Event::PhotoReply(reply) => match at {
            Step::UploadingPhoto => match check_reply(reply) {
                Ok(()) => (Sync { user, status: Status::Done }, Action::Finish),
                Err(reason) => fail(user, at, Cause::RemoteLogical(reason)),
            },
            _ => fail(user, at, stray()),
        },
    }
}

/// Starts the synchronisation of `user` and gives its first request.
pub fn begin(user: AppUser) -> (r: (Sync, Action))
    ensures
        (r.0@, r.1@) == start(user@),
{
    let url = match &user.profile_id {
        None => None,
        Some(profile_id) => Some(profile_url(profile_id.as_str())),
    };
    match url {
        None => (Sync { user, status: Status::Done }, Action::Finish),
        Some(url) => (Sync { user, status: Status::Scraping }, Action::FetchPage { url }),
    }
}

/// Takes the outcome of the request that `sync` is waiting on, and gives the
/// synchronisation as it then stands together with its next request.
pub fn update_profile(sync: Sync, event: Event) -> (r: (Sync, Action))
    ensures
        (r.0@, r.1@) == step(sync@, event@),
{
    let Sync { user, status } = sync;
    match status {
        Status::Done => (Sync { user, status: Status::Done }, Action::Finish),
        Status::Failed(err) => {
            let again = err.duplicate();
            (Sync { user, status: Status::Failed(err) }, Action::Abort(again))
        },
        Status::Scraping => match event {
            Event::Fault(cause) => fail(user, Step::Scraping, cause),
            Event::Page(text) => record(user, get_book_info(text.as_str())),
            _ => fail(user, Step::Scraping, stray()),
        },
        Status::Working(at, book) => answer(user, at, book, event),
    }
}

} // verus!
