//! Why a synchronisation stopped: the request it was waiting on, and the cause.

use vstd::prelude::*;
use vstd::string::*;

verus! {

/// The outside request that a synchronisation is waiting on.
#[derive(Clone, Copy, Debug, PartialEq, Eq, Structural)]
pub enum Step {
    /// The reading page is being fetched.
    Scraping,
    /// The title is being written to the user store.
    Persisting,
    /// The cover store is being asked whether it holds the cover.
    Probing,
    /// The cover image is being downloaded.
    Downloading,
    /// The cover image is being written to the cover store.
    Storing,
    /// The profile is being read for its status emoji.
    ReadingEmoji,
    /// Profile fields that include the status are being written.
    WritingStatus,
    /// The title field alone is being written.
    WritingTitle,
    /// The cover is being uploaded as the profile photo.
    UploadingPhoto,
}

/// The part of a synchronisation that a failure is reported under.
#[derive(Clone, Copy, Debug, PartialEq, Eq, Structural)]
pub enum Stage {
    Scrape,
    Persist,
    Cache,
    StatusUpdate,
    TitleUpdate,
    PhotoUpdate,
}

/// What a reading page lacked.
#[derive(Clone, Copy, Debug, PartialEq, Eq, Structural)]
pub enum ExtractionError {
    /// No shelf of books that are being read.
    NoCurrentBook,
    /// A shelf, but no title link in it.
    NoTitle,
    /// A shelf, but no image in it, or an image without a source.
    NoCover,
    /// The page could not be searched at all.
    Unsearchable,
}

/// Why an outside request did not do its work.
#[derive(Clone, Debug, PartialEq, Eq)]
pub enum Cause {
    /// The request never got an answer; the text says what the network reported.
    Transport(String),
    /// An answer came, but not one that the request calls for.
    Malformed(String),
    /// A local file could not be read or written, or the user store refused.
    Storage(String),
    /// The profile API answered `ok: false`; the text is the reason it gave.
    RemoteLogical(String),
    /// The reading page does not have the expected shape.
    Extraction(ExtractionError),
}

/// A cause with its text as a sequence of characters.
pub enum CauseView {
    Transport(Seq<char>),
    Malformed(Seq<char>),
    Storage(Seq<char>),
    RemoteLogical(Seq<char>),
    Extraction(ExtractionError),
}

impl View for Cause {
    type V = CauseView;

    open spec fn view(&self) -> CauseView {
        match self {
            Cause::Transport(t) => CauseView::Transport(t@),
            Cause::Malformed(t) => CauseView::Malformed(t@),
            Cause::Storage(t) => CauseView::Storage(t@),
            Cause::RemoteLogical(t) => CauseView::RemoteLogical(t@),
            Cause::Extraction(e) => CauseView::Extraction(*e),
        }
    }
}

/// A failed synchronisation: the request it stopped at, and why.
#[derive(Clone, Debug, PartialEq, Eq)]
pub struct MyError {
    pub step: Step,
    pub cause: Cause,
}

/// A failure with its text as a sequence of characters.
pub struct MyErrorView {
    pub step: Step,
    pub cause: CauseView,
}

impl View for MyError {
    type V = MyErrorView;

    open spec fn view(&self) -> MyErrorView {
        MyErrorView { step: self.step, cause: self.cause@ }
    }
}

/// The stage that a step is reported under.
pub open spec fn stage_of(step: Step) -> Stage {
    match step {
        Step::Scraping => Stage::Scrape,
        Step::Persisting => Stage::Persist,
        Step::Probing | Step::Downloading | Step::Storing => Stage::Cache,
        Step::ReadingEmoji | Step::WritingStatus => Stage::StatusUpdate,
        Step::WritingTitle => Stage::TitleUpdate,
        Step::UploadingPhoto => Stage::PhotoUpdate,
    }
}

/// What a missing part of the page is called.
pub open spec fn extraction_text(e: ExtractionError) -> Seq<char> {
    match e {
        ExtractionError::NoCurrentBook =>
            "Unable to find current book. Make sure there is a book on your currently reading shelf."@,
        ExtractionError::NoTitle => "Unable to find title of current book"@,
        ExtractionError::NoCover => "Unable to find cover image for current book"@,
        ExtractionError::Unsearchable => "Unable to search the profile page"@,
    }
}

/// What was being attempted, by step and kind of cause.
pub open spec fn context_text(step: Step, cause: CauseView) -> Seq<char> {
    match step {
        Step::Scraping => if cause is Malformed {
            "Unable to convert goodreads profile content"@
        } else {
            "Unable to retrieve profile page from goodreads"@
        },
        Step::Persisting => "Unable to update user"@,
        Step::Probing => "Unable to look up cover"@,
        Step::Downloading => if cause is Malformed {
            "Unable to convert cover"@
        } else {
            "Unable to retrieve cover from goodreads"@
        },
        Step::Storing => "Unable to write cover to disk"@,
        Step::ReadingEmoji => if cause is Malformed {
            "Unable to convert response object"@
        } else {
            "Unable to retrieve profile information from slack"@
        },
        Step::WritingStatus | Step::WritingTitle => if cause is RemoteLogical {
            "Unable to set profile"@
        } else if cause is Malformed {
            "Unable to parse response object"@
        } else {
            "Unable to connect to slack to set profile"@
        },
        Step::UploadingPhoto => if cause is RemoteLogical {
            "Unable to set photo"@
        } else if cause is Malformed {
            "Unable to parse response object"@
        } else if cause is Storage {
            "Unable to open cover file"@
        } else {
            "Unable to connect to slack to set photo"@
        },
    }
}

/// A context and a cause as one line: the context, a colon, a space, the cause.
pub open spec fn joined(msg: Seq<char>, e: Seq<char>) -> Seq<char> {
    msg + ": "@ + e
}

/// The line that a failure is shown as.
pub open spec fn message_text(err: MyErrorView) -> Seq<char> {
    match err.cause {
        CauseView::Extraction(e) => extraction_text(e),
        CauseView::Transport(t) => joined(context_text(err.step, err.cause), t),
        CauseView::Malformed(t) => joined(context_text(err.step, err.cause), t),
        CauseView::Storage(t) => joined(context_text(err.step, err.cause), t),
        CauseView::RemoteLogical(t) => joined(context_text(err.step, err.cause), t),
    }
}

/// Puts a context in front of a cause.
pub fn make_err(e: &str, msg: &str) -> (line: String)
    ensures
        line@ == joined(msg@, e@),
{
    let mut line = String::from_str(msg);
    line.append(": ");
    line.append(e);
    line
}

impl Step {
    /// The stage that this step is reported under.
    pub fn stage(&self) -> (stage: Stage)
        ensures
            stage == stage_of(*self),
    {
        match self {
            Step::Scraping => Stage::Scrape,
            Step::Persisting => Stage::Persist,
            Step::Probing | Step::Downloading | Step::Storing => Stage::Cache,
            Step::ReadingEmoji | Step::WritingStatus => Stage::StatusUpdate,
            Step::WritingTitle => Stage::TitleUpdate,
            Step::UploadingPhoto => Stage::PhotoUpdate,
        }
    }
}

impl ExtractionError {
    /// What the missing part of the page is called.
    pub fn text(&self) -> (text: &'static str)
        ensures
            text@ == extraction_text(*self),
    {
        match self {
            ExtractionError::NoCurrentBook =>
                "Unable to find current book. Make sure there is a book on your currently reading shelf.",
            ExtractionError::NoTitle => "Unable to find title of current book",
            ExtractionError::NoCover => "Unable to find cover image for current book",
            ExtractionError::Unsearchable => "Unable to search the profile page",
        }
    }
}

impl Cause {
    /// A copy of the cause.
    pub fn duplicate(&self) -> (r: Cause)
        ensures
            r@ == self@,
    {
        match self {
            Cause::Transport(t) => Cause::Transport(t.clone()),
            Cause::Malformed(t) => Cause::Malformed(t.clone()),
            Cause::Storage(t) => Cause::Storage(t.clone()),
            Cause::RemoteLogical(t) => Cause::RemoteLogical(t.clone()),
            Cause::Extraction(e) => Cause::Extraction(*e),
        }
    }
}

impl MyError {
    /// A copy of the failure.
    pub fn duplicate(&self) -> (r: MyError)
        ensures
            r@ == self@,
    {
        MyError { step: self.step, cause: self.cause.duplicate() }
    }

    /// The stage that the failure is reported under.
    pub fn stage(&self) -> (stage: Stage)
        ensures
            stage == stage_of(self.step),
    {
        self.step.stage()
    }

    /// What was being attempted when the failure came.
    pub fn context(&self) -> (text: &'static str)
        ensures
            text@ == context_text(self.step, self.cause@),
    {
        let malformed = matches!(self.cause, Cause::Malformed(_));
        let remote = matches!(self.cause, Cause::RemoteLogical(_));
        let storage = matches!(self.cause, Cause::Storage(_));
        match self.step {
            Step::Scraping => if malformed {
                "Unable to convert goodreads profile content"
            } else {
                "Unable to retrieve profile page from goodreads"
            },
            Step::Persisting => "Unable to update user",
            Step::Probing => "Unable to look up cover",
            Step::Downloading => if malformed {
                "Unable to convert cover"
            } else {
                "Unable to retrieve cover from goodreads"
            },
            Step::Storing => "Unable to write cover to disk",
            Step::ReadingEmoji => if malformed {
                "Unable to convert response object"
            } else {
                "Unable to retrieve profile information from slack"
            },
            Step::WritingStatus | Step::WritingTitle => if remote {
                "Unable to set profile"
            } else if malformed {
                "Unable to parse response object"
            } else {
                "Unable to connect to slack to set profile"
            },
            Step::UploadingPhoto => if remote {
                "Unable to set photo"
            } else if malformed {
                "Unable to parse response object"
            } else if storage {
                "Unable to open cover file"
            } else {
                "Unable to connect to slack to set photo"
            },
        }
    }

    /// The line that the failure is shown as.
    pub fn message(&self) -> (line: String)
        ensures
            line@ == message_text(self@),
    {
        match &self.cause {
            Cause::Extraction(e) => String::from_str(e.text()),
            Cause::Transport(t) => make_err(t.as_str(), self.context()),
            Cause::Malformed(t) => make_err(t.as_str(), self.context()),
            Cause::Storage(t) => make_err(t.as_str(), self.context()),
            Cause::RemoteLogical(t) => make_err(t.as_str(), self.context()),
        }
    }
}

} // verus!
