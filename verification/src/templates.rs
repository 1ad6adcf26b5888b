//! What the pages show.

use vstd::prelude::*;
use crate::batch::{Report, ReportView};
use crate::error::{joined, make_err, message_text, MyError};
use crate::structs::{AppUser, AppUserView};

verus! {

/// The settings page of a user.
#[derive(Debug, PartialEq, Eq)]
pub struct SubscribeTemplate {
    pub id: String,
    pub profile_id: String,
    pub update_picture: bool,
    pub update_status: bool,
    pub update_title: bool,
}

/// The page that confirms that settings were saved. It shows nothing of
/// its own.
#[derive(Debug, PartialEq, Eq)]
pub struct SuccessTemplate {}

/// The page that reports a failure.
#[derive(Debug, PartialEq, Eq)]
pub struct ErrorTemplate {
    pub message: String,
}

/// A settings page with its strings as sequences of characters.
pub struct SubscribeView {
    pub id: Seq<char>,
    pub profile_id: Seq<char>,
    pub update_picture: bool,
    pub update_status: bool,
    pub update_title: bool,
}

impl View for SubscribeTemplate {
    type V = SubscribeView;

    open spec fn view(&self) -> SubscribeView {
        SubscribeView {
            id: self.id@,
            profile_id: self.profile_id@,
            update_picture: self.update_picture,
            update_status: self.update_status,
            update_title: self.update_title,
        }
    }
}

/// The settings page of a user row: the row's choices, and its reading
/// profile, which is shown empty as long as there is none.
pub open spec fn settings_page(user: AppUserView) -> SubscribeView {
    SubscribeView {
        id: user.id,
        profile_id: match user.profile_id {
            Some(profile_id) => profile_id,
            None => Seq::empty(),
        },
        update_picture: user.update_picture,
        update_status: user.update_status,
        update_title: user.update_title,
    }
}

/// The settings page of `user`.
pub fn subscribe(user: AppUser) -> (page: SubscribeTemplate)
    ensures
        page@ == settings_page(user@),
{
    SubscribeTemplate {
        id: user.id,
        profile_id: match user.profile_id {
            Some(profile_id) => profile_id,
            None => String::new(),
        },
        update_picture: user.update_picture,
        update_status: user.update_status,
        update_title: user.update_title,
    }
}

/// The page that reports `err`: it shows the failure's line.
pub fn error_page(err: &MyError) -> (page: ErrorTemplate)
    ensures
        page.message@ == message_text(err@),
{
    ErrorTemplate { message: err.message() }
}

/// The page that reports a refresh: one line for each user.
#[derive(Debug, PartialEq, Eq)]
pub struct RefreshTemplate {
    pub lines: Vec<String>,
}

/// The line of a report: the user's id, then `synchronised` or the line of
/// the failure.
pub open spec fn report_text(report: ReportView) -> Seq<char> {
    match report.outcome {
        Ok(()) => joined(report.id, "synchronised"@),
        Err(err) => joined(report.id, message_text(err)),
    }
}

/// The line of `report`.
pub fn report_line(report: &Report) -> (line: String)
    ensures
        line@ == report_text(report@),
{
    match &report.outcome {
        Ok(()) => make_err("synchronised", report.id.as_str()),
        Err(err) => {
            let message = err.message();
            make_err(message.as_str(), report.id.as_str())
        },
    }
}

/// The page that reports a refresh: the lines of the reports, in order. No
/// report is left out, a failure no more than a success.
pub fn refresh_page(reports: &Vec<Report>) -> (page: RefreshTemplate)
    ensures
        page.lines@.len() == reports@.len(),
        forall|i: int|
            0 <= i < reports@.len() ==> (#[trigger] page.lines@[i])@ == report_text(reports@[i]@),
{
    let mut lines: Vec<String> = Vec::new();
    let mut i: usize = 0;
    while i < reports.len()
        invariant
            i <= reports@.len(),
            lines@.len() == i,
            forall|j: int| 0 <= j < i ==> (#[trigger] lines@[j])@ == report_text(reports@[j]@),
        decreases reports@.len() - i,
    {
        lines.push(report_line(&reports[i]));
        i = i + 1;
    }
    RefreshTemplate { lines }
}

} // verus!
