//! The synchronisation of every user, one after the other.
//!
//! A failure belongs to the user it happened to. It is written into that
//! user's report, and the next user is taken up as if nothing had happened.

use vstd::prelude::*;
use crate::error::{MyError, MyErrorView};
use crate::structs::{AppUser, AppUserView};
use crate::sync::{begin, start, step, update_profile, Action, ActionView, Event, EventView, Sync, SyncView};

verus! {

/// How the synchronisation of one user ended.
#[derive(Debug, PartialEq, Eq)]
pub struct Report {
    /// The user's id.
    pub id: String,
    /// `Ok` if everything that the user chose was done, else the failure.
    pub outcome: Result<(), MyError>,
}

/// A report with its strings as sequences.
pub struct ReportView {
    pub id: Seq<char>,
    pub outcome: Result<(), MyErrorView>,
}

impl View for Report {
    type V = ReportView;

    open spec fn view(&self) -> ReportView {
        ReportView {
            id: self.id@,
            outcome: match self.outcome {
                Ok(()) => Ok(()),
                Err(err) => Err(err@),
            },
        }
    }
}

/// A refresh in progress.
#[derive(Debug)]
pub struct Batch {
    /// The users that have not been taken up yet, in order.
    pub waiting: Vec<AppUser>,
    /// The synchronisation that is under way, if one is.
    pub current: Option<Sync>,
    /// The reports of the users that are done, in order.
    pub reports: Vec<Report>,
}

/// A refresh with its strings as sequences.
pub struct BatchView {
    pub waiting: Seq<AppUserView>,
    pub current: Option<SyncView>,
    pub reports: Seq<ReportView>,
}

/// Users, in contracts.
pub open spec fn users_view(users: Seq<AppUser>) -> Seq<AppUserView> {
    Seq::new(users.len(), |i: int| users[i]@)
}

/// Reports, in contracts.
pub open spec fn reports_view(reports: Seq<Report>) -> Seq<ReportView> {
    Seq::new(reports.len(), |i: int| reports[i]@)
}

impl View for Batch {
    type V = BatchView;

    open spec fn view(&self) -> BatchView {
        BatchView {
            waiting: users_view(self.waiting@),
            current: match self.current {
                Some(sync) => Some(sync@),
                None => None,
            },
            reports: reports_view(self.reports@),
        }
    }
}

impl BatchView {
    /// Whether every user has been taken up and has ended.
    pub open spec fn is_over(self) -> bool {
        self.current is None && self.waiting.len() == 0
    }
}

/// The report of a synchronisation that ended with the request `last`.
pub open spec fn report_of(s: SyncView, last: ActionView) -> ReportView {
    ReportView {
        id: s.user.id,
        outcome: match last {
            ActionView::Abort(err) => Err(err),
            _ => Ok(()),
        },
    }
}

/// Takes up the users that wait, in order, until one has a request to be
/// carried out. A user with nothing to synchronise is reported at once.
/// When nobody is left, the refresh is complete.
pub open spec fn advanced(waiting: Seq<AppUserView>, reports: Seq<ReportView>) -> (
    BatchView,
    ActionView,
)
    decreases waiting.len(),
{
    if waiting.len() == 0 {
        (BatchView { waiting, current: None, reports }, ActionView::Finish)
    } else {
        let opened = start(waiting.first());
        if opened.1.is_final() {
            advanced(waiting.drop_first(), reports.push(report_of(opened.0, opened.1)))
        } else {
            (
                BatchView { waiting: waiting.drop_first(), current: Some(opened.0), reports },
                opened.1,
            )
        }
    }
}

/// How a refresh starts.
pub open spec fn batch_start(users: Seq<AppUserView>) -> (BatchView, ActionView) {
    advanced(users, Seq::empty())
}

/// How a refresh goes on when the outcome `e` of its last request comes in.
/// The outcome goes to the synchronisation under way. If that ends with it,
/// well or badly, its report is added and the next user is taken up.
pub open spec fn batch_step(b: BatchView, e: EventView) -> (BatchView, ActionView) {
    match b.current {
        None => advanced(b.waiting, b.reports),
        Some(s) => {
            let moved = step(s, e);
            if moved.1.is_final() {
                advanced(b.waiting, b.reports.push(report_of(moved.0, moved.1)))
            } else {
                (BatchView { current: Some(moved.0), ..b }, moved.1)
            }
        },
    }
}

/// Takes up the next users until one has a request to be carried out.
fn advance(waiting: Vec<AppUser>, reports: Vec<Report>) -> (r: (Batch, Action))
    ensures
        (r.0@, r.1@) == advanced(users_view(waiting@), reports_view(reports@)),
{
    let mut queue = waiting;
    let mut done = reports;
    loop
        invariant
            advanced(users_view(queue@), reports_view(done@)) == advanced(
                users_view(waiting@),
                reports_view(reports@),
            ),
        decreases queue.len(),
    {
        if queue.len() == 0 {
            return (Batch { waiting: queue, current: None, reports: done }, Action::Finish);
        }
        let ghost before = users_view(queue@);
        let ghost so_far = reports_view(done@);
        let user = queue.remove(0);
        assert(users_view(queue@) =~= before.drop_first());
        assert(user@ == before.first());
        let (sync, first) = begin(user);
        match first {
            Action::Finish => {
                done.push(Report { id: sync.user.id, outcome: Ok(()) });
                assert(reports_view(done@) =~= so_far.push(report_of(sync@, first@)));
            },
            Action::Abort(err) => {
                done.push(Report { id: sync.user.id, outcome: Err(err) });
                assert(reports_view(done@) =~= so_far.push(report_of(sync@, first@)));
            },
            _ => {
                return (Batch { waiting: queue, current: Some(sync), reports: done }, first);
            },
        }
    }
}

/// Starts a refresh of `users` and gives its first request.
pub fn begin_refresh(users: Vec<AppUser>) -> (r: (Batch, Action))
    ensures
        (r.0@, r.1@) == batch_start(users_view(users@)),
{
    let reports: Vec<Report> = Vec::new();
    assert(reports_view(reports@) =~= Seq::<ReportView>::empty());
    advance(users, reports)
}

/// Takes the outcome of the request that `batch` is waiting on, and gives
/// the refresh as it then stands together with its next request. That
/// request is `Finish` when every user has a report, and never `Abort`.
pub fn refresh(batch: Batch, event: Event) -> (r: (Batch, Action))
    ensures
        (r.0@, r.1@) == batch_step(batch@, event@),
{
    let Batch { waiting, current, reports } = batch;
    match current {
        None => advance(waiting, reports),
        Some(sync) => {
            let ghost done = reports_view(reports@);
            let mut reports = reports;
            let (sync, next) = update_profile(sync, event);
            match next {
                Action::Finish => {
                    reports.push(Report { id: sync.user.id, outcome: Ok(()) });
                    assert(reports_view(reports@) =~= done.push(report_of(sync@, next@)));
                    advance(waiting, reports)
                },
                Action::Abort(err) => {
                    reports.push(Report { id: sync.user.id, outcome: Err(err) });
                    assert(reports_view(reports@) =~= done.push(report_of(sync@, next@)));
                    advance(waiting, reports)
                },
                _ => (Batch { waiting, current: Some(sync), reports }, next),
            }
        },
    }
}

} // verus!
