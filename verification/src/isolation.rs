//! A refresh gives every user the report that the user's own synchronisation
//! earns, whatever happened to the users before.

use vstd::prelude::*;
use crate::batch::{advanced, batch_start, batch_step, report_of, BatchView, ReportView};
use crate::structs::AppUserView;
use crate::sync::{start, step, EventView, SyncView};
use crate::trace::{reply, requests, run, state};

verus! {

/// The refresh `b` after the outcomes `events`, taken in order.
pub open spec fn batch_run(b: BatchView, events: Seq<EventView>) -> BatchView
    decreases events.len(),
{
    if events.len() == 0 {
        b
    } else {
        batch_step(batch_run(b, events.drop_last()), events.last()).0
    }
}

/// Whether `script` holds the outcomes of one whole synchronisation of
/// `user`, no more and no less: the request after the last outcome ends the
/// synchronisation, and no request before it does.
pub open spec fn ends_exactly(user: AppUserView, script: Seq<EventView>) -> bool {
    &&& requests(user, script)[script.len() as int].is_final()
    &&& forall|k: int| 0 <= k < script.len() ==> !(#[trigger] requests(user, script)[k]).is_final()
}

/// The report that `user` earns alone, when the outcomes are `script`.
pub open spec fn own_report(user: AppUserView, script: Seq<EventView>) -> ReportView {
    report_of(state(user, script), requests(user, script)[script.len() as int])
}

proof fn batch_run_splits(b: BatchView, head: Seq<EventView>, tail: Seq<EventView>)
    ensures
        batch_run(b, head + tail) == batch_run(batch_run(b, head), tail),
    decreases tail.len(),
{
    if tail.len() == 0 {
        assert(head + tail =~= head);
    } else {
        batch_run_splits(b, head, tail.drop_last());
        assert((head + tail).drop_last() =~= head + tail.drop_last());
        assert((head + tail).last() == tail.last());
    }
}

/// While the synchronisation under way has not ended, the refresh only
/// carries it along.
proof fn current_is_carried(b: BatchView, s: SyncView, events: Seq<EventView>, k: int)
    requires
        b.current == Some(s),
        0 <= k <= events.len(),
        forall|j: int| 1 <= j <= k ==> !(#[trigger] reply(s, events.take(j))).is_final(),
    ensures
        batch_run(b, events.take(k)) == (BatchView {
            current: Some(run(s, events.take(k))),
            ..b
        }),
    decreases k,
{
    if k > 0 {
        current_is_carried(b, s, events, k - 1);
        assert(events.take(k).drop_last() =~= events.take(k - 1));
        assert(!reply(s, events.take(k)).is_final());
    }
}

/// When the synchronisation under way ends with the last of `events`, and
/// not before, the refresh adds its report and takes up the next user.
proof fn current_is_settled(b: BatchView, s: SyncView, events: Seq<EventView>)
    requires
        b.current == Some(s),
        events.len() > 0,
        forall|j: int| 1 <= j < events.len() ==> !(#[trigger] reply(s, events.take(j))).is_final(),
        reply(s, events).is_final(),
    ensures
        batch_run(b, events) == advanced(
            b.waiting,
            b.reports.push(report_of(run(s, events), reply(s, events))),
        ).0,
{
    let n = events.len() as int;
    current_is_carried(b, s, events, n - 1);
    assert(events.drop_last() =~= events.take(n - 1));
}

proof fn reports_grow(
    waiting: Seq<AppUserView>,
    reports: Seq<ReportView>,
    scripts: Seq<Seq<EventView>>,
)
    requires
        scripts.len() == waiting.len(),
        forall|i: int| 0 <= i < waiting.len() ==> ends_exactly(#[trigger] waiting[i], scripts[i]),
    ensures
        batch_run(advanced(waiting, reports).0, scripts.flatten()).is_over(),
        batch_run(advanced(waiting, reports).0, scripts.flatten()).reports == reports + Seq::new(
            waiting.len(),
            |i: int| own_report(waiting[i], scripts[i]),
        ),
    decreases waiting.len(),
{
    let grown = reports + Seq::new(waiting.len(), |i: int| own_report(waiting[i], scripts[i]));
    if waiting.len() == 0 {
        assert(scripts.flatten() =~= Seq::<EventView>::empty());
        assert(grown =~= reports);
    } else {
        let user = waiting.first();
        let script = scripts.first();
        let others = waiting.drop_first();
        let rest = scripts.drop_first();
        let opened = start(user);
        assert(ends_exactly(waiting[0], scripts[0]));
        assert(requests(user, script)[0] == opened.1);
        assert forall|i: int| 0 <= i < others.len() implies ends_exactly(
            #[trigger] others[i],
            rest[i],
        ) by {
            assert(ends_exactly(waiting[i + 1], scripts[i + 1]));
        }
        let n = script.len() as int;
        let own = own_report(user, script);
        if opened.1.is_final() {
            assert(n == 0);
            assert(scripts.flatten() =~= rest.flatten());
            assert(own == report_of(opened.0, opened.1));
        } else {
            assert(n > 0);
            let b = advanced(waiting, reports).0;
            assert forall|j: int| 1 <= j < n implies !(#[trigger] reply(
                opened.0,
                script.take(j),
            )).is_final() by {
                assert(requests(user, script)[j] == reply(opened.0, script.take(j)));
            }
            assert(script.take(n) =~= script);
            assert(requests(user, script)[n] == reply(opened.0, script));
            current_is_settled(b, opened.0, script);
            batch_run_splits(b, script, rest.flatten());
        }
        reports_grow(others, reports.push(own), rest);
        let later = Seq::new(others.len(), |i: int| own_report(others[i], rest[i]));
        assert(grown =~= reports.push(own) + later);
    }
}

/// Every user gets the report of the user's own synchronisation. Let each
/// user have a script: the outcomes that the requests of that user's
/// synchronisation meet, exactly as many as it takes to end it. When the
/// refresh is fed all the scripts one after the other, it ends with one
/// report per user, in order, and each is the report that the user would
/// earn alone. No report depends on another user's outcomes.
pub proof fn every_user_is_reported(users: Seq<AppUserView>, scripts: Seq<Seq<EventView>>)
    requires
        scripts.len() == users.len(),
        forall|i: int| 0 <= i < users.len() ==> ends_exactly(#[trigger] users[i], scripts[i]),
    ensures
        batch_run(batch_start(users).0, scripts.flatten()).is_over(),
        batch_run(batch_start(users).0, scripts.flatten()).reports.len() == users.len(),
        forall|i: int|
            0 <= i < users.len() ==> #[trigger] batch_run(
                batch_start(users).0,
                scripts.flatten(),
            ).reports[i] == own_report(users[i], scripts[i]),
{
    reports_grow(users, Seq::empty(), scripts);
}

/// One user's failure leaves the others as they are: when the user at `k`
/// fails and every other user succeeds alone, the refresh reports a failure
/// for `k` and success for every other user.
pub proof fn failure_stays_with_its_user(
    users: Seq<AppUserView>,
    scripts: Seq<Seq<EventView>>,
    k: int,
)
    requires
        scripts.len() == users.len(),
        forall|i: int| 0 <= i < users.len() ==> ends_exactly(#[trigger] users[i], scripts[i]),
        0 <= k < users.len(),
        own_report(users[k], scripts[k]).outcome is Err,
        forall|i: int|
            0 <= i < users.len() && i != k ==> (#[trigger] own_report(
                users[i],
                scripts[i],
            )).outcome is Ok,
    ensures
        batch_run(batch_start(users).0, scripts.flatten()).reports.len() == users.len(),
        batch_run(batch_start(users).0, scripts.flatten()).reports[k].outcome is Err,
        forall|i: int|
            0 <= i < users.len() && i != k ==> (#[trigger] batch_run(
                batch_start(users).0,
                scripts.flatten(),
            ).reports[i]).outcome is Ok,
{
    every_user_is_reported(users, scripts);
    let end = batch_run(batch_start(users).0, scripts.flatten());
    assert forall|i: int| 0 <= i < users.len() && i != k implies (#[trigger] end.reports[i]).outcome is Ok by {
        assert(end.reports[i] == own_report(users[i], scripts[i]));
    }
}

proof fn taking_up_never_aborts(waiting: Seq<AppUserView>, reports: Seq<ReportView>)
    ensures
        !(advanced(waiting, reports).1 is Abort),
        advanced(waiting, reports).1 is Finish ==> advanced(waiting, reports).0.is_over(),
        advanced(waiting, reports).1 is Finish ==> advanced(waiting, reports).0.reports.len()
            == reports.len() + waiting.len(),
    decreases waiting.len(),
{
    if waiting.len() > 0 {
        let opened = start(waiting.first());
        if opened.1.is_final() {
            taking_up_never_aborts(
                waiting.drop_first(),
                reports.push(report_of(opened.0, opened.1)),
            );
        }
    }
}

/// A refresh never asks to abort: a user's failure goes into the report.
/// And it says `Finish` only when nobody waits and nothing is under way.
pub proof fn refresh_ends_only_when_done(b: BatchView, e: EventView)
    ensures
        !(batch_step(b, e).1 is Abort),
        batch_step(b, e).1 is Finish ==> batch_step(b, e).0.is_over(),
        !(batch_start(b.waiting).1 is Abort),
        batch_start(b.waiting).1 is Finish ==> batch_start(b.waiting).0.is_over()
            && batch_start(b.waiting).0.reports.len() == b.waiting.len(),
{
    taking_up_never_aborts(b.waiting, Seq::empty());
    taking_up_never_aborts(b.waiting, b.reports);
    match b.current {
        None => {},
        Some(s) => {
            let moved = step(s, e);
            taking_up_never_aborts(b.waiting, b.reports.push(report_of(moved.0, moved.1)));
        },
    }
}

} // verus!
