//! What holds of a synchronisation over every sequence of outcomes.
//!
//! A caller may report anything, in any order. The statements here are about
//! the requests that come back, whatever was reported.

use vstd::prelude::*;
use crate::book::{first_shelf, scrape, searchable, BookInfoView, ShelfView};
use crate::cover::{path_text, paths_separate_titles};
use crate::error::{joined, message_text, CauseView, ExtractionError, MyErrorView, Step};
use crate::profile::fields_for;
use crate::structs::AppUserView;
use crate::sync::{after_cover, start, step, ActionView, EventView, StatusView, SyncView};

verus! {

/// The synchronisation `s` after the outcomes `events`, taken in order.
pub open spec fn run(s: SyncView, events: Seq<EventView>) -> SyncView
    decreases events.len(),
{
    if events.len() == 0 {
        s
    } else {
        step(run(s, events.drop_last()), events.last()).0
    }
}

/// The request that answers the last of `events`. There is at least one.
pub open spec fn reply(s: SyncView, events: Seq<EventView>) -> ActionView
    recommends
        events.len() > 0,
{
    step(run(s, events.drop_last()), events.last()).1
}

/// The requests of a whole synchronisation of `user`: the first one, then
/// the one that answers each outcome.
pub open spec fn requests(user: AppUserView, events: Seq<EventView>) -> Seq<ActionView> {
    Seq::new(
        events.len() + 1,
        |k: int|
            if k == 0 {
                start(user).1
            } else {
                reply(start(user).0, events.take(k))
            },
    )
}

/// The synchronisation of `user` after `events`.
pub open spec fn state(user: AppUserView, events: Seq<EventView>) -> SyncView {
    run(start(user).0, events)
}

/// Whether a request is the one that a status is entered with.
pub open spec fn entered_with(s: SyncView, a: ActionView) -> bool {
    match s.status {
        StatusView::Scraping => false,
        StatusView::Done => a is Finish,
        StatusView::Failed(err) => a == ActionView::Abort(err),
        StatusView::Working(at, book) => match at {
            Step::Scraping => false,
            Step::Persisting => a == (ActionView::PersistTitle {
                id: s.user.id,
                title: book.title,
            }) && s.user.title == Some(book.title),
            Step::Probing => a == (ActionView::LookupCover { path: path_text(book.title) }),
            Step::Downloading => a == (ActionView::DownloadCover { url: book.cover }),
            Step::Storing => a matches ActionView::StoreCover { path, .. } && path == path_text(
                book.title,
            ),
            Step::ReadingEmoji => a == (ActionView::GetStatusEmoji {
                token: s.user.access_token,
            }),
            Step::WritingStatus => a matches ActionView::SetProfileFields { token, fields }
                && token == s.user.access_token && exists|emoji: Seq<char>|
                fields == fields_for(true, s.user.update_title, book.title, emoji),
            Step::WritingTitle => a == (ActionView::SetProfileFields {
                token: s.user.access_token,
                fields: fields_for(false, true, book.title, Seq::empty()),
            }),
            Step::UploadingPhoto => a == (ActionView::SetPhoto {
                token: s.user.access_token,
                path: path_text(book.title),
            }),
        },
    }
}

/// Whether two user rows differ in nothing but the recorded title.
pub open spec fn same_but_title(a: AppUserView, b: AppUserView) -> bool {
    a == (AppUserView { title: a.title, ..b })
}

/// Every step gives a status together with the request that belongs to it,
/// and changes nothing of the user row but the title.
pub proof fn step_is_coherent(s: SyncView, e: EventView)
    ensures
        !s.is_over() ==> entered_with(step(s, e).0, step(s, e).1),
        s.is_over() ==> step(s, e).0 == s && step(s, e).1.is_final(),
        same_but_title(step(s, e).0.user, s.user),
{
    let (next, a) = step(s, e);
    match s.status {
        StatusView::Working(at, book) => {
            match (at, e) {
                (Step::ReadingEmoji, EventView::Emoji(emoji)) => {
                    assert(a->SetProfileFields_fields == fields_for(
                        true,
                        next.user.update_title,
                        book.title,
                        emoji,
                    ));
                },
                _ => {},
            }
        },
        _ => {},
    }
}

/// A synchronisation that has ended stays as it is, whatever is reported to
/// it, and asks for nothing more: it repeats `Finish`, or `Abort` with its
/// failure.
pub proof fn ended_stays_ended(s: SyncView, events: Seq<EventView>)
    requires
        s.is_over(),
    ensures
        run(s, events) == s,
        events.len() > 0 ==> reply(s, events).is_final(),
        events.len() > 0 && s.status is Failed ==> reply(s, events) == ActionView::Abort(
            s.status->Failed_0,
        ),
    decreases events.len(),
{
    if events.len() > 0 {
        ended_stays_ended(s, events.drop_last());
    }
}

/// Running on after `k` outcomes is running the rest from where they led.
pub proof fn run_splits(s: SyncView, events: Seq<EventView>, k: int)
    requires
        0 <= k <= events.len(),
    ensures
        run(s, events) == run(run(s, events.take(k)), events.skip(k)),
        k < events.len() ==> reply(s, events) == reply(run(s, events.take(k)), events.skip(k)),
    decreases events.len(),
{
    if k == events.len() {
        assert(events.take(k) =~= events);
        assert(events.skip(k) =~= Seq::<EventView>::empty());
    } else {
        run_splits(s, events.drop_last(), k);
        assert(events.drop_last().take(k) =~= events.take(k));
        assert(events.drop_last().skip(k) =~= events.skip(k).drop_last());
        assert(events.skip(k).last() == events.last());
    }
}

/// A user without a reading profile has nothing to synchronise: the first
/// request is `Finish`, and so is every later one, whatever the user chose
/// and whatever is reported.
pub proof fn unlinked_user_asks_nothing(user: AppUserView, events: Seq<EventView>)
    requires
        user.profile_id is None,
    ensures
        forall|k: int| 0 <= k <= events.len() ==> #[trigger] requests(user, events)[k] is Finish,
        state(user, events).user == user,
{
    assert forall|k: int| 0 <= k <= events.len() implies #[trigger] requests(
        user,
        events,
    )[k] is Finish by {
        if k > 0 {
            ended_stays_ended(start(user).0, events.take(k));
        }
    }
    ended_stays_ended(start(user).0, events);
}

/// Once a request is `Abort`, the synchronisation has failed with that
/// failure, and every later request is the same `Abort`: nothing that would
/// have followed is attempted.
pub proof fn abort_is_final(s: SyncView, e: EventView, later: Seq<EventView>)
    requires
        step(s, e).1 is Abort,
        later.len() > 0,
    ensures
        step(s, e).0.status == StatusView::Failed(step(s, e).1->Abort_0),
        run(step(s, e).0, later) == step(s, e).0,
        reply(step(s, e).0, later) == step(s, e).1,
{
    step_is_coherent(s, e);
    ended_stays_ended(step(s, e).0, later);
}

/// Whether a synchronisation is one that never turns to the profile API:
/// its user chose nothing, and it stands before the profile steps.
pub open spec fn quiet(s: SyncView) -> bool {
    &&& !s.user.update_status
    &&& !s.user.update_title
    &&& !s.user.update_picture
    &&& s.status matches StatusView::Working(at, _) ==> at == Step::Scraping || at
        == Step::Persisting || at == Step::Probing || at == Step::Downloading || at
        == Step::Storing
}

proof fn quiet_stays_quiet(s: SyncView, events: Seq<EventView>)
    requires
        quiet(s),
    ensures
        quiet(run(s, events)),
        events.len() > 0 ==> !reply(s, events).is_profile_call(),
    decreases events.len(),
{
    if events.len() > 0 {
        quiet_stays_quiet(s, events.drop_last());
    }
}

/// For a user who chose none of status, title and picture, no request of a
/// synchronisation goes to the profile API, whatever is reported.
pub proof fn nothing_chosen_nothing_written(user: AppUserView, events: Seq<EventView>)
    requires
        !user.update_status,
        !user.update_title,
        !user.update_picture,
    ensures
        forall|k: int|
            0 <= k <= events.len() ==> !(#[trigger] requests(user, events)[k]).is_profile_call(),
{
    assert forall|k: int| 0 <= k <= events.len() implies !(#[trigger] requests(
        user,
        events,
    )[k]).is_profile_call() by {
        if k > 0 {
            quiet_stays_quiet(start(user).0, events.take(k));
        }
    }
}

/// Whether a synchronisation has its book on record: it is past the page,
/// and the title on the user row is the title of the book.
pub open spec fn recorded(s: SyncView, title: Seq<char>) -> bool {
    &&& s.user.title == Some(title)
    &&& s.status matches StatusView::Working(at, book) ==> at != Step::Scraping && book.title
        == title
    &&& !(s.status is Scraping)
}

proof fn recorded_stays_recorded(s: SyncView, title: Seq<char>, events: Seq<EventView>)
    requires
        recorded(s, title),
    ensures
        recorded(run(s, events), title),
    decreases events.len(),
{
    if events.len() > 0 {
        recorded_stays_recorded(s, title, events.drop_last());
    }
}

/// Whatever the user chose: once the page has shown a book, its title is
/// sent to the user store as the next request, and stays on the user row
/// through everything that follows.
pub proof fn title_is_recorded(
    user: AppUserView,
    events: Seq<EventView>,
    page: Seq<char>,
    book: BookInfoView,
)
    requires
        user.profile_id is Some,
        events.len() > 0,
        events[0] == EventView::Page(page),
        scrape(page) == Ok::<BookInfoView, ExtractionError>(book),
    ensures
        requests(user, events)[1] == (ActionView::PersistTitle { id: user.id, title: book.title }),
        state(user, events).user.title == Some(book.title),
{
    let s0 = start(user).0;
    let first = events.take(1);
    assert(first.drop_last() =~= Seq::<EventView>::empty());
    assert(first.last() == events[0]);
    assert(run(s0, first) == step(s0, events[0]).0);
    run_splits(s0, events, 1);
    recorded_stays_recorded(run(s0, first), book.title, events.skip(1));
}

/// For a user who chose the status: a write of profile fields comes only as
/// the answer to a read of the profile, which was the request just before
/// it, and it carries the emoji that this read returned, together with the
/// title of the book as the status text.
pub proof fn status_written_after_emoji_read(user: AppUserView, events: Seq<EventView>, k: int)
    requires
        user.update_status,
        1 <= k <= events.len(),
        requests(user, events)[k] is SetProfileFields,
    ensures
        k >= 2,
        requests(user, events)[k - 1] == (ActionView::GetStatusEmoji { token: user.access_token }),
        events[k - 1] is Emoji,
        requests(user, events)[k]->SetProfileFields_fields.status_emoji == Some(
            events[k - 1]->Emoji_0,
        ),
        requests(user, events)[k]->SetProfileFields_fields.status_text is Some,
        requests(user, events)[k]->SetProfileFields_fields.status_text
            == state(user, events.take(k)).user.title,
{
    let s0 = start(user).0;
    let upto = events.take(k);
    let before = run(s0, upto.drop_last());
    assert(upto.last() == events[k - 1]);
    assert(reply(s0, upto) == step(before, events[k - 1]).1);
    chosen_stays_chosen(s0, upto.drop_last());
    assert(before.user.update_status);
    assert(before.status matches StatusView::Working(at, _) && at == Step::ReadingEmoji);
    let earlier = upto.drop_last();
    assert(earlier.len() > 0) by {
        if k == 1 {
            assert(earlier =~= Seq::<EventView>::empty());
            assert(before == s0);
        }
    }
    assert(earlier =~= events.take(k - 1));
    let origin = run(s0, earlier.drop_last());
    step_is_coherent(origin, earlier.last());
    assert(reply(s0, earlier) == step(origin, earlier.last()).1);
    titled_when_working(s0, earlier);
}

proof fn chosen_stays_chosen(s: SyncView, events: Seq<EventView>)
    ensures
        same_but_title(run(s, events).user, s.user),
    decreases events.len(),
{
    if events.len() > 0 {
        chosen_stays_chosen(s, events.drop_last());
        step_is_coherent(run(s, events.drop_last()), events.last());
    }
}

/// Whether the title on the user row is that of the book being worked on.
pub open spec fn titled(s: SyncView) -> bool {
    s.status matches StatusView::Working(at, book) ==> at != Step::Scraping && s.user.title
        == Some(book.title)
}

proof fn titled_when_working(s: SyncView, events: Seq<EventView>)
    requires
        titled(s),
    ensures
        titled(run(s, events)),
    decreases events.len(),
{
    if events.len() > 0 {
        titled_when_working(s, events.drop_last());
    }
}

/// A write of profile fields that the API answers with `ok: false` ends the
/// synchronisation there. The failure names the write and carries the reason
/// that the API gave; its line ends in that reason. Whatever is reported
/// afterwards, the answer is the same `Abort`: the photo is not uploaded,
/// whether the user chose it or not.
pub proof fn refused_write_ends_it(s: SyncView, error: Seq<char>, later: Seq<EventView>)
    requires
        s.status matches StatusView::Working(at, _) && (at == Step::WritingStatus || at
            == Step::WritingTitle),
    ensures
        ({
            let err = MyErrorView {
                step: s.status->Working_0,
                cause: CauseView::RemoteLogical(error),
            };
            let refused = step(s, EventView::FieldsReply { ok: false, error });
            &&& refused.1 == ActionView::Abort(err)
            &&& refused.0.status == StatusView::Failed(err)
            &&& message_text(err) == joined("Unable to set profile"@, error)
            &&& later.len() > 0 ==> reply(refused.0, later) == ActionView::Abort(err)
        }),
{
    let e = EventView::FieldsReply { ok: false, error };
    if later.len() > 0 {
        abort_is_final(s, e, later);
    }
}

/// A page without a shelf of books in progress shows no book, and the
/// reason is `NoCurrentBook`.
pub proof fn no_shelf_no_book(page: Seq<char>)
    requires
        searchable(page),
        first_shelf(page, "#currentlyReadingReviews"@, "a.bookTitle"@, "img"@, "src"@) == Some(
            None::<ShelfView>,
        ),
    ensures
        scrape(page) == Err::<BookInfoView, ExtractionError>(ExtractionError::NoCurrentBook),
{
}

/// When the page shows no book, the synchronisation fails at the page with
/// what the page lacks, and that is the answer to every outcome from then
/// on. No request goes to the user store, to the cover store or to the
/// profile API.
pub proof fn page_without_book_stops(
    user: AppUserView,
    events: Seq<EventView>,
    page: Seq<char>,
    lack: ExtractionError,
)
    requires
        user.profile_id is Some,
        events.len() > 0,
        events[0] == EventView::Page(page),
        scrape(page) == Err::<BookInfoView, ExtractionError>(lack),
    ensures
        requests(user, events)[0] is FetchPage,
        forall|k: int|
            1 <= k <= events.len() ==> #[trigger] requests(user, events)[k] == ActionView::Abort(
                MyErrorView { step: Step::Scraping, cause: CauseView::Extraction(lack) },
            ),
        forall|k: int|
            0 <= k <= events.len() ==> !(#[trigger] requests(user, events)[k]).is_cache_call()
                && !requests(user, events)[k].is_profile_call() && !(requests(
                user,
                events,
            )[k] is PersistTitle),
{
    let s0 = start(user).0;
    let first = events.take(1);
    assert(first.drop_last() =~= Seq::<EventView>::empty());
    assert(first.last() == events[0]);
    assert(run(s0, first) == step(s0, events[0]).0);
    assert forall|k: int| 1 <= k <= events.len() implies #[trigger] requests(user, events)[k]
        == ActionView::Abort(
        MyErrorView { step: Step::Scraping, cause: CauseView::Extraction(lack) },
    ) by {
        let upto = events.take(k);
        if k > 1 {
            run_splits(s0, upto, 1);
            assert(upto.take(1) =~= first);
            abort_is_final(s0, events[0], upto.skip(1));
        } else {
            assert(reply(s0, first) == step(s0, events[0]).1);
        }
    }
}

/// What one passage through the cover cache leaves behind.
pub struct CachePass {
    /// The paths that the cover store holds afterwards.
    pub held: Set<Seq<char>>,
    /// How many downloads were asked for.
    pub downloads: nat,
    /// The synchronisation and its request after the passage.
    pub after: (SyncView, ActionView),
}

/// One passage through the cover cache, for `book`, against a cover store
/// that holds the paths `held` and a network that delivers `image`: the
/// store answers the lookup truthfully and keeps what it is given.
pub open spec fn cache_pass(
    user: AppUserView,
    book: BookInfoView,
    held: Set<Seq<char>>,
    image: Seq<u8>,
) -> CachePass {
    let probing = SyncView { user, status: StatusView::Working(Step::Probing, book) };
    let looked = step(probing, EventView::CoverLookup(held.contains(path_text(book.title))));
    match looked.1 {
        ActionView::DownloadCover { url } => {
            let fetched = step(looked.0, EventView::CoverDownloaded(image));
            match fetched.1 {
                ActionView::StoreCover { path, image } => CachePass {
                    held: held.insert(path),
                    downloads: 1,
                    after: step(fetched.0, EventView::CoverStored),
                },
                _ => CachePass { held, downloads: 1, after: fetched },
            }
        },
        _ => CachePass { held, downloads: 0, after: looked },
    }
}

/// A cover is downloaded at most once per title. The first passage for a
/// title downloads exactly if the store does not hold the title's path, and
/// leaves the store holding it. A second passage for the same title, for
/// any user and with any address for the image, downloads nothing and
/// leaves the store as it is. Both go on in the same way.
pub proof fn cover_is_fetched_once(
    user: AppUserView,
    book: BookInfoView,
    held: Set<Seq<char>>,
    image: Seq<u8>,
    other_user: AppUserView,
    other_book: BookInfoView,
    other_image: Seq<u8>,
)
    requires
        other_book.title == book.title,
    ensures
        ({
            let first = cache_pass(user, book, held, image);
            let second = cache_pass(other_user, other_book, first.held, other_image);
            &&& first.downloads == if held.contains(path_text(book.title)) {
                0nat
            } else {
                1nat
            }
            &&& first.held == held.insert(path_text(book.title))
            &&& first.after == after_cover(user, book)
            &&& second.downloads == 0
            &&& second.held == first.held
            &&& second.after == after_cover(other_user, other_book)
        }),
{
    let first = cache_pass(user, book, held, image);
    assert(first.held =~= held.insert(path_text(book.title)));
    let second = cache_pass(other_user, other_book, first.held, other_image);
    assert(second.held =~= first.held);
}

/// A cover that is held for one title does not stand in for another: after
/// a passage for one title, a passage for a different title whose cover the
/// store did not hold downloads it.
pub proof fn other_title_is_fetched_too(
    user: AppUserView,
    book: BookInfoView,
    held: Set<Seq<char>>,
    image: Seq<u8>,
    other_user: AppUserView,
    other_book: BookInfoView,
    other_image: Seq<u8>,
)
    requires
        other_book.title != book.title,
        !held.contains(path_text(other_book.title)),
    ensures
        ({
            let first = cache_pass(user, book, held, image);
            let second = cache_pass(other_user, other_book, first.held, other_image);
            &&& second.downloads == 1
            &&& second.held == first.held.insert(path_text(other_book.title))
        }),
{
    cover_is_fetched_once(user, book, held, image, user, book, image);
    if path_text(other_book.title) == path_text(book.title) {
        paths_separate_titles(other_book.title, book.title);
    }
    let first = cache_pass(user, book, held, image);
    let second = cache_pass(other_user, other_book, first.held, other_image);
    assert(second.held =~= first.held.insert(path_text(other_book.title)));
}

/// A write of profile fields always has something to write.
pub proof fn written_fields_are_never_empty(s: SyncView, e: EventView)
    ensures
        step(s, e).1 matches ActionView::SetProfileFields { fields, .. } ==> !fields.is_empty(),
        start(s.user).1 !is SetProfileFields,
{
}

} // verus!
