use std::collections::HashSet;

use shelf_sync::error::{Cause, ExtractionError, MyError, Stage, Step};
use shelf_sync::profile::ProfileFields;
use shelf_sync::structs::{AppUser, Profile, ResponseSuccess, UserProfileGet};
use shelf_sync::sync::{begin, update_profile, Action, Event, Status, Sync};

fn user(profile_id: Option<&str>, status: bool, title: bool, picture: bool) -> AppUser {
    AppUser {
        id: "U1".to_string(),
        scope: "users.profile:write".to_string(),
        access_token: "xoxp-1".to_string(),
        token_type: "user".to_string(),
        profile_id: profile_id.map(String::from),
        title: None,
        update_picture: picture,
        update_status: status,
        update_title: title,
    }
}

fn page(title: &str, cover: &str) -> String {
    format!("<html><body><div id=\"currentlyReadingReviews\"><a class=\"bookTitle\">{}</a><img src=\"{}\"></div></body></html>", title, cover)
}

fn ok() -> ResponseSuccess {
    ResponseSuccess { ok: true, error: String::new() }
}

fn refused(reason: &str) -> ResponseSuccess {
    ResponseSuccess { ok: false, error: reason.to_string() }
}

fn emoji(e: &str) -> UserProfileGet {
    UserProfileGet { profile: Profile { status_emoji: e.to_string() } }
}

struct World {
    page: String,
    covers: HashSet<String>,
    emoji: String,
    fields_reply: ResponseSuccess,
    photo_reply: ResponseSuccess,
}

fn world(page: String) -> World {
    World { page, covers: HashSet::new(), emoji: ":books:".to_string(), fields_reply: ok(), photo_reply: ok() }
}

fn perform(world: &mut World, action: &Action) -> Option<Event> {
    match action {
        Action::FetchPage { .. } => Some(Event::Page(world.page.clone())),
        Action::PersistTitle { .. } => Some(Event::TitlePersisted),
        Action::LookupCover { path } => Some(Event::CoverLookup(world.covers.contains(path))),
        Action::DownloadCover { url } => Some(Event::CoverDownloaded(url.as_bytes().to_vec())),
        Action::StoreCover { path, .. } => {
            world.covers.insert(path.clone());
            Some(Event::CoverStored)
        }
        Action::GetStatusEmoji { .. } => Some(Event::Emoji(emoji(&world.emoji))),
        Action::SetProfileFields { .. } => Some(Event::FieldsReply(world.fields_reply.clone())),
        Action::SetPhoto { .. } => Some(Event::PhotoReply(world.photo_reply.clone())),
        Action::Finish | Action::Abort(_) => None,
    }
}

fn drive(user: AppUser, world: &mut World) -> (Sync, Vec<Action>) {
    let (mut sync, mut action) = begin(user);
    let mut log = Vec::new();
    loop {
        let event = perform(world, &action);
        log.push(action);
        match event {
            None => return (sync, log),
            Some(event) => {
                let next = update_profile(sync, event);
                sync = next.0;
                action = next.1;
            }
        }
    }
}

fn s(text: &str) -> String {
    text.to_string()
}

#[test]
fn title_only_end_to_end() {
    let mut w = world(page("Dune", "http://x/cover.jpg"));
    let (sync, log) = drive(user(Some("42"), false, true, false), &mut w);
    assert_eq!(sync.status, Status::Done);
    assert_eq!(sync.user.title, Some(s("Dune")));
    assert!(w.covers.contains("covers/Dune.jpg"));
    assert_eq!(w.covers.len(), 1);
    assert_eq!(
        log,
        vec![
            Action::FetchPage { url: s("https://www.goodreads.com/user/show/42") },
            Action::PersistTitle { id: s("U1"), title: s("Dune") },
            Action::LookupCover { path: s("covers/Dune.jpg") },
            Action::DownloadCover { url: s("http://x/cover.jpg") },
            Action::StoreCover { path: s("covers/Dune.jpg"), image: b"http://x/cover.jpg".to_vec() },
            Action::SetProfileFields {
                token: s("xoxp-1"),
                fields: ProfileFields { status_text: None, status_emoji: None, title: Some(s("Dune")) },
            },
            Action::Finish,
        ]
    );
    let writes = log.iter().filter(|a| matches!(a, Action::SetProfileFields { .. })).count();
    assert_eq!(writes, 1);
    assert!(!log.iter().any(|a| matches!(a, Action::SetPhoto { .. } | Action::GetStatusEmoji { .. })));
}

#[test]
fn nothing_chosen_records_the_title_and_leaves_the_profile_alone() {
    let mut w = world(page("Dune", "http://x/cover.jpg"));
    let (sync, log) = drive(user(Some("42"), false, false, false), &mut w);
    assert_eq!(sync.status, Status::Done);
    assert_eq!(sync.user.title, Some(s("Dune")));
    assert_eq!(
        log,
        vec![
            Action::FetchPage { url: s("https://www.goodreads.com/user/show/42") },
            Action::PersistTitle { id: s("U1"), title: s("Dune") },
            Action::LookupCover { path: s("covers/Dune.jpg") },
            Action::DownloadCover { url: s("http://x/cover.jpg") },
            Action::StoreCover { path: s("covers/Dune.jpg"), image: b"http://x/cover.jpg".to_vec() },
            Action::Finish,
        ]
    );
}

#[test]
fn status_is_written_with_the_emoji_just_read() {
    let mut w = world(page("Dune", "http://x/cover.jpg"));
    w.emoji = s(":owl:");
    let (sync, log) = drive(user(Some("42"), true, false, false), &mut w);
    assert_eq!(sync.status, Status::Done);
    assert_eq!(log.len(), 8);
    assert_eq!(log[5], Action::GetStatusEmoji { token: s("xoxp-1") });
    assert_eq!(
        log[6],
        Action::SetProfileFields {
            token: s("xoxp-1"),
            fields: ProfileFields {
                status_text: Some(s("Dune")),
                status_emoji: Some(s(":owl:")),
                title: None,
            },
        }
    );
    assert_eq!(log[7], Action::Finish);
}

#[test]
fn an_empty_emoji_is_sent_as_it_is() {
    let mut w = world(page("Dune", "http://x/cover.jpg"));
    w.emoji = String::new();
    let (_, log) = drive(user(Some("42"), true, true, false), &mut w);
    assert_eq!(
        log[6],
        Action::SetProfileFields {
            token: s("xoxp-1"),
            fields: ProfileFields {
                status_text: Some(s("Dune")),
                status_emoji: Some(String::new()),
                title: Some(s("Dune")),
            },
        }
    );
}

#[test]
fn everything_chosen_with_the_cover_already_held() {
    let mut w = world(page("Dune", "http://x/cover.jpg"));
    w.covers.insert(s("covers/Dune.jpg"));
    let (sync, log) = drive(user(Some("42"), true, true, true), &mut w);
    assert_eq!(sync.status, Status::Done);
    assert_eq!(
        log,
        vec![
            Action::FetchPage { url: s("https://www.goodreads.com/user/show/42") },
            Action::PersistTitle { id: s("U1"), title: s("Dune") },
            Action::LookupCover { path: s("covers/Dune.jpg") },
            Action::GetStatusEmoji { token: s("xoxp-1") },
            Action::SetProfileFields {
                token: s("xoxp-1"),
                fields: ProfileFields {
                    status_text: Some(s("Dune")),
                    status_emoji: Some(s(":books:")),
                    title: Some(s("Dune")),
                },
            },
            Action::SetPhoto { token: s("xoxp-1"), path: s("covers/Dune.jpg") },
            Action::Finish,
        ]
    );
}

#[test]
fn picture_only_uploads_the_cached_cover() {
    let mut w = world(page("Dune", "http://x/cover.jpg"));
    let (sync, log) = drive(user(Some("42"), false, false, true), &mut w);
    assert_eq!(sync.status, Status::Done);
    assert_eq!(log.len(), 7);
    assert_eq!(log[5], Action::SetPhoto { token: s("xoxp-1"), path: s("covers/Dune.jpg") });
}

#[test]
fn cover_is_downloaded_once_per_title() {
    let mut w = world(page("Dune", "http://x/cover.jpg"));
    let (_, first) = drive(user(Some("42"), false, false, false), &mut w);
    assert_eq!(first.iter().filter(|a| matches!(a, Action::DownloadCover { .. })).count(), 1);
    w.page = page("Dune", "http://elsewhere/other.png");
    let (sync, second) = drive(user(Some("43"), false, false, true), &mut w);
    assert_eq!(sync.status, Status::Done);
    assert!(!second.iter().any(|a| matches!(a, Action::DownloadCover { .. } | Action::StoreCover { .. })));
    assert_eq!(w.covers.len(), 1);
}

#[test]
fn user_without_reading_profile_has_nothing_to_do() {
    let mut w = world(page("Dune", "http://x/cover.jpg"));
    let (sync, log) = drive(user(None, true, true, true), &mut w);
    assert_eq!(sync.status, Status::Done);
    assert_eq!(sync.user.title, None);
    assert_eq!(log, vec![Action::Finish]);
}

#[test]
fn page_without_shelf_stops_everything() {
    let mut w = world(s("<html><body><p>nothing here</p></body></html>"));
    let (sync, log) = drive(user(Some("42"), true, true, true), &mut w);
    let err = MyError { step: Step::Scraping, cause: Cause::Extraction(ExtractionError::NoCurrentBook) };
    assert_eq!(sync.status, Status::Failed(err.clone()));
    assert_eq!(sync.user.title, None);
    assert_eq!(
        log,
        vec![
            Action::FetchPage { url: s("https://www.goodreads.com/user/show/42") },
            Action::Abort(err.clone()),
        ]
    );
    assert!(w.covers.is_empty());
    assert_eq!(err.stage(), Stage::Scrape);
}

#[test]
fn refused_write_fails_with_the_reason_and_skips_the_photo() {
    let mut w = world(page("Dune", "http://x/cover.jpg"));
    w.fields_reply = refused("X");
    let (sync, log) = drive(user(Some("42"), true, true, true), &mut w);
    let err = MyError { step: Step::WritingStatus, cause: Cause::RemoteLogical(s("X")) };
    assert_eq!(sync.status, Status::Failed(err.clone()));
    assert_eq!(log.last(), Some(&Action::Abort(err.clone())));
    assert!(!log.iter().any(|a| matches!(a, Action::SetPhoto { .. })));
    assert_eq!(err.message(), "Unable to set profile: X");
    assert!(err.message().contains("X"));
    assert_eq!(err.stage(), Stage::StatusUpdate);
    // nothing is attempted later either
    let (sync, again) = update_profile(sync, Event::PhotoReply(ok()));
    assert_eq!(again, Action::Abort(err.clone()));
    let (sync, again) = update_profile(sync, Event::FieldsReply(ok()));
    assert_eq!(again, Action::Abort(err.clone()));
    assert_eq!(sync.status, Status::Failed(err));
}

#[test]
fn refused_title_write_is_reported_under_the_title() {
    let mut w = world(page("Dune", "http://x/cover.jpg"));
    w.fields_reply = refused("too_long");
    let (sync, log) = drive(user(Some("42"), false, true, true), &mut w);
    let err = MyError { step: Step::WritingTitle, cause: Cause::RemoteLogical(s("too_long")) };
    assert_eq!(sync.status, Status::Failed(err.clone()));
    assert_eq!(err.stage(), Stage::TitleUpdate);
    assert!(!log.iter().any(|a| matches!(a, Action::SetPhoto { .. })));
}

#[test]
fn refused_photo_fails_with_the_reason() {
    let mut w = world(page("Dune", "http://x/cover.jpg"));
    w.photo_reply = refused("bad_image");
    let (sync, _) = drive(user(Some("42"), false, false, true), &mut w);
    let err = MyError { step: Step::UploadingPhoto, cause: Cause::RemoteLogical(s("bad_image")) };
    assert_eq!(sync.status, Status::Failed(err.clone()));
    assert_eq!(err.message(), "Unable to set photo: bad_image");
    assert_eq!(err.stage(), Stage::PhotoUpdate);
}

fn upto(user: AppUser, events: Vec<Event>) -> (Sync, Action) {
    let mut at = begin(user);
    for e in events {
        at = update_profile(at.0, e);
    }
    at
}

#[test]
fn fault_ends_the_synchronisation_at_its_step() {
    let all = || user(Some("42"), true, true, true);
    let dune = || Event::Page(page("Dune", "http://x/cover.jpg"));
    let fault = |c: &Cause| Event::Fault(c.clone());
    let net = Cause::Transport(s("timed out"));
    let disk = Cause::Storage(s("disk full"));
    let cases: Vec<(Vec<Event>, Step, Cause)> = vec![
        (vec![fault(&net)], Step::Scraping, net.clone()),
        (vec![dune(), fault(&disk)], Step::Persisting, disk.clone()),
        (vec![dune(), Event::TitlePersisted, fault(&disk)], Step::Probing, disk.clone()),
        (
            vec![dune(), Event::TitlePersisted, Event::CoverLookup(false), fault(&net)],
            Step::Downloading,
            net.clone(),
        ),
        (
            vec![
                dune(),
                Event::TitlePersisted,
                Event::CoverLookup(false),
                Event::CoverDownloaded(vec![1, 2, 3]),
                fault(&disk),
            ],
            Step::Storing,
            disk.clone(),
        ),
        (
            vec![dune(), Event::TitlePersisted, Event::CoverLookup(true), fault(&net)],
            Step::ReadingEmoji,
            net.clone(),
        ),
        (
            vec![
                dune(),
                Event::TitlePersisted,
                Event::CoverLookup(true),
                Event::Emoji(emoji(":books:")),
                fault(&net),
            ],
            Step::WritingStatus,
            net.clone(),
        ),
        (
            vec![
                dune(),
                Event::TitlePersisted,
                Event::CoverLookup(true),
                Event::Emoji(emoji(":books:")),
                Event::FieldsReply(ok()),
                fault(&disk),
            ],
            Step::UploadingPhoto,
            disk.clone(),
        ),
    ];
    for (events, step, cause) in cases {
        let (sync, action) = upto(all(), events);
        let err = MyError { step, cause };
        assert_eq!(action, Action::Abort(err.clone()));
        assert_eq!(sync.status, Status::Failed(err));
    }
}

#[test]
fn reply_to_another_request_is_malformed() {
    let stray = |step: Step| MyError { step, cause: Cause::Malformed(s("unexpected reply")) };
    let (sync, action) = upto(user(Some("42"), true, true, true), vec![Event::TitlePersisted]);
    assert_eq!(action, Action::Abort(stray(Step::Scraping)));
    assert_eq!(sync.status, Status::Failed(stray(Step::Scraping)));
    let (_, action) = upto(
        user(Some("42"), true, true, true),
        vec![Event::Page(page("Dune", "c.jpg")), Event::CoverStored],
    );
    assert_eq!(action, Action::Abort(stray(Step::Persisting)));
    let (_, action) = upto(
        user(Some("42"), true, true, true),
        vec![Event::Page(page("Dune", "c.jpg")), Event::TitlePersisted, Event::PhotoReply(ok())],
    );
    assert_eq!(action, Action::Abort(stray(Step::Probing)));
    let (_, action) = upto(
        user(Some("42"), false, true, false),
        vec![
            Event::Page(page("Dune", "c.jpg")),
            Event::TitlePersisted,
            Event::CoverLookup(true),
            Event::PhotoReply(ok()),
        ],
    );
    assert_eq!(action, Action::Abort(stray(Step::WritingTitle)));
}

#[test]
fn finished_synchronisation_stays_finished() {
    let (sync, action) = upto(user(None, true, true, true), vec![Event::TitlePersisted]);
    assert_eq!(action, Action::Finish);
    assert_eq!(sync.status, Status::Done);
    let (sync, action) = update_profile(sync, Event::Fault(Cause::Transport(s("late"))));
    assert_eq!(action, Action::Finish);
    assert_eq!(sync.status, Status::Done);
}

#[test]
fn title_with_odd_characters_is_filed_under_its_key() {
    let mut w = world(page("AC/DC: a life", "http://x/acdc.jpg"));
    let (sync, log) = drive(user(Some("42"), false, false, true), &mut w);
    assert_eq!(sync.user.title, Some(s("AC/DC: a life")));
    assert_eq!(log[1], Action::PersistTitle { id: s("U1"), title: s("AC/DC: a life") });
    assert_eq!(log[2], Action::LookupCover { path: s("covers/AC_00002fDC_00003a a life.jpg") });
    assert_eq!(log[5], Action::SetPhoto { token: s("xoxp-1"), path: s("covers/AC_00002fDC_00003a a life.jpg") });
}

#[test]
fn cover_of_another_title_is_downloaded_too() {
    let mut w = world(page("C++", "http://x/cpp.jpg"));
    let (_, first) = drive(user(Some("42"), false, false, false), &mut w);
    assert_eq!(first.iter().filter(|a| matches!(a, Action::DownloadCover { .. })).count(), 1);
    w.page = page("C##", "http://x/csharp.jpg");
    let (_, second) = drive(user(Some("43"), false, false, false), &mut w);
    assert_eq!(second.iter().filter(|a| matches!(a, Action::DownloadCover { .. })).count(), 1);
    assert!(w.covers.contains("covers/C_00002b_00002b.jpg"));
    assert!(w.covers.contains("covers/C_000023_000023.jpg"));
    assert_eq!(w.covers.len(), 2);
}
