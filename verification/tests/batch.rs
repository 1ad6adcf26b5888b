use shelf_sync::batch::{begin_refresh, refresh, Batch, Report};
use shelf_sync::error::{Cause, ExtractionError, MyError, Step};
use shelf_sync::structs::{AppUser, ResponseSuccess};
use shelf_sync::sync::{Action, Event};

fn user(id: &str, profile_id: Option<&str>, title: bool) -> AppUser {
    AppUser {
        id: id.to_string(),
        scope: "users.profile:write".to_string(),
        access_token: format!("token-{}", id),
        token_type: "user".to_string(),
        profile_id: profile_id.map(String::from),
        title: None,
        update_picture: false,
        update_status: false,
        update_title: title,
    }
}

fn perform(action: &Action) -> Option<Event> {
    match action {
        Action::FetchPage { url } => {
            if url.ends_with("/none") {
                Some(Event::Page("<html><body></body></html>".to_string()))
            } else if url.ends_with("/down") {
                Some(Event::Fault(Cause::Transport("timed out".to_string())))
            } else {
                Some(Event::Page(format!(
                    "<div id=\"currentlyReadingReviews\"><a class=\"bookTitle\">Book {}</a><img src=\"http://x/c.jpg\"></div>",
                    url.len()
                )))
            }
        }
        Action::PersistTitle { .. } => Some(Event::TitlePersisted),
        Action::LookupCover { .. } => Some(Event::CoverLookup(true)),
        Action::SetProfileFields { .. } => {
            Some(Event::FieldsReply(ResponseSuccess { ok: true, error: String::new() }))
        }
        Action::Finish => None,
        other => panic!("unexpected request {:?}", other),
    }
}

fn drive(users: Vec<AppUser>) -> (Batch, Vec<Action>) {
    let (mut batch, mut action) = begin_refresh(users);
    let mut log = Vec::new();
    loop {
        let event = perform(&action);
        log.push(action);
        match event {
            None => return (batch, log),
            Some(event) => {
                let next = refresh(batch, event);
                batch = next.0;
                action = next.1;
            }
        }
    }
}

fn done(id: &str) -> Report {
    Report { id: id.to_string(), outcome: Ok(()) }
}

#[test]
fn refresh_of_nobody_is_complete_at_once() {
    let (batch, log) = drive(Vec::new());
    assert_eq!(log, vec![Action::Finish]);
    assert!(batch.reports.is_empty());
    assert!(batch.current.is_none());
    assert!(batch.waiting.is_empty());
}

#[test]
fn every_user_is_synchronised_in_order() {
    let (batch, log) = drive(vec![user("A", Some("1"), true), user("B", None, true), user("C", Some("3"), false)]);
    assert_eq!(batch.reports, vec![done("A"), done("B"), done("C")]);
    assert!(batch.current.is_none());
    assert!(batch.waiting.is_empty());
    assert_eq!(log.len(), 8);
    assert_eq!(log[0], Action::FetchPage { url: "https://www.goodreads.com/user/show/1".to_string() });
    assert!(matches!(log[3], Action::SetProfileFields { .. }));
    assert_eq!(log[4], Action::FetchPage { url: "https://www.goodreads.com/user/show/3".to_string() });
    assert_eq!(log[7], Action::Finish);
}

#[test]
fn one_failed_scrape_does_not_stop_the_others() {
    let users = vec![
        user("A", Some("1"), true),
        user("B", Some("none"), true),
        user("C", Some("3"), true),
        user("D", Some("down"), true),
        user("E", Some("5"), true),
    ];
    let (batch, log) = drive(users);
    assert_eq!(
        batch.reports,
        vec![
            done("A"),
            Report {
                id: "B".to_string(),
                outcome: Err(MyError {
                    step: Step::Scraping,
                    cause: Cause::Extraction(ExtractionError::NoCurrentBook),
                }),
            },
            done("C"),
            Report {
                id: "D".to_string(),
                outcome: Err(MyError {
                    step: Step::Scraping,
                    cause: Cause::Transport("timed out".to_string()),
                }),
            },
            done("E"),
        ]
    );
    assert!(!log.iter().any(|a| matches!(a, Action::Abort(_))));
    assert_eq!(log.iter().filter(|a| matches!(a, Action::FetchPage { .. })).count(), 5);
    assert_eq!(log.iter().filter(|a| matches!(a, Action::SetProfileFields { .. })).count(), 3);
    assert_eq!(log.last(), Some(&Action::Finish));
}

#[test]
fn failure_of_the_last_user_completes_the_refresh() {
    let (batch, log) = drive(vec![user("A", Some("1"), false), user("B", Some("none"), false)]);
    assert_eq!(batch.reports.len(), 2);
    assert_eq!(batch.reports[0], done("A"));
    assert!(batch.reports[1].outcome.is_err());
    assert_eq!(log.last(), Some(&Action::Finish));
}

#[test]
fn completed_refresh_stays_complete() {
    let (batch, _) = drive(vec![user("A", None, false)]);
    let (batch, action) = refresh(batch, Event::TitlePersisted);
    assert_eq!(action, Action::Finish);
    assert_eq!(batch.reports, vec![done("A")]);
}

#[test]
fn outcome_with_nothing_under_way_takes_up_the_waiting() {
    let idle = Batch { waiting: vec![user("A", Some("1"), false)], current: None, reports: vec![done("Z")] };
    let (batch, action) = refresh(idle, Event::CoverStored);
    assert_eq!(action, Action::FetchPage { url: "https://www.goodreads.com/user/show/1".to_string() });
    assert!(batch.waiting.is_empty());
    assert_eq!(batch.current.map(|s| s.user.id), Some("A".to_string()));
    assert_eq!(batch.reports, vec![done("Z")]);
}
