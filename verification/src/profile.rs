//! What is sent to the profile API, and how its answers are read.
//!
//! The API answers every request with success at the transport level. Whether
//! the request took effect is said in the body, and only there.

use vstd::prelude::*;
use vstd::string::*;
use crate::structs::{text_of, ResponseSuccess};

verus! {

/// The profile fields of one write. A field that is `None` is not sent, and
/// the platform leaves it as it is.
#[derive(Clone, Debug, PartialEq, Eq)]
pub struct ProfileFields {
    pub status_text: Option<String>,
    pub status_emoji: Option<String>,
    pub title: Option<String>,
}

/// The fields of a write with their strings as sequences of characters.
pub struct ProfileFieldsView {
    pub status_text: Option<Seq<char>>,
    pub status_emoji: Option<Seq<char>>,
    pub title: Option<Seq<char>>,
}

impl View for ProfileFields {
    type V = ProfileFieldsView;

    open spec fn view(&self) -> ProfileFieldsView {
        ProfileFieldsView {
            status_text: text_of(self.status_text),
            status_emoji: text_of(self.status_emoji),
            title: text_of(self.title),
        }
    }
}

/// One field of a write, if it is there: its name and its value.
pub open spec fn named(name: Seq<char>, value: Option<Seq<char>>) -> Seq<(Seq<char>, Seq<char>)> {
    match value {
        Some(v) => seq![(name, v)],
        None => Seq::empty(),
    }
}

impl ProfileFieldsView {
    /// The fields that are sent, each with its name: the status text, the
    /// status emoji and the title, as far as they are there.
    pub open spec fn entries(self) -> Seq<(Seq<char>, Seq<char>)> {
        named("status_text"@, self.status_text) + named("status_emoji"@, self.status_emoji)
            + named("title"@, self.title)
    }

    /// Whether there is nothing to send.
    pub open spec fn is_empty(self) -> bool {
        self.status_text is None && self.status_emoji is None && self.title is None
    }
}

/// Names and values, in contracts.
pub open spec fn entries_view(entries: Seq<(String, String)>) -> Seq<(Seq<char>, Seq<char>)> {
    Seq::new(entries.len(), |i: int| (entries[i].0@, entries[i].1@))
}

/// The fields that a user's choices call for. The status is written as the
/// book's title together with the emoji that the profile has now, because a
/// status written without an emoji loses the one it had. The title field is
/// written on its own choice.
pub open spec fn fields_for(
    update_status: bool,
    update_title: bool,
    title: Seq<char>,
    emoji: Seq<char>,
) -> ProfileFieldsView {
    ProfileFieldsView {
        status_text: if update_status {
            Some(title)
        } else {
            None
        },
        status_emoji: if update_status {
            Some(emoji)
        } else {
            None
        },
        title: if update_title {
            Some(title)
        } else {
            None
        },
    }
}

/// What an answer of the API amounts to: done, or the reason it gave.
pub open spec fn verdict(ok: bool, error: Seq<char>) -> Result<(), Seq<char>> {
    if ok {
        Ok(())
    } else {
        Err(error)
    }
}

/// The value of the authorization header for a token.
pub open spec fn bearer_text(token: Seq<char>) -> Seq<char> {
    "Bearer "@ + token
}

/// The outcome of reading an answer, in contracts.
pub open spec fn verdict_view(r: Result<(), String>) -> Result<(), Seq<char>> {
    match r {
        Ok(()) => Ok(()),
        Err(e) => Err(e@),
    }
}

impl ProfileFields {
    /// Whether there is nothing to send.
    pub fn is_empty(&self) -> (r: bool)
        ensures
            r == self@.is_empty(),
    {
        self.status_text.is_none() && self.status_emoji.is_none() && self.title.is_none()
    }

    /// The fields that are sent, each with its name.
    pub fn entries(&self) -> (entries: Vec<(String, String)>)
        ensures
            entries_view(entries@) == self@.entries(),
    {
        let mut entries: Vec<(String, String)> = Vec::new();
        if let Some(text) = &self.status_text {
            entries.push((String::from_str("status_text"), text.clone()));
        }
        if let Some(emoji) = &self.status_emoji {
            entries.push((String::from_str("status_emoji"), emoji.clone()));
        }
        if let Some(title) = &self.title {
            entries.push((String::from_str("title"), title.clone()));
        }
        assert(entries_view(entries@) =~= self@.entries());
        entries
    }
}

/// The fields to write for a user who is reading `title` and whose profile
/// shows `emoji`.
pub fn build_fields(update_status: bool, update_title: bool, title: &str, emoji: &str) -> (fields:
    ProfileFields)
    ensures
        fields@ == fields_for(update_status, update_title, title@, emoji@),
{
    ProfileFields {
        status_text: if update_status {
            Some(String::from_str(title))
        } else {
            None
        },
        status_emoji: if update_status {
            Some(String::from_str(emoji))
        } else {
            None
        },
        title: if update_title {
            Some(String::from_str(title))
        } else {
            None
        },
    }
}

/// Reads an answer of the API: a request took effect only if the body says
/// `ok`; otherwise the body's `error` is the reason.
pub fn check_reply(reply: ResponseSuccess) -> (r: Result<(), String>)
    ensures
        verdict_view(r) == verdict(reply.ok, reply.error@),
{
    if reply.ok {
        Ok(())
    } else {
        Err(reply.error)
    }
}

/// The value of the authorization header that carries `token`.
pub fn bearer(token: &str) -> (header: String)
    ensures
        header@ == bearer_text(token@),
{
    let mut header = String::from_str("Bearer ");
    header.append(token);
    header
}

} // verus!
