//! The records that travel between the store, the forms and the profile API.

use vstd::prelude::*;

verus! {

/// The credentials of this application at the messaging platform.
#[derive(Clone, Debug)]
pub struct Context {
    pub client_id: String,
    pub client_secret: String,
}

/// The workspace a grant was given in.
#[derive(Debug)]
pub struct Team {
    pub id: String,
    pub name: String,
}

/// The platform's answer to an authorization code.
#[derive(Debug)]
pub struct Authorization {
    pub ok: bool,
    pub app_id: String,
    pub authed_user: User,
    pub team: Team,
    pub enterprise: Option<bool>,
    pub is_enterprise_install: bool,
}

/// The user a grant was given for.
#[derive(Debug)]
pub struct User {
    pub id: String,
    pub scope: String,
    pub access_token: String,
    pub token_type: String,
}

/// The envelope of every answer of the profile API: `ok` tells whether the
/// request took effect, `error` says why it did not.
#[derive(Clone, Debug, PartialEq, Eq)]
pub struct ResponseSuccess {
    pub ok: bool,
    pub error: String,
}

/// What the process is configured with.
#[derive(Debug)]
pub struct AppConfig {
    pub client_id: String,
    pub client_secret: String,
    pub port: u16,
    pub database_url: String,
}

impl AppConfig {
    /// The credentials that the configuration holds.
    pub fn context(&self) -> (context: Context)
        ensures
            context.client_id@ == self.client_id@,
            context.client_secret@ == self.client_secret@,
    {
        Context { client_id: self.client_id.clone(), client_secret: self.client_secret.clone() }
    }
}

/// One row of the user store.
#[derive(Clone, Debug, PartialEq, Eq)]
pub struct AppUser {
    pub id: String,
    pub scope: String,
    pub access_token: String,
    pub token_type: String,
    pub profile_id: Option<String>,
    pub title: Option<String>,
    pub update_picture: bool,
    pub update_status: bool,
    pub update_title: bool,
}

/// A form field of a checkbox: present with the text `on` when ticked.
pub type Checkbox = Option<String>;

/// The settings form as it is posted.
#[derive(Debug)]
pub struct UpdateProfileId {
    pub id: String,
    pub profile_id: String,
    pub update_picture: Checkbox,
    pub update_status: Checkbox,
    pub update_title: Checkbox,
}

/// The platform's answer to a profile read.
#[derive(Debug)]
pub struct UserProfileGet {
    pub profile: Profile,
}

/// The part of a profile that a status write would otherwise reset.
#[derive(Debug)]
pub struct Profile {
    pub status_emoji: String,
}

/// The text of an optional string, in contracts.
pub open spec fn text_of(s: Option<String>) -> Option<Seq<char>> {
    match s {
        Some(t) => Some(t@),
        None => None,
    }
}

/// A user row with its strings as sequences of characters.
pub struct AppUserView {
    pub id: Seq<char>,
    pub scope: Seq<char>,
    pub access_token: Seq<char>,
    pub token_type: Seq<char>,
    pub profile_id: Option<Seq<char>>,
    pub title: Option<Seq<char>>,
    pub update_picture: bool,
    pub update_status: bool,
    pub update_title: bool,
}

impl View for AppUser {
    type V = AppUserView;

    open spec fn view(&self) -> AppUserView {
        AppUserView {
            id: self.id@,
            scope: self.scope@,
            access_token: self.access_token@,
            token_type: self.token_type@,
            profile_id: text_of(self.profile_id),
            title: text_of(self.title),
            update_picture: self.update_picture,
            update_status: self.update_status,
            update_title: self.update_title,
        }
    }
}

/// A copy of an optional string.
pub fn copy_text(s: &Option<String>) -> (r: Option<String>)
    ensures
        text_of(r) == text_of(*s),
{
    match s {
        Some(t) => Some(t.clone()),
        None => None,
    }
}

impl AppUser {
    /// A copy of the row.
    pub fn duplicate(&self) -> (r: AppUser)
        ensures
            r@ == self@,
    {
        AppUser {
            id: self.id.clone(),
            scope: self.scope.clone(),
            access_token: self.access_token.clone(),
            token_type: self.token_type.clone(),
            profile_id: copy_text(&self.profile_id),
            title: copy_text(&self.title),
            update_picture: self.update_picture,
            update_status: self.update_status,
            update_title: self.update_title,
        }
    }
}

} // verus!
