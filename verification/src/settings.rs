//! What a grant and a settings form ask the user store to hold.

use vstd::prelude::*;
use vstd::string::*;
use crate::structs::{text_of, AppUser, AppUserView, Authorization, Checkbox, Context, UpdateProfileId};

verus! {

/// Whether a checkbox field says that the box is ticked: it is present and
/// its text is `on`.
pub open spec fn is_ticked(input: Option<Seq<char>>) -> bool {
    input == Some("on"@)
}

/// Whether the box of a checkbox field is ticked.
pub fn checkbox_to_bool(input: &Checkbox) -> (ticked: bool)
    ensures
        ticked == is_ticked(text_of(*input)),
{
    proof {
        reveal_strlit("on");
    }
    match input {
        None => false,
        Some(val) => {
            let text = val.as_str();
            if text.unicode_len() != 2 {
                false
            } else {
                let ticked = text.get_char(0) == 'o' && text.get_char(1) == 'n';
                assert(ticked == (val@ =~= "on"@));
                ticked
            }
        },
    }
}

/// The changes to a user row that a settings form asks for.
#[derive(Debug, PartialEq, Eq)]
pub struct Settings {
    pub id: String,
    pub profile_id: String,
    pub update_picture: bool,
    pub update_status: bool,
    pub update_title: bool,
}

/// Changes with their strings as sequences of characters.
pub struct SettingsView {
    pub id: Seq<char>,
    pub profile_id: Seq<char>,
    pub update_picture: bool,
    pub update_status: bool,
    pub update_title: bool,
}

impl View for Settings {
    type V = SettingsView;

    open spec fn view(&self) -> SettingsView {
        SettingsView {
            id: self.id@,
            profile_id: self.profile_id@,
            update_picture: self.update_picture,
            update_status: self.update_status,
            update_title: self.update_title,
        }
    }
}

/// A settings form with its strings as sequences of characters.
pub struct FormView {
    pub id: Seq<char>,
    pub profile_id: Seq<char>,
    pub update_picture: Option<Seq<char>>,
    pub update_status: Option<Seq<char>>,
    pub update_title: Option<Seq<char>>,
}

impl View for UpdateProfileId {
    type V = FormView;

    open spec fn view(&self) -> FormView {
        FormView {
            id: self.id@,
            profile_id: self.profile_id@,
            update_picture: text_of(self.update_picture),
            update_status: text_of(self.update_status),
            update_title: text_of(self.update_title),
        }
    }
}

/// The changes that a form asks for: its reading profile as it is, and each
/// choice according to its checkbox.
pub open spec fn asked(form: FormView) -> SettingsView {
    SettingsView {
        id: form.id,
        profile_id: form.profile_id,
        update_picture: is_ticked(form.update_picture),
        update_status: is_ticked(form.update_status),
        update_title: is_ticked(form.update_title),
    }
}

/// Reads a settings form.
pub fn update_settings(form: UpdateProfileId) -> (changes: Settings)
    ensures
        changes@ == asked(form@),
{
    let update_picture = checkbox_to_bool(&form.update_picture);
    let update_status = checkbox_to_bool(&form.update_status);
    let update_title = checkbox_to_bool(&form.update_title);
    Settings { id: form.id, profile_id: form.profile_id, update_picture, update_status, update_title }
}

/// The address at which an authorization code is exchanged for a token.
pub open spec fn exchange_address(
    code: Seq<char>,
    client_id: Seq<char>,
    client_secret: Seq<char>,
) -> Seq<char> {
    "https://slack.com/api/oauth.v2.access?code="@ + code + "&client_id="@ + client_id
        + "&client_secret="@ + client_secret
}

/// The address at which `code` is exchanged, or `None` if the request
/// brought no code.
pub fn exchange_url(code: Option<&str>, context: &Context) -> (url: Option<String>)
    ensures
        code is None ==> url is None,
        code matches Some(c) ==> url matches Some(u) && u@ == exchange_address(
            c@,
            context.client_id@,
            context.client_secret@,
        ),
{
    match code {
        None => None,
        Some(code) => {
            let mut url = String::from_str("https://slack.com/api/oauth.v2.access?code=");
            url.append(code);
            url.append("&client_id=");
            url.append(context.client_id.as_str());
            url.append("&client_secret=");
            url.append(context.client_secret.as_str());
            Some(url)
        },
    }
}

/// The row of a user who has just given a grant: nothing is chosen yet, and
/// no reading profile is known.
pub open spec fn fresh_row(
    id: Seq<char>,
    scope: Seq<char>,
    access_token: Seq<char>,
    token_type: Seq<char>,
) -> AppUserView {
    AppUserView {
        id,
        scope,
        access_token,
        token_type,
        profile_id: None,
        title: None,
        update_picture: false,
        update_status: false,
        update_title: false,
    }
}

/// The row that is stored for the user of a grant, if the store has none.
pub fn registration(grant: Authorization) -> (row: AppUser)
    ensures
        row@ == fresh_row(
            grant.authed_user.id@,
            grant.authed_user.scope@,
            grant.authed_user.access_token@,
            grant.authed_user.token_type@,
        ),
{
    let user = grant.authed_user;
    AppUser {
        id: user.id,
        scope: user.scope,
        access_token: user.access_token,
        token_type: user.token_type,
        profile_id: None,
        title: None,
        update_picture: false,
        update_status: false,
        update_title: false,
    }
}

} // verus!
