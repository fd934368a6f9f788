//! The user's profile and how it is read from the user-info response body.
use vstd::prelude::*;

use crate::error::{AuthError, AuthErrorView};

verus! {

/// A Google user's profile, as the user-info endpoint describes it.
#[derive(Debug)]
pub struct UserInfo {
    /// The stable subject identifier (`sub`).
    pub open_id: String,
    /// The display name (`name`).
    pub username: String,
    pub given_name: Option<String>,
    pub family_name: Option<String>,
    /// The avatar URL (`picture`).
    pub profile_url: String,
    pub email: String,
    pub email_verified: bool,
    pub locale: Option<String>,
}

pub struct UserInfoView {
    pub open_id: Seq<char>,
    pub username: Seq<char>,
    pub given_name: Option<Seq<char>>,
    pub family_name: Option<Seq<char>>,
    pub profile_url: Seq<char>,
    pub email: Seq<char>,
    pub email_verified: bool,
    pub locale: Option<Seq<char>>,
}

/// The text of an optional string.
pub open spec fn opt_text(o: Option<String>) -> Option<Seq<char>> {
    match o {
        Some(s) => Some(s@),
        None => None,
    }
}

impl View for UserInfo {
    type V = UserInfoView;

    open spec fn view(&self) -> UserInfoView {
        UserInfoView {
            open_id: self.open_id@,
            username: self.username@,
            given_name: opt_text(self.given_name),
            family_name: opt_text(self.family_name),
            profile_url: self.profile_url@,
            email: self.email@,
            email_verified: self.email_verified,
            locale: opt_text(self.locale),
        }
    }
}

/// What a JSON document holds under one member name, as far as a profile
/// reads it.
#[derive(Debug)]
pub enum JsonMember {
    /// The document is not JSON.
    NotJson,
    /// The document is not an object, or has no member of that name.
    Absent,
    Null,
    Text { text: String },
    Flag { flag: bool },
    /// A number, array or object.
    Other,
}

pub enum JsonMemberView {
    NotJson,
    Absent,
    Null,
    Text { text: Seq<char> },
    Flag { flag: bool },
    Other,
}

impl View for JsonMember {
    type V = JsonMemberView;

    open spec fn view(&self) -> JsonMemberView {
        match self {
            JsonMember::NotJson => JsonMemberView::NotJson,
            JsonMember::Absent => JsonMemberView::Absent,
            JsonMember::Null => JsonMemberView::Null,
            JsonMember::Text { text } => JsonMemberView::Text { text: text@ },
            JsonMember::Flag { flag } => JsonMemberView::Flag { flag: *flag },
            JsonMember::Other => JsonMemberView::Other,
        }
    }
}

/// What serde_json finds under the member `key` of the JSON text `body`.
pub uninterp spec fn json_member_of(body: Seq<u8>, key: Seq<char>) -> JsonMemberView;

/// Relies on serde_json's `from_slice` into a `Value`, then `Value::get`: the
/// member depends on the bytes and the name alone.
#[verifier::external_body]
fn json_member(body: &[u8], key: &str) -> (r: JsonMember)
    ensures
        r@ == json_member_of(body@, key@),
{
    match serde_json::from_slice::<serde_json::Value>(body) {
        Err(_) => JsonMember::NotJson,
        Ok(v) => match v.get(key) {
            None => JsonMember::Absent,
            Some(serde_json::Value::Null) => JsonMember::Null,
            Some(serde_json::Value::String(s)) => JsonMember::Text { text: s.clone() },
            Some(serde_json::Value::Bool(b)) => JsonMember::Flag { flag: *b },
            Some(_) => JsonMember::Other,
        },
    }
}

/// A member that must be a string.
pub open spec fn required_text(m: JsonMemberView) -> Option<Seq<char>> {
    match m {
        JsonMemberView::Text { text } => Some(text),
        _ => None,
    }
}

/// A member that may be a string, null or missing; `None` when it is
/// anything else.
pub open spec fn optional_text(m: JsonMemberView) -> Option<Option<Seq<char>>> {
    match m {
        JsonMemberView::Absent => Some(None),
        JsonMemberView::Null => Some(None),
        JsonMemberView::Text { text } => Some(Some(text)),
        _ => None,
    }
}

/// A member that must be a boolean.
pub open spec fn required_flag(m: JsonMemberView) -> Option<bool> {
    match m {
        JsonMemberView::Flag { flag } => Some(flag),
        _ => None,
    }
}

/// The profile that a user-info body describes, or the name of the first
/// member, in the order of `UserInfo`'s fields, that does not fit.
pub open spec fn profile_of(body: Seq<u8>) -> Result<UserInfoView, Seq<char>> {
    let sub = required_text(json_member_of(body, "sub"@));
    let name = required_text(json_member_of(body, "name"@));
    let given_name = optional_text(json_member_of(body, "given_name"@));
    let family_name = optional_text(json_member_of(body, "family_name"@));
    let picture = required_text(json_member_of(body, "picture"@));
    let email = required_text(json_member_of(body, "email"@));
    let email_verified = required_flag(json_member_of(body, "email_verified"@));
    let locale = optional_text(json_member_of(body, "locale"@));
    if sub is None {
        Err("sub"@)
    } else if name is None {
        Err("name"@)
    } else if given_name is None {
        Err("given_name"@)
    } else if family_name is None {
        Err("family_name"@)
    } else if picture is None {
        Err("picture"@)
    } else if email is None {
        Err("email"@)
    } else if email_verified is None {
        Err("email_verified"@)
    } else if locale is None {
        Err("locale"@)
    } else {
        Ok(
            UserInfoView {
                open_id: sub->0,
                username: name->0,
                given_name: given_name->0,
                family_name: family_name->0,
                profile_url: picture->0,
                email: email->0,
                email_verified: email_verified->0,
                locale: locale->0,
            },
        )
    }
}

/// The view of a parse outcome.
pub open spec fn parsed_view(r: Result<UserInfo, AuthError>) -> Result<UserInfoView, AuthErrorView> {
    match r {
        Ok(p) => Ok(p@),
        Err(e) => Err(e@),
    }
}

/// The view of the outcome `profile_of` describes.
pub open spec fn expected_parse(body: Seq<u8>) -> Result<UserInfoView, AuthErrorView> {
    match profile_of(body) {
        Ok(p) => Ok(p),
        Err(field) => Err(AuthErrorView::ProfileParse { field }),
    }
}

fn text_member(body: &[u8], key: &str) -> (r: Result<String, AuthError>)
    ensures
        match required_text(json_member_of(body@, key@)) {
            Some(t) => r matches Ok(s) && s@ == t,
            None => r matches Err(e) && e@ == (AuthErrorView::ProfileParse { field: key@ }),
        },
{
    match json_member(body, key) {
        JsonMember::Text { text } => Ok(text),
        _ => Err(AuthError::ProfileParse { field: key.to_owned() }),
    }
}

fn optional_text_member(body: &[u8], key: &str) -> (r: Result<Option<String>, AuthError>)
    ensures
        match optional_text(json_member_of(body@, key@)) {
            Some(t) => r matches Ok(s) && opt_text(s) == t,
            None => r matches Err(e) && e@ == (AuthErrorView::ProfileParse { field: key@ }),
        },
{
    match json_member(body, key) {
        JsonMember::Absent => Ok(None),
        JsonMember::Null => Ok(None),
        JsonMember::Text { text } => Ok(Some(text)),
        _ => Err(AuthError::ProfileParse { field: key.to_owned() }),
    }
}

fn flag_member(body: &[u8], key: &str) -> (r: Result<bool, AuthError>)
    ensures
        match required_flag(json_member_of(body@, key@)) {
            Some(t) => r == Ok::<bool, AuthError>(t),
            None => r matches Err(e) && e@ == (AuthErrorView::ProfileParse { field: key@ }),
        },
{
    match json_member(body, key) {
        JsonMember::Flag { flag } => Ok(flag),
        _ => Err(AuthError::ProfileParse { field: key.to_owned() }),
    }
}

impl UserInfo {
    /// Reads a profile from the body of a user-info response: a JSON object
    /// whose `sub`, `name`, `picture` and `email` are strings, whose
    /// `email_verified` is a boolean, and whose `given_name`, `family_name`
    /// and `locale` are strings, null or missing.
    ///
    /// Fails with `AuthError::ProfileParse` naming the first member that
    /// does not fit.
    pub fn from_json(body: &[u8]) -> (r: Result<UserInfo, AuthError>)
        ensures
            parsed_view(r) == expected_parse(body@),
    {
        let open_id = text_member(body, "sub")?;
        let username = text_member(body, "name")?;
        let given_name = optional_text_member(body, "given_name")?;
        let family_name = optional_text_member(body, "family_name")?;
        let profile_url = text_member(body, "picture")?;
        let email = text_member(body, "email")?;
        let email_verified = flag_member(body, "email_verified")?;
        let locale = optional_text_member(body, "locale")?;
        Ok(
            UserInfo {
                open_id,
                username,
                given_name,
                family_name,
                profile_url,
                email,
                email_verified,
                locale,
            },
        )
    }
}

} // verus!
