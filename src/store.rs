//! The credential record as a JSON document, and what loading it yields.
use vstd::prelude::*;
use crate::json::{
    find_member, lemma_object_view, member, member_from, members_view, optional_string, optional_string_json, optional_string_value,
    optional_unsigned, optional_unsigned_json, optional_unsigned_value, read_optional_string,
    read_optional_unsigned, read_required_string, required_string, JsonValue, JsonView,
};
use crate::model::{opt_credential_view, opt_user_view, AuthData, AuthError, CredentialView, UserInfo, UserInfoView};

verus! {

/// The JSON object that holds a user profile.
pub open spec fn user_info_json(u: UserInfoView) -> JsonView {
    JsonView::Object(
        seq![
            ("sub"@, JsonView::Str(u.sub)),
            ("name"@, optional_string_json(u.name)),
            ("email"@, optional_string_json(u.email)),
            ("picture"@, optional_string_json(u.picture)),
        ],
    )
}

/// The JSON form of an optional profile: the profile's object, or null.
pub open spec fn optional_user_info_json(u: Option<UserInfoView>) -> JsonView {
    match u {
        Some(u) => user_info_json(u),
        None => JsonView::Null,
    }
}

/// The JSON object that holds a credential.
pub open spec fn credential_json(c: CredentialView) -> JsonView {
    JsonView::Object(
        seq![
            ("access_token"@, JsonView::Str(c.access_token)),
            ("refresh_token"@, optional_string_json(c.refresh_token)),
            ("id_token"@, optional_string_json(c.id_token)),
            ("expires_at"@, optional_unsigned_json(c.expires_at)),
            ("user_info"@, optional_user_info_json(c.user_info)),
        ],
    )
}

/// The profile a JSON value describes: an object with a string `sub` and
/// optional string `name`, `email` and `picture`; other members are ignored.
pub open spec fn user_info_of_json(j: JsonView) -> Option<UserInfoView> {
    match j {
        JsonView::Object(ms) => match (
            required_string(member(ms, "sub"@)),
            optional_string(member(ms, "name"@)),
            optional_string(member(ms, "email"@)),
            optional_string(member(ms, "picture"@)),
        ) {
            (Some(sub), Some(name), Some(email), Some(picture)) => Some(
                UserInfoView { sub, name, email, picture },
            ),
            _ => None,
        },
        _ => None,
    }
}

/// A profile that may be absent or null: `None` when it is malformed.
pub open spec fn optional_user_info(v: Option<JsonView>) -> Option<Option<UserInfoView>> {
    match v {
        None => Some(None),
        Some(JsonView::Null) => Some(None),
        Some(j) => match user_info_of_json(j) {
            Some(u) => Some(Some(u)),
            None => None,
        },
    }
}

/// The credential a JSON value describes: an object with a string
/// `access_token`, optional strings `refresh_token` and `id_token`, an optional
/// unsigned `expires_at` and an optional profile `user_info`.
pub open spec fn credential_of_json(j: JsonView) -> Option<CredentialView> {
    match j {
        JsonView::Object(ms) => match (
            required_string(member(ms, "access_token"@)),
            optional_string(member(ms, "refresh_token"@)),
            optional_string(member(ms, "id_token"@)),
            optional_unsigned(member(ms, "expires_at"@)),
            optional_user_info(member(ms, "user_info"@)),
        ) {
            (Some(access_token), Some(refresh_token), Some(id_token), Some(expires_at), Some(user_info)) => Some(
                CredentialView { access_token, refresh_token, id_token, expires_at, user_info },
            ),
            _ => None,
        },
        _ => None,
    }
}

/// What the credential file held when it was read.
#[derive(Debug)]
pub enum StoredRecord {
    /// There is no credential file.
    Absent,
    /// The file exists but is not a JSON document.
    Unreadable,
    /// The file holds this JSON document.
    Document(JsonValue),
}

/// The outcome of loading a credential file that holds the document `j`.
pub open spec fn load_result_of_json(j: JsonView) -> Result<Option<CredentialView>, AuthError> {
    match credential_of_json(j) {
        Some(c) => Ok(Some(c)),
        None => Err(AuthError::CorruptCredential),
    }
}

/// The outcome of loading the credential from what the file held.
pub open spec fn load_result(stored: StoredRecord) -> Result<Option<CredentialView>, AuthError> {
    match stored {
        StoredRecord::Absent => Ok(None),
        StoredRecord::Unreadable => Err(AuthError::CorruptCredential),
        StoredRecord::Document(j) => load_result_of_json(j@),
    }
}

/// Reading a profile back from its JSON object gives the same profile.
pub proof fn user_info_json_round_trip(u: UserInfoView)
    ensures
        user_info_of_json(user_info_json(u)) == Some(u),
{
    reveal_strlit("sub");
    reveal_strlit("name");
    reveal_strlit("email");
    reveal_strlit("picture");
    reveal_with_fuel(member_from, 5);
    let ms = seq![
        ("sub"@, JsonView::Str(u.sub)),
        ("name"@, optional_string_json(u.name)),
        ("email"@, optional_string_json(u.email)),
        ("picture"@, optional_string_json(u.picture)),
    ];
    assert(member(ms, "sub"@) == Some(JsonView::Str(u.sub)));
    assert("sub"@.len() != "name"@.len());
    assert(ms[0].0 != "name"@);
    assert(member(ms, "name"@) == Some(optional_string_json(u.name)));
    assert("sub"@.len() != "email"@.len() && "name"@.len() != "email"@.len());
    assert(ms[0].0 != "email"@ && ms[1].0 != "email"@);
    assert(member(ms, "email"@) == Some(optional_string_json(u.email)));
    assert(member(ms, "picture"@) == Some(optional_string_json(u.picture)));
}

/// Saving a credential and loading it back gives the same credential: the
/// record read from the JSON object written for `c` is `c`.
pub proof fn credential_json_round_trip(c: CredentialView)
    ensures
        credential_of_json(credential_json(c)) == Some(c),
        load_result_of_json(credential_json(c)) == Ok::<Option<CredentialView>, AuthError>(Some(c)),
{
    reveal_strlit("access_token");
    reveal_strlit("refresh_token");
    reveal_strlit("id_token");
    reveal_strlit("expires_at");
    reveal_strlit("user_info");
    reveal_with_fuel(member_from, 6);
    let ms = seq![
        ("access_token"@, JsonView::Str(c.access_token)),
        ("refresh_token"@, optional_string_json(c.refresh_token)),
        ("id_token"@, optional_string_json(c.id_token)),
        ("expires_at"@, optional_unsigned_json(c.expires_at)),
        ("user_info"@, optional_user_info_json(c.user_info)),
    ];
    assert(member(ms, "access_token"@) == Some(JsonView::Str(c.access_token)));
    assert("access_token"@.len() != "refresh_token"@.len());
    assert("access_token"@[0] != "id_token"@[0] && "refresh_token"@[0] != "id_token"@[0]);
    assert(member(ms, "refresh_token"@) == Some(optional_string_json(c.refresh_token)));
    assert(member(ms, "id_token"@) == Some(optional_string_json(c.id_token)));
    assert(member(ms, "expires_at"@) == Some(optional_unsigned_json(c.expires_at)));
    assert("user_info"@[0] != "access_token"@[0] && "user_info"@[0] != "refresh_token"@[0]);
    assert("user_info"@[0] != "id_token"@[0] && "user_info"@[0] != "expires_at"@[0]);
    assert(member(ms, "user_info"@) == Some(optional_user_info_json(c.user_info)));
    if let Some(u) = c.user_info {
        user_info_json_round_trip(u);
    }
}

/// The JSON document of a profile.
pub fn user_info_to_json(u: &UserInfo) -> (r: JsonValue)
    ensures
        r@ == user_info_json(u@),
{
    let mut ms: Vec<(String, JsonValue)> = Vec::new();
    ms.push(("sub".to_owned(), JsonValue::Str(u.sub.clone())));
    ms.push(("name".to_owned(), optional_string_value(&u.name)));
    ms.push(("email".to_owned(), optional_string_value(&u.email)));
    ms.push(("picture".to_owned(), optional_string_value(&u.picture)));
    proof {
        lemma_object_view(ms);
    }
    let r = JsonValue::Object(ms);
    assert(members_view(ms@) =~= seq![
        ("sub"@, JsonView::Str(u.sub@)),
        ("name"@, optional_string_json(u@.name)),
        ("email"@, optional_string_json(u@.email)),
        ("picture"@, optional_string_json(u@.picture)),
    ]);
    r
}

/// The JSON document that stores a credential.
pub fn credential_to_json(c: &AuthData) -> (r: JsonValue)
    ensures
        r@ == credential_json(c@),
{
    let mut ms: Vec<(String, JsonValue)> = Vec::new();
    ms.push(("access_token".to_owned(), JsonValue::Str(c.access_token.clone())));
    ms.push(("refresh_token".to_owned(), optional_string_value(&c.refresh_token)));
    ms.push(("id_token".to_owned(), optional_string_value(&c.id_token)));
    ms.push(("expires_at".to_owned(), optional_unsigned_value(c.expires_at)));
    let user = match &c.user_info {
        Some(u) => user_info_to_json(u),
        None => JsonValue::Null,
    };
    assert(user@ == optional_user_info_json(c@.user_info));
    ms.push(("user_info".to_owned(), user));
    proof {
        lemma_object_view(ms);
    }
    let r = JsonValue::Object(ms);
    assert(members_view(ms@) =~= seq![
        ("access_token"@, JsonView::Str(c.access_token@)),
        ("refresh_token"@, optional_string_json(c@.refresh_token)),
        ("id_token"@, optional_string_json(c@.id_token)),
        ("expires_at"@, optional_unsigned_json(c@.expires_at)),
        ("user_info"@, optional_user_info_json(c@.user_info)),
    ]);
    r
}

/// Reads a profile from a JSON value.
pub fn user_info_from_json(j: &JsonValue) -> (r: Option<UserInfo>)
    ensures
        opt_user_view(r) == user_info_of_json(j@),
{
    match j {
        JsonValue::Object(ms) => {
            proof {
                lemma_object_view(*ms);
            }
            let sub = read_required_string(ms, "sub");
            let name = read_optional_string(ms, "name");
            let email = read_optional_string(ms, "email");
            let picture = read_optional_string(ms, "picture");
            match (sub, name, email, picture) {
                (Some(sub), Some(name), Some(email), Some(picture)) => Some(
                    UserInfo { sub, name, email, picture },
                ),
                _ => None,
            }
        },
        _ => None,
    }
}

/// Reads a credential from a JSON value.
pub fn credential_from_json(j: &JsonValue) -> (r: Option<AuthData>)
    ensures
        opt_credential_view(r) == credential_of_json(j@),
{
    match j {
        JsonValue::Object(ms) => {
            proof {
                lemma_object_view(*ms);
            }
            let access_token = read_required_string(ms, "access_token");
            let refresh_token = read_optional_string(ms, "refresh_token");
            let id_token = read_optional_string(ms, "id_token");
            let expires_at = read_optional_unsigned(ms, "expires_at");
            let user_info = match find_member(ms, "user_info") {
                None => Some(None),
                Some(JsonValue::Null) => Some(None),
                Some(u) => match user_info_from_json(u) {
                    Some(u) => Some(Some(u)),
                    None => None,
                },
            };
            match (access_token, refresh_token, id_token, expires_at, user_info) {
                (Some(access_token), Some(refresh_token), Some(id_token), Some(expires_at), Some(user_info)) => Some(
                    AuthData { access_token, refresh_token, id_token, expires_at, user_info },
                ),
                _ => None,
            }
        },
        _ => None,
    }
}

/// Loads the credential from what the file held: nothing when there is no
/// file, `CorruptCredential` when its content is not a credential record.
pub fn load_credential(stored: StoredRecord) -> (r: Result<Option<AuthData>, AuthError>)
    ensures
        match (r, load_result(stored)) {
            (Ok(c), Ok(v)) => opt_credential_view(c) == v,
            (Err(e), Err(f)) => e == f,
            _ => false,
        },
{
    match stored {
        StoredRecord::Absent => Ok(None),
        StoredRecord::Unreadable => Err(AuthError::CorruptCredential),
        StoredRecord::Document(j) => match credential_from_json(&j) {
            Some(c) => Ok(Some(c)),
            None => Err(AuthError::CorruptCredential),
        },
    }
}

} // verus!
