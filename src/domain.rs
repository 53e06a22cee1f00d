use vstd::prelude::*;

use crate::parser::{UserEmail, UserIcon, UserName, UserOpenaiKey, UserPassword};

verus! {

/// The provider that authenticates a user.
#[derive(Clone, Copy, Debug, PartialEq, Eq, Structural, Default)]
pub enum AuthType {
    #[default]
    Local,
    SelfHosted,
    Supabase,
}

/// A user profile as storage hands it out.
#[derive(Clone, Debug, PartialEq, Eq, Default)]
pub struct UserProfile {
    pub id: i64,
    pub email: String,
    pub name: String,
    pub token: String,
    pub icon_url: String,
    pub openai_key: String,
    pub auth_type: AuthType,
}

/// The view of an optional validated field: its characters, if present.
pub open spec fn field_view<T: View<V = Seq<char>>>(o: Option<T>) -> Option<Seq<char>> {
    match o {
        Some(v) => Some(v@),
        None => None,
    }
}

/// What an update asks to change, with every present field validated.
#[derive(Clone, Debug, PartialEq, Eq)]
pub struct UpdateUserProfileParams {
    pub id: i64,
    pub auth_type: AuthType,
    pub name: Option<UserName>,
    pub email: Option<UserEmail>,
    pub password: Option<UserPassword>,
    pub icon_url: Option<UserIcon>,
    pub openai_key: Option<UserOpenaiKey>,
}

/// The content of an `UpdateUserProfileParams`; an absent field is left unchanged.
pub ghost struct ProfileUpdate {
    pub id: i64,
    pub auth_type: AuthType,
    pub name: Option<Seq<char>>,
    pub email: Option<Seq<char>>,
    pub password: Option<Seq<char>>,
    pub icon_url: Option<Seq<char>>,
    pub openai_key: Option<Seq<char>>,
}

impl View for UpdateUserProfileParams {
    type V = ProfileUpdate;

    open spec fn view(&self) -> ProfileUpdate {
        ProfileUpdate {
            id: self.id,
            auth_type: self.auth_type,
            name: field_view(self.name),
            email: field_view(self.email),
            password: field_view(self.password),
            icon_url: field_view(self.icon_url),
            openai_key: field_view(self.openai_key),
        }
    }
}

/// A workspace that a user belongs to.
#[derive(Clone, Debug, PartialEq, Eq, Default)]
pub struct UserWorkspace {
    pub id: String,
    pub name: String,
}

/// A user who signed in on this device before.
#[derive(Clone, Debug, PartialEq, Eq, Default)]
pub struct HistoricalUser {
    pub user_id: i64,
    pub user_name: String,
    pub sign_in_timestamp: i64,
    pub cloud_service_name: String,
}

} // verus!
