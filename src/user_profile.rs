use vstd::prelude::*;

use crate::domain::{
    AuthType, HistoricalUser, ProfileUpdate, UpdateUserProfileParams, UserProfile, UserWorkspace,
};
use crate::errors::{ErrorCode, ProfileField};
use crate::parser::{
    email_outcome, icon_outcome, name_outcome, openai_key_outcome, password_outcome, UserEmail,
    UserIcon, UserName, UserOpenaiKey, UserPassword,
};

verus! {

/// The authentication provider as it travels on the wire.
#[derive(Clone, Copy, Debug, PartialEq, Eq, Structural, Default)]
pub enum AuthTypePB {
    #[default]
    Local,
    SelfHosted,
    Supabase,
}

pub open spec fn auth_type_to_pb(a: AuthType) -> AuthTypePB {
    match a {
        AuthType::Local => AuthTypePB::Local,
        AuthType::SelfHosted => AuthTypePB::SelfHosted,
        AuthType::Supabase => AuthTypePB::Supabase,
    }
}

pub open spec fn auth_type_from_pb(a: AuthTypePB) -> AuthType {
    match a {
        AuthTypePB::Local => AuthType::Local,
        AuthTypePB::SelfHosted => AuthType::SelfHosted,
        AuthTypePB::Supabase => AuthType::Supabase,
    }
}

impl From<AuthType> for AuthTypePB {
    fn from(a: AuthType) -> (r: AuthTypePB) {
        match a {
            AuthType::Local => AuthTypePB::Local,
            AuthType::SelfHosted => AuthTypePB::SelfHosted,
            AuthType::Supabase => AuthTypePB::Supabase,
        }
    }
}

impl vstd::std_specs::convert::FromSpecImpl<AuthType> for AuthTypePB {
    open spec fn obeys_from_spec() -> bool {
        true
    }

    open spec fn from_spec(a: AuthType) -> AuthTypePB {
        auth_type_to_pb(a)
    }
}

impl From<AuthTypePB> for AuthType {
    fn from(a: AuthTypePB) -> (r: AuthType) {
        match a {
            AuthTypePB::Local => AuthType::Local,
            AuthTypePB::SelfHosted => AuthType::SelfHosted,
            AuthTypePB::Supabase => AuthType::Supabase,
        }
    }
}

impl vstd::std_specs::convert::FromSpecImpl<AuthTypePB> for AuthType {
    open spec fn obeys_from_spec() -> bool {
        true
    }

    open spec fn from_spec(a: AuthTypePB) -> AuthType {
        auth_type_from_pb(a)
    }
}

/// A session token.
#[derive(Clone, Debug, PartialEq, Eq, Default)]
pub struct UserTokenPB {
    pub token: String,
}

/// Where a user's folder lives.
#[derive(Clone, Debug, PartialEq, Eq, Default)]
pub struct UserSettingPB {
    pub user_folder: String,
}

/// A user profile on the wire, field for field.
#[derive(Clone, Debug, PartialEq, Eq, Default)]
pub struct UserProfilePB {
    pub id: i64,
    pub email: String,
    pub name: String,
    pub token: String,
    pub icon_url: String,
    pub openai_key: String,
    pub auth_type: AuthTypePB,
}

pub open spec fn profile_to_pb(u: UserProfile) -> UserProfilePB {
    UserProfilePB {
        id: u.id,
        email: u.email,
        name: u.name,
        token: u.token,
        icon_url: u.icon_url,
        openai_key: u.openai_key,
        auth_type: auth_type_to_pb(u.auth_type),
    }
}

impl From<UserProfile> for UserProfilePB {
    fn from(user_profile: UserProfile) -> (r: UserProfilePB) {
        UserProfilePB {
            id: user_profile.id,
            email: user_profile.email,
            name: user_profile.name,
            token: user_profile.token,
            icon_url: user_profile.icon_url,
            openai_key: user_profile.openai_key,
            auth_type: AuthTypePB::from(user_profile.auth_type),
        }
    }
}

impl vstd::std_specs::convert::FromSpecImpl<UserProfile> for UserProfilePB {
    open spec fn obeys_from_spec() -> bool {
        true
    }

    open spec fn from_spec(u: UserProfile) -> UserProfilePB {
        profile_to_pb(u)
    }
}

/// A request to change a profile: an absent field is left as it is.
#[derive(Clone, Debug, PartialEq, Eq, Default)]
pub struct UpdateUserProfilePayloadPB {
    pub id: i64,
    pub name: Option<String>,
    pub email: Option<String>,
    pub password: Option<String>,
    pub icon_url: Option<String>,
    pub openai_key: Option<String>,
    pub auth_type: AuthTypePB,
}

/// The outcome of validating the raw value `s` of field `f`.
pub open spec fn validate_outcome(f: ProfileField, s: Seq<char>) -> Result<Seq<char>, ErrorCode> {
    match f {
        ProfileField::Name => name_outcome(s),
        ProfileField::Email => email_outcome(s),
        ProfileField::Password => password_outcome(s),
        ProfileField::IconUrl => icon_outcome(s),
        ProfileField::OpenaiKey => openai_key_outcome(s),
    }
}

/// The raw value of field `f` in a payload.
pub open spec fn raw_field(p: UpdateUserProfilePayloadPB, f: ProfileField) -> Option<String> {
    match f {
        ProfileField::Name => p.name,
        ProfileField::Email => p.email,
        ProfileField::Password => p.password,
        ProfileField::IconUrl => p.icon_url,
        ProfileField::OpenaiKey => p.openai_key,
    }
}

/// An absent field stays absent; a present one is validated.
pub open spec fn checked_field(p: UpdateUserProfilePayloadPB, f: ProfileField) -> Result<
    Option<Seq<char>>,
    ErrorCode,
> {
    match raw_field(p, f) {
        None => Ok(None),
        Some(s) => match validate_outcome(f, s@) {
            Ok(v) => Ok(Some(v)),
            Err(e) => Err(e),
        },
    }
}

/// The outcome of turning a payload into update parameters: the fields are checked
/// in the order name, email, password, icon, key, and the first failure is reported.
pub open spec fn update_outcome(p: UpdateUserProfilePayloadPB) -> Result<ProfileUpdate, ErrorCode> {
    if checked_field(p, ProfileField::Name) is Err {
        Err(checked_field(p, ProfileField::Name)->Err_0)
    } else if checked_field(p, ProfileField::Email) is Err {
        Err(checked_field(p, ProfileField::Email)->Err_0)
    } else if checked_field(p, ProfileField::Password) is Err {
        Err(checked_field(p, ProfileField::Password)->Err_0)
    } else if checked_field(p, ProfileField::IconUrl) is Err {
        Err(checked_field(p, ProfileField::IconUrl)->Err_0)
    } else if checked_field(p, ProfileField::OpenaiKey) is Err {
        Err(checked_field(p, ProfileField::OpenaiKey)->Err_0)
    } else {
        Ok(
            ProfileUpdate {
                id: p.id,
                auth_type: auth_type_from_pb(p.auth_type),
                name: checked_field(p, ProfileField::Name)->Ok_0,
                email: checked_field(p, ProfileField::Email)->Ok_0,
                password: checked_field(p, ProfileField::Password)->Ok_0,
                icon_url: checked_field(p, ProfileField::IconUrl)->Ok_0,
                openai_key: checked_field(p, ProfileField::OpenaiKey)->Ok_0,
            },
        )
    }
}

impl UpdateUserProfilePayloadPB {
    /// A payload for user `id` that changes nothing yet.
    pub fn new(id: i64) -> (r: Self)
        ensures
            r.id == id,
            r.name is None,
            r.email is None,
            r.password is None,
            r.icon_url is None,
            r.openai_key is None,
            r.auth_type == AuthTypePB::Local,
    {
        UpdateUserProfilePayloadPB {
            id,
            name: None,
            email: None,
            password: None,
            icon_url: None,
            openai_key: None,
            auth_type: AuthTypePB::Local,
        }
    }

    /// Asks to set the name to `name`.
    pub fn name(self, name: &str) -> (r: Self)
        ensures
            r == (UpdateUserProfilePayloadPB { name: r.name, ..self }),
            r.name is Some && r.name->0@ == name@,
    {
        UpdateUserProfilePayloadPB { name: Some(name.to_owned()), ..self }
    }

    /// Asks to set the email to `email`.
    pub fn email(self, email: &str) -> (r: Self)
        ensures
            r == (UpdateUserProfilePayloadPB { email: r.email, ..self }),
            r.email is Some && r.email->0@ == email@,
    {
        UpdateUserProfilePayloadPB { email: Some(email.to_owned()), ..self }
    }

    /// Asks to set the password to `password`.
    pub fn password(self, password: &str) -> (r: Self)
        ensures
            r == (UpdateUserProfilePayloadPB { password: r.password, ..self }),
            r.password is Some && r.password->0@ == password@,
    {
        UpdateUserProfilePayloadPB { password: Some(password.to_owned()), ..self }
    }

    /// Asks to set the icon to `icon_url`.
    pub fn icon_url(self, icon_url: &str) -> (r: Self)
        ensures
            r == (UpdateUserProfilePayloadPB { icon_url: r.icon_url, ..self }),
            r.icon_url is Some && r.icon_url->0@ == icon_url@,
    {
        UpdateUserProfilePayloadPB { icon_url: Some(icon_url.to_owned()), ..self }
    }

    /// Asks to set the API key to `openai_key`.
    pub fn openai_key(self, openai_key: &str) -> (r: Self)
        ensures
            r == (UpdateUserProfilePayloadPB { openai_key: r.openai_key, ..self }),
            r.openai_key is Some && r.openai_key->0@ == openai_key@,
    {
        UpdateUserProfilePayloadPB { openai_key: Some(openai_key.to_owned()), ..self }
    }

    /// Validates every present field and builds the update parameters; the first
    /// field that fails rejects the whole request.
    pub fn try_into(self) -> (r: Result<UpdateUserProfileParams, ErrorCode>)
        ensures
            match r {
                Ok(params) => update_outcome(self) == Ok::<ProfileUpdate, ErrorCode>(params@),
                Err(e) => update_outcome(self) == Err::<ProfileUpdate, ErrorCode>(e),
            },
    {
        let name = match self.name {
            None => None,
            Some(name) => match UserName::parse(name) {
                Ok(v) => Some(v),
                Err(e) => return Err(e),
            },
        };
        let email = match self.email {
            None => None,
            Some(email) => match UserEmail::parse(email) {
                Ok(v) => Some(v),
                Err(e) => return Err(e),
            },
        };
        let password = match self.password {
            None => None,
            Some(password) => match UserPassword::parse(password) {
                Ok(v) => Some(v),
                Err(e) => return Err(e),
            },
        };
        let icon_url = match self.icon_url {
            None => None,
            Some(icon_url) => match UserIcon::parse(icon_url) {
                Ok(v) => Some(v),
                Err(e) => return Err(e),
            },
        };
        let openai_key = match self.openai_key {
            None => None,
            Some(openai_key) => match UserOpenaiKey::parse(openai_key) {
                Ok(v) => Some(v),
                Err(e) => return Err(e),
            },
        };
        Ok(
            UpdateUserProfileParams {
                id: self.id,
                auth_type: AuthType::from(self.auth_type),
                name,
                email,
                password,
                icon_url,
                openai_key,
            },
        )
    }
}

/// A workspace on the wire.
#[derive(Clone, Debug, PartialEq, Eq, Default)]
pub struct UserWorkspacePB {
    pub id: String,
    pub name: String,
}

pub open spec fn workspace_to_pb(w: UserWorkspace) -> UserWorkspacePB {
    UserWorkspacePB { id: w.id, name: w.name }
}

impl From<UserWorkspace> for UserWorkspacePB {
    fn from(value: UserWorkspace) -> (r: UserWorkspacePB) {
        UserWorkspacePB { id: value.id, name: value.name }
    }
}

impl vstd::std_specs::convert::FromSpecImpl<UserWorkspace> for UserWorkspacePB {
    open spec fn obeys_from_spec() -> bool {
        true
    }

    open spec fn from_spec(w: UserWorkspace) -> UserWorkspacePB {
        workspace_to_pb(w)
    }
}

/// Each workspace of `ws` converted, in the same order.
pub open spec fn workspace_list_to_pb(ws: Seq<UserWorkspace>) -> Seq<UserWorkspacePB> {
    ws.map_values(|w: UserWorkspace| workspace_to_pb(w))
}

/// The workspaces of a user, in order.
#[derive(Clone, Debug, PartialEq, Eq, Default)]
pub struct RepeatedUserWorkspacePB {
    pub items: Vec<UserWorkspacePB>,
}

impl RepeatedUserWorkspacePB {
    /// Converts each workspace, keeping their number and order.
    pub fn from_workspaces(workspaces: Vec<UserWorkspace>) -> (r: Self)
        ensures
            r.items@ == workspace_list_to_pb(workspaces@),
            r.items@.len() == workspaces@.len(),
            forall|i: int|
                0 <= i < workspaces@.len() ==> r.items@[i] == workspace_to_pb(
                    #[trigger] workspaces@[i],
                ),
    {
        let ghost input = workspaces@;
        let mut items: Vec<UserWorkspacePB> = Vec::new();
        for w in it: workspaces.into_iter()
            invariant
                it.seq() == input,
                items@.len() == it.index(),
                forall|i: int| 0 <= i < it.index() ==> items@[i] == workspace_to_pb(input[i]),
        {
            items.push(UserWorkspacePB::from(w));
        }
        assert(items@ =~= workspace_list_to_pb(input));
        RepeatedUserWorkspacePB { items }
    }
}

impl From<Vec<UserWorkspace>> for RepeatedUserWorkspacePB {
    /// Converts each workspace, keeping their number and order.
    fn from(workspaces: Vec<UserWorkspace>) -> (r: RepeatedUserWorkspacePB)
        ensures
            r.items@ == workspace_list_to_pb(workspaces@),
            r.items@.len() == workspaces@.len(),
            forall|i: int|
                0 <= i < workspaces@.len() ==> r.items@[i] == workspace_to_pb(
                    #[trigger] workspaces@[i],
                ),
    {
        RepeatedUserWorkspacePB::from_workspaces(workspaces)
    }
}

impl vstd::std_specs::convert::FromSpecImpl<Vec<UserWorkspace>> for RepeatedUserWorkspacePB {
    // two lists with the same items cannot be proved equal as values, so `from`
    // states its result over the items, in its own `ensures`
    open spec fn obeys_from_spec() -> bool {
        false
    }

    open spec fn from_spec(workspaces: Vec<UserWorkspace>) -> RepeatedUserWorkspacePB {
        choose|r: RepeatedUserWorkspacePB| r.items@ == workspace_list_to_pb(workspaces@)
    }
}

/// A request to add a user to a workspace.
#[derive(Clone, Debug, PartialEq, Eq, Default)]
pub struct AddWorkspaceUserPB {
    pub email: String,
    pub workspace_id: String,
}

/// A request to remove a user from a workspace.
#[derive(Clone, Debug, PartialEq, Eq, Default)]
pub struct RemoveWorkspaceUserPB {
    pub email: String,
    pub workspace_id: String,
}

/// A user who signed in before, on the wire.
#[derive(Clone, Debug, PartialEq, Eq, Default)]
pub struct HistoricalUserPB {
    pub user_id: i64,
    pub user_name: String,
    pub last_time: i64,
    pub cloud_service_type: String,
}

pub open spec fn historical_user_to_pb(u: HistoricalUser) -> HistoricalUserPB {
    HistoricalUserPB {
        user_id: u.user_id,
        user_name: u.user_name,
        last_time: u.sign_in_timestamp,
        cloud_service_type: u.cloud_service_name,
    }
}

impl From<HistoricalUser> for HistoricalUserPB {
    fn from(historical_user: HistoricalUser) -> (r: HistoricalUserPB) {
        HistoricalUserPB {
            user_id: historical_user.user_id,
            user_name: historical_user.user_name,
            last_time: historical_user.sign_in_timestamp,
            cloud_service_type: historical_user.cloud_service_name,
        }
    }
}

impl vstd::std_specs::convert::FromSpecImpl<HistoricalUser> for HistoricalUserPB {
    open spec fn obeys_from_spec() -> bool {
        true
    }

    open spec fn from_spec(u: HistoricalUser) -> HistoricalUserPB {
        historical_user_to_pb(u)
    }
}

/// Each user of `us` converted, in the same order.
pub open spec fn historical_user_list_to_pb(us: Seq<HistoricalUser>) -> Seq<HistoricalUserPB> {
    us.map_values(|u: HistoricalUser| historical_user_to_pb(u))
}

/// The users who signed in before, in order.
#[derive(Clone, Debug, PartialEq, Eq, Default)]
pub struct RepeatedHistoricalUserPB {
    pub items: Vec<HistoricalUserPB>,
}

impl RepeatedHistoricalUserPB {
    /// Converts each user, keeping their number and order.
    pub fn from_historical_users(historical_users: Vec<HistoricalUser>) -> (r: Self)
        ensures
            r.items@ == historical_user_list_to_pb(historical_users@),
            r.items@.len() == historical_users@.len(),
            forall|i: int|
                0 <= i < historical_users@.len() ==> r.items@[i] == historical_user_to_pb(
                    #[trigger] historical_users@[i],
                ),
    {
        let ghost input = historical_users@;
        let mut items: Vec<HistoricalUserPB> = Vec::new();
        for u in it: historical_users.into_iter()
            invariant
                it.seq() == input,
                items@.len() == it.index(),
                forall|i: int| 0 <= i < it.index() ==> items@[i] == historical_user_to_pb(input[i]),
        {
            items.push(HistoricalUserPB::from(u));
        }
        assert(items@ =~= historical_user_list_to_pb(input));
        RepeatedHistoricalUserPB { items }
    }
}

impl From<Vec<HistoricalUser>> for RepeatedHistoricalUserPB {
    /// Converts each user, keeping their number and order.
    fn from(historical_users: Vec<HistoricalUser>) -> (r: RepeatedHistoricalUserPB)
        ensures
            r.items@ == historical_user_list_to_pb(historical_users@),
            r.items@.len() == historical_users@.len(),
            forall|i: int|
                0 <= i < historical_users@.len() ==> r.items@[i] == historical_user_to_pb(
                    #[trigger] historical_users@[i],
                ),
    {
        RepeatedHistoricalUserPB::from_historical_users(historical_users)
    }
}

impl vstd::std_specs::convert::FromSpecImpl<Vec<HistoricalUser>> for RepeatedHistoricalUserPB {
    // as for the workspaces, `from` states its result over the items
    open spec fn obeys_from_spec() -> bool {
        false
    }

    open spec fn from_spec(historical_users: Vec<HistoricalUser>) -> RepeatedHistoricalUserPB {
        choose|r: RepeatedHistoricalUserPB|
            r.items@ == historical_user_list_to_pb(historical_users@)
    }
}

/// Converting two workspace lists one after the other gives the conversion of the
/// first followed by that of the second.
pub proof fn lemma_workspace_list_concat(a: Seq<UserWorkspace>, b: Seq<UserWorkspace>)
    ensures
        workspace_list_to_pb(a + b) == workspace_list_to_pb(a) + workspace_list_to_pb(b),
{
    assert(workspace_list_to_pb(a + b) =~= workspace_list_to_pb(a) + workspace_list_to_pb(b));
}

/// Converting two lists of past users one after the other gives the conversion of
/// the first followed by that of the second.
pub proof fn lemma_historical_user_list_concat(a: Seq<HistoricalUser>, b: Seq<HistoricalUser>)
    ensures
        historical_user_list_to_pb(a + b) == historical_user_list_to_pb(a)
            + historical_user_list_to_pb(b),
{
    assert(historical_user_list_to_pb(a + b) =~= historical_user_list_to_pb(a)
        + historical_user_list_to_pb(b));
}

/// A value that a validator accepts is accepted again, unchanged, when it is
/// validated a second time.
pub proof fn lemma_validation_idempotent(f: ProfileField, s: Seq<char>)
    requires
        validate_outcome(f, s) is Ok,
    ensures
        validate_outcome(f, validate_outcome(f, s)->Ok_0) == validate_outcome(f, s),
{
}

/// A rejected value is rejected with an error of its own field.
pub proof fn lemma_error_names_field(f: ProfileField, s: Seq<char>)
    requires
        validate_outcome(f, s) is Err,
    ensures
        (validate_outcome(f, s)->Err_0).spec_field() == f,
{
}

/// A payload that leaves every field absent always converts, to parameters that
/// change nothing but carry its id and authentication type.
pub proof fn lemma_absent_fields_convert(p: UpdateUserProfilePayloadPB)
    requires
        p.name is None,
        p.email is None,
        p.password is None,
        p.icon_url is None,
        p.openai_key is None,
    ensures
        update_outcome(p) == Ok::<ProfileUpdate, ErrorCode>(
            ProfileUpdate {
                id: p.id,
                auth_type: auth_type_from_pb(p.auth_type),
                name: None,
                email: None,
                password: None,
                icon_url: None,
                openai_key: None,
            },
        ),
{
}

/// Where the one present field of a payload is invalid, the conversion fails with
/// that field's error, the one its validator gives.
pub proof fn lemma_single_invalid_field(p: UpdateUserProfilePayloadPB, f: ProfileField)
    requires
        raw_field(p, f) is Some,
        validate_outcome(f, raw_field(p, f)->0@) is Err,
        forall|g: ProfileField| g != f ==> (#[trigger] raw_field(p, g)) is None,
    ensures
        update_outcome(p) == Err::<ProfileUpdate, ErrorCode>(
            validate_outcome(f, raw_field(p, f)->0@)->Err_0,
        ),
        (update_outcome(p)->Err_0).spec_field() == f,
{
    assert(raw_field(p, ProfileField::Name) is None || f == ProfileField::Name);
    assert(raw_field(p, ProfileField::Email) is None || f == ProfileField::Email);
    assert(raw_field(p, ProfileField::Password) is None || f == ProfileField::Password);
    assert(raw_field(p, ProfileField::IconUrl) is None || f == ProfileField::IconUrl);
    assert(raw_field(p, ProfileField::OpenaiKey) is None || f == ProfileField::OpenaiKey);
}

/// Converting the authentication type to the wire and back gives it back, and the
/// other way round.
pub proof fn lemma_auth_type_round_trip(a: AuthType, b: AuthTypePB)
    ensures
        auth_type_from_pb(auth_type_to_pb(a)) == a,
        auth_type_to_pb(auth_type_from_pb(b)) == b,
{
}

/// Every field of a profile is found unchanged in its wire message.
pub proof fn lemma_profile_round_trip(u: UserProfile)
    ensures
        profile_to_pb(u).id == u.id,
        profile_to_pb(u).email@ == u.email@,
        profile_to_pb(u).name@ == u.name@,
        profile_to_pb(u).token@ == u.token@,
        profile_to_pb(u).icon_url@ == u.icon_url@,
        profile_to_pb(u).openai_key@ == u.openai_key@,
        auth_type_from_pb(profile_to_pb(u).auth_type) == u.auth_type,
{
}

} // verus!
