use flowy_user::domain::{AuthType, HistoricalUser, UpdateUserProfileParams, UserProfile, UserWorkspace};
use flowy_user::errors::ErrorCode;
use flowy_user::parser::UserName;
use flowy_user::user_profile::{
    AuthTypePB, HistoricalUserPB, RepeatedHistoricalUserPB, RepeatedUserWorkspacePB,
    UpdateUserProfilePayloadPB, UserProfilePB, UserWorkspacePB,
};

#[test]
fn payload_with_only_a_name_converts() {
    let mut payload = UpdateUserProfilePayloadPB::new(42).name("Ada");
    payload.auth_type = AuthTypePB::Local;
    let params = payload.try_into().unwrap();
    assert_eq!(
        params,
        UpdateUserProfileParams {
            id: 42,
            auth_type: AuthType::Local,
            name: Some(UserName::parse("Ada".to_string()).unwrap()),
            email: None,
            password: None,
            icon_url: None,
            openai_key: None,
        }
    );
}

#[test]
fn payload_with_an_invalid_email_is_rejected() {
    let payload = UpdateUserProfilePayloadPB::new(1).email("not-an-email");
    assert_eq!(payload.try_into(), Err(ErrorCode::EmailFormatInvalid));
}

#[test]
fn payload_with_no_fields_converts_to_no_changes() {
    for (id, auth) in [
        (0, AuthTypePB::Local),
        (-7, AuthTypePB::SelfHosted),
        (i64::MAX, AuthTypePB::Supabase),
    ] {
        let mut payload = UpdateUserProfilePayloadPB::new(id);
        payload.auth_type = auth;
        let params = payload.try_into().unwrap();
        assert_eq!(params.id, id);
        assert_eq!(params.auth_type, AuthType::from(auth));
        assert!(params.name.is_none());
        assert!(params.email.is_none());
        assert!(params.password.is_none());
        assert!(params.icon_url.is_none());
        assert!(params.openai_key.is_none());
    }
}

#[test]
fn one_invalid_field_gives_its_own_error() {
    let p = UpdateUserProfilePayloadPB::new(1);
    assert_eq!(p.clone().name("").try_into(), Err(ErrorCode::UserNameIsEmpty));
    assert_eq!(p.clone().email("x").try_into(), Err(ErrorCode::EmailFormatInvalid));
    assert_eq!(p.clone().password("").try_into(), Err(ErrorCode::PasswordIsEmpty));
    assert_eq!(p.clone().icon_url("a b").try_into(), Err(ErrorCode::UserIconInvalid));
    assert_eq!(p.openai_key("a b").try_into(), Err(ErrorCode::OpenaiKeyInvalid));
}

#[test]
fn first_invalid_field_in_order_is_reported() {
    let p = UpdateUserProfilePayloadPB::new(1)
        .openai_key("bad key")
        .password("nodigits")
        .email("bad");
    assert_eq!(p.try_into(), Err(ErrorCode::EmailFormatInvalid));
}

#[test]
fn all_valid_fields_convert() {
    let p = UpdateUserProfilePayloadPB::new(5)
        .name("Ada")
        .email("ada@example.com")
        .password("secret123")
        .icon_url("🚀")
        .openai_key("sk-1");
    let params = p.try_into().unwrap();
    assert_eq!(params.name.unwrap().as_str(), "Ada");
    assert_eq!(params.email.unwrap().as_str(), "ada@example.com");
    assert_eq!(params.password.unwrap().as_str(), "secret123");
    assert_eq!(params.icon_url.unwrap().as_str(), "🚀");
    assert_eq!(params.openai_key.unwrap().as_str(), "sk-1");
}

#[test]
fn builder_sets_only_the_named_fields() {
    let p = UpdateUserProfilePayloadPB::new(9).name("Ada").icon_url("");
    assert_eq!(p.id, 9);
    assert_eq!(p.name, Some("Ada".to_string()));
    assert_eq!(p.icon_url, Some(String::new()));
    assert_eq!(p.email, None);
    assert_eq!(p.password, None);
    assert_eq!(p.openai_key, None);
    assert_eq!(p.auth_type, AuthTypePB::Local);
}

#[test]
fn profile_converts_field_for_field() {
    let u = UserProfile {
        id: i64::MIN,
        email: "ada@example.com".to_string(),
        name: "Ada".to_string(),
        token: "tok".to_string(),
        icon_url: "🚀".to_string(),
        openai_key: "sk-1".to_string(),
        auth_type: AuthType::Supabase,
    };
    let pb = UserProfilePB::from(u.clone());
    assert_eq!(pb.id, u.id);
    assert_eq!(pb.email, u.email);
    assert_eq!(pb.name, u.name);
    assert_eq!(pb.token, u.token);
    assert_eq!(pb.icon_url, u.icon_url);
    assert_eq!(pb.openai_key, u.openai_key);
    assert_eq!(pb.auth_type, AuthTypePB::Supabase);
    assert_eq!(AuthType::from(pb.auth_type), u.auth_type);
}

#[test]
fn auth_type_converts_both_ways() {
    for a in [AuthType::Local, AuthType::SelfHosted, AuthType::Supabase] {
        assert_eq!(AuthType::from(AuthTypePB::from(a)), a);
    }
    assert_eq!(AuthTypePB::from(AuthType::SelfHosted), AuthTypePB::SelfHosted);
}

#[test]
fn workspaces_convert_in_order() {
    let ws = vec![
        UserWorkspace { id: "w1".to_string(), name: "Eng".to_string() },
        UserWorkspace { id: "w2".to_string(), name: "Ops".to_string() },
    ];
    let r = RepeatedUserWorkspacePB::from(ws);
    assert_eq!(
        r.items,
        vec![
            UserWorkspacePB { id: "w1".to_string(), name: "Eng".to_string() },
            UserWorkspacePB { id: "w2".to_string(), name: "Ops".to_string() },
        ]
    );
}

#[test]
fn empty_workspace_list_converts_to_empty() {
    assert!(RepeatedUserWorkspacePB::from_workspaces(Vec::new()).items.is_empty());
}

#[test]
fn historical_users_convert_in_order() {
    let users = vec![
        HistoricalUser {
            user_id: 1,
            user_name: "Ada".to_string(),
            sign_in_timestamp: 1_700_000_000,
            cloud_service_name: "Local".to_string(),
        },
        HistoricalUser {
            user_id: 2,
            user_name: "Bob".to_string(),
            sign_in_timestamp: 5,
            cloud_service_name: "Supabase".to_string(),
        },
        HistoricalUser {
            user_id: 1,
            user_name: "Ada".to_string(),
            sign_in_timestamp: 1_700_000_000,
            cloud_service_name: "Local".to_string(),
        },
    ];
    let r = RepeatedHistoricalUserPB::from(users.clone());
    assert_eq!(r.items.len(), 3);
    for (pb, u) in r.items.iter().zip(users) {
        assert_eq!(pb, &HistoricalUserPB::from(u));
    }
    assert_eq!(r.items[1].last_time, 5);
    assert_eq!(r.items[1].cloud_service_type, "Supabase");
    assert_eq!(r.items[1].user_name, "Bob");
    assert_eq!(r.items[1].user_id, 2);
}

fn workspace(id: &str, name: &str) -> UserWorkspace {
    UserWorkspace { id: id.to_string(), name: name.to_string() }
}

fn sign_in(id: i64, name: &str, time: i64, service: &str) -> HistoricalUser {
    HistoricalUser {
        user_id: id,
        user_name: name.to_string(),
        sign_in_timestamp: time,
        cloud_service_name: service.to_string(),
    }
}

#[test]
fn equal_workspaces_are_all_kept() {
    let w = workspace("w1", "Eng");
    let r = RepeatedUserWorkspacePB::from(vec![w.clone(), w]);
    let expected = UserWorkspacePB { id: "w1".to_string(), name: "Eng".to_string() };
    assert_eq!(r.items, vec![expected.clone(), expected]);
}

#[test]
fn workspace_list_conversion_respects_concatenation() {
    let a = vec![workspace("w1", "Eng"), workspace("w2", "Ops")];
    let b = vec![workspace("w3", "Ads")];
    let mut ab = a.clone();
    ab.extend(b.clone());
    let mut expected = RepeatedUserWorkspacePB::from(a).items;
    expected.extend(RepeatedUserWorkspacePB::from(b).items);
    assert_eq!(RepeatedUserWorkspacePB::from(ab).items, expected);
}

#[test]
fn historical_list_conversion_respects_concatenation() {
    let a = vec![sign_in(1, "a", 100, "Local")];
    let b = vec![sign_in(2, "b", 7, "Supabase"), sign_in(3, "c", 9, "Local")];
    let mut ab = a.clone();
    ab.extend(b.clone());
    let mut expected = RepeatedHistoricalUserPB::from(a).items;
    expected.extend(RepeatedHistoricalUserPB::from(b).items);
    assert_eq!(RepeatedHistoricalUserPB::from(ab).items, expected);
}

#[test]
fn sign_ins_keep_input_order() {
    let r = RepeatedHistoricalUserPB::from(vec![
        sign_in(1, "a", 100, "Local"),
        sign_in(1, "a", 50, "Local"),
    ]);
    let item = |time: i64| HistoricalUserPB {
        user_id: 1,
        user_name: "a".to_string(),
        last_time: time,
        cloud_service_type: "Local".to_string(),
    };
    assert_eq!(r.items, vec![item(100), item(50)]);
}
