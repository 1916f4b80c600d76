use xai_grpc_client::proto;
use xai_grpc_client::ApiKeyInfo;

fn create_test_api_key_info() -> ApiKeyInfo {
    ApiKeyInfo {
        redacted_api_key: "xai-abc***xyz".to_string(),
        user_id: "user-123".to_string(),
        name: "Test API Key".to_string(),
        created_at: 1704067200,  // 2024-01-01 00:00:00 UTC
        modified_at: 1704153600, // 2024-01-02 00:00:00 UTC
        modified_by: "user-123".to_string(),
        team_id: "team-456".to_string(),
        acls: vec!["chat:read".to_string(), "chat:write".to_string()],
        api_key_id: "key-789".to_string(),
        api_key_blocked: false,
        team_blocked: false,
        disabled: false,
    }
}

#[test]
fn test_is_active_when_all_flags_false() {
    let info = create_test_api_key_info();
    assert!(info.is_active());
}

#[test]
fn test_is_not_active_when_api_key_blocked() {
    let mut info = create_test_api_key_info();
    info.api_key_blocked = true;
    assert!(!info.is_active());
}

#[test]
fn test_is_not_active_when_team_blocked() {
    let mut info = create_test_api_key_info();
    info.team_blocked = true;
    assert!(!info.is_active());
}

#[test]
fn test_is_not_active_when_disabled() {
    let mut info = create_test_api_key_info();
    info.disabled = true;
    assert!(!info.is_active());
}

#[test]
fn test_status_string_active() {
    let info = create_test_api_key_info();
    assert_eq!(info.status_string(), "Active");
}

#[test]
fn test_status_string_blocked_key() {
    let mut info = create_test_api_key_info();
    info.api_key_blocked = true;
    assert_eq!(info.status_string(), "Blocked (Key)");
}

#[test]
fn test_status_string_blocked_team() {
    let mut info = create_test_api_key_info();
    info.team_blocked = true;
    assert_eq!(info.status_string(), "Blocked (Team)");
}

#[test]
fn test_status_string_disabled() {
    let mut info = create_test_api_key_info();
    info.disabled = true;
    assert_eq!(info.status_string(), "Disabled");
}

#[test]
fn test_api_key_info_clone() {
    let info = create_test_api_key_info();
    let cloned = info.clone();

    assert_eq!(info.redacted_api_key, cloned.redacted_api_key);
    assert_eq!(info.user_id, cloned.user_id);
    assert_eq!(info.team_id, cloned.team_id);
}

#[test]
fn test_api_key_info_debug() {
    let info = create_test_api_key_info();
    let debug_str = format!("{info:?}");
    assert!(debug_str.contains("Test API Key"));
    assert!(debug_str.contains("team-456"));
}

#[test]
fn test_from_proto() {
    let proto_key = proto::ApiKey {
        redacted_api_key: "xai-test***key".to_string(),
        user_id: "user-789".to_string(),
        name: "Proto Test Key".to_string(),
        create_time: Some(prost_types::Timestamp {
            seconds: 1700000000,
            nanos: 0,
        }),
        modify_time: Some(prost_types::Timestamp {
            seconds: 1700100000,
            nanos: 0,
        }),
        modified_by: "user-789".to_string(),
        team_id: "team-abc".to_string(),
        acls: vec!["read".to_string(), "write".to_string()],
        api_key_id: "key-xyz".to_string(),
        api_key_blocked: false,
        team_blocked: true,
        disabled: false,
    };

    let info: ApiKeyInfo = proto_key.into();

    assert_eq!(info.redacted_api_key, "xai-test***key");
    assert_eq!(info.user_id, "user-789");
    assert_eq!(info.name, "Proto Test Key");
    assert_eq!(info.created_at, 1700000000);
    assert_eq!(info.modified_at, 1700100000);
    assert_eq!(info.modified_by, "user-789");
    assert_eq!(info.team_id, "team-abc");
    assert_eq!(info.acls.len(), 2);
    assert_eq!(info.api_key_id, "key-xyz");
    assert!(!info.api_key_blocked);
    assert!(info.team_blocked);
    assert!(!info.disabled);
    assert!(!info.is_active());
}

#[test]
fn test_from_proto_with_none_timestamps() {
    let proto_key = proto::ApiKey {
        redacted_api_key: "xai-***".to_string(),
        user_id: "user".to_string(),
        name: "Key".to_string(),
        create_time: None,
        modify_time: None,
        modified_by: "user".to_string(),
        team_id: "team".to_string(),
        acls: vec![],
        api_key_id: "key".to_string(),
        api_key_blocked: false,
        team_blocked: false,
        disabled: false,
    };

    let info: ApiKeyInfo = proto_key.into();
    assert_eq!(info.created_at, 0);
    assert_eq!(info.modified_at, 0);
}
