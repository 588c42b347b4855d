use apillon_simplet_blueprint_template::jobs::{
    deployment_report, email_airdrop_builder, merge_configs, proof_of_attendance_builder,
    registry_key,
};
use apillon_simplet_blueprint_template::simplets::email_airdrop::EmailAirdropBuilder;
use apillon_simplet_blueprint_template::simplets::identity::{derive_id, encode_hex};
use apillon_simplet_blueprint_template::simplets::lifecycle::{
    ContainerRole, StackAction, StackState,
};
use apillon_simplet_blueprint_template::simplets::proof_of_attendance::ProofOfAttendanceBuilder;
use apillon_simplet_blueprint_template::simplets::{
    CommonConfig, ServiceConfig, ServiceType, SimpletsBuilder, SmtpConfig,
};

fn unset() -> CommonConfig {
    CommonConfig {
        app_secret: None,
        app_url: None,
        mysql_password: None,
        mysql_db: None,
        admin_wallet: None,
        apillon_key: None,
        apillon_secret: None,
        smtp_config: None,
    }
}

fn test_smtp() -> SmtpConfig {
    SmtpConfig {
        host: "smtp.test.com".to_string(),
        port: "587".to_string(),
        username: "test".to_string(),
        password: "test".to_string(),
        email_from: "test@test.com".to_string(),
        name_from: "Test Sender".to_string(),
    }
}

#[test]
fn test_proof_of_attendance_deployment() {
    let (poa, action) = ProofOfAttendanceBuilder::new()
        .app_secret("test_secret")
        .app_url("http://localhost:8080")
        .mysql_password("test_password")
        .mysql_db("poa_test")
        .admin_wallet("0x123...")
        .apillon_credentials("test_key", "test_secret")
        .smtp_config(SmtpConfig {
            host: "smtp.test.com".to_string(),
            port: "587".to_string(),
            username: "test".to_string(),
            password: "test".to_string(),
            email_from: "test@test.com".to_string(),
            name_from: "Test Sender".to_string(),
        })
        .deploy();

    assert_eq!(action, StackAction::Create(ContainerRole::Database));
    assert_eq!(poa.state(), StackState::CreatingDatabase);
    assert_eq!(poa.service_type(), ServiceType::ProofOfAttendance);
    assert_eq!(poa.env_vars().len(), 13);
    assert_eq!(poa.env_vars().get("MYSQL_DB").map(|v| v.as_str()), Some("poa_test"));
    assert_eq!(poa.env_vars().get("SMTP_NAME_FROM").map(|v| v.as_str()), Some("Test Sender"));
}

#[test]
fn test_email_airdrop_deployment() {
    let (airdrop, action) = EmailAirdropBuilder::new()
        .app_secret("test_secret")
        .app_url("http://localhost:8080")
        .mysql_password("test_password")
        .mysql_db("airdrop_test")
        .admin_wallet("0x123...")
        .apillon_credentials("test_key", "test_secret")
        .collection_uuid("test-uuid")
        .smtp_config(SmtpConfig {
            host: "smtp.test.com".to_string(),
            port: "587".to_string(),
            username: "test".to_string(),
            password: "test".to_string(),
            email_from: "test@test.com".to_string(),
            name_from: "Test Sender".to_string(),
        })
        .deploy();

    assert_eq!(action, StackAction::Create(ContainerRole::Database));
    assert_eq!(airdrop.state(), StackState::CreatingDatabase);
    assert_eq!(airdrop.service_type(), ServiceType::EmailAirdrop);
    assert_eq!(airdrop.env_vars().len(), 14);
    assert_eq!(airdrop.env_vars().get("COLLECTION_UUID").map(|v| v.as_str()), Some("test-uuid"));
    assert_eq!(airdrop.env_vars().get("MYSQL_DB").map(|v| v.as_str()), Some("airdrop_test"));
}

#[test]
fn unset_config_builds_an_empty_environment() {
    let env = unset().build_env_vars();
    assert!(env.is_empty());
    assert_eq!(env.len(), 0);
    assert!(!env.contains_key("APP_SECRET"));
    assert!(env.get("SMTP_HOST").is_none());
}

#[test]
fn each_field_sets_exactly_its_own_variable() {
    let cases: Vec<(CommonConfig, &str, &str)> = vec![
        (CommonConfig { app_secret: Some("v1".to_string()), ..unset() }, "APP_SECRET", "v1"),
        (CommonConfig { app_url: Some("v2".to_string()), ..unset() }, "APP_URL", "v2"),
        (
            CommonConfig { mysql_password: Some("v3".to_string()), ..unset() },
            "MYSQL_PASSWORD",
            "v3",
        ),
        (CommonConfig { mysql_db: Some("v4".to_string()), ..unset() }, "MYSQL_DB", "v4"),
        (CommonConfig { admin_wallet: Some("v5".to_string()), ..unset() }, "ADMIN_WALLET", "v5"),
        (CommonConfig { apillon_key: Some("v6".to_string()), ..unset() }, "APILLON_KEY", "v6"),
        (
            CommonConfig { apillon_secret: Some("v7".to_string()), ..unset() },
            "APILLON_SECRET",
            "v7",
        ),
    ];
    for (config, key, value) in cases {
        let env = config.build_env_vars();
        assert_eq!(env.len(), 1);
        assert_eq!(env.get(key).map(|v| v.as_str()), Some(value));
    }
}

#[test]
fn smtp_record_expands_to_six_variables() {
    let env = CommonConfig { smtp_config: Some(test_smtp()), ..unset() }.build_env_vars();
    assert_eq!(env.len(), 6);
    assert_eq!(env.get("SMTP_HOST").map(|v| v.as_str()), Some("smtp.test.com"));
    assert_eq!(env.get("SMTP_PORT").map(|v| v.as_str()), Some("587"));
    assert_eq!(env.get("SMTP_USERNAME").map(|v| v.as_str()), Some("test"));
    assert_eq!(env.get("SMTP_PASSWORD").map(|v| v.as_str()), Some("test"));
    assert_eq!(env.get("SMTP_EMAIL_FROM").map(|v| v.as_str()), Some("test@test.com"));
    assert_eq!(env.get("SMTP_NAME_FROM").map(|v| v.as_str()), Some("Test Sender"));
}

#[test]
fn values_are_not_validated() {
    let env = CommonConfig { app_url: Some("not a url".to_string()), ..unset() }.build_env_vars();
    assert_eq!(env.get("APP_URL").map(|v| v.as_str()), Some("not a url"));
}

#[test]
fn second_call_of_a_setter_wins() {
    let builder = ProofOfAttendanceBuilder::new()
        .app_secret("first")
        .app_secret("second")
        .mysql_db("db1")
        .mysql_db("db2")
        .apillon_credentials("k1", "s1")
        .apillon_credentials("k2", "s2");
    let once = ProofOfAttendanceBuilder::new()
        .app_secret("second")
        .mysql_db("db2")
        .apillon_credentials("k2", "s2");
    assert_eq!(builder.get_config().to_json(), once.get_config().to_json());
    let env = builder.get_config().clone().into_env_vars();
    assert_eq!(env.len(), 4);
    assert_eq!(env.get("APP_SECRET").map(|v| v.as_str()), Some("second"));
    assert_eq!(env.get("MYSQL_DB").map(|v| v.as_str()), Some("db2"));
    assert_eq!(env.get("APILLON_KEY").map(|v| v.as_str()), Some("k2"));
    assert_eq!(env.get("APILLON_SECRET").map(|v| v.as_str()), Some("s2"));
}

#[test]
fn second_collection_wins() {
    let builder = EmailAirdropBuilder::new().collection_uuid("one").collection_uuid("two");
    let env = builder.get_config().clone().into_env_vars();
    assert_eq!(env.len(), 1);
    assert_eq!(env.get("COLLECTION_UUID").map(|v| v.as_str()), Some("two"));
}

#[test]
fn config_can_be_changed_in_place() {
    let mut builder = ProofOfAttendanceBuilder::new().app_secret("a");
    let replacement = ProofOfAttendanceBuilder::new().app_secret("b").get_config().clone();
    *builder.get_config_mut() = replacement;
    let env = builder.get_config().clone().into_env_vars();
    assert_eq!(env.get("APP_SECRET").map(|v| v.as_str()), Some("b"));
}

#[test]
fn override_takes_precedence_over_default() {
    let defaults = CommonConfig {
        app_secret: Some("x".to_string()),
        app_url: Some("http://default".to_string()),
        ..unset()
    };
    let custom = CommonConfig { app_secret: Some("y".to_string()), ..unset() };
    let merged = merge_configs(&defaults, &custom);
    assert_eq!(merged.app_secret.as_deref(), Some("y"));
    assert_eq!(merged.app_url.as_deref(), Some("http://default"));
    assert_eq!(merged.mysql_db, None);

    let builder = proof_of_attendance_builder(&defaults, &custom);
    let env = builder.get_config().clone().into_env_vars();
    assert_eq!(env.len(), 2);
    assert_eq!(env.get("APP_SECRET").map(|v| v.as_str()), Some("y"));
    assert_eq!(env.get("APP_URL").map(|v| v.as_str()), Some("http://default"));
}

#[test]
fn credentials_are_merged_as_a_pair() {
    let defaults = CommonConfig { apillon_key: Some("k".to_string()), ..unset() };
    let alone = merge_configs(&defaults, &unset());
    assert_eq!(alone.apillon_key, None);
    assert_eq!(alone.apillon_secret, None);

    let custom = CommonConfig { apillon_secret: Some("s".to_string()), ..unset() };
    let both = merge_configs(&defaults, &custom);
    assert_eq!(both.apillon_key.as_deref(), Some("k"));
    assert_eq!(both.apillon_secret.as_deref(), Some("s"));
}

#[test]
fn smtp_record_is_merged_whole() {
    let mut other = test_smtp();
    other.host = "smtp.other.com".to_string();
    let defaults = CommonConfig { smtp_config: Some(test_smtp()), ..unset() };
    let custom = CommonConfig { smtp_config: Some(other), ..unset() };
    let merged = merge_configs(&defaults, &custom);
    assert_eq!(merged.smtp_config.as_ref().map(|s| s.host.as_str()), Some("smtp.other.com"));
    let kept = merge_configs(&defaults, &unset());
    assert_eq!(kept.smtp_config.as_ref().map(|s| s.host.as_str()), Some("smtp.test.com"));
    let builder = email_airdrop_builder(&defaults, &custom);
    let env = builder.get_config().clone().into_env_vars();
    assert_eq!(env.len(), 6);
    assert_eq!(env.get("SMTP_HOST").map(|v| v.as_str()), Some("smtp.other.com"));
    assert!(!env.contains_key("COLLECTION_UUID"));
}

#[test]
fn collection_appears_only_when_set() {
    let with = EmailAirdropBuilder::new().app_secret("s").collection_uuid("abc");
    let env = with.get_config().clone().into_env_vars();
    assert_eq!(env.get("COLLECTION_UUID").map(|v| v.as_str()), Some("abc"));
    let (stack, _) = with.deploy();
    assert!(stack.build_app_environment().contains(&"COLLECTION_UUID=abc".to_string()));

    let without = EmailAirdropBuilder::new().app_secret("s");
    let env = without.get_config().clone().into_env_vars();
    assert!(!env.contains_key("COLLECTION_UUID"));
    let (stack, _) = without.deploy();
    assert!(stack.build_app_environment().iter().all(|line| !line.starts_with("COLLECTION_UUID")));
}

#[test]
fn hex_is_lower_case_without_prefix() {
    assert_eq!(encode_hex(&[]), "");
    assert_eq!(encode_hex(&[0x00, 0xff, 0x1a, 0xb2, 0x09]), "00ff1ab209");
    assert_eq!(encode_hex(&[0x01, 0x23, 0x45, 0x67, 0x89, 0xab, 0xcd, 0xef]), "0123456789abcdef");
}

#[test]
fn identity_is_the_keccak_digest_in_hex() {
    assert_eq!(
        derive_id(""),
        "c5d2460186f7233c927e7db2dcc703c0e500b653ca82273b7bfad8045d85a470"
    );
    assert_eq!(
        derive_id("abc"),
        "4e03657aea45a94fc7d47ba826c8d667c0d1e6e33a64a036ec44f58fa12d6c45"
    );
}

#[test]
fn configuration_is_serialized_in_field_order() {
    let empty = ProofOfAttendanceBuilder::new();
    assert_eq!(
        empty.get_config().to_json(),
        "{\"common\":{\"app_secret\":null,\"app_url\":null,\"mysql_password\":null,\"mysql_db\":null,\"admin_wallet\":null,\"apillon_key\":null,\"apillon_secret\":null,\"smtp_config\":null}}"
    );
    let airdrop = EmailAirdropBuilder::new()
        .app_secret("s")
        .smtp_config(test_smtp())
        .collection_uuid("abc");
    assert_eq!(
        airdrop.get_config().to_json(),
        "{\"common\":{\"app_secret\":\"s\",\"app_url\":null,\"mysql_password\":null,\"mysql_db\":null,\"admin_wallet\":null,\"apillon_key\":null,\"apillon_secret\":null,\"smtp_config\":{\"host\":\"smtp.test.com\",\"port\":\"587\",\"username\":\"test\",\"password\":\"test\",\"email_from\":\"test@test.com\",\"name_from\":\"Test Sender\"}},\"collection_uuid\":\"abc\"}"
    );
    assert_eq!(
        EmailAirdropBuilder::new().get_config().to_json(),
        "{\"common\":{\"app_secret\":null,\"app_url\":null,\"mysql_password\":null,\"mysql_db\":null,\"admin_wallet\":null,\"apillon_key\":null,\"apillon_secret\":null,\"smtp_config\":null},\"collection_uuid\":null}"
    );
}

#[test]
fn strings_are_escaped_in_json() {
    let builder = ProofOfAttendanceBuilder::new().app_secret("a\"b\\c\nd");
    let json = builder.get_config().to_json();
    assert!(json.starts_with("{\"common\":{\"app_secret\":\"a\\\"b\\\\c\\nd\",\"app_url\":null"));
    let parsed: serde_json::Value = serde_json::from_str(&json).unwrap();
    assert_eq!(parsed["common"]["app_secret"].as_str(), Some("a\"b\\c\nd"));
}

#[test]
fn unique_id_is_the_identity_of_the_serialized_configuration() {
    let builder = ProofOfAttendanceBuilder::new().mysql_db("poa_test");
    let id = builder.get_unique_id();
    assert_eq!(id.len(), 64);
    assert!(id.chars().all(|c| c.is_ascii_digit() || ('a'..='f').contains(&c)));
    assert_eq!(id, derive_id(&builder.get_config().to_json()));
    assert_eq!(
        id,
        derive_id(
            "{\"common\":{\"app_secret\":null,\"app_url\":null,\"mysql_password\":null,\"mysql_db\":\"poa_test\",\"admin_wallet\":null,\"apillon_key\":null,\"apillon_secret\":null,\"smtp_config\":null}}"
        )
    );
}

#[test]
fn unique_id_is_deterministic_and_tells_configurations_apart() {
    let first = EmailAirdropBuilder::new().app_secret("s").collection_uuid("abc");
    let second = EmailAirdropBuilder::new().app_secret("s").collection_uuid("abc");
    assert_eq!(first.get_unique_id(), first.get_unique_id());
    assert_eq!(first.get_unique_id(), second.get_unique_id());
    let other = EmailAirdropBuilder::new().app_secret("s").collection_uuid("abd");
    assert_ne!(first.get_unique_id(), other.get_unique_id());
    let partial = EmailAirdropBuilder::new().app_secret("s");
    assert_ne!(first.get_unique_id(), partial.get_unique_id());
}

#[test]
fn identical_deployments_share_a_registry_key() {
    let first = ProofOfAttendanceBuilder::new().app_secret("s1").mysql_db("poa_test");
    let second = ProofOfAttendanceBuilder::new().app_secret("s1").mysql_db("poa_test");
    let key_one = registry_key(ServiceType::ProofOfAttendance, &first.get_unique_id());
    let key_two = registry_key(ServiceType::ProofOfAttendance, &second.get_unique_id());
    assert_eq!(key_one, key_two);
    assert_eq!(key_one, format!("proof_of_attendance_{}", first.get_unique_id()));

    let mut registry = std::collections::HashMap::new();
    registry.insert(key_one, 1);
    registry.insert(key_two, 2);
    assert_eq!(registry.len(), 1);
    assert_eq!(registry.values().next(), Some(&2));
}

#[test]
fn registry_key_joins_service_name_and_identity() {
    assert_eq!(registry_key(ServiceType::ProofOfAttendance, "3af1"), "proof_of_attendance_3af1");
    assert_eq!(registry_key(ServiceType::EmailAirdrop, "00"), "email_airdrop_00");
}

#[test]
fn reports_are_worded_per_kind_and_outcome() {
    assert_eq!(
        deployment_report(ServiceType::ProofOfAttendance, true),
        "Proof of Attendance simplet deployed successfully!"
    );
    assert_eq!(
        deployment_report(ServiceType::ProofOfAttendance, false),
        "Failed to deploy Proof of Attendance simplet!"
    );
    assert_eq!(
        deployment_report(ServiceType::EmailAirdrop, true),
        "Email Airdrop simplet deployed successfully!"
    );
    assert_eq!(
        deployment_report(ServiceType::EmailAirdrop, false),
        "Failed to deploy Email Airdrop simplet!"
    );
}

#[test]
fn job_registers_only_what_was_deployed() {
    let done = apillon_simplet_blueprint_template::jobs::conclude(
        ServiceType::EmailAirdrop,
        "ab12",
        true,
    );
    assert_eq!(done.registered_as.as_deref(), Some("email_airdrop_ab12"));
    assert_eq!(done.report, "Email Airdrop simplet deployed successfully!");
    let failed = apillon_simplet_blueprint_template::jobs::conclude(
        ServiceType::ProofOfAttendance,
        "ab12",
        false,
    );
    assert_eq!(failed.registered_as, None);
    assert_eq!(failed.report, "Failed to deploy Proof of Attendance simplet!");
}

#[test]
fn every_escape_of_a_json_string() {
    let builder = ProofOfAttendanceBuilder::new()
        .app_secret("\u{08}\t\n\u{0c}\r\"\\")
        .app_url("\u{00}\u{01}\u{1f}\u{0b}")
        .mysql_db("/ \u{7f}\u{e9}\u{4e16} ok");
    let json = builder.get_config().to_json();
    assert_eq!(
        json,
        "{\"common\":{\"app_secret\":\"\\b\\t\\n\\f\\r\\\"\\\\\",\"app_url\":\"\\u0000\\u0001\\u001f\\u000b\",\"mysql_password\":null,\"mysql_db\":\"/ \u{7f}\u{e9}\u{4e16} ok\",\"admin_wallet\":null,\"apillon_key\":null,\"apillon_secret\":null,\"smtp_config\":null}}"
    );
    assert_eq!(builder.get_unique_id(), derive_id(&json));
}
