use supabase_management_rs::decode::{from_document, from_slice, optional, required, OTHER_SHAPE};
use supabase_management_rs::json::{parse, Number};
use supabase_management_rs::{
    AccessTokenResponse, Bucket, DatabaseType, Decode, Json, PoolMode, PostgresConfig, Project,
    ServiceHealth, SessionReplicationRole, Status, StorageConfig, SupavisorConfig,
};

fn unsigned(value: u64) -> Json {
    Json::Number(Number::from_u64(value))
}

fn signed(value: i64) -> Json {
    Json::Number(Number::from_i64(value))
}

fn fraction(notation: &str) -> Json {
    Json::Number(Number { unsigned: None, signed: None, notation: notation.to_string() })
}

fn text(value: &str) -> Json {
    Json::Text(value.to_string())
}

fn object(entries: Vec<(&str, Json)>) -> Json {
    Json::Object(entries.into_iter().map(|(name, value)| (name.to_string(), value)).collect())
}

fn other_shape(target: &str) -> String {
    format!("Failed to parse JSON into {target}: {OTHER_SHAPE}")
}

#[test]
fn deserializes_pg_config() {
    let json_data = r#"
        {
            "effective_cache_size": "4GB",
            "logical_decoding_work_mem": "64MB",
            "maintenance_work_mem": "256MB",
            "track_activity_query_size": "2048",
            "max_connections": 100,
            "max_locks_per_transaction": 128,
            "max_parallel_maintenance_workers": 2,
            "max_parallel_workers": 4,
            "max_parallel_workers_per_gather": 2,
            "max_replication_slots": 10,
            "max_slot_wal_keep_size": "1GB",
            "max_standby_archive_delay": "30s",
            "max_standby_streaming_delay": "30s",
            "max_wal_size": "2GB",
            "max_wal_senders": 5,
            "max_worker_processes": 8,
            "shared_buffers": "2GB",
            "statement_timeout": "60s",
            "track_commit_timestamp": true,
            "wal_keep_size": "512MB",
            "wal_sender_timeout": "60s",
            "work_mem": "4MB",
            "session_replication_role": "replica"
        }
        "#;

    let _config: PostgresConfig =
        from_slice(json_data.as_bytes()).expect("JSON was not well-formatted");
}

#[test]
fn pg_config_keeps_every_setting() {
    let json_data = r#"{
        "effective_cache_size": "4GB", "logical_decoding_work_mem": "64MB",
        "maintenance_work_mem": "256MB", "track_activity_query_size": "2048",
        "max_connections": 100, "max_locks_per_transaction": 128,
        "max_parallel_maintenance_workers": 2, "max_parallel_workers": 4,
        "max_parallel_workers_per_gather": 3, "max_replication_slots": 10,
        "max_slot_wal_keep_size": "1GB", "max_standby_archive_delay": "30s",
        "max_standby_streaming_delay": "31s", "max_wal_size": "2GB", "max_wal_senders": 5,
        "max_worker_processes": 8, "shared_buffers": "3GB", "statement_timeout": "60s",
        "track_commit_timestamp": true, "wal_keep_size": "512MB",
        "wal_sender_timeout": "61s", "work_mem": "4MB", "session_replication_role": "replica"
    }"#;
    let config: PostgresConfig = from_slice(json_data.as_bytes()).unwrap();
    assert_eq!(config.effective_cache_size.as_deref(), Some("4GB"));
    assert_eq!(config.logical_decoding_work_mem.as_deref(), Some("64MB"));
    assert_eq!(config.maintenance_work_mem.as_deref(), Some("256MB"));
    assert_eq!(config.track_activity_query_size.as_deref(), Some("2048"));
    assert_eq!(config.max_connections, Some(100));
    assert_eq!(config.max_locks_per_transaction, Some(128));
    assert_eq!(config.max_parallel_maintenance_workers, Some(2));
    assert_eq!(config.max_parallel_workers, Some(4));
    assert_eq!(config.max_parallel_workers_per_gather, Some(3));
    assert_eq!(config.max_replication_slots, Some(10));
    assert_eq!(config.max_slot_wal_keep_size.as_deref(), Some("1GB"));
    assert_eq!(config.max_standby_archive_delay.as_deref(), Some("30s"));
    assert_eq!(config.max_standby_streaming_delay.as_deref(), Some("31s"));
    assert_eq!(config.max_wal_size.as_deref(), Some("2GB"));
    assert_eq!(config.max_wal_senders, Some(5));
    assert_eq!(config.max_worker_processes, Some(8));
    assert_eq!(config.shared_buffers.as_deref(), Some("3GB"));
    assert_eq!(config.statement_timeout.as_deref(), Some("60s"));
    assert_eq!(config.track_commit_timestamp, Some(true));
    assert_eq!(config.wal_keep_size.as_deref(), Some("512MB"));
    assert_eq!(config.wal_sender_timeout.as_deref(), Some("61s"));
    assert_eq!(config.work_mem.as_deref(), Some("4MB"));
    assert_eq!(config.session_replication_role, Some(SessionReplicationRole::Replica));
}

#[test]
fn pg_config_settings_may_be_absent_or_null() {
    let config: PostgresConfig = from_slice(b"{}").unwrap();
    assert_eq!(config.max_connections, None);
    assert_eq!(config.work_mem, None);
    assert_eq!(config.session_replication_role, None);
    let config: PostgresConfig =
        from_slice(br#"{"max_connections":null,"work_mem":"1MB","extra":[1,2]}"#).unwrap();
    assert_eq!(config.max_connections, None);
    assert_eq!(config.work_mem.as_deref(), Some("1MB"));
}

#[test]
fn pg_config_refuses_what_is_no_object_and_settings_of_another_kind() {
    for body in [
        "null",
        "[]",
        "\"x\"",
        "3",
        r#"{"max_connections":"100"}"#,
        r#"{"max_connections":1.5}"#,
        r#"{"max_connections":2147483648}"#,
        r#"{"max_connections":-2147483649}"#,
        r#"{"work_mem":4}"#,
        r#"{"track_commit_timestamp":"true"}"#,
        r#"{"session_replication_role":"REPLICA"}"#,
        r#"{"session_replication_role":"primary"}"#,
    ] {
        let result: Result<PostgresConfig, _> = from_slice(body.as_bytes());
        assert_eq!(result.err().expect(body).to_string(), other_shape("PostgresConfig"));
    }
}

#[test]
fn numbers_are_taken_within_their_range_only() {
    let config: PostgresConfig = from_slice(br#"{"max_connections":2147483647}"#).unwrap();
    assert_eq!(config.max_connections, Some(i32::MAX));
    let config: PostgresConfig = from_slice(br#"{"max_connections":-2147483648}"#).unwrap();
    assert_eq!(config.max_connections, Some(i32::MIN));
    assert_eq!(i32::decode(&unsigned(2147483648)), None);
    assert_eq!(i32::decode(&signed(-2147483649)), None);
    assert_eq!(i32::decode(&signed(-5)), Some(-5));
    assert_eq!(i64::decode(&unsigned(9223372036854775807)), Some(i64::MAX));
    assert_eq!(i64::decode(&unsigned(9223372036854775808)), None);
    assert_eq!(i64::decode(&signed(i64::MIN)), Some(i64::MIN));
    assert_eq!(u64::decode(&unsigned(u64::MAX)), Some(u64::MAX));
    assert_eq!(u64::decode(&signed(-1)), None);
    assert_eq!(u64::decode(&fraction("1.0")), None);
    assert_eq!(i64::decode(&fraction("1.0")), None);
    assert_eq!(u64::decode(&text("1")), None);
}

#[test]
fn numbers_are_built_from_integers() {
    let number = Number::from_u64(0);
    assert_eq!((number.unsigned, number.signed, number.notation.as_str()), (Some(0), Some(0), "0"));
    let number = Number::from_u64(9223372036854775807);
    assert_eq!(number.signed, Some(i64::MAX));
    let number = Number::from_u64(9223372036854775808);
    assert_eq!(
        (number.unsigned, number.signed, number.notation.as_str()),
        (Some(9223372036854775808), None, "9223372036854775808")
    );
    let number = Number::from_i64(-12);
    assert_eq!((number.unsigned, number.signed, number.notation.as_str()), (None, Some(-12), "-12"));
    let number = Number::from_i64(12);
    assert_eq!((number.unsigned, number.signed, number.notation.as_str()), (Some(12), Some(12), "12"));
    let copy = number.clone();
    assert_eq!((copy.unsigned, copy.signed, copy.notation.as_str()), (Some(12), Some(12), "12"));
    for text in ["0", "7", "-7", "18446744073709551615", "-9223372036854775808"] {
        let read = match parse(text.as_bytes()).unwrap() {
            Json::Number(number) => number,
            other => panic!("not a number: {other:?}"),
        };
        let built = if text.starts_with('-') {
            Number::from_i64(text.parse().unwrap())
        } else {
            Number::from_u64(text.parse().unwrap())
        };
        assert_eq!(format!("{read:?}"), format!("{built:?}"));
    }
}

#[test]
fn building_blocks_decode_their_own_shape_only() {
    assert_eq!(<()>::decode(&Json::Null), Some(()));
    assert_eq!(<()>::decode(&object(vec![])), None);
    assert_eq!(bool::decode(&Json::Bool(true)), Some(true));
    assert_eq!(bool::decode(&Json::Null), None);
    assert_eq!(String::decode(&text("x")), Some("x".to_string()));
    assert_eq!(String::decode(&unsigned(1)), None);
    assert_eq!(Option::<bool>::decode(&Json::Null), Some(None));
    assert_eq!(Option::<bool>::decode(&Json::Bool(false)), Some(Some(false)));
    assert_eq!(Option::<bool>::decode(&text("no")), None);
    let list = Json::Array(vec![unsigned(1), unsigned(2), unsigned(3)]);
    assert_eq!(Vec::<u64>::decode(&list), Some(vec![1, 2, 3]));
    assert_eq!(Vec::<u64>::decode(&Json::Array(vec![])), Some(vec![]));
    let mixed = Json::Array(vec![unsigned(1), Json::Null]);
    assert_eq!(Vec::<u64>::decode(&mixed), None);
    assert_eq!(Vec::<Option<u64>>::decode(&mixed), Some(vec![Some(1), None]));
    assert_eq!(Vec::<u64>::decode(&object(vec![])), None);
}

#[test]
fn targets_are_called_by_their_names() {
    assert_eq!(<()>::target_name(), "()");
    assert_eq!(bool::target_name(), "bool");
    assert_eq!(u64::target_name(), "u64");
    assert_eq!(i64::target_name(), "i64");
    assert_eq!(i32::target_name(), "i32");
    assert_eq!(String::target_name(), "String");
    assert_eq!(Json::target_name(), "Json");
    assert_eq!(Option::<i32>::target_name(), "Option<i32>");
    assert_eq!(Vec::<Project>::target_name(), "Vec<Project>");
    assert_eq!(Vec::<Option<ServiceHealth>>::target_name(), "Vec<Option<ServiceHealth>>");
    assert_eq!(Status::target_name(), "Status");
    assert_eq!(AccessTokenResponse::target_name(), "AccessTokenResponse");
    assert_eq!(PostgresConfig::target_name(), "PostgresConfig");
    assert_eq!(SessionReplicationRole::target_name(), "SessionReplicationRole");
    assert_eq!(StorageConfig::target_name(), "StorageConfig");
    assert_eq!(Bucket::target_name(), "Bucket");
    assert_eq!(SupavisorConfig::target_name(), "SupavisorConfig");
    assert_eq!(DatabaseType::target_name(), "DatabaseType");
    assert_eq!(PoolMode::target_name(), "PoolMode");
}

#[test]
fn members_are_required_or_optional() {
    let document = object(vec![("a", unsigned(1)), ("b", Json::Null), ("a", unsigned(2))]);
    assert_eq!(required::<u64>(&document, "a"), Some(1));
    assert_eq!(required::<u64>(&document, "b"), None);
    assert_eq!(required::<u64>(&document, "c"), None);
    assert_eq!(optional::<u64>(&document, "a"), Some(Some(1)));
    assert_eq!(optional::<u64>(&document, "b"), Some(None));
    assert_eq!(optional::<u64>(&document, "c"), Some(None));
    assert_eq!(optional::<bool>(&document, "a"), None);
    assert_eq!(required::<u64>(&Json::Array(vec![]), "a"), None);
    assert_eq!(optional::<u64>(&Json::Null, "a"), Some(None));
}

#[test]
fn every_status_is_decoded_from_its_wire_name() {
    let names = [
        ("INACTIVE", Status::Inactive),
        ("ACTIVE_HEALTHY", Status::ActiveHealthy),
        ("ACTIVE_UNHEALTHY", Status::ActiveUnhealthy),
        ("COMING_UP", Status::ComingUp),
        ("UNKNOWN", Status::Unknown),
        ("GOING_DOWN", Status::GoingDown),
        ("INIT_FAILED", Status::InitFailed),
        ("REMOVED", Status::Removed),
        ("RESTORING", Status::Restoring),
        ("UPGRADING", Status::Upgrading),
        ("PAUSING", Status::Pausing),
        ("RESTORE_FAILED", Status::RestoreFailed),
        ("RESTARTING", Status::Restarting),
        ("PAUSE_FAILED", Status::PauseFailed),
        ("RESIZING", Status::Resizing),
    ];
    for (name, status) in names {
        assert_eq!(Status::from_wire_name(name), Some(status));
        assert_eq!(Status::decode(&text(name)), Some(status));
    }
    for name in ["", "inactive", "ActiveHealthy", "ACTIVE", "ACTIVE_HEALTHY ", "RESIZE"] {
        assert_eq!(Status::from_wire_name(name), None);
    }
    assert_eq!(Status::decode(&Json::Null), None);
    assert_eq!(Status::decode(&unsigned(1)), None);
}

#[test]
fn roles_kinds_and_modes_are_decoded_from_their_wire_names() {
    assert_eq!(SessionReplicationRole::decode(&text("origin")), Some(SessionReplicationRole::Origin));
    assert_eq!(SessionReplicationRole::decode(&text("replica")), Some(SessionReplicationRole::Replica));
    assert_eq!(SessionReplicationRole::decode(&text("local")), Some(SessionReplicationRole::Local));
    assert_eq!(SessionReplicationRole::decode(&text("Local")), None);
    assert_eq!(SessionReplicationRole::Origin.to_wire_name(), "origin");
    assert_eq!(SessionReplicationRole::Replica.to_wire_name(), "replica");
    assert_eq!(SessionReplicationRole::Local.to_wire_name(), "local");
    assert_eq!(DatabaseType::decode(&text("PRIMARY")), Some(DatabaseType::Primary));
    assert_eq!(DatabaseType::decode(&text("READ_REPLICA")), Some(DatabaseType::ReadReplica));
    assert_eq!(DatabaseType::decode(&text("primary")), None);
    assert_eq!(PoolMode::decode(&text("transaction")), Some(PoolMode::Transaction));
    assert_eq!(PoolMode::decode(&text("session")), Some(PoolMode::Session));
    assert_eq!(PoolMode::decode(&text("SESSION")), None);
    assert_eq!(PoolMode::decode(&Json::Bool(true)), None);
    assert_eq!(SessionReplicationRole::from_wire_name("replica"), Some(SessionReplicationRole::Replica));
    assert_eq!(SessionReplicationRole::from_wire_name("replicas"), None);
    assert_eq!(DatabaseType::from_wire_name("READ_REPLICA"), Some(DatabaseType::ReadReplica));
    assert_eq!(DatabaseType::from_wire_name("READ REPLICA"), None);
    assert_eq!(PoolMode::from_wire_name("session"), Some(PoolMode::Session));
    assert_eq!(PoolMode::from_wire_name(""), None);
}

#[test]
fn token_answer_is_decoded_with_and_without_a_new_refresh_token() {
    let rotated = br#"{"expires_in":3600,"token_type":"bearer","access_token":"sbp_oauth_abc","refresh_token":"next"}"#;
    let pair: AccessTokenResponse = from_slice(rotated).unwrap();
    assert_eq!(pair.expires_in, 3600);
    assert!(pair.expires_in > 0);
    assert_eq!(pair.token_type, "bearer");
    assert_eq!(pair.access_token, "sbp_oauth_abc");
    assert!(!pair.access_token.is_empty());
    assert_eq!(pair.refresh_token.as_deref(), Some("next"));
    let kept = br#"{"access_token":"a","token_type":"bearer","expires_in":1}"#;
    let pair: AccessTokenResponse = from_slice(kept).unwrap();
    assert_eq!(pair.refresh_token, None);
    let null = br#"{"access_token":"a","token_type":"bearer","expires_in":1,"refresh_token":null}"#;
    let pair: AccessTokenResponse = from_slice(null).unwrap();
    assert_eq!(pair.refresh_token, None);
    for body in [
        r#"{"access_token":"a","token_type":"bearer"}"#,
        r#"{"access_token":"a","token_type":"bearer","expires_in":-1}"#,
        r#"{"access_token":"a","token_type":"bearer","expires_in":1.5}"#,
        r#"{"access_token":"a","token_type":"bearer","expires_in":"3600"}"#,
        r#"{"access_token":"a","token_type":"bearer","expires_in":1,"refresh_token":7}"#,
        r#"{"access_token":null,"token_type":"bearer","expires_in":1}"#,
    ] {
        let result: Result<AccessTokenResponse, _> = from_slice(body.as_bytes());
        assert_eq!(result.err().expect(body).to_string(), other_shape("AccessTokenResponse"));
    }
}

#[test]
fn service_health_is_decoded() {
    let body = br#"[{"name":"auth","healthy":true,"status":"ACTIVE_HEALTHY","info":{"x":1}},{"name":"db","healthy":false,"status":"COMING_UP"}]"#;
    let services: Vec<ServiceHealth> = from_slice(body).unwrap();
    assert_eq!(services.len(), 2);
    assert_eq!(services[0].name, "auth");
    assert!(services[0].healthy);
    assert_eq!(services[0].status, Status::ActiveHealthy);
    assert_eq!(services[1].name, "db");
    assert!(!services[1].healthy);
    assert_eq!(services[1].status, Status::ComingUp);
    let copy = services[1].clone();
    assert_eq!(copy.name, "db");
}

#[test]
fn storage_config_is_decoded_from_its_camel_case_members() {
    let body = br#"{"fileSizeLimit":52428800,"features":{"imageTransformation":{"enabled":true},"s3Protocol":{"enabled":false}}}"#;
    let config: StorageConfig = from_slice(body).unwrap();
    assert_eq!(config.file_size_limit, 52428800);
    assert!(config.features.image_transformation.enabled);
    assert!(!config.features.s3protocol.enabled);
    let snake = br#"{"file_size_limit":1,"features":{"image_transformation":{"enabled":true},"s3protocol":{"enabled":false}}}"#;
    let result: Result<StorageConfig, _> = from_slice(snake);
    assert_eq!(result.err().unwrap().to_string(), other_shape("StorageConfig"));
    let negative = br#"{"fileSizeLimit":-5,"features":{"imageTransformation":{"enabled":true},"s3Protocol":{"enabled":true}}}"#;
    let config: StorageConfig = from_slice(negative).unwrap();
    assert_eq!(config.file_size_limit, -5);
}

#[test]
fn buckets_are_decoded() {
    let body = br#"[{"id":"b1","name":"avatars","owner":"","created_at":"2024-01-01","updated_at":"2024-01-02","public":true}]"#;
    let buckets: Vec<Bucket> = from_slice(body).unwrap();
    assert_eq!(buckets.len(), 1);
    assert_eq!(buckets[0].id, "b1");
    assert_eq!(buckets[0].name, "avatars");
    assert_eq!(buckets[0].owner, "");
    assert_eq!(buckets[0].created_at, "2024-01-01");
    assert_eq!(buckets[0].updated_at, "2024-01-02");
    assert!(buckets[0].public);
    let result: Result<Vec<Bucket>, _> = from_slice(br#"[{"id":"b1"}]"#);
    assert_eq!(result.err().unwrap().to_string(), other_shape("Vec<Bucket>"));
}

#[test]
fn pooler_config_is_decoded() {
    let body = br#"[{"database_type":"PRIMARY","db_port":6543,"default_pool_size":15,"max_client_conn":null,"identifier":"abc","is_using_scram_auth":true,"db_user":"postgres","db_host":"h","db_name":"postgres","pool_mode":"transaction","connection_string":"x"}]"#;
    let configs: Vec<SupavisorConfig> = from_slice(body).unwrap();
    assert_eq!(configs.len(), 1);
    let config = &configs[0];
    assert_eq!(config.database_type, DatabaseType::Primary);
    assert_eq!(config.db_port, 6543);
    assert_eq!(config.default_pool_size, Some(15));
    assert_eq!(config.max_client_conn, None);
    assert_eq!(config.identifier, "abc");
    assert!(config.is_using_scram_auth);
    assert_eq!(config.db_user, "postgres");
    assert_eq!(config.db_host, "h");
    assert_eq!(config.db_name, "postgres");
    assert_eq!(config.pool_mode, PoolMode::Transaction);
    let result: Result<Vec<SupavisorConfig>, _> = from_slice(&body[..body.len() - 1]);
    assert!(result.err().unwrap().to_string().starts_with("Failed to parse JSON into Vec<SupavisorConfig>: "));
}

#[test]
fn a_document_read_elsewhere_is_decoded_like_one_read_here() {
    let document = object(vec![
        ("name", text("auth")),
        ("healthy", Json::Bool(true)),
        ("status", text("RESTARTING")),
    ]);
    let health: ServiceHealth = from_document(Ok(document)).unwrap();
    assert_eq!(health.name, "auth");
    assert_eq!(health.status, Status::Restarting);
    let result: Result<ServiceHealth, _> = from_document(Ok(Json::Null));
    assert_eq!(result.err().unwrap().to_string(), other_shape("ServiceHealth"));
    let result: Result<ServiceHealth, _> = from_document(Err("expected value at line 1 column 1".to_string()));
    assert_eq!(
        result.err().unwrap().to_string(),
        "Failed to parse JSON into ServiceHealth: expected value at line 1 column 1"
    );
}

#[test]
fn reader_builds_the_tree_that_the_bytes_spell() {
    let document = parse(br#" {"b":[1,-2,3.5,"x",null,true,false,{}],"a":{"c":18446744073709551615}} "#).unwrap();
    let list = document.field("b").expect("member b");
    match list {
        Json::Array(items) => {
            assert_eq!(items.len(), 8);
            assert!(matches!(&items[0], Json::Number(number) if number.unsigned == Some(1)));
            assert!(matches!(&items[1], Json::Number(number) if number.signed == Some(-2) && number.unsigned.is_none()));
            assert!(matches!(&items[2], Json::Number(number) if number.notation == "3.5" && number.unsigned.is_none() && number.signed.is_none()));
            assert!(matches!(&items[3], Json::Text(value) if value == "x"));
            assert!(matches!(items[4], Json::Null));
            assert!(matches!(items[5], Json::Bool(true)));
            assert!(matches!(items[6], Json::Bool(false)));
            assert!(matches!(&items[7], Json::Object(entries) if entries.is_empty()));
        },
        other => panic!("not an array: {other:?}"),
    }
    let inner = document.field("a").and_then(|a| a.field("c"));
    assert!(matches!(inner, Some(Json::Number(number)) if number.unsigned == Some(u64::MAX) && number.signed.is_none()));
    assert!(document.field("c").is_none());
    assert!(list.field("a").is_none());
    let complaint = parse(b"{\"a\":").unwrap_err();
    assert_eq!(complaint, serde_json::from_slice::<serde_json::Value>(b"{\"a\":").unwrap_err().to_string());
    assert!(parse(b"").is_err());
    assert!(parse(&[0xff, 0xfe]).is_err());
    assert!(matches!(parse(b"\"\\u00e9\\n\"").unwrap(), Json::Text(value) if value == "\u{e9}\n"));
}

#[test]
fn field_finds_the_first_entry_of_a_name_and_clone_keeps_the_tree() {
    let document = object(vec![
        ("a", unsigned(1)),
        ("b", Json::Array(vec![Json::Null, text("x"), object(vec![("c", Json::Bool(true))])])),
        ("a", unsigned(2)),
        ("", signed(-1)),
    ]);
    assert!(matches!(document.field("a"), Some(Json::Number(number)) if number.unsigned == Some(1)));
    assert!(matches!(document.field(""), Some(Json::Number(number)) if number.signed == Some(-1)));
    assert!(document.field("A").is_none());
    let copy = document.clone();
    assert_eq!(format!("{copy:?}"), format!("{document:?}"));
    let raw: Json = Json::decode(&document).unwrap();
    assert_eq!(format!("{raw:?}"), format!("{document:?}"));
}

#[test]
fn reader_refuses_a_document_that_is_nested_too_deep() {
    let shallow = format!("{}{}", "[".repeat(100), "]".repeat(100));
    let mut document = parse(shallow.as_bytes()).unwrap();
    let mut depth = 0;
    while let Json::Array(mut items) = document {
        depth += 1;
        match items.pop() {
            Some(inner) => document = inner,
            None => break,
        }
    }
    assert_eq!(depth, 100);
    let deep = format!("{}{}", "[".repeat(200), "]".repeat(200));
    let complaint = parse(deep.as_bytes()).unwrap_err();
    assert!(complaint.starts_with("recursion limit exceeded"), "{complaint}");
    let result: Result<Json, _> = from_slice(deep.as_bytes());
    assert_eq!(result.err().unwrap().to_string(), format!("Failed to parse JSON into Json: {complaint}"));
}
