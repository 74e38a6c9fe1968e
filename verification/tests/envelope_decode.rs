//! Decoding tests for the response envelope, the success predicate, the
//! timestamp sentinel, and the remaining payload records.

use transmission_rpc::json::JsonValue;
use transmission_rpc::types::response::decode_timestamp;
use transmission_rpc::types::{
    BlocklistUpdate, DecodeError, FreeSpace, Nothing, PortTest, RpcResponse, SessionGet,
    SessionStats, Timestamp, TorrentRenamePath,
};

fn conv(v: &serde_json::Value) -> JsonValue {
    match v {
        serde_json::Value::Null => JsonValue::Null,
        serde_json::Value::Bool(b) => JsonValue::Bool(*b),
        serde_json::Value::Number(n) => {
            if let Some(i) = n.as_i64() {
                JsonValue::Int(i as i128)
            } else if let Some(u) = n.as_u64() {
                JsonValue::Int(u as i128)
            } else {
                JsonValue::Real(n.to_string())
            }
        }
        serde_json::Value::String(s) => JsonValue::Str(s.clone()),
        serde_json::Value::Array(xs) => JsonValue::Arr(xs.iter().map(conv).collect()),
        serde_json::Value::Object(m) => {
            JsonValue::Obj(m.iter().map(|(k, x)| (k.clone(), conv(x))).collect())
        }
    }
}

fn parse(text: &str) -> JsonValue {
    conv(&serde_json::from_str::<serde_json::Value>(text).expect("valid JSON"))
}

#[test]
fn is_ok_iff_result_is_the_literal_success() {
    let yes: RpcResponse<Nothing> =
        RpcResponse::decode(&parse(r#"{"arguments":{},"result":"success"}"#)).unwrap();
    assert!(yes.is_ok());

    let no: RpcResponse<Nothing> =
        RpcResponse::decode(&parse(r#"{"arguments":{},"result":"duplicate torrent"}"#)).unwrap();
    assert!(!no.is_ok());

    // Close misses are not success either.
    let near: RpcResponse<Nothing> =
        RpcResponse::decode(&parse(r#"{"arguments":{},"result":"Success"}"#)).unwrap();
    assert!(!near.is_ok());
}

#[test]
fn failure_result_is_data_not_an_error() {
    let resp: RpcResponse<Nothing> = RpcResponse::decode(&parse(
        r#"{"arguments":{},"result":"download directory path is not absolute"}"#,
    ))
    .expect("a well-formed failure envelope still decodes");
    assert_eq!(resp.result, "download directory path is not absolute");
}

#[test]
fn missing_result_is_a_malformed_envelope() {
    let r: Result<RpcResponse<Nothing>, DecodeError> =
        RpcResponse::decode(&parse(r#"{"arguments":{}}"#));
    assert!(matches!(r, Err(DecodeError::MalformedEnvelope)));
}

#[test]
fn missing_arguments_is_a_malformed_envelope() {
    let r: Result<RpcResponse<Nothing>, DecodeError> =
        RpcResponse::decode(&parse(r#"{"result":"success"}"#));
    assert!(matches!(r, Err(DecodeError::MalformedEnvelope)));
}

#[test]
fn non_object_body_is_a_malformed_envelope() {
    let r: Result<RpcResponse<Nothing>, DecodeError> = RpcResponse::decode(&parse(r#"[1,2,3]"#));
    assert!(matches!(r, Err(DecodeError::MalformedEnvelope)));
}

#[test]
fn ill_shaped_arguments_is_a_malformed_arguments_error() {
    let r: Result<RpcResponse<PortTest>, DecodeError> =
        RpcResponse::decode(&parse(r#"{"arguments":{},"result":"success"}"#));
    assert!(matches!(r, Err(DecodeError::MalformedArguments)));
}

#[test]
fn timestamp_sentinel_conflates_zero_and_negative() {
    assert_eq!(decode_timestamp(0), Some(Timestamp { secs: 0 }));
    assert_eq!(decode_timestamp(-1), Some(Timestamp { secs: 0 }));
    assert_eq!(decode_timestamp(-123456), Some(Timestamp { secs: 0 }));
    assert_eq!(
        decode_timestamp(1718947434),
        Some(Timestamp { secs: 1718947434 })
    );
    // Past the calendar's end there is no moment to decode to.
    assert_eq!(decode_timestamp(i64::MAX), None);
}

#[test]
fn session_get_decodes_required_fields() {
    let resp: RpcResponse<SessionGet> = RpcResponse::decode(&parse(
        r#"
        {
            "arguments": {
                "blocklist-enabled": false,
                "download-dir": "/downloads",
                "encryption": "preferred",
                "rpc-version": 17,
                "rpc-version-minimum": 14,
                "version": "4.0.5"
            },
            "result": "success"
        }
        "#,
    ))
    .unwrap();
    assert!(resp.is_ok());
    assert!(!resp.arguments.blocklist_enabled);
    assert_eq!(resp.arguments.download_dir, "/downloads");
    assert_eq!(resp.arguments.encryption, "preferred");
    assert_eq!(resp.arguments.rpc_version, 17);
    assert_eq!(resp.arguments.rpc_version_minimum, 14);
    assert_eq!(resp.arguments.version, "4.0.5");
}

#[test]
fn session_get_missing_required_field_fails() {
    let r: Result<RpcResponse<SessionGet>, DecodeError> = RpcResponse::decode(&parse(
        r#"{"arguments":{"download-dir":"/downloads"},"result":"success"}"#,
    ));
    assert!(matches!(r, Err(DecodeError::MalformedArguments)));
}

#[test]
fn session_stats_decodes_nested_stats() {
    let resp: RpcResponse<SessionStats> = RpcResponse::decode(&parse(
        r#"
        {
            "arguments": {
                "torrentCount": 5,
                "activeTorrentCount": 2,
                "pausedTorrentCount": 3,
                "downloadSpeed": 1024,
                "uploadSpeed": 512,
                "current-stats": {
                    "filesAdded": 1,
                    "downloadedBytes": 1000,
                    "uploadedBytes": 2000,
                    "secondsActive": 3600
                },
                "cumulative-stats": {
                    "filesAdded": 9,
                    "downloadedBytes": 9000,
                    "uploadedBytes": 8000,
                    "secondsActive": 86400,
                    "sessionCount": 4
                }
            },
            "result": "success"
        }
        "#,
    ))
    .unwrap();
    assert_eq!(resp.arguments.torrent_count, 5);
    assert_eq!(resp.arguments.active_torrent_count, 2);
    assert_eq!(resp.arguments.paused_torrent_count, 3);
    assert_eq!(resp.arguments.download_speed, 1024);
    assert_eq!(resp.arguments.upload_speed, 512);
    assert_eq!(resp.arguments.current_stats.files_added, 1);
    assert_eq!(resp.arguments.current_stats.session_count, None);
    assert_eq!(resp.arguments.cumulative_stats.downloaded_bytes, 9000);
    assert_eq!(resp.arguments.cumulative_stats.session_count, Some(4));
}

#[test]
fn free_space_and_port_test_and_blocklist_decode() {
    let fs: RpcResponse<FreeSpace> = RpcResponse::decode(&parse(
        r#"{"arguments":{"path":"/downloads","size-bytes":12345678},"result":"success"}"#,
    ))
    .unwrap();
    assert_eq!(fs.arguments.path, "/downloads");
    assert_eq!(fs.arguments.size_bytes, 12345678);

    let pt: RpcResponse<PortTest> = RpcResponse::decode(&parse(
        r#"{"arguments":{"port-is-open":true},"result":"success"}"#,
    ))
    .unwrap();
    assert!(pt.arguments.port_is_open);

    let bu: RpcResponse<BlocklistUpdate> = RpcResponse::decode(&parse(
        r#"{"arguments":{"blocklist-size":393003},"result":"success"}"#,
    ))
    .unwrap();
    assert_eq!(bu.arguments.blocklist_size, Some(393003));

    let bu_empty: RpcResponse<BlocklistUpdate> =
        RpcResponse::decode(&parse(r#"{"arguments":{},"result":"success"}"#)).unwrap();
    assert_eq!(bu_empty.arguments.blocklist_size, None);
}

#[test]
fn torrent_rename_path_decodes_optional_fields() {
    let resp: RpcResponse<TorrentRenamePath> = RpcResponse::decode(&parse(
        r#"{"arguments":{"path":"Folder/OldFile.jpg","name":"NewFile.jpg","id":1},"result":"success"}"#,
    ))
    .unwrap();
    assert_eq!(resp.arguments.path, Some("Folder/OldFile.jpg".to_string()));
    assert_eq!(resp.arguments.name, Some("NewFile.jpg".to_string()));
    assert_eq!(resp.arguments.id, Some(1));
}

#[test]
fn repeated_key_resolves_to_the_last_entry() {
    // Built by calls, not parsed: a document whose object carries the same
    // key twice.  The later entry wins, as it does for the daemon.
    let v = JsonValue::Obj(vec![
        ("arguments".to_string(), JsonValue::Obj(vec![])),
        ("result".to_string(), JsonValue::Str("first".to_string())),
        ("result".to_string(), JsonValue::Str("second".to_string())),
    ]);
    let resp: RpcResponse<Nothing> = RpcResponse::decode(&v).unwrap();
    assert_eq!(resp.result, "second");
}
