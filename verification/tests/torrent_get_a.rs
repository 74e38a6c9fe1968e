//! Decoding tests for the per-field torrent records of `torrent-get`
//! responses.

use transmission_rpc::json::JsonValue;
use transmission_rpc::types::{
    ErrorType, Id, IdleMode, Priority, RatioMode, RpcResponse, Timestamp, Torrent, TorrentStatus,
    Torrents, TrackerState,
};

fn conv(v: &serde_json::Value) -> JsonValue {
    match v {
        serde_json::Value::Null => JsonValue::Null,
        serde_json::Value::Bool(b) => JsonValue::Bool(*b),
        serde_json::Value::Number(n) => {
            if let Some(i) = n.as_i64() {
                JsonValue::Int(i as i128)
            } else if let Some(u) = n.as_u64() {
                JsonValue::Int(u as i128)
            } else {
                JsonValue::Real(n.to_string())
            }
        }
        serde_json::Value::String(s) => JsonValue::Str(s.clone()),
        serde_json::Value::Array(xs) => JsonValue::Arr(xs.iter().map(conv).collect()),
        serde_json::Value::Object(m) => {
            JsonValue::Obj(m.iter().map(|(k, x)| (k.clone(), conv(x))).collect())
        }
    }
}

fn parse(text: &str) -> JsonValue {
    conv(&serde_json::from_str::<serde_json::Value>(text).expect("valid JSON"))
}

fn decode_torrents(text: &str) -> RpcResponse<Torrents<Torrent>> {
    RpcResponse::decode(&parse(text)).expect("well-formed response")
}

fn ts(rfc3339: &str) -> Timestamp {
    Timestamp { secs: chrono::DateTime::parse_from_rfc3339(rfc3339).unwrap().timestamp() }
}

const EXPECTED_MISSING_LEN: usize = 1;

fn torrent_get_only_id() -> &'static str {
    r#"
    {
        "arguments": {
            "torrents": [
                { "id":123 }
            ]
        },
        "result":"success"
    }
    "#
}

#[test]
fn test_torrent_get_activity_date_success() {
    let resp = decode_torrents(r#"
        {
            "arguments": {
                "torrents": [
                    { "activityDate":1718947434 },
                    { "activityDate":-1 },
                    { "activityDate":0 }
                ]
            },
            "result":"success"
        }
        "#);
    assert!(resp.is_ok());
    assert_eq!(resp.arguments.torrents.len(), 3);
    assert_eq!(
        resp.arguments.torrents[0].activity_date,
        Some(ts("2024-06-21T05:23:54Z")),
    );
    assert_eq!(
        resp.arguments.torrents[1].activity_date,
        Some(Timestamp { secs: 0 })
    );
    assert_eq!(
        resp.arguments.torrents[2].activity_date,
        Some(Timestamp { secs: 0 })
    );
}
#[test]
fn test_torrent_get_activity_date_missing() {
    let resp = decode_torrents(torrent_get_only_id());
    assert!(resp.is_ok());
    assert_eq!(resp.arguments.torrents.len(), EXPECTED_MISSING_LEN);
    assert_eq!(resp.arguments.torrents[0].activity_date, None);
}
#[test]
fn test_torrent_get_added_date_success() {
    let resp = decode_torrents(r#"
        {
            "arguments": {
                "torrents": [
                    { "addedDate":1670612948 },
                    { "addedDate":0 },
                    { "addedDate":-1 }
                ]
            },
            "result":"success"
        }
        "#);
    assert!(resp.is_ok());
    assert_eq!(resp.arguments.torrents.len(), 3);
    assert_eq!(
        resp.arguments.torrents[0].added_date,
        Some(ts("2022-12-09T19:09:08Z")),
    );
    assert_eq!(
        resp.arguments.torrents[1].added_date,
        Some(Timestamp { secs: 0 })
    );
    assert_eq!(
        resp.arguments.torrents[2].added_date,
        Some(Timestamp { secs: 0 })
    );
}
#[test]
fn test_torrent_get_added_date_missing() {
    let resp = decode_torrents(torrent_get_only_id());
    assert!(resp.is_ok());
    assert_eq!(resp.arguments.torrents.len(), EXPECTED_MISSING_LEN);
    assert_eq!(resp.arguments.torrents[0].added_date, None);
}
#[test]
fn test_torrent_get_availability_missing() {
    let resp = decode_torrents(torrent_get_only_id());
    assert!(resp.is_ok());
    assert_eq!(resp.arguments.torrents.len(), EXPECTED_MISSING_LEN);
    assert_eq!(resp.arguments.torrents[0].availability, None);
}
#[test]
fn test_torrent_get_bandwidth_priority_low() {
    let resp = decode_torrents(r#"
        {
            "arguments": {
                "torrents": [
                    { "bandwidthPriority":-1 },
                    { "bandwidthPriority":0 },
                    { "bandwidthPriority":1 }
                ]
            },
            "result":"success"
        }
        "#);
    assert!(resp.is_ok());
    assert_eq!(resp.arguments.torrents.len(), 3);
    assert_eq!(
        resp.arguments.torrents[0].bandwidth_priority,
        Some(Priority::Low)
    );
    assert_eq!(
        resp.arguments.torrents[1].bandwidth_priority,
        Some(Priority::Normal)
    );
    assert_eq!(
        resp.arguments.torrents[2].bandwidth_priority,
        Some(Priority::High)
    );
}
#[test]
fn test_torrent_get_bandwidth_priority_missing() {
    let resp = decode_torrents(torrent_get_only_id());
    assert!(resp.is_ok());
    assert_eq!(resp.arguments.torrents.len(), EXPECTED_MISSING_LEN);
    assert_eq!(resp.arguments.torrents[0].bandwidth_priority, None);
}
#[test]
fn test_torrent_get_comment_success() {
    let resp = decode_torrents(r#"
        {
            "arguments": {
                "torrents": [
                    { "comment":"lorem ipsum" }
                ]
            },
            "result":"success"
        }
        "#);
    assert!(resp.is_ok());
    assert_eq!(resp.arguments.torrents.len(), 1);
    assert_eq!(
        resp.arguments.torrents[0].comment,
        Some("lorem ipsum".into())
    );
}
#[test]
fn test_torrent_get_comment_missing() {
    let resp = decode_torrents(torrent_get_only_id());
    assert!(resp.is_ok());
    assert_eq!(resp.arguments.torrents.len(), EXPECTED_MISSING_LEN);
    assert_eq!(resp.arguments.torrents[0].comment, None);
}
#[test]
fn test_torrent_get_corrupt_ever_success() {
    let resp = decode_torrents(r#"
        {
            "arguments": {
                "torrents": [
                    { "corruptEver":4096 },
                    { "corruptEver":0 }
                ]
            },
            "result":"success"
        }
        "#);
    assert!(resp.is_ok());
    assert_eq!(resp.arguments.torrents.len(), 2);
    assert_eq!(resp.arguments.torrents[0].corrupt_ever, Some(4096));
    assert_eq!(resp.arguments.torrents[1].corrupt_ever, Some(0));
}
#[test]
fn test_torrent_get_corrupt_ever_missing() {
    let resp = decode_torrents(torrent_get_only_id());
    assert!(resp.is_ok());
    assert_eq!(resp.arguments.torrents.len(), EXPECTED_MISSING_LEN);
    assert_eq!(resp.arguments.torrents[0].corrupt_ever, None);
}
#[test]
fn test_torrent_get_creator_success() {
    let resp = decode_torrents(r#"
        {
            "arguments": {
                "torrents": [
                    { "creator":"mktorrent 1.1" }
                ]
            },
            "result":"success"
        }
        "#);
    assert!(resp.is_ok());
    assert_eq!(resp.arguments.torrents.len(), 1);
    assert_eq!(
        resp.arguments.torrents[0].creator,
        Some("mktorrent 1.1".into())
    );
}
#[test]
fn test_torrent_get_creator_missing() {
    let resp = decode_torrents(torrent_get_only_id());
    assert!(resp.is_ok());
    assert_eq!(resp.arguments.torrents.len(), EXPECTED_MISSING_LEN);
    assert_eq!(resp.arguments.torrents[0].creator, None);
}
#[test]
fn test_torrent_get_date_created_success() {
    let resp = decode_torrents(r#"
        {
            "arguments": {
                "torrents": [
                    { "dateCreated":1592962706 },
                    { "dateCreated":0 },
                    { "dateCreated":-1 }
                ]
            },
            "result":"success"
        }
        "#);
    assert!(resp.is_ok());
    assert_eq!(resp.arguments.torrents.len(), 3);
    assert_eq!(
        resp.arguments.torrents[0].date_created,
        Some(ts("2020-06-24T01:38:26Z")),
    );
    assert_eq!(
        resp.arguments.torrents[1].date_created,
        Some(Timestamp { secs: 0 })
    );
    assert_eq!(
        resp.arguments.torrents[2].date_created,
        Some(Timestamp { secs: 0 })
    );
}
#[test]
fn test_torrent_get_date_created_missing() {
    let resp = decode_torrents(torrent_get_only_id());
    assert!(resp.is_ok());
    assert_eq!(resp.arguments.torrents.len(), EXPECTED_MISSING_LEN);
    assert_eq!(resp.arguments.torrents[0].date_created, None);
}
#[test]
fn test_torrent_get_desired_available_success() {
    let resp = decode_torrents(r#"
        {
            "arguments": {
                "torrents": [
                    { "desiredAvailable":20162576 }
                ]
            },
            "result":"success"
        }
        "#);
    assert!(resp.is_ok());
    assert_eq!(resp.arguments.torrents.len(), 1);
    assert_eq!(resp.arguments.torrents[0].desired_available, Some(20162576));
}
#[test]
fn test_torrent_get_desired_available_missing() {
    let resp = decode_torrents(torrent_get_only_id());
    assert!(resp.is_ok());
    assert_eq!(resp.arguments.torrents.len(), EXPECTED_MISSING_LEN);
    assert_eq!(resp.arguments.torrents[0].desired_available, None);
}
#[test]
fn test_torrent_get_done_date_success() {
    let resp = decode_torrents(r#"
        {
            "arguments": {
                "torrents": [
                    { "doneDate":0 },
                    { "doneDate":-1 },
                    { "doneDate":1672060369 }
                ]
            },
            "result":"success"
        }
        "#);
    assert!(resp.is_ok());
    assert_eq!(resp.arguments.torrents.len(), 3);
    assert_eq!(
        resp.arguments.torrents[0].done_date,
        Some(Timestamp { secs: 0 })
    );
    assert_eq!(
        resp.arguments.torrents[1].done_date,
        Some(Timestamp { secs: 0 })
    );
    assert_eq!(
        resp.arguments.torrents[2].done_date,
        Some(ts("2022-12-26T13:12:49Z")),
    );
}
#[test]
fn test_torrent_get_done_date_missing() {
    let resp = decode_torrents(torrent_get_only_id());
    assert!(resp.is_ok());
    assert_eq!(resp.arguments.torrents.len(), EXPECTED_MISSING_LEN);
    assert_eq!(resp.arguments.torrents[0].done_date, None);
}
#[test]
fn test_torrent_get_download_dir_success() {
    let resp = decode_torrents(r#"
        {
            "arguments": {
                "torrents": [
                    { "downloadDir":"/downloads/iso/" }
                ]
            },
            "result":"success"
        }
        "#);
    assert!(resp.is_ok());
    assert_eq!(resp.arguments.torrents.len(), 1);
    assert_eq!(
        resp.arguments.torrents[0].download_dir,
        Some("/downloads/iso/".into())
    );
}
#[test]
fn test_torrent_get_download_dir_missing() {
    let resp = decode_torrents(torrent_get_only_id());
    assert!(resp.is_ok());
    assert_eq!(resp.arguments.torrents.len(), EXPECTED_MISSING_LEN);
    assert_eq!(resp.arguments.torrents[0].download_dir, None);
}
#[test]
fn test_torrent_get_downloaded_ever_success() {
    let resp = decode_torrents(r#"
        {
            "arguments": {
                "torrents": [
                    { "downloadedEver":0 },
                    { "downloadedEver":1340189370 }
                ]
            },
            "result":"success"
        }
        "#);
    assert!(resp.is_ok());
    assert_eq!(resp.arguments.torrents.len(), 2);
    assert_eq!(resp.arguments.torrents[0].downloaded_ever, Some(0));
    assert_eq!(resp.arguments.torrents[1].downloaded_ever, Some(1340189370));
}
#[test]
fn test_torrent_get_downloaded_ever_missing() {
    let resp = decode_torrents(torrent_get_only_id());
    assert!(resp.is_ok());
    assert_eq!(resp.arguments.torrents.len(), EXPECTED_MISSING_LEN);
    assert_eq!(resp.arguments.torrents[0].downloaded_ever, None);
}
#[test]
fn test_torrent_get_download_limit_success() {
    let resp = decode_torrents(r#"
        {
            "arguments": {
                "torrents": [
                    { "downloadLimit":0 },
                    { "downloadLimit":1024 }
                ]
            },
            "result":"success"
        }
        "#);
    assert!(resp.is_ok());
    assert_eq!(resp.arguments.torrents.len(), 2);
    assert_eq!(resp.arguments.torrents[0].download_limit, Some(0));
    assert_eq!(resp.arguments.torrents[1].download_limit, Some(1024));
}
#[test]
fn test_torrent_get_download_limit_missing() {
    let resp = decode_torrents(torrent_get_only_id());
    assert!(resp.is_ok());
    assert_eq!(resp.arguments.torrents.len(), EXPECTED_MISSING_LEN);
    assert_eq!(resp.arguments.torrents[0].download_limit, None);
}
#[test]
fn test_torrent_get_download_limited_success() {
    let resp = decode_torrents(r#"
        {
            "arguments": {
                "torrents": [
                    { "downloadLimited":true },
                    { "downloadLimited":false }
                ]
            },
            "result":"success"
        }
        "#);
    assert!(resp.is_ok());
    assert_eq!(resp.arguments.torrents.len(), 2);
    assert_eq!(resp.arguments.torrents[0].download_limited, Some(true));
    assert_eq!(resp.arguments.torrents[1].download_limited, Some(false));
}
#[test]
fn test_torrent_get_download_limited_missing() {
    let resp = decode_torrents(torrent_get_only_id());
    assert!(resp.is_ok());
    assert_eq!(resp.arguments.torrents.len(), EXPECTED_MISSING_LEN);
    assert_eq!(resp.arguments.torrents[0].download_limited, None);
}
#[test]
fn test_torrent_get_edit_date_success() {
    let resp = decode_torrents(r#"
        {
            "arguments": {
                "torrents": [
                    { "editDate":0 },
                    { "editDate":-1 },
                    { "editDate":1723512675 }
                ]
            },
            "result":"success"
        }
        "#);
    assert!(resp.is_ok());
    assert_eq!(resp.arguments.torrents.len(), 3);
    assert_eq!(
        resp.arguments.torrents[0].edit_date,
        Some(Timestamp { secs: 0 })
    );
    assert_eq!(
        resp.arguments.torrents[1].edit_date,
        Some(Timestamp { secs: 0 })
    );
    assert_eq!(
        resp.arguments.torrents[2].edit_date,
        Some(ts("2024-08-13T01:31:15Z")),
    );
}
#[test]
fn test_torrent_get_edit_date_missing() {
    let resp = decode_torrents(torrent_get_only_id());
    assert!(resp.is_ok());
    assert_eq!(resp.arguments.torrents.len(), EXPECTED_MISSING_LEN);
    assert_eq!(resp.arguments.torrents[0].edit_date, None);
}
#[test]
fn test_torrent_get_error_success() {
    let resp = decode_torrents(r#"
        {
            "arguments": {
                "torrents": [
                    { "error":0 },
                    { "error":1 },
                    { "error":2 },
                    { "error":3 }
                ]
            },
            "result":"success"
        }
        "#);
    assert!(resp.is_ok());
    assert_eq!(resp.arguments.torrents.len(), 4);
    assert_eq!(resp.arguments.torrents[0].error, Some(ErrorType::NoError));
    assert_eq!(
        resp.arguments.torrents[1].error,
        Some(ErrorType::TrackerWarning)
    );
    assert_eq!(
        resp.arguments.torrents[2].error,
        Some(ErrorType::TrackerError)
    );
    assert_eq!(
        resp.arguments.torrents[3].error,
        Some(ErrorType::LocalError)
    );
}
#[test]
fn test_torrent_get_error_missing() {
    let resp = decode_torrents(torrent_get_only_id());
    assert!(resp.is_ok());
    assert_eq!(resp.arguments.torrents.len(), EXPECTED_MISSING_LEN);
    assert_eq!(resp.arguments.torrents[0].error, None);
}
#[test]
fn test_torrent_get_error_string_success() {
    let resp = decode_torrents(r#"
        {
            "arguments": {
                "torrents": [
                    { "errorString":"" },
                    { "errorString":"Unregistered torrent" },
                    { "errorString":"No data found! Ensure your drives are connected or use \"Set Location\". To re-download, remove the torrent and re-add it." }
                ]
            },
            "result":"success"
        }
        "#);
    assert!(resp.is_ok());
    assert_eq!(resp.arguments.torrents.len(), 3);
    assert_eq!(resp.arguments.torrents[0].error_string, Some("".into()));
    assert_eq!(
        resp.arguments.torrents[1].error_string,
        Some("Unregistered torrent".into())
    );
    assert_eq!(
        resp.arguments.torrents[2].error_string,
        Some(
            "No data found! Ensure your drives are connected or use \"Set Location\". \
        To re-download, remove the torrent and re-add it."
                .into()
        ),
    );
}
#[test]
fn test_torrent_get_error_string_missing() {
    let resp = decode_torrents(torrent_get_only_id());
    assert!(resp.is_ok());
    assert_eq!(resp.arguments.torrents.len(), EXPECTED_MISSING_LEN);
    assert_eq!(resp.arguments.torrents[0].error_string, None);
}
#[test]
fn test_torrent_get_eta_success() {
    let resp = decode_torrents(r#"
        {
            "arguments": {
                "torrents": [
                    { "eta":-1 },
                    { "eta":82112 }
                ]
            },
            "result":"success"
        }
        "#);
    assert!(resp.is_ok());
    assert_eq!(resp.arguments.torrents.len(), 2);
    assert_eq!(resp.arguments.torrents[0].eta, Some(-1));
    assert_eq!(resp.arguments.torrents[1].eta, Some(82112));
}
#[test]
fn test_torrent_get_eta_missing() {
    let resp = decode_torrents(torrent_get_only_id());
    assert!(resp.is_ok());
    assert_eq!(resp.arguments.torrents.len(), EXPECTED_MISSING_LEN);
    assert_eq!(resp.arguments.torrents[0].eta, None);
}
#[test]
fn test_torrent_get_eta_idle_success() {
    let resp = decode_torrents(r#"
        {
            "arguments": {
                "torrents": [
                    { "etaIdle":-1 },
                    { "etaIdle":1234 }
                ]
            },
            "result":"success"
        }
        "#);
    assert!(resp.is_ok());
    assert_eq!(resp.arguments.torrents.len(), 2);
    assert_eq!(resp.arguments.torrents[0].eta_idle, Some(-1));
    assert_eq!(resp.arguments.torrents[1].eta_idle, Some(1234));
}
#[test]
fn test_torrent_get_eta_idle_missing() {
    let resp = decode_torrents(torrent_get_only_id());
    assert!(resp.is_ok());
    assert_eq!(resp.arguments.torrents.len(), EXPECTED_MISSING_LEN);
    assert_eq!(resp.arguments.torrents[0].eta_idle, None);
}
#[test]
fn test_torrent_get_file_count_success() {
    let resp = decode_torrents(r#"
        {
            "arguments": {
                "torrents": [
                    { "file-count":0 },
                    { "file-count":31 }
                ]
            },
            "result":"success"
        }
        "#);
    assert!(resp.is_ok());
    assert_eq!(resp.arguments.torrents.len(), 2);
    assert_eq!(resp.arguments.torrents[0].file_count, Some(0)); // Probably impossible
    assert_eq!(resp.arguments.torrents[1].file_count, Some(31));
}
#[test]
fn test_torrent_get_file_count_missing() {
    let resp = decode_torrents(torrent_get_only_id());
    assert!(resp.is_ok());
    assert_eq!(resp.arguments.torrents.len(), EXPECTED_MISSING_LEN);
    assert_eq!(resp.arguments.torrents[0].file_count, None);
}
#[test]
fn test_torrent_get_files_success_pre_rpc_ver_18() {
    let resp = decode_torrents(r#"
        {
            "arguments": {
                "torrents": [
                    { "files":[{
                        "bytesCompleted":172415250,
                        "length":3994091520,
                        "name":"debian-12.6.0-amd64-DVD-1.iso"
                    }] },
                    { "files":[
                        {
                            "bytesCompleted":0,
                            "length":1229,
                            "name":"Fedora-Server-40-1.14-x86_64-CHECKSUM"
                        },
                        {
                            "bytesCompleted":0,
                            "length":2612854784,
                            "name":"Fedora-Server-dvd-x86_64-40-1.14.iso"
                        }
                    ] }
                ]
            },
            "result":"success"
        }
        "#);
    assert!(resp.is_ok());
    assert_eq!(resp.arguments.torrents.len(), 2);
    let first = resp.arguments.torrents[0]
        .files
        .as_ref()
        .expect("files should exist");
    assert_eq!(first.len(), 1);
    assert_eq!(first[0].length, 3994091520);
    assert_eq!(first[0].bytes_completed, 172415250);
    assert_eq!(first[0].name, "debian-12.6.0-amd64-DVD-1.iso");
    assert_eq!(first[0].begin_piece, None);
    assert_eq!(first[0].end_piece, None);
    let second = resp.arguments.torrents[1]
        .files
        .as_ref()
        .expect("files should exist");
    assert_eq!(second.len(), 2);
    assert_eq!(second[0].length, 1229);
    assert_eq!(second[0].bytes_completed, 0);
    assert_eq!(second[0].name, "Fedora-Server-40-1.14-x86_64-CHECKSUM");
    assert_eq!(second[0].begin_piece, None);
    assert_eq!(second[0].end_piece, None);
    assert_eq!(second[1].length, 2612854784);
    assert_eq!(second[1].bytes_completed, 0);
    assert_eq!(second[1].name, "Fedora-Server-dvd-x86_64-40-1.14.iso");
    assert_eq!(second[1].begin_piece, None);
    assert_eq!(second[1].end_piece, None);
}
#[test]
fn test_torrent_get_files_success_post_rpc_ver_18() {
    let resp = decode_torrents(r#"
        {
            "arguments": {
                "torrents": [
                    { "files":[
                        {
                            "bytesCompleted":0,
                            "length":1229,
                            "name":"Fedora-Server-40-1.14-x86_64-CHECKSUM",
                            "beginPiece": 0,
                            "endPiece": 123456
                        },
                        {
                            "bytesCompleted":0,
                            "length":2612854784,
                            "name":"Fedora-Server-dvd-x86_64-40-1.14.iso",
                            "beginPiece": 123456,
                            "endPiece": 234567
                        }
                    ] }
                ]
            },
            "result":"success"
        }
        "#);
    assert!(resp.is_ok());
    assert_eq!(resp.arguments.torrents.len(), 1);
    let files = resp.arguments.torrents[0]
        .files
        .as_ref()
        .expect("files should exist");
    assert_eq!(files.len(), 2);
    assert_eq!(files[0].length, 1229);
    assert_eq!(files[0].bytes_completed, 0);
    assert_eq!(files[0].name, "Fedora-Server-40-1.14-x86_64-CHECKSUM");
    assert_eq!(files[0].begin_piece, Some(0));
    assert_eq!(files[0].end_piece, Some(123456));

    assert_eq!(files[1].length, 2612854784);
    assert_eq!(files[1].bytes_completed, 0);
    assert_eq!(files[1].name, "Fedora-Server-dvd-x86_64-40-1.14.iso");
    assert_eq!(files[1].begin_piece, Some(123456));
    assert_eq!(files[1].end_piece, Some(234567));
}
#[test]
fn test_torrent_get_files_missing() {
    let resp = decode_torrents(torrent_get_only_id());
    assert!(resp.is_ok());
    assert_eq!(resp.arguments.torrents.len(), EXPECTED_MISSING_LEN);
    assert!(resp.arguments.torrents[0].files.is_none());
}
#[test]
fn test_torrent_get_file_stats_success() {
    let resp = decode_torrents(r#"
        {
            "arguments": {
                "torrents": [
                    { 
                        "fileStats":[
                            {
                                "bytesCompleted": 2972771,
                                "priority": 0,
                                "wanted": true
                            },
                            {
                                "bytesCompleted": 17662350,
                                "priority": 1,
                                "wanted": true
                            },
                            {
                                "bytesCompleted": 0,
                                "priority": -1,
                                "wanted": false
                            }
                        ]
                    },
                    { 
                        "fileStats":[
                            {
                                "bytesCompleted": 0,
                                "priority": 1,
                                "wanted": false
                            }
                        ]
                    }
                ]
            },
            "result":"success"
        }
        "#);
    assert!(resp.is_ok());
    assert_eq!(resp.arguments.torrents.len(), 2);
    let first = resp.arguments.torrents[0]
        .file_stats
        .as_ref()
        .expect("file_stats should exist");
    assert_eq!(first.len(), 3);
    assert_eq!(first[0].bytes_completed, 2972771);
    assert_eq!(first[0].priority, Priority::Normal);
    assert!(first[0].wanted);
    assert_eq!(first[1].bytes_completed, 17662350);
    assert_eq!(first[1].priority, Priority::High);
    assert!(first[1].wanted);
    assert_eq!(first[2].bytes_completed, 0);
    assert_eq!(first[2].priority, Priority::Low);
    assert!(!first[2].wanted);
    let second = resp.arguments.torrents[1]
        .file_stats
        .as_ref()
        .expect("file_stats should exist");
    assert_eq!(second[0].bytes_completed, 0);
    assert_eq!(second[0].priority, Priority::High);
    assert!(!second[0].wanted);
}
#[test]
fn test_torrent_get_file_stats_missing() {
    let resp = decode_torrents(torrent_get_only_id());
    assert!(resp.is_ok());
    assert_eq!(resp.arguments.torrents.len(), EXPECTED_MISSING_LEN);
    assert!(resp.arguments.torrents[0].file_stats.is_none());
}
#[test]
fn test_torrent_get_group_success() {
    let resp = decode_torrents(r#"
        {
            "arguments": {
                "torrents": [ { "group":"foo" } ]
            },
            "result":"success"
        }
        "#);
    assert!(resp.is_ok());
    assert_eq!(resp.arguments.torrents.len(), 1);
    assert_eq!(resp.arguments.torrents[0].group, Some("foo".into()));
}
#[test]
fn test_torrent_get_group_missing() {
    let resp = decode_torrents(torrent_get_only_id());
    assert!(resp.is_ok());
    assert_eq!(resp.arguments.torrents.len(), EXPECTED_MISSING_LEN);
    assert_eq!(resp.arguments.torrents[0].group, None);
}
