//! Decoding tests for the per-field torrent records of `torrent-get`
//! responses.

use transmission_rpc::json::JsonValue;
use transmission_rpc::types::{
    ErrorType, Id, IdleMode, Priority, RatioMode, RpcResponse, Timestamp, Torrent, TorrentStatus,
    Torrents, TrackerState,
};

fn conv(v: &serde_json::Value) -> JsonValue {
    match v {
        serde_json::Value::Null => JsonValue::Null,
        serde_json::Value::Bool(b) => JsonValue::Bool(*b),
        serde_json::Value::Number(n) => {
            if let Some(i) = n.as_i64() {
                JsonValue::Int(i as i128)
            } else if let Some(u) = n.as_u64() {
                JsonValue::Int(u as i128)
            } else {
                JsonValue::Real(n.to_string())
            }
        }
        serde_json::Value::String(s) => JsonValue::Str(s.clone()),
        serde_json::Value::Array(xs) => JsonValue::Arr(xs.iter().map(conv).collect()),
        serde_json::Value::Object(m) => {
            JsonValue::Obj(m.iter().map(|(k, x)| (k.clone(), conv(x))).collect())
        }
    }
}

fn parse(text: &str) -> JsonValue {
    conv(&serde_json::from_str::<serde_json::Value>(text).expect("valid JSON"))
}

fn decode_torrents(text: &str) -> RpcResponse<Torrents<Torrent>> {
    RpcResponse::decode(&parse(text)).expect("well-formed response")
}

fn ts(rfc3339: &str) -> Timestamp {
    Timestamp { secs: chrono::DateTime::parse_from_rfc3339(rfc3339).unwrap().timestamp() }
}

const EXPECTED_MISSING_LEN: usize = 1;

fn torrent_get_only_id() -> &'static str {
    r#"
    {
        "arguments": {
            "torrents": [
                { "id":123 }
            ]
        },
        "result":"success"
    }
    "#
}

#[test]
fn test_torrent_get_queue_position_success() {
    let resp = decode_torrents(r#"
        {
            "arguments": {
                "torrents": [ 
                    { "queuePosition":0 },
                    { "queuePosition":1 },
                    { "queuePosition":342 }
                ]
            },
            "result":"success"
        }
        "#);
    assert!(resp.is_ok());
    assert_eq!(resp.arguments.torrents.len(), 3);
    assert_eq!(resp.arguments.torrents[0].queue_position, Some(0));
    assert_eq!(resp.arguments.torrents[1].queue_position, Some(1));
    assert_eq!(resp.arguments.torrents[2].queue_position, Some(342));
}
#[test]
fn test_torrent_get_queue_position_missing() {
    let resp = decode_torrents(torrent_get_only_id());
    assert!(resp.is_ok());
    assert_eq!(resp.arguments.torrents.len(), EXPECTED_MISSING_LEN);
    assert_eq!(resp.arguments.torrents[0].queue_position, None);
}
#[test]
fn test_torrent_get_rate_download_success() {
    let resp = decode_torrents(r#"
        {
            "arguments": {
                "torrents": [ 
                    { "rateDownload":93000 },
                    { "rateDownload":0 }
                ]
            },
            "result":"success"
        }
        "#);
    assert!(resp.is_ok());
    assert_eq!(resp.arguments.torrents.len(), 2);
    assert_eq!(resp.arguments.torrents[0].rate_download, Some(93000));
    assert_eq!(resp.arguments.torrents[1].rate_download, Some(0));
}
#[test]
fn test_torrent_get_rate_download_missing() {
    let resp = decode_torrents(torrent_get_only_id());
    assert!(resp.is_ok());
    assert_eq!(resp.arguments.torrents.len(), EXPECTED_MISSING_LEN);
    assert_eq!(resp.arguments.torrents[0].rate_download, None);
}
#[test]
fn test_torrent_get_rate_upload_success() {
    let resp = decode_torrents(r#"
        {
            "arguments": {
                "torrents": [ 
                    { "rateUpload":0 },
                    { "rateUpload":150000 }
                ]
            },
            "result":"success"
        }
        "#);
    assert!(resp.is_ok());
    assert_eq!(resp.arguments.torrents.len(), 2);
    assert_eq!(resp.arguments.torrents[0].rate_upload, Some(0));
    assert_eq!(resp.arguments.torrents[1].rate_upload, Some(150000));
}
#[test]
fn test_torrent_get_rate_upload_missing() {
    let resp = decode_torrents(torrent_get_only_id());
    assert!(resp.is_ok());
    assert_eq!(resp.arguments.torrents.len(), EXPECTED_MISSING_LEN);
    assert_eq!(resp.arguments.torrents[0].rate_upload, None);
}
#[test]
fn test_torrent_get_seconds_downloading_success() {
    let resp = decode_torrents(r#"
        {
            "arguments": {
                "torrents": [
                    { "secondsDownloading":0 },
                    { "secondsDownloading":41744 }
                ]
            },
            "result":"success"
        }
        "#);
    assert!(resp.is_ok());
    assert_eq!(resp.arguments.torrents.len(), 2);
    assert_eq!(resp.arguments.torrents[0].seconds_downloading, Some(0));
    assert_eq!(resp.arguments.torrents[1].seconds_downloading, Some(41744));
}
#[test]
fn test_torrent_get_seconds_downloading_missing() {
    let resp = decode_torrents(torrent_get_only_id());
    assert!(resp.is_ok());
    assert_eq!(resp.arguments.torrents.len(), EXPECTED_MISSING_LEN);
    assert_eq!(resp.arguments.torrents[0].seconds_downloading, None);
}
#[test]
fn test_torrent_get_seconds_seeding_success() {
    let resp = decode_torrents(r#"
        {
            "arguments": {
                "torrents": [ 
                    { "secondsSeeding":0 },
                    { "secondsSeeding":13359445 }
                ]
            },
            "result":"success"
        }
        "#);
    assert!(resp.is_ok());
    assert_eq!(resp.arguments.torrents.len(), 2);
    assert_eq!(resp.arguments.torrents[0].seconds_seeding, Some(0));
    assert_eq!(resp.arguments.torrents[1].seconds_seeding, Some(13359445));
}
#[test]
fn test_torrent_get_seconds_seeding_missing() {
    let resp = decode_torrents(torrent_get_only_id());
    assert!(resp.is_ok());
    assert_eq!(resp.arguments.torrents.len(), EXPECTED_MISSING_LEN);
    assert_eq!(resp.arguments.torrents[0].seconds_seeding, None);
}
#[test]
fn test_torrent_get_seed_idle_limit_success() {
    let resp = decode_torrents(r#"
        {
            "arguments": {
                "torrents": [ 
                    { "seedIdleLimit":0 },
                    { "seedIdleLimit":30 }
                ]
            },
            "result":"success"
        }
        "#);
    assert!(resp.is_ok());
    assert_eq!(resp.arguments.torrents.len(), 2);
    assert_eq!(resp.arguments.torrents[0].seed_idle_limit, Some(0));
    assert_eq!(resp.arguments.torrents[1].seed_idle_limit, Some(30));
}
#[test]
fn test_torrent_get_seed_idle_limit_missing() {
    let resp = decode_torrents(torrent_get_only_id());
    assert!(resp.is_ok());
    assert_eq!(resp.arguments.torrents.len(), EXPECTED_MISSING_LEN);
    assert_eq!(resp.arguments.torrents[0].seed_idle_limit, None);
}
#[test]
fn test_torrent_get_seed_idle_mode_success() {
    let resp = decode_torrents(r#"
        {
            "arguments": {
                "torrents": [
                    { "seedIdleMode":0 },
                    { "seedIdleMode":1 },
                    { "seedIdleMode":2 }
                ]
            },
            "result":"success"
        }
        "#);
    assert!(resp.is_ok());
    assert_eq!(resp.arguments.torrents.len(), 3);
    assert_eq!(
        resp.arguments.torrents[0].seed_idle_mode,
        Some(IdleMode::Global)
    );
    assert_eq!(
        resp.arguments.torrents[1].seed_idle_mode,
        Some(IdleMode::Single)
    );
    assert_eq!(
        resp.arguments.torrents[2].seed_idle_mode,
        Some(IdleMode::Unlimited)
    );
}
#[test]
fn test_torrent_get_seed_idle_mode_missing() {
    let resp = decode_torrents(torrent_get_only_id());
    assert!(resp.is_ok());
    assert_eq!(resp.arguments.torrents.len(), EXPECTED_MISSING_LEN);
    assert_eq!(resp.arguments.torrents[0].seed_idle_mode, None);
}
#[test]
fn test_torrent_get_seed_ratio_mode_success() {
    let resp = decode_torrents(r#"
        {
            "arguments": {
                "torrents": [
                    { "seedRatioMode":2 },
                    { "seedRatioMode":1 },
                    { "seedRatioMode":0 }
                ]
            },
            "result":"success"
        }
        "#);
    assert!(resp.is_ok());
    assert_eq!(resp.arguments.torrents.len(), 3);
    assert_eq!(
        resp.arguments.torrents[0].seed_ratio_mode,
        Some(RatioMode::Unlimited)
    );
    assert_eq!(
        resp.arguments.torrents[1].seed_ratio_mode,
        Some(RatioMode::Single)
    );
    assert_eq!(
        resp.arguments.torrents[2].seed_ratio_mode,
        Some(RatioMode::Global)
    );
}
#[test]
fn test_torrent_get_seed_ratio_mode_missing() {
    let resp = decode_torrents(torrent_get_only_id());
    assert!(resp.is_ok());
    assert_eq!(resp.arguments.torrents.len(), EXPECTED_MISSING_LEN);
    assert_eq!(resp.arguments.torrents[0].seed_ratio_mode, None);
}
#[test]
fn test_torrent_get_sequential_download_success() {
    let resp = decode_torrents(r#"
        {
            "arguments": {
                "torrents": [
                    { "sequentialDownload":true },
                    { "sequentialDownload":false }
                ]
            },
            "result":"success"
        }
        "#);
    assert!(resp.is_ok());
    assert_eq!(resp.arguments.torrents.len(), 2);
    assert_eq!(resp.arguments.torrents[0].sequential_download, Some(true));
    assert_eq!(resp.arguments.torrents[1].sequential_download, Some(false));
}
#[test]
fn test_torrent_get_sequential_download_missing() {
    let resp = decode_torrents(torrent_get_only_id());
    assert!(resp.is_ok());
    assert_eq!(resp.arguments.torrents.len(), EXPECTED_MISSING_LEN);
    assert_eq!(resp.arguments.torrents[0].sequential_download, None);
}
#[test]
fn test_torrent_get_size_when_done_success() {
    let resp = decode_torrents(r#"
        {
            "arguments": {
                "torrents": [
                    { "sizeWhenDone":2965366874 }
                ]
            },
            "result":"success"
        }
        "#);
    assert!(resp.is_ok());
    assert_eq!(resp.arguments.torrents.len(), 1);
    assert_eq!(resp.arguments.torrents[0].size_when_done, Some(2965366874));
}
#[test]
fn test_torrent_get_size_when_done_missing() {
    let resp = decode_torrents(torrent_get_only_id());
    assert!(resp.is_ok());
    assert_eq!(resp.arguments.torrents.len(), EXPECTED_MISSING_LEN);
    assert_eq!(resp.arguments.torrents[0].size_when_done, None);
}
#[test]
fn test_torrent_get_start_date_success() {
    let resp = decode_torrents(r#"
        {
            "arguments": {
                "torrents": [
                    { "startDate":0 },
                    { "startDate":-1 },
                    { "startDate":1723479770 }
                ]
            },
            "result":"success"
        }
        "#);
    assert!(resp.is_ok());
    assert_eq!(resp.arguments.torrents.len(), 3);
    assert_eq!(
        resp.arguments.torrents[0].start_date,
        Some(Timestamp { secs: 0 })
    );
    assert_eq!(
        resp.arguments.torrents[1].start_date,
        Some(Timestamp { secs: 0 })
    );
    assert_eq!(
        resp.arguments.torrents[2].start_date,
        Some(ts("2024-08-12T16:22:50Z")),
    );
}
#[test]
fn test_torrent_get_start_date_missing() {
    let resp = decode_torrents(torrent_get_only_id());
    assert!(resp.is_ok());
    assert_eq!(resp.arguments.torrents.len(), EXPECTED_MISSING_LEN);
    assert_eq!(resp.arguments.torrents[0].start_date, None);
}
#[test]
fn test_torrent_get_status_success() {
    let resp = decode_torrents(r#"
        {
            "arguments": {
                "torrents": [
                    { "status":0 },
                    { "status":1 },
                    { "status":2 },
                    { "status":3 },
                    { "status":4 },
                    { "status":5 },
                    { "status":6 }
                ]
            },
            "result":"success"
        }
        "#);
    assert!(resp.is_ok());
    assert_eq!(resp.arguments.torrents.len(), 7);
    assert_eq!(
        resp.arguments.torrents[0].status,
        Some(TorrentStatus::Stopped)
    );
    assert_eq!(
        resp.arguments.torrents[1].status,
        Some(TorrentStatus::QueuedToVerify)
    );
    assert_eq!(
        resp.arguments.torrents[2].status,
        Some(TorrentStatus::Verifying)
    );
    assert_eq!(
        resp.arguments.torrents[3].status,
        Some(TorrentStatus::QueuedToDownload)
    );
    assert_eq!(
        resp.arguments.torrents[4].status,
        Some(TorrentStatus::Downloading)
    );
    assert_eq!(
        resp.arguments.torrents[5].status,
        Some(TorrentStatus::QueuedToSeed)
    );
    assert_eq!(
        resp.arguments.torrents[6].status,
        Some(TorrentStatus::Seeding)
    );
}
#[test]
fn test_torrent_get_status_missing() {
    let resp = decode_torrents(torrent_get_only_id());
    assert!(resp.is_ok());
    assert_eq!(resp.arguments.torrents.len(), EXPECTED_MISSING_LEN);
    assert_eq!(resp.arguments.torrents[0].status, None);
}
#[test]
fn test_torrent_get_torrent_file_success() {
    let resp = decode_torrents(r#"
        {
            "arguments": {
                "torrents": [
                    { "torrentFile":"/torrents/36119b75587513a6b577df2a3747f7ae3e152394.torrent" }
                ]
            },
            "result":"success"
        }
        "#);
    assert!(resp.is_ok());
    assert_eq!(resp.arguments.torrents.len(), 1);
    assert_eq!(
        resp.arguments.torrents[0].torrent_file,
        Some("/torrents/36119b75587513a6b577df2a3747f7ae3e152394.torrent".into()),
    );
}
#[test]
fn test_torrent_get_torrent_file_missing() {
    let resp = decode_torrents(torrent_get_only_id());
    assert!(resp.is_ok());
    assert_eq!(resp.arguments.torrents.len(), EXPECTED_MISSING_LEN);
    assert_eq!(resp.arguments.torrents[0].torrent_file, None);
}
#[test]
fn test_torrent_get_total_size_success() {
    let resp = decode_torrents(r#"
        {
            "arguments": {
                "torrents": [
                    { "totalSize":2050306968 }
                ]
            },
            "result":"success"
        }
        "#);
    assert!(resp.is_ok());
    assert_eq!(resp.arguments.torrents.len(), 1);
    assert_eq!(resp.arguments.torrents[0].total_size, Some(2050306968));
}
#[test]
fn test_torrent_get_total_size_missing() {
    let resp = decode_torrents(torrent_get_only_id());
    assert!(resp.is_ok());
    assert_eq!(resp.arguments.torrents.len(), EXPECTED_MISSING_LEN);
    assert_eq!(resp.arguments.torrents[0].total_size, None);
}
#[test]
fn test_torrent_get_trackers_success() {
    let resp = decode_torrents(r#"
        {
            "arguments": {
                "torrents": [
                    {
                        "trackers": [
                            {
                                "announce":"https://example.com:1024/announce",
                                "id":0,
                                "scrape":"https://example.com:1024/scrape",
                                "tier":0
                            },
                            {
                                "announce":"https://example.com:2048/announce",
                                "id":1,
                                "scrape":"https://example.com:2048/scrape",
                                "tier":0
                            }
                        ]
                    },
                    {
                        "trackers": [
                            {
                                "announce":"https://example.com:4096/announce",
                                "id":0,
                                "scrape":"https://example.com:4096/scrape",
                                "sitename":"example",
                                "tier":0
                            }
                        ]
                    }
                ]
            },
            "result":"success"
        }
        "#);
    assert!(resp.is_ok());
    assert_eq!(resp.arguments.torrents.len(), 2);
    let first = resp.arguments.torrents[0]
        .trackers
        .as_ref()
        .expect("trackers should exist");
    assert_eq!(first.len(), 2);
    assert_eq!(first[0].id, 0);
    assert_eq!(first[0].announce, "https://example.com:1024/announce");
    assert_eq!(first[0].scrape, "https://example.com:1024/scrape");
    assert_eq!(first[0].sitename, "");
    assert_eq!(first[0].tier, 0);
    assert_eq!(first[1].id, 1);
    assert_eq!(first[1].announce, "https://example.com:2048/announce");
    assert_eq!(first[1].scrape, "https://example.com:2048/scrape");
    assert_eq!(first[1].sitename, "");
    assert_eq!(first[1].tier, 0);
    let second = resp.arguments.torrents[1]
        .trackers
        .as_ref()
        .expect("trackers should exist");
    assert_eq!(second.len(), 1);
    assert_eq!(second[0].id, 0);
    assert_eq!(second[0].announce, "https://example.com:4096/announce");
    assert_eq!(second[0].scrape, "https://example.com:4096/scrape");
    assert_eq!(second[0].sitename, "example");
    assert_eq!(second[0].tier, 0);
}
#[test]
fn test_torrent_get_trackers_missing() {
    let resp = decode_torrents(torrent_get_only_id());
    assert!(resp.is_ok());
    assert_eq!(resp.arguments.torrents.len(), EXPECTED_MISSING_LEN);
    assert!(resp.arguments.torrents[0].trackers.is_none());
}
#[test]
fn test_torrent_get_tracker_list_missing() {
    let resp = decode_torrents(torrent_get_only_id());
    assert!(resp.is_ok());
    assert_eq!(resp.arguments.torrents.len(), EXPECTED_MISSING_LEN);
    assert_eq!(resp.arguments.torrents[0].tracker_list, None);
}
#[test]
fn test_torrent_get_tracker_stats_success() {
    let resp = decode_torrents(r#"
        {
            "arguments": {
                "torrents": [
                    {
                        "trackerStats": [
                            {
                                "announce":"https://example.com/announce",
                                "announceState":1,
                                "downloadCount":245,
                                "hasAnnounced":true,
                                "hasScraped":true,
                                "host":"https://example.com:8080",
                                "id":0,
                                "isBackup":false,
                                "lastAnnouncePeerCount":86,
                                "lastAnnounceResult":"Success",
                                "lastAnnounceStartTime":1723614865,
                                "lastAnnounceSucceeded":true,
                                "lastAnnounceTime":1723614865,
                                "lastAnnounceTimedOut":false,
                                "lastScrapeResult":"Could not connect to tracker",
                                "lastScrapeStartTime":0,
                                "lastScrapeSucceeded":false,
                                "lastScrapeTime":1723614865,
                                "lastScrapeTimedOut":false,
                                "leecherCount":9,
                                "nextAnnounceTime":1723618230,
                                "nextScrapeTime":0,
                                "scrapeState":2,
                                "scrape":"",
                                "seederCount":77,
                                "tier":0
                            }
                        ]
                    }
                ]
            },
            "result":"success"
        }
        "#);
    assert!(resp.is_ok());
    assert_eq!(resp.arguments.torrents.len(), 1);
    let first = resp.arguments.torrents[0]
        .tracker_stats
        .as_ref()
        .expect("tracker_stats should exist");
    assert_eq!(first.len(), 1);
    assert!(matches!(first[0].announce_state, TrackerState::Waiting));
    assert_eq!(
        first[0].announce,
        "https://example.com/announce".to_string()
    );
    assert_eq!(first[0].download_count, 245);
    assert!(first[0].has_announced);
    assert!(first[0].has_scraped);
    assert_eq!(first[0].host, "https://example.com:8080");
    assert!(matches!(first[0].id, Id::Id(0)));
    assert!(!first[0].is_backup);
    assert_eq!(first[0].last_announce_peer_count, 86);
    assert_eq!(first[0].last_announce_result, "Success".to_string());
    assert_eq!(
        first[0].last_announce_start_time,
        ts("2024-08-14T05:54:25Z"),
    );
    assert!(first[0].last_announce_succeeded);
    assert_eq!(
        first[0].last_announce_time,
        ts("2024-08-14T05:54:25Z"),
    );
    assert!(!first[0].last_announce_timed_out);
    assert_eq!(
        first[0].last_scrape_result,
        "Could not connect to tracker".to_string()
    );
    assert_eq!(first[0].last_scrape_start_time, Timestamp { secs: 0 });
    assert!(!first[0].last_scrape_succeeded);
    assert_eq!(
        first[0].last_scrape_time,
        ts("2024-08-14T05:54:25Z"),
    );
    assert!(!first[0].last_scrape_timed_out);
    assert_eq!(first[0].leecher_count, 9);
    assert_eq!(
        first[0].next_announce_time,
        ts("2024-08-14T06:50:30Z"),
    );
    assert_eq!(first[0].next_scrape_time, Timestamp { secs: 0 });
    assert!(matches!(first[0].scrape_state, TrackerState::Queued));
    assert_eq!(first[0].scrape, "".to_string());
    assert_eq!(first[0].seeder_count, 77);
    assert_eq!(first[0].sitename, "".to_string());
    assert_eq!(first[0].tier, 0);
}
#[test]
fn test_torrent_get_tracker_stats_missing() {
    let resp = decode_torrents(torrent_get_only_id());
    assert!(resp.is_ok());
    assert_eq!(resp.arguments.torrents.len(), EXPECTED_MISSING_LEN);
    assert!(resp.arguments.torrents[0].tracker_stats.is_none());
}
#[test]
fn test_torrent_get_uploaded_ever_success() {
    let resp = decode_torrents(r#"
        {
            "arguments": {
                "torrents": [
                    { "uploadedEver":0 },
                    { "uploadedEver":1301396208 }
                ]
            },
            "result":"success"
        }
        "#);
    assert!(resp.is_ok());
    assert_eq!(resp.arguments.torrents.len(), 2);
    assert_eq!(resp.arguments.torrents[0].uploaded_ever, Some(0));
    assert_eq!(resp.arguments.torrents[1].uploaded_ever, Some(1301396208));
}
#[test]
fn test_torrent_get_uploaded_ever_missing() {
    let resp = decode_torrents(torrent_get_only_id());
    assert!(resp.is_ok());
    assert_eq!(resp.arguments.torrents.len(), EXPECTED_MISSING_LEN);
    assert_eq!(resp.arguments.torrents[0].uploaded_ever, None);
}
#[test]
fn test_torrent_get_uploaded_limit_success() {
    let resp = decode_torrents(r#"
        {
            "arguments": {
                "torrents": [
                    { "uploadLimit":0 },
                    { "uploadLimit":1024 }
                ]
            },
            "result":"success"
        }
        "#);
    assert!(resp.is_ok());
    assert_eq!(resp.arguments.torrents.len(), 2);
    assert_eq!(resp.arguments.torrents[0].upload_limit, Some(0));
    assert_eq!(resp.arguments.torrents[1].upload_limit, Some(1024));
}
#[test]
fn test_torrent_get_uploaded_limit_missing() {
    let resp = decode_torrents(torrent_get_only_id());
    assert!(resp.is_ok());
    assert_eq!(resp.arguments.torrents.len(), EXPECTED_MISSING_LEN);
    assert_eq!(resp.arguments.torrents[0].upload_limit, None);
}
#[test]
fn test_torrent_get_uploaded_limited_success() {
    let resp = decode_torrents(r#"
        {
            "arguments": {
                "torrents": [
                    { "uploadLimited":false },
                    { "uploadLimited":true }
                ]
            },
            "result":"success"
        }
        "#);
    assert!(resp.is_ok());
    assert_eq!(resp.arguments.torrents.len(), 2);
    assert_eq!(resp.arguments.torrents[0].upload_limited, Some(false));
    assert_eq!(resp.arguments.torrents[1].upload_limited, Some(true));
}
#[test]
fn test_torrent_get_uploaded_limited_missing() {
    let resp = decode_torrents(torrent_get_only_id());
    assert!(resp.is_ok());
    assert_eq!(resp.arguments.torrents.len(), EXPECTED_MISSING_LEN);
    assert_eq!(resp.arguments.torrents[0].upload_limited, None);
}
#[test]
fn test_torrent_get_wanted_int_success() {
    let resp = decode_torrents(r#"
        {
            "arguments": {
                "torrents": [
                    { "wanted":[0, 1, 0, 0, 1] }
                ]
            },
            "result":"success"
        }
        "#);
    assert!(resp.is_ok());
    assert_eq!(resp.arguments.torrents.len(), 1);
    let wanted = resp.arguments.torrents[0]
        .wanted
        .as_ref()
        .expect("wanted is some");
    assert_eq!(wanted, &vec![false, true, false, false, true]);
}
#[test]
fn test_torrent_get_wanted_bool_success() {
    let resp = decode_torrents(r#"
        {
            "arguments": {
                "torrents": [
                    { "wanted":[true, true, false, false, true, false, true] }
                ]
            },
            "result":"success"
        }
        "#);
    assert!(resp.is_ok());
    assert_eq!(resp.arguments.torrents.len(), 1);
    let wanted = resp.arguments.torrents[0]
        .wanted
        .as_ref()
        .expect("wanted is some");
    assert_eq!(wanted, &vec![true, true, false, false, true, false, true]);
}
#[test]
fn test_torrent_get_wanted_missing() {
    let resp = decode_torrents(torrent_get_only_id());
    assert!(resp.is_ok());
    assert_eq!(resp.arguments.torrents.len(), EXPECTED_MISSING_LEN);
    assert_eq!(resp.arguments.torrents[0].wanted, None);
}
#[test]
fn test_torrent_get_webseeds_success() {
    let resp = decode_torrents(r#"
        {
            "arguments": {
                "torrents": [
                    { "webseeds":[] },
                    { "webseeds":["https://example.com/"] }
                ]
            },
            "result":"success"
        }
        "#);
    assert!(resp.is_ok());
    assert_eq!(resp.arguments.torrents.len(), 2);
    assert_eq!(resp.arguments.torrents[0].webseeds, Some(vec![]));
    assert_eq!(
        resp.arguments.torrents[1].webseeds,
        Some(vec!["https://example.com/".into()])
    );
}
#[test]
fn test_torrent_get_webseeds_missing() {
    let resp = decode_torrents(torrent_get_only_id());
    assert!(resp.is_ok());
    assert_eq!(resp.arguments.torrents.len(), EXPECTED_MISSING_LEN);
    assert_eq!(resp.arguments.torrents[0].webseeds, None);
}
#[test]
fn test_torrent_get_webseeds_sending_to_us_success() {
    let resp = decode_torrents(r#"
        {
            "arguments": {
                "torrents": [
                    { "webseedsSendingToUs":0 },
                    { "webseedsSendingToUs":1234 }
                ]
            },
            "result":"success"
        }
        "#);
    assert!(resp.is_ok());
    assert_eq!(resp.arguments.torrents.len(), 2);
    assert_eq!(resp.arguments.torrents[0].webseeds_sending_to_us, Some(0));
    assert_eq!(
        resp.arguments.torrents[1].webseeds_sending_to_us,
        Some(1234)
    );
}
#[test]
fn test_torrent_get_webseeds_sending_to_us_missing() {
    let resp = decode_torrents(torrent_get_only_id());
    assert!(resp.is_ok());
    assert_eq!(resp.arguments.torrents.len(), EXPECTED_MISSING_LEN);
    assert_eq!(resp.arguments.torrents[0].webseeds_sending_to_us, None);
}
