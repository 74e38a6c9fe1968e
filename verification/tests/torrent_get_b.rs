//! Decoding tests for the per-field torrent records of `torrent-get`
//! responses.

use transmission_rpc::json::JsonValue;
use transmission_rpc::types::{
    ErrorType, Id, IdleMode, Priority, RatioMode, RpcResponse, Timestamp, Torrent, TorrentStatus,
    Torrents, TrackerState,
};

fn conv(v: &serde_json::Value) -> JsonValue {
    match v {
        serde_json::Value::Null => JsonValue::Null,
        serde_json::Value::Bool(b) => JsonValue::Bool(*b),
        serde_json::Value::Number(n) => {
            if let Some(i) = n.as_i64() {
                JsonValue::Int(i as i128)
            } else if let Some(u) = n.as_u64() {
                JsonValue::Int(u as i128)
            } else {
                JsonValue::Real(n.to_string())
            }
        }
        serde_json::Value::String(s) => JsonValue::Str(s.clone()),
        serde_json::Value::Array(xs) => JsonValue::Arr(xs.iter().map(conv).collect()),
        serde_json::Value::Object(m) => {
            JsonValue::Obj(m.iter().map(|(k, x)| (k.clone(), conv(x))).collect())
        }
    }
}

fn parse(text: &str) -> JsonValue {
    conv(&serde_json::from_str::<serde_json::Value>(text).expect("valid JSON"))
}

fn decode_torrents(text: &str) -> RpcResponse<Torrents<Torrent>> {
    RpcResponse::decode(&parse(text)).expect("well-formed response")
}

fn ts(rfc3339: &str) -> Timestamp {
    Timestamp { secs: chrono::DateTime::parse_from_rfc3339(rfc3339).unwrap().timestamp() }
}

const EXPECTED_MISSING_LEN: usize = 1;

fn torrent_get_only_hash() -> &'static str {
    r#"
    {
        "arguments": {
            "torrents": [
                { "hashString":"e08c426aab2cc58649ae5e73690e3747117b3470" }
            ]
        },
        "result":"success"
    }
    "#
}

fn torrent_get_only_id() -> &'static str {
    r#"
    {
        "arguments": {
            "torrents": [
                { "id":123 }
            ]
        },
        "result":"success"
    }
    "#
}

#[test]
fn test_torrent_get_hash_string_success() {
    let resp = decode_torrents(r#"
        {
            "arguments": {
                "torrents": [ { "hashString":"7fce8abbdacefd47321700ff95106447009aa1e7" } ]
            },
            "result":"success"
        }
        "#);
    assert!(resp.is_ok());
    assert_eq!(resp.arguments.torrents.len(), 1);
    assert_eq!(
        resp.arguments.torrents[0].hash_string,
        Some("7fce8abbdacefd47321700ff95106447009aa1e7".into()),
    );
}
#[test]
fn test_torrent_get_hash_string_missing() {
    let resp = decode_torrents(torrent_get_only_id());
    assert!(resp.is_ok());
    assert_eq!(resp.arguments.torrents.len(), EXPECTED_MISSING_LEN);
    assert_eq!(resp.arguments.torrents[0].hash_string, None);
}
#[test]
fn test_torrent_get_have_unchecked_success() {
    let resp = decode_torrents(r#"
        {
            "arguments": {
                "torrents": [ 
                    { "haveUnchecked":39813 },
                    { "haveUnchecked":0 }
                ]
            },
            "result":"success"
        }
        "#);
    assert!(resp.is_ok());
    assert_eq!(resp.arguments.torrents.len(), 2);
    assert_eq!(resp.arguments.torrents[0].have_unchecked, Some(39813));
    assert_eq!(resp.arguments.torrents[1].have_unchecked, Some(0));
}
#[test]
fn test_torrent_get_have_unchecked_missing() {
    let resp = decode_torrents(torrent_get_only_id());
    assert!(resp.is_ok());
    assert_eq!(resp.arguments.torrents.len(), EXPECTED_MISSING_LEN);
    assert_eq!(resp.arguments.torrents[0].have_unchecked, None);
}
#[test]
fn test_torrent_get_have_valid_success() {
    let resp = decode_torrents(r#"
        {
            "arguments": {
                "torrents": [ 
                    { "haveValid":1276581443 },
                    { "haveValid":0 }
                ]
            },
            "result":"success"
        }
        "#);
    assert!(resp.is_ok());
    assert_eq!(resp.arguments.torrents.len(), 2);
    assert_eq!(resp.arguments.torrents[0].have_valid, Some(1276581443));
    assert_eq!(resp.arguments.torrents[1].have_valid, Some(0));
}
#[test]
fn test_torrent_get_have_valid_missing() {
    let resp = decode_torrents(torrent_get_only_id());
    assert!(resp.is_ok());
    assert_eq!(resp.arguments.torrents.len(), EXPECTED_MISSING_LEN);
    assert_eq!(resp.arguments.torrents[0].have_valid, None);
}
#[test]
fn test_torrent_get_honors_session_limits_success() {
    let resp = decode_torrents(r#"
        {
            "arguments": {
                "torrents": [ 
                    { "honorsSessionLimits":false },
                    { "honorsSessionLimits":true }
                ]
            },
            "result":"success"
        }
        "#);
    assert!(resp.is_ok());
    assert_eq!(resp.arguments.torrents.len(), 2);
    assert_eq!(
        resp.arguments.torrents[0].honors_session_limits,
        Some(false)
    );
    assert_eq!(resp.arguments.torrents[1].honors_session_limits, Some(true));
}
#[test]
fn test_torrent_get_honors_session_limits_missing() {
    let resp = decode_torrents(torrent_get_only_id());
    assert!(resp.is_ok());
    assert_eq!(resp.arguments.torrents.len(), EXPECTED_MISSING_LEN);
    assert_eq!(resp.arguments.torrents[0].honors_session_limits, None);
}
#[test]
fn test_torrent_get_id_success() {
    let resp = decode_torrents(r#"
        {
            "arguments": {
                "torrents": [ { "id":111 } ]
            },
            "result":"success"
        }
        "#);
    assert!(resp.is_ok());
    assert_eq!(resp.arguments.torrents.len(), 1);
    assert_eq!(resp.arguments.torrents[0].id, Some(111));
}
#[test]
fn test_torrent_get_id_missing() {
    let resp = decode_torrents(torrent_get_only_hash());
    assert!(resp.is_ok());
    assert_eq!(resp.arguments.torrents.len(), EXPECTED_MISSING_LEN);
    assert_eq!(resp.arguments.torrents[0].id, None);
}
#[test]
fn test_torrent_get_is_finished_success() {
    let resp = decode_torrents(r#"
        {
            "arguments": {
                "torrents": [ 
                    { "isFinished":true },
                    { "isFinished":false }
                ]
            },
            "result":"success"
        }
        "#);
    assert!(resp.is_ok());
    assert_eq!(resp.arguments.torrents.len(), 2);
    assert_eq!(resp.arguments.torrents[0].is_finished, Some(true));
    assert_eq!(resp.arguments.torrents[1].is_finished, Some(false));
}
#[test]
fn test_torrent_get_is_finished_missing() {
    let resp = decode_torrents(torrent_get_only_id());
    assert!(resp.is_ok());
    assert_eq!(resp.arguments.torrents.len(), EXPECTED_MISSING_LEN);
    assert_eq!(resp.arguments.torrents[0].is_finished, None);
}
#[test]
fn test_torrent_get_is_private_success() {
    let resp = decode_torrents(r#"
        {
            "arguments": {
                "torrents": [ 
                    { "isPrivate":false },
                    { "isPrivate":true }
                ]
            },
            "result":"success"
        }
        "#);
    assert!(resp.is_ok());
    assert_eq!(resp.arguments.torrents.len(), 2);
    assert_eq!(resp.arguments.torrents[0].is_private, Some(false));
    assert_eq!(resp.arguments.torrents[1].is_private, Some(true));
}
#[test]
fn test_torrent_get_is_private_missing() {
    let resp = decode_torrents(torrent_get_only_id());
    assert!(resp.is_ok());
    assert_eq!(resp.arguments.torrents.len(), EXPECTED_MISSING_LEN);
    assert_eq!(resp.arguments.torrents[0].is_private, None);
}
#[test]
fn test_torrent_get_is_stalled_success() {
    let resp = decode_torrents(r#"
        {
            "arguments": {
                "torrents": [ 
                    { "isStalled":false },
                    { "isStalled":true }
                ]
            },
            "result":"success"
        }
        "#);
    assert!(resp.is_ok());
    assert_eq!(resp.arguments.torrents.len(), 2);
    assert_eq!(resp.arguments.torrents[0].is_stalled, Some(false));
    assert_eq!(resp.arguments.torrents[1].is_stalled, Some(true));
}
#[test]
fn test_torrent_get_is_stalled_missing() {
    let resp = decode_torrents(torrent_get_only_id());
    assert!(resp.is_ok());
    assert_eq!(resp.arguments.torrents.len(), EXPECTED_MISSING_LEN);
    assert_eq!(resp.arguments.torrents[0].is_stalled, None);
}
#[test]
fn test_torrent_get_labels_success() {
    let resp = decode_torrents(r#"
        {
            "arguments": {
                "torrents": [ 
                    { "labels":[] },
                    { "labels":["foo"] },
                    { "labels":["bar","baz"] }
                ]
            },
            "result":"success"
        }
        "#);
    assert!(resp.is_ok());
    assert_eq!(resp.arguments.torrents.len(), 3);
    assert_eq!(resp.arguments.torrents[0].labels, Some(vec![]));
    assert_eq!(resp.arguments.torrents[1].labels, Some(vec!["foo".into()]));
    assert_eq!(
        resp.arguments.torrents[2].labels,
        Some(vec!["bar".into(), "baz".into()])
    );
}
#[test]
fn test_torrent_get_labels_missing() {
    let resp = decode_torrents(torrent_get_only_id());
    assert!(resp.is_ok());
    assert_eq!(resp.arguments.torrents.len(), EXPECTED_MISSING_LEN);
    assert_eq!(resp.arguments.torrents[0].labels, None);
}
#[test]
fn test_torrent_get_left_until_done_success() {
    let resp = decode_torrents(r#"
        {
            "arguments": {
                "torrents": [ 
                    { "leftUntilDone":2138956824 },
                    { "leftUntilDone":0 }
                ]
            },
            "result":"success"
        }
        "#);
    assert!(resp.is_ok());
    assert_eq!(resp.arguments.torrents.len(), 2);
    assert_eq!(resp.arguments.torrents[0].left_until_done, Some(2138956824));
    assert_eq!(resp.arguments.torrents[1].left_until_done, Some(0));
}
#[test]
fn test_torrent_get_left_until_done_missing() {
    let resp = decode_torrents(torrent_get_only_id());
    assert!(resp.is_ok());
    assert_eq!(resp.arguments.torrents.len(), EXPECTED_MISSING_LEN);
    assert_eq!(resp.arguments.torrents[0].left_until_done, None);
}
#[test]
fn test_torrent_get_magnet_link_success() {
    let resp = decode_torrents(r#"
        {
            "arguments": {
                "torrents": [ 
                    { "magnetLink":"" },
                    { "magnetLink":"magnet:?xt=urn:btih:cfc214278888c26cb1516399a304c4f74ff6a810&dn=archlinux-2024.08.01-x86_64.iso" }
                ]
            },
            "result":"success"
        }
        "#);
    assert!(resp.is_ok());
    assert_eq!(resp.arguments.torrents.len(), 2);
    assert_eq!(resp.arguments.torrents[0].magnet_link, Some("".into()));
    assert_eq!(
        resp.arguments.torrents[1].magnet_link,
        Some(
            "magnet:?xt=urn:btih:cfc214278888c26cb1516399a304c4f74ff6a810\
        &dn=archlinux-2024.08.01-x86_64.iso"
                .into()
        ),
    );
}
#[test]
fn test_torrent_get_magnet_link_missing() {
    let resp = decode_torrents(torrent_get_only_id());
    assert!(resp.is_ok());
    assert_eq!(resp.arguments.torrents.len(), EXPECTED_MISSING_LEN);
    assert_eq!(resp.arguments.torrents[0].magnet_link, None);
}
#[test]
fn test_torrent_get_manual_announce_time_success() {
    let resp = decode_torrents(r#"
        {
            "arguments": {
                "torrents": [ 
                    { "manualAnnounceTime":-1 },
                    { "manualAnnounceTime":0 },
                    { "manualAnnounceTime":1723512975 }
                ]
            },
            "result":"success"
        }
        "#);
    assert!(resp.is_ok());
    assert_eq!(resp.arguments.torrents.len(), 3);
    assert_eq!(
        resp.arguments.torrents[0].manual_announce_time,
        Some(Timestamp { secs: 0 }),
    );
    assert_eq!(
        resp.arguments.torrents[1].manual_announce_time,
        Some(Timestamp { secs: 0 }),
    ); // Might be impossible
    assert_eq!(
        resp.arguments.torrents[2].manual_announce_time,
        Some(ts("2024-08-13T01:36:15Z")),
    );
}
#[test]
fn test_torrent_get_manual_announce_time_missing() {
    let resp = decode_torrents(torrent_get_only_id());
    assert!(resp.is_ok());
    assert_eq!(resp.arguments.torrents.len(), EXPECTED_MISSING_LEN);
    assert_eq!(resp.arguments.torrents[0].manual_announce_time, None);
}
#[test]
fn test_torrent_get_max_connected_peers_success() {
    let resp = decode_torrents(r#"
        {
            "arguments": {
                "torrents": [ 
                    { "maxConnectedPeers":0 },
                    { "maxConnectedPeers":20 }
                ]
            },
            "result":"success"
        }
        "#);
    assert!(resp.is_ok());
    assert_eq!(resp.arguments.torrents.len(), 2);
    assert_eq!(resp.arguments.torrents[0].max_connected_peers, Some(0));
    assert_eq!(resp.arguments.torrents[1].max_connected_peers, Some(20));
}
#[test]
fn test_torrent_get_max_connected_peers_missing() {
    let resp = decode_torrents(torrent_get_only_id());
    assert!(resp.is_ok());
    assert_eq!(resp.arguments.torrents.len(), EXPECTED_MISSING_LEN);
    assert_eq!(resp.arguments.torrents[0].max_connected_peers, None);
}
#[test]
fn test_torrent_get_name_success() {
    let resp = decode_torrents(r#"
        {
            "arguments": {
                "torrents": [ { "name":"debian-12.6.0-amd64-DVD-1.iso" } ]
            },
            "result":"success"
        }
        "#);
    assert!(resp.is_ok());
    assert_eq!(resp.arguments.torrents.len(), 1);
    assert_eq!(
        resp.arguments.torrents[0].name,
        Some("debian-12.6.0-amd64-DVD-1.iso".into())
    );
}
#[test]
fn test_torrent_get_name_missing() {
    let resp = decode_torrents(torrent_get_only_id());
    assert!(resp.is_ok());
    assert_eq!(resp.arguments.torrents.len(), EXPECTED_MISSING_LEN);
    assert_eq!(resp.arguments.torrents[0].name, None);
}
#[test]
fn test_torrent_get_peer_limit_success() {
    let resp = decode_torrents(r#"
        {
            "arguments": {
                "torrents": [ 
                    { "peer-limit":0 },
                    { "peer-limit":20 }
                ]
            },
            "result":"success"
        }
        "#);
    assert!(resp.is_ok());
    assert_eq!(resp.arguments.torrents.len(), 2);
    assert_eq!(resp.arguments.torrents[0].peer_limit, Some(0));
    assert_eq!(resp.arguments.torrents[1].peer_limit, Some(20));
}
#[test]
fn test_torrent_get_peer_limit_missing() {
    let resp = decode_torrents(torrent_get_only_id());
    assert!(resp.is_ok());
    assert_eq!(resp.arguments.torrents.len(), EXPECTED_MISSING_LEN);
    assert_eq!(resp.arguments.torrents[0].peer_limit, None);
}
#[test]
fn test_torrent_get_peers_missing() {
    let resp = decode_torrents(torrent_get_only_id());
    assert!(resp.is_ok());
    assert_eq!(resp.arguments.torrents.len(), EXPECTED_MISSING_LEN);
    assert!(resp.arguments.torrents[0].peers.is_none());
}
#[test]
fn test_torrent_get_peers_connected_success() {
    let resp = decode_torrents(r#"
        {
            "arguments": {
                "torrents": [ 
                    { "peersConnected":0 },
                    { "peersConnected":6 }
                ]
            },
            "result":"success"
        }
        "#);
    assert!(resp.is_ok());
    assert_eq!(resp.arguments.torrents.len(), 2);
    assert_eq!(resp.arguments.torrents[0].peers_connected, Some(0));
    assert_eq!(resp.arguments.torrents[1].peers_connected, Some(6));
}
#[test]
fn test_torrent_get_peers_connected_missing() {
    let resp = decode_torrents(torrent_get_only_id());
    assert!(resp.is_ok());
    assert_eq!(resp.arguments.torrents.len(), EXPECTED_MISSING_LEN);
    assert_eq!(resp.arguments.torrents[0].peers_connected, None);
}
#[test]
fn test_torrent_get_peers_from_success() {
    let resp = decode_torrents(r#"
        {
            "arguments": {
                "torrents": [ 
                    { 
                        "peersFrom": {
                            "fromCache":0,
                            "fromDht":1,
                            "fromIncoming":2,
                            "fromLpd":3,
                            "fromLtep":4,
                            "fromPex":5,
                            "fromTracker":6
                        }
                    }
                ]
            },
            "result":"success"
        }
        "#);
    assert!(resp.is_ok());
    assert_eq!(resp.arguments.torrents.len(), 1);
    let peers = resp.arguments.torrents[0]
        .peers_from
        .as_ref()
        .expect("peers_from should exist");
    assert_eq!(peers.from_cache, 0);
    assert_eq!(peers.from_dht, 1);
    assert_eq!(peers.from_incoming, 2);
    assert_eq!(peers.from_lpd, 3);
    assert_eq!(peers.from_ltep, 4);
    assert_eq!(peers.from_pex, 5);
    assert_eq!(peers.from_tracker, 6);
}
#[test]
fn test_torrent_get_peers_from_missing() {
    let resp = decode_torrents(torrent_get_only_id());
    assert!(resp.is_ok());
    assert_eq!(resp.arguments.torrents.len(), EXPECTED_MISSING_LEN);
    assert!(resp.arguments.torrents[0].peers_from.is_none());
}
#[test]
fn test_torrent_get_peers_getting_from_us_success() {
    let resp = decode_torrents(r#"
        {
            "arguments": {
                "torrents": [ 
                    { "peersGettingFromUs":0 },
                    { "peersGettingFromUs":2 }
                ]
            },
            "result":"success"
        }
        "#);
    assert!(resp.is_ok());
    assert_eq!(resp.arguments.torrents.len(), 2);
    assert_eq!(resp.arguments.torrents[0].peers_getting_from_us, Some(0));
    assert_eq!(resp.arguments.torrents[1].peers_getting_from_us, Some(2));
}
#[test]
fn test_torrent_get_peers_getting_from_us_missing() {
    let resp = decode_torrents(torrent_get_only_id());
    assert!(resp.is_ok());
    assert_eq!(resp.arguments.torrents.len(), EXPECTED_MISSING_LEN);
    assert_eq!(resp.arguments.torrents[0].peers_getting_from_us, None);
}
#[test]
fn test_torrent_get_peers_sending_to_us_success() {
    let resp = decode_torrents(r#"
        {
            "arguments": {
                "torrents": [ 
                    { "peersSendingToUs":0 },
                    { "peersSendingToUs":9 }
                ]
            },
            "result":"success"
        }
        "#);
    assert!(resp.is_ok());
    assert_eq!(resp.arguments.torrents.len(), 2);
    assert_eq!(resp.arguments.torrents[0].peers_sending_to_us, Some(0));
    assert_eq!(resp.arguments.torrents[1].peers_sending_to_us, Some(9));
}
#[test]
fn test_torrent_get_peers_sending_to_us_missing() {
    let resp = decode_torrents(torrent_get_only_id());
    assert!(resp.is_ok());
    assert_eq!(resp.arguments.torrents.len(), EXPECTED_MISSING_LEN);
    assert_eq!(resp.arguments.torrents[0].peers_sending_to_us, None);
}
#[test]
fn test_torrent_get_pieces_missing() {
    let resp = decode_torrents(torrent_get_only_id());
    assert!(resp.is_ok());
    assert_eq!(resp.arguments.torrents.len(), EXPECTED_MISSING_LEN);
    assert!(resp.arguments.torrents[0].pieces.is_none());
}
#[test]
fn test_torrent_get_piece_count_success() {
    let resp = decode_torrents(r#"
        {
            "arguments": {
                "torrents": [ 
                    { "pieceCount":10234 },
                    { "pieceCount":9876 }
                ]
            },
            "result":"success"
        }
        "#);
    assert!(resp.is_ok());
    assert_eq!(resp.arguments.torrents.len(), 2);
    assert_eq!(resp.arguments.torrents[0].piece_count, Some(10234));
    assert_eq!(resp.arguments.torrents[1].piece_count, Some(9876));
}
#[test]
fn test_torrent_get_piece_count_missing() {
    let resp = decode_torrents(torrent_get_only_id());
    assert!(resp.is_ok());
    assert_eq!(resp.arguments.torrents.len(), EXPECTED_MISSING_LEN);
    assert_eq!(resp.arguments.torrents[0].piece_count, None);
}
#[test]
fn test_torrent_get_piece_size_success() {
    let resp = decode_torrents(r#"
        {
            "arguments": {
                "torrents": [ 
                    { "pieceSize":2097152 },
                    { "pieceSize":1048576 }
                ]
            },
            "result":"success"
        }
        "#);
    assert!(resp.is_ok());
    assert_eq!(resp.arguments.torrents.len(), 2);
    assert_eq!(resp.arguments.torrents[0].piece_size, Some(2097152));
    assert_eq!(resp.arguments.torrents[1].piece_size, Some(1048576));
}
#[test]
fn test_torrent_get_piece_size_missing() {
    let resp = decode_torrents(torrent_get_only_id());
    assert!(resp.is_ok());
    assert_eq!(resp.arguments.torrents.len(), EXPECTED_MISSING_LEN);
    assert_eq!(resp.arguments.torrents[0].piece_size, None);
}
#[test]
fn test_torrent_get_primary_mime_type_success() {
    let resp = decode_torrents(r#"
        {
            "arguments": {
                "torrents": [ 
                    { "primary-mime-type":"application/octet-stream" },
                    { "primary-mime-type":"audio/x-flac" }
                ]
            },
            "result":"success"
        }
        "#);
    assert!(resp.is_ok());
    assert_eq!(resp.arguments.torrents.len(), 2);
    assert_eq!(
        resp.arguments.torrents[0].primary_mime_type,
        Some("application/octet-stream".into()),
    );
    assert_eq!(
        resp.arguments.torrents[1].primary_mime_type,
        Some("audio/x-flac".into())
    );
}
#[test]
fn test_torrent_get_primary_mime_type_missing() {
    let resp = decode_torrents(torrent_get_only_id());
    assert!(resp.is_ok());
    assert_eq!(resp.arguments.torrents.len(), EXPECTED_MISSING_LEN);
    assert_eq!(resp.arguments.torrents[0].primary_mime_type, None);
}
