//! Decoding tests for the torrent fields with structured payloads: the
//! base64 piece bitfield and the peer list.

use transmission_rpc::json::JsonValue;
use transmission_rpc::types::{RpcResponse, Torrent, Torrents};

fn conv(v: &serde_json::Value) -> JsonValue {
    match v {
        serde_json::Value::Null => JsonValue::Null,
        serde_json::Value::Bool(b) => JsonValue::Bool(*b),
        serde_json::Value::Number(n) => {
            if let Some(i) = n.as_i64() {
                JsonValue::Int(i as i128)
            } else if let Some(u) = n.as_u64() {
                JsonValue::Int(u as i128)
            } else {
                JsonValue::Real(n.to_string())
            }
        }
        serde_json::Value::String(s) => JsonValue::Str(s.clone()),
        serde_json::Value::Array(xs) => JsonValue::Arr(xs.iter().map(conv).collect()),
        serde_json::Value::Object(m) => {
            JsonValue::Obj(m.iter().map(|(k, x)| (k.clone(), conv(x))).collect())
        }
    }
}

fn decode_torrents(text: &str) -> RpcResponse<Torrents<Torrent>> {
    let v = conv(&serde_json::from_str::<serde_json::Value>(text).expect("valid JSON"));
    RpcResponse::decode(&v).expect("well-formed response")
}

#[test]
fn test_torrent_get_pieces_success() {
    let resp = decode_torrents(
        r#"
        {
            "arguments": {
                "torrents": [

                    { "pieces":"/Pb49/m+8tPzi+Z/e/39" },

                    { "pieces":"//////////////////////////////////////////////////////////////////////////////////////////////////////////////////w=" },

                    { "pieces":"AAAAAAAAAAAA" }

                ]
            },
            "result":"success"
        }
        "#,
    );
    assert!(resp.is_ok());
    assert_eq!(resp.arguments.torrents.len(), 3);
    let first = resp.arguments.torrents[0]
        .pieces
        .as_ref()
        .expect("pieces should exist");
    assert_eq!(first.bitfield.len(), 15); // 120 pieces (8 * 15 = 120)
    let bitfield: Vec<u8> = vec![
        0xFC, 0xF6, 0xF8, 0xF7, 0xF9, 0xBE, 0xF2, 0xD3, 0xF3, 0x8B, 0xE6, 0x7F, 0x7B, 0xFD, 0xFD,
    ];
    assert_eq!(first.bitfield, bitfield);

    let second = resp.arguments.torrents[1]
        .pieces
        .as_ref()
        .expect("pieces should exist");
    assert_eq!(second.bitfield.len(), 86); // 686 pieces (8 * 86 = 688 => 2 extra bits)
    let mut bitfield = vec![u8::MAX; 85];
    bitfield.push(0xFC);
    assert_eq!(second.bitfield, bitfield);

    let third = resp.arguments.torrents[2]
        .pieces
        .as_ref()
        .expect("pieces should exist");
    assert_eq!(third.bitfield.len(), 9); // 72 pieces (8 * 9 = 72)
    let bitfield = vec![0u8; 9];
    assert_eq!(third.bitfield, bitfield);
}

#[test]
fn test_torrent_get_peers_success() {
    let resp = decode_torrents(
        r#"
        {
            "arguments": {
                "torrents": [
                    { "peers":[] },
                    {
                        "peers":[
                            {
                                "address":"10.0.0.100",
                                "clientName":"\u00b5Torrent 3.5.5",
                                "clientIsChoked":false,
                                "clientIsInterested":true,
                                "flagStr":"dUEI",
                                "isDownloadingFrom":false,
                                "isEncrypted":true,
                                "isIncoming":true,
                                "isUploadingTo":true,
                                "isUTP":false,
                                "peerIsChoked":false,
                                "peerIsInterested":true,
                                "port":55555,
                                "progress":0.2641,
                                "rateToClient":0,
                                "rateToPeer":385000
                            },
                            {
                                "address":"2001:0db8:85a3:0000:0000:8a2e:0370:7334",
                                "clientName":"qBittorrent 4.6.5",
                                "clientIsChoked":false,
                                "clientIsInterested":true,
                                "flagStr":"TDI",
                                "isDownloadingFrom":true,
                                "isEncrypted":false,
                                "isIncoming":true,
                                "isUploadingTo":false,
                                "isUTP":true,
                                "peerIsChoked":true,
                                "peerIsInterested":false,
                                "port":36667,
                                "progress":1,
                                "rateToClient":8000,
                                "rateToPeer":0
                            }
                        ]
                    }
                ]
            },
            "result":"success"
        }
        "#,
    );
    assert!(resp.is_ok());
    assert_eq!(resp.arguments.torrents.len(), 2);
    let first = resp.arguments.torrents[0]
        .peers
        .as_ref()
        .expect("peers should exist");
    assert_eq!(first.len(), 0);
    let second = resp.arguments.torrents[1]
        .peers
        .as_ref()
        .expect("peers should exist");
    assert_eq!(second.len(), 2);
    assert_eq!(second[0].address, "10.0.0.100".to_string());
    assert_eq!(second[0].client_name, "\u{b5}Torrent 3.5.5".to_string());
    assert!(!second[0].client_is_choked);
    assert!(second[0].client_is_interested);
    assert_eq!(second[0].flag_str, "dUEI".to_string());
    assert!(!second[0].is_downloading_from);
    assert!(second[0].is_encrypted);
    assert!(second[0].is_incoming);
    assert!(second[0].is_uploading_to);
    assert!(!second[0].is_utp);
    assert!(!second[0].peer_is_choked);
    assert!(second[0].peer_is_interested);
    assert_eq!(second[0].port, 55555);
    assert_eq!(second[0].rate_to_client, 0);
    assert_eq!(second[0].rate_to_peer, 385000);
    assert_eq!(
        second[1].address,
        "2001:0db8:85a3:0000:0000:8a2e:0370:7334".to_string()
    );
    assert_eq!(second[1].client_name, "qBittorrent 4.6.5".to_string());
    assert!(!second[1].client_is_choked);
    assert!(second[1].client_is_interested);
    assert_eq!(second[1].flag_str, "TDI".to_string());
    assert!(second[1].is_downloading_from);
    assert!(!second[1].is_encrypted);
    assert!(second[1].is_incoming);
    assert!(!second[1].is_uploading_to);
    assert!(second[1].is_utp);
    assert!(second[1].peer_is_choked);
    assert!(!second[1].peer_is_interested);
    assert_eq!(second[1].port, 36667);
    assert_eq!(second[1].rate_to_client, 8000);
    assert_eq!(second[1].rate_to_peer, 0);
}
