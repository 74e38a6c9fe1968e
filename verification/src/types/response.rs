//! Responses: the envelope, the typed per-method payload records, and their
//! exact decodings from a JSON document.
//!
//! Three decoding strategies appear here, as the protocol demands: plain
//! records with per-field wire names; the untagged identifier, tried as a
//! number first and a string second; and the key-presence union of
//! `torrent-add`, which never fails merely because its keys are absent.

use vstd::prelude::*;

use crate::b64::{base64_decode, base64_decoding_of};
use crate::client::opt_str_view;
use crate::json::{
    entry_reps_of, lemma_rep_of_arr, lemma_rep_of_obj, lookup, lookup_in, rep_of, reps_of,
    JsonRep, JsonValue,
};
use crate::types::request::{id_rep, str_views};
use crate::types::{Id, IdleMode, Priority, RatioMode};

verus! {

/// Why a response failed to decode.
#[derive(Debug, Clone, Copy, PartialEq, Eq, Structural)]
pub enum DecodeError {
    /// The body is not the `{arguments, result}` envelope.
    MalformedEnvelope,
    /// The `arguments` object does not match the expected result shape.
    MalformedArguments,
    /// An identifier is neither a number nor a string.
    MalformedIdentifier,
}

/// A point in time, in whole seconds since the Unix epoch.  The value `0`
/// doubles as the "never happened" sentinel for the fields that use it.
#[derive(Debug, Clone, Copy, PartialEq, Eq, PartialOrd, Ord, Hash, Structural)]
pub struct Timestamp {
    pub secs: i64,
}

/// The last second of the highest calendar year the date model admits
/// (year 262142).
pub const MAX_TIMESTAMP_SECS: i64 = 8210266876799;

/// The first second of the lowest calendar year the date model admits
/// (year -262143).
pub const MIN_TIMESTAMP_SECS: i64 = -8334601228800;

/// What a "time last happened" wire value decodes to: zero and negative
/// values both mean the epoch-zero sentinel; a positive value within the
/// calendar range is that moment; beyond the range there is no value.
pub open spec fn spec_timestamp_of(secs: int) -> Option<Timestamp> {
    if secs <= 0 {
        Some(Timestamp { secs: 0 })
    } else if secs <= MAX_TIMESTAMP_SECS {
        Some(Timestamp { secs: secs as i64 })
    } else {
        None
    }
}

/// Decodes a "time last happened" wire value; see [`spec_timestamp_of`].
pub fn decode_timestamp(secs: i64) -> (r: Option<Timestamp>)
    ensures
        r == spec_timestamp_of(secs as int),
{
    if secs <= 0 {
        Some(Timestamp { secs: 0 })
    } else if secs <= MAX_TIMESTAMP_SECS {
        Some(Timestamp { secs })
    } else {
        None
    }
}

/// Whether `v` decodes to an identifier at all: it must be a number or a
/// string.
pub open spec fn id_decodable(v: JsonRep) -> bool {
    match v {
        JsonRep::Int(i) => i64::MIN <= i <= i64::MAX,
        JsonRep::Str(_) => true,
        _ => false,
    }
}

/// Whether `x` is the identifier `v` decodes to.
pub open spec fn id_matches(x: Id, v: JsonRep) -> bool {
    match v {
        JsonRep::Int(i) => x == Id::Id(i as i64),
        JsonRep::Str(s) => x matches Id::Hash(h) && h@ == s,
        _ => false,
    }
}

/// Decodes an identifier: a number gives the numeric id, a string the hash
/// form; anything else is a malformed identifier.
pub fn decode_id(v: &JsonValue) -> (r: Result<Id, DecodeError>)
    ensures
        r is Ok <==> id_decodable(rep_of(*v)),
        r is Err ==> r == Err::<Id, DecodeError>(DecodeError::MalformedIdentifier),
        r matches Ok(x) ==> id_matches(x, rep_of(*v)),
{
    match v {
        JsonValue::Int(i) => {
            if *i >= i64::MIN as i128 && *i <= i64::MAX as i128 {
                Ok(Id::Id(*i as i64))
            } else {
                Err(DecodeError::MalformedIdentifier)
            }
        },
        JsonValue::Str(s) => Ok(Id::Hash(s.clone())),
        _ => Err(DecodeError::MalformedIdentifier),
    }
}

/// Law: an identifier survives the round trip through its wire form — what
/// [`crate::types::request::id_rep`] encodes, the decoder maps back to an
/// equal identifier, never to an error.
pub proof fn lemma_id_round_trip(id: Id)
    ensures
        id_decodable(id_rep(id)),
        id_matches(id, id_rep(id)),
{
}

/// One of the lifecycle state of a torrent.
#[derive(Clone, Copy, PartialEq, Eq, Hash, PartialOrd, Ord, Debug, Structural)]
pub enum TorrentStatus {
    Stopped,
    QueuedToVerify,
    Verifying,
    QueuedToDownload,
    Downloading,
    QueuedToSeed,
    Seeding,
}

impl TorrentStatus {
    /// The value a wire integer decodes to, if any.
    pub open spec fn spec_of_wire(i: int) -> Option<TorrentStatus> {
        if i == 0 {
            Some(TorrentStatus::Stopped)
        } else if i == 1 {
            Some(TorrentStatus::QueuedToVerify)
        } else if i == 2 {
            Some(TorrentStatus::Verifying)
        } else if i == 3 {
            Some(TorrentStatus::QueuedToDownload)
        } else if i == 4 {
            Some(TorrentStatus::Downloading)
        } else if i == 5 {
            Some(TorrentStatus::QueuedToSeed)
        } else if i == 6 {
            Some(TorrentStatus::Seeding)
        } else {
            None
        }
    }

    pub fn from_wire(i: i64) -> (r: Option<TorrentStatus>)
        ensures
            r == Self::spec_of_wire(i as int),
    {
        if i == 0 {
            Some(TorrentStatus::Stopped)
        } else if i == 1 {
            Some(TorrentStatus::QueuedToVerify)
        } else if i == 2 {
            Some(TorrentStatus::Verifying)
        } else if i == 3 {
            Some(TorrentStatus::QueuedToDownload)
        } else if i == 4 {
            Some(TorrentStatus::Downloading)
        } else if i == 5 {
            Some(TorrentStatus::QueuedToSeed)
        } else if i == 6 {
            Some(TorrentStatus::Seeding)
        } else {
            None
        }
    }
}

/// One of the kind of error a torrent reports.
#[derive(Clone, Copy, PartialEq, Eq, PartialOrd, Ord, Debug, Structural)]
pub enum ErrorType {
    NoError,
    TrackerWarning,
    TrackerError,
    LocalError,
}

impl ErrorType {
    /// The value a wire integer decodes to, if any.
    pub open spec fn spec_of_wire(i: int) -> Option<ErrorType> {
        if i == 0 {
            Some(ErrorType::NoError)
        } else if i == 1 {
            Some(ErrorType::TrackerWarning)
        } else if i == 2 {
            Some(ErrorType::TrackerError)
        } else if i == 3 {
            Some(ErrorType::LocalError)
        } else {
            None
        }
    }

    pub fn from_wire(i: i64) -> (r: Option<ErrorType>)
        ensures
            r == Self::spec_of_wire(i as int),
    {
        if i == 0 {
            Some(ErrorType::NoError)
        } else if i == 1 {
            Some(ErrorType::TrackerWarning)
        } else if i == 2 {
            Some(ErrorType::TrackerError)
        } else if i == 3 {
            Some(ErrorType::LocalError)
        } else {
            None
        }
    }
}

/// One of what a tracker is doing.
#[derive(Debug, Clone, Copy, PartialEq, Eq, Structural)]
pub enum TrackerState {
    Inactive,
    Waiting,
    Queued,
    Active,
}

impl TrackerState {
    /// The value a wire integer decodes to, if any.
    pub open spec fn spec_of_wire(i: int) -> Option<TrackerState> {
        if i == 0 {
            Some(TrackerState::Inactive)
        } else if i == 1 {
            Some(TrackerState::Waiting)
        } else if i == 2 {
            Some(TrackerState::Queued)
        } else if i == 3 {
            Some(TrackerState::Active)
        } else {
            None
        }
    }

    pub fn from_wire(i: i64) -> (r: Option<TrackerState>)
        ensures
            r == Self::spec_of_wire(i as int),
    {
        if i == 0 {
            Some(TrackerState::Inactive)
        } else if i == 1 {
            Some(TrackerState::Waiting)
        } else if i == 2 {
            Some(TrackerState::Queued)
        } else if i == 3 {
            Some(TrackerState::Active)
        } else {
            None
        }
    }
}

/// Whether the `i64` field under `key` is absent or well-formed.
pub open spec fn opt_i64_ok(o: Seq<(Seq<char>, JsonRep)>, key: Seq<char>) -> bool {
    match lookup_in(o, key) {
        None => true,
        Some(v) => v matches JsonRep::Int(i) && i64::MIN <= i <= i64::MAX,
    }
}

/// The value of the `i64` field under `key`, where present.
pub open spec fn opt_i64_of(o: Seq<(Seq<char>, JsonRep)>, key: Seq<char>) -> Option<i64> {
    match lookup_in(o, key) {
        Some(v) => match v {
            JsonRep::Int(i) => Some(i as i64),
            _ => None,
        },
        _ => None,
    }
}

fn get_opt_i64(entries: &Vec<(String, JsonValue)>, key: &str) -> (r: Result<
    Option<i64>,
    DecodeError,
>)
    ensures
        r is Ok <==> opt_i64_ok(entry_reps_of(entries@), key@),
        r is Err ==> r == Err::<Option<i64>, DecodeError>(DecodeError::MalformedArguments),
        r matches Ok(x) ==> x == opt_i64_of(entry_reps_of(entries@), key@),
{
    let k = key.to_owned();
    match lookup(entries, &k) {
        None => Ok(None),
        Some(JsonValue::Int(i)) => {
            if *i >= i64::MIN as i128 && *i <= i64::MAX as i128 {
                Ok(Some(*i as i64))
            } else {
                Err(DecodeError::MalformedArguments)
            }
        },
        Some(_) => Err(DecodeError::MalformedArguments),
    }
}

/// Whether the `i64` field under `key` is present and well-formed.
pub open spec fn req_i64_ok(o: Seq<(Seq<char>, JsonRep)>, key: Seq<char>) -> bool {
    lookup_in(o, key) matches Some(v) && v matches JsonRep::Int(i) && i64::MIN <= i <= i64::MAX
}

/// The value of the `i64` field under `key`.
pub open spec fn req_i64_of(o: Seq<(Seq<char>, JsonRep)>, key: Seq<char>) -> i64 {
    match lookup_in(o, key) {
        Some(v) => match v {
            JsonRep::Int(i) => i as i64,
            _ => 0 as i64,
        },
        _ => 0 as i64,
    }
}

fn get_req_i64(entries: &Vec<(String, JsonValue)>, key: &str) -> (r: Result<i64, DecodeError>)
    ensures
        r is Ok <==> req_i64_ok(entry_reps_of(entries@), key@),
        r is Err ==> r == Err::<i64, DecodeError>(DecodeError::MalformedArguments),
        r matches Ok(x) ==> x == req_i64_of(entry_reps_of(entries@), key@),
{
    let k = key.to_owned();
    match lookup(entries, &k) {
        Some(JsonValue::Int(i)) => {
            if *i >= i64::MIN as i128 && *i <= i64::MAX as i128 {
                Ok(*i as i64)
            } else {
                Err(DecodeError::MalformedArguments)
            }
        },
        _ => Err(DecodeError::MalformedArguments),
    }
}

/// Whether the `i32` field under `key` is absent or well-formed.
pub open spec fn opt_i32_ok(o: Seq<(Seq<char>, JsonRep)>, key: Seq<char>) -> bool {
    match lookup_in(o, key) {
        None => true,
        Some(v) => v matches JsonRep::Int(i) && i32::MIN <= i <= i32::MAX,
    }
}

/// The value of the `i32` field under `key`, where present.
pub open spec fn opt_i32_of(o: Seq<(Seq<char>, JsonRep)>, key: Seq<char>) -> Option<i32> {
    match lookup_in(o, key) {
        Some(v) => match v {
            JsonRep::Int(i) => Some(i as i32),
            _ => None,
        },
        _ => None,
    }
}

fn get_opt_i32(entries: &Vec<(String, JsonValue)>, key: &str) -> (r: Result<
    Option<i32>,
    DecodeError,
>)
    ensures
        r is Ok <==> opt_i32_ok(entry_reps_of(entries@), key@),
        r is Err ==> r == Err::<Option<i32>, DecodeError>(DecodeError::MalformedArguments),
        r matches Ok(x) ==> x == opt_i32_of(entry_reps_of(entries@), key@),
{
    let k = key.to_owned();
    match lookup(entries, &k) {
        None => Ok(None),
        Some(JsonValue::Int(i)) => {
            if *i >= i32::MIN as i128 && *i <= i32::MAX as i128 {
                Ok(Some(*i as i32))
            } else {
                Err(DecodeError::MalformedArguments)
            }
        },
        Some(_) => Err(DecodeError::MalformedArguments),
    }
}

/// Whether the `i32` field under `key` is present and well-formed.
pub open spec fn req_i32_ok(o: Seq<(Seq<char>, JsonRep)>, key: Seq<char>) -> bool {
    lookup_in(o, key) matches Some(v) && v matches JsonRep::Int(i) && i32::MIN <= i <= i32::MAX
}

/// The value of the `i32` field under `key`.
pub open spec fn req_i32_of(o: Seq<(Seq<char>, JsonRep)>, key: Seq<char>) -> i32 {
    match lookup_in(o, key) {
        Some(v) => match v {
            JsonRep::Int(i) => i as i32,
            _ => 0 as i32,
        },
        _ => 0 as i32,
    }
}

fn get_req_i32(entries: &Vec<(String, JsonValue)>, key: &str) -> (r: Result<i32, DecodeError>)
    ensures
        r is Ok <==> req_i32_ok(entry_reps_of(entries@), key@),
        r is Err ==> r == Err::<i32, DecodeError>(DecodeError::MalformedArguments),
        r matches Ok(x) ==> x == req_i32_of(entry_reps_of(entries@), key@),
{
    let k = key.to_owned();
    match lookup(entries, &k) {
        Some(JsonValue::Int(i)) => {
            if *i >= i32::MIN as i128 && *i <= i32::MAX as i128 {
                Ok(*i as i32)
            } else {
                Err(DecodeError::MalformedArguments)
            }
        },
        _ => Err(DecodeError::MalformedArguments),
    }
}

/// Whether the `u64` field under `key` is absent or well-formed.
pub open spec fn opt_u64_ok(o: Seq<(Seq<char>, JsonRep)>, key: Seq<char>) -> bool {
    match lookup_in(o, key) {
        None => true,
        Some(v) => v matches JsonRep::Int(i) && 0 <= i <= u64::MAX,
    }
}

/// The value of the `u64` field under `key`, where present.
pub open spec fn opt_u64_of(o: Seq<(Seq<char>, JsonRep)>, key: Seq<char>) -> Option<u64> {
    match lookup_in(o, key) {
        Some(v) => match v {
            JsonRep::Int(i) => Some(i as u64),
            _ => None,
        },
        _ => None,
    }
}

fn get_opt_u64(entries: &Vec<(String, JsonValue)>, key: &str) -> (r: Result<
    Option<u64>,
    DecodeError,
>)
    ensures
        r is Ok <==> opt_u64_ok(entry_reps_of(entries@), key@),
        r is Err ==> r == Err::<Option<u64>, DecodeError>(DecodeError::MalformedArguments),
        r matches Ok(x) ==> x == opt_u64_of(entry_reps_of(entries@), key@),
{
    let k = key.to_owned();
    match lookup(entries, &k) {
        None => Ok(None),
        Some(JsonValue::Int(i)) => {
            if *i >= u64::MIN as i128 && *i <= u64::MAX as i128 {
                Ok(Some(*i as u64))
            } else {
                Err(DecodeError::MalformedArguments)
            }
        },
        Some(_) => Err(DecodeError::MalformedArguments),
    }
}

/// Whether the `u64` field under `key` is present and well-formed.
pub open spec fn req_u64_ok(o: Seq<(Seq<char>, JsonRep)>, key: Seq<char>) -> bool {
    lookup_in(o, key) matches Some(v) && v matches JsonRep::Int(i) && 0 <= i <= u64::MAX
}

/// The value of the `u64` field under `key`.
pub open spec fn req_u64_of(o: Seq<(Seq<char>, JsonRep)>, key: Seq<char>) -> u64 {
    match lookup_in(o, key) {
        Some(v) => match v {
            JsonRep::Int(i) => i as u64,
            _ => 0 as u64,
        },
        _ => 0 as u64,
    }
}

fn get_req_u64(entries: &Vec<(String, JsonValue)>, key: &str) -> (r: Result<u64, DecodeError>)
    ensures
        r is Ok <==> req_u64_ok(entry_reps_of(entries@), key@),
        r is Err ==> r == Err::<u64, DecodeError>(DecodeError::MalformedArguments),
        r matches Ok(x) ==> x == req_u64_of(entry_reps_of(entries@), key@),
{
    let k = key.to_owned();
    match lookup(entries, &k) {
        Some(JsonValue::Int(i)) => {
            if *i >= u64::MIN as i128 && *i <= u64::MAX as i128 {
                Ok(*i as u64)
            } else {
                Err(DecodeError::MalformedArguments)
            }
        },
        _ => Err(DecodeError::MalformedArguments),
    }
}

/// Whether the `u16` field under `key` is absent or well-formed.
pub open spec fn opt_u16_ok(o: Seq<(Seq<char>, JsonRep)>, key: Seq<char>) -> bool {
    match lookup_in(o, key) {
        None => true,
        Some(v) => v matches JsonRep::Int(i) && 0 <= i <= u16::MAX,
    }
}

/// The value of the `u16` field under `key`, where present.
pub open spec fn opt_u16_of(o: Seq<(Seq<char>, JsonRep)>, key: Seq<char>) -> Option<u16> {
    match lookup_in(o, key) {
        Some(v) => match v {
            JsonRep::Int(i) => Some(i as u16),
            _ => None,
        },
        _ => None,
    }
}

fn get_opt_u16(entries: &Vec<(String, JsonValue)>, key: &str) -> (r: Result<
    Option<u16>,
    DecodeError,
>)
    ensures
        r is Ok <==> opt_u16_ok(entry_reps_of(entries@), key@),
        r is Err ==> r == Err::<Option<u16>, DecodeError>(DecodeError::MalformedArguments),
        r matches Ok(x) ==> x == opt_u16_of(entry_reps_of(entries@), key@),
{
    let k = key.to_owned();
    match lookup(entries, &k) {
        None => Ok(None),
        Some(JsonValue::Int(i)) => {
            if *i >= u16::MIN as i128 && *i <= u16::MAX as i128 {
                Ok(Some(*i as u16))
            } else {
                Err(DecodeError::MalformedArguments)
            }
        },
        Some(_) => Err(DecodeError::MalformedArguments),
    }
}

/// Whether the `u16` field under `key` is present and well-formed.
pub open spec fn req_u16_ok(o: Seq<(Seq<char>, JsonRep)>, key: Seq<char>) -> bool {
    lookup_in(o, key) matches Some(v) && v matches JsonRep::Int(i) && 0 <= i <= u16::MAX
}

/// The value of the `u16` field under `key`.
pub open spec fn req_u16_of(o: Seq<(Seq<char>, JsonRep)>, key: Seq<char>) -> u16 {
    match lookup_in(o, key) {
        Some(v) => match v {
            JsonRep::Int(i) => i as u16,
            _ => 0 as u16,
        },
        _ => 0 as u16,
    }
}

fn get_req_u16(entries: &Vec<(String, JsonValue)>, key: &str) -> (r: Result<u16, DecodeError>)
    ensures
        r is Ok <==> req_u16_ok(entry_reps_of(entries@), key@),
        r is Err ==> r == Err::<u16, DecodeError>(DecodeError::MalformedArguments),
        r matches Ok(x) ==> x == req_u16_of(entry_reps_of(entries@), key@),
{
    let k = key.to_owned();
    match lookup(entries, &k) {
        Some(JsonValue::Int(i)) => {
            if *i >= u16::MIN as i128 && *i <= u16::MAX as i128 {
                Ok(*i as u16)
            } else {
                Err(DecodeError::MalformedArguments)
            }
        },
        _ => Err(DecodeError::MalformedArguments),
    }
}

/// Whether the `usize` field under `key` is absent or well-formed.
pub open spec fn opt_usize_ok(o: Seq<(Seq<char>, JsonRep)>, key: Seq<char>) -> bool {
    match lookup_in(o, key) {
        None => true,
        Some(v) => v matches JsonRep::Int(i) && 0 <= i <= usize::MAX,
    }
}

/// The value of the `usize` field under `key`, where present.
pub open spec fn opt_usize_of(o: Seq<(Seq<char>, JsonRep)>, key: Seq<char>) -> Option<usize> {
    match lookup_in(o, key) {
        Some(v) => match v {
            JsonRep::Int(i) => Some(i as usize),
            _ => None,
        },
        _ => None,
    }
}

fn get_opt_usize(entries: &Vec<(String, JsonValue)>, key: &str) -> (r: Result<
    Option<usize>,
    DecodeError,
>)
    ensures
        r is Ok <==> opt_usize_ok(entry_reps_of(entries@), key@),
        r is Err ==> r == Err::<Option<usize>, DecodeError>(DecodeError::MalformedArguments),
        r matches Ok(x) ==> x == opt_usize_of(entry_reps_of(entries@), key@),
{
    let k = key.to_owned();
    match lookup(entries, &k) {
        None => Ok(None),
        Some(JsonValue::Int(i)) => {
            if *i >= usize::MIN as i128 && *i <= usize::MAX as i128 {
                Ok(Some(*i as usize))
            } else {
                Err(DecodeError::MalformedArguments)
            }
        },
        Some(_) => Err(DecodeError::MalformedArguments),
    }
}

/// Whether the `usize` field under `key` is present and well-formed.
pub open spec fn req_usize_ok(o: Seq<(Seq<char>, JsonRep)>, key: Seq<char>) -> bool {
    lookup_in(o, key) matches Some(v) && v matches JsonRep::Int(i) && 0 <= i <= usize::MAX
}

/// The value of the `usize` field under `key`.
pub open spec fn req_usize_of(o: Seq<(Seq<char>, JsonRep)>, key: Seq<char>) -> usize {
    match lookup_in(o, key) {
        Some(v) => match v {
            JsonRep::Int(i) => i as usize,
            _ => 0 as usize,
        },
        _ => 0 as usize,
    }
}

fn get_req_usize(entries: &Vec<(String, JsonValue)>, key: &str) -> (r: Result<usize, DecodeError>)
    ensures
        r is Ok <==> req_usize_ok(entry_reps_of(entries@), key@),
        r is Err ==> r == Err::<usize, DecodeError>(DecodeError::MalformedArguments),
        r matches Ok(x) ==> x == req_usize_of(entry_reps_of(entries@), key@),
{
    let k = key.to_owned();
    match lookup(entries, &k) {
        Some(JsonValue::Int(i)) => {
            if *i >= usize::MIN as i128 && *i <= usize::MAX as i128 {
                Ok(*i as usize)
            } else {
                Err(DecodeError::MalformedArguments)
            }
        },
        _ => Err(DecodeError::MalformedArguments),
    }
}

/// Whether the boolean field under `key` is absent or well-formed.
pub open spec fn opt_bool_ok(o: Seq<(Seq<char>, JsonRep)>, key: Seq<char>) -> bool {
    match lookup_in(o, key) {
        None => true,
        Some(v) => v is Bool,
    }
}

/// The value of the boolean field under `key`, where present.
pub open spec fn opt_bool_of(o: Seq<(Seq<char>, JsonRep)>, key: Seq<char>) -> Option<bool> {
    match lookup_in(o, key) {
        Some(v) => match v {
            JsonRep::Bool(b) => Some(b),
            _ => None,
        },
        _ => None,
    }
}

fn get_opt_bool(entries: &Vec<(String, JsonValue)>, key: &str) -> (r: Result<
    Option<bool>,
    DecodeError,
>)
    ensures
        r is Ok <==> opt_bool_ok(entry_reps_of(entries@), key@),
        r is Err ==> r == Err::<Option<bool>, DecodeError>(DecodeError::MalformedArguments),
        r matches Ok(x) ==> x == opt_bool_of(entry_reps_of(entries@), key@),
{
    let k = key.to_owned();
    match lookup(entries, &k) {
        None => Ok(None),
        Some(JsonValue::Bool(b)) => Ok(Some(*b)),
        Some(_) => Err(DecodeError::MalformedArguments),
    }
}

/// Whether the boolean field under `key` is present.
pub open spec fn req_bool_ok(o: Seq<(Seq<char>, JsonRep)>, key: Seq<char>) -> bool {
    lookup_in(o, key) matches Some(v) && v is Bool
}

/// The value of the boolean field under `key`.
pub open spec fn req_bool_of(o: Seq<(Seq<char>, JsonRep)>, key: Seq<char>) -> bool {
    match lookup_in(o, key) {
        Some(v) => match v {
            JsonRep::Bool(b) => b,
            _ => false,
        },
        _ => false,
    }
}

fn get_req_bool(entries: &Vec<(String, JsonValue)>, key: &str) -> (r: Result<bool, DecodeError>)
    ensures
        r is Ok <==> req_bool_ok(entry_reps_of(entries@), key@),
        r is Err ==> r == Err::<bool, DecodeError>(DecodeError::MalformedArguments),
        r matches Ok(x) ==> x == req_bool_of(entry_reps_of(entries@), key@),
{
    let k = key.to_owned();
    match lookup(entries, &k) {
        Some(JsonValue::Bool(b)) => Ok(*b),
        _ => Err(DecodeError::MalformedArguments),
    }
}

/// Whether the string field under `key` is absent or well-formed.
pub open spec fn opt_string_ok(o: Seq<(Seq<char>, JsonRep)>, key: Seq<char>) -> bool {
    match lookup_in(o, key) {
        None => true,
        Some(v) => v is Str,
    }
}

/// The characters of the string field under `key`, where present.
pub open spec fn opt_string_of(o: Seq<(Seq<char>, JsonRep)>, key: Seq<char>) -> Option<Seq<char>> {
    match lookup_in(o, key) {
        Some(v) => match v {
            JsonRep::Str(s) => Some(s),
            _ => None,
        },
        _ => None,
    }
}

fn get_opt_string(entries: &Vec<(String, JsonValue)>, key: &str) -> (r: Result<
    Option<String>,
    DecodeError,
>)
    ensures
        r is Ok <==> opt_string_ok(entry_reps_of(entries@), key@),
        r is Err ==> r == Err::<Option<String>, DecodeError>(DecodeError::MalformedArguments),
        r matches Ok(x) ==> opt_str_view(x) == opt_string_of(entry_reps_of(entries@), key@),
{
    let k = key.to_owned();
    match lookup(entries, &k) {
        None => Ok(None),
        Some(JsonValue::Str(s)) => Ok(Some(s.clone())),
        Some(_) => Err(DecodeError::MalformedArguments),
    }
}

/// Whether the string field under `key` is present.
pub open spec fn req_string_ok(o: Seq<(Seq<char>, JsonRep)>, key: Seq<char>) -> bool {
    lookup_in(o, key) matches Some(v) && v is Str
}

/// The characters of the string field under `key`.
pub open spec fn req_string_of(o: Seq<(Seq<char>, JsonRep)>, key: Seq<char>) -> Seq<char> {
    match lookup_in(o, key) {
        Some(v) => match v {
            JsonRep::Str(s) => s,
            _ => Seq::empty(),
        },
        _ => Seq::empty(),
    }
}

fn get_req_string(entries: &Vec<(String, JsonValue)>, key: &str) -> (r: Result<String, DecodeError>)
    ensures
        r is Ok <==> req_string_ok(entry_reps_of(entries@), key@),
        r is Err ==> r == Err::<String, DecodeError>(DecodeError::MalformedArguments),
        r matches Ok(x) ==> x@ == req_string_of(entry_reps_of(entries@), key@),
{
    let k = key.to_owned();
    match lookup(entries, &k) {
        Some(JsonValue::Str(s)) => Ok(s.clone()),
        _ => Err(DecodeError::MalformedArguments),
    }
}

/// The characters of the string field under `key`, or empty when the field
/// is absent — for fields the server may omit with an empty default.
pub open spec fn dflt_string_of(o: Seq<(Seq<char>, JsonRep)>, key: Seq<char>) -> Seq<char> {
    match lookup_in(o, key) {
        Some(v) => match v {
            JsonRep::Str(s) => s,
            _ => Seq::empty(),
        },
        _ => Seq::empty(),
    }
}

fn get_dflt_string(entries: &Vec<(String, JsonValue)>, key: &str) -> (r: Result<
    String,
    DecodeError,
>)
    ensures
        r is Ok <==> opt_string_ok(entry_reps_of(entries@), key@),
        r is Err ==> r == Err::<String, DecodeError>(DecodeError::MalformedArguments),
        r matches Ok(x) ==> x@ == dflt_string_of(entry_reps_of(entries@), key@),
{
    let k = key.to_owned();
    match lookup(entries, &k) {
        None => Ok(String::new()),
        Some(JsonValue::Str(s)) => Ok(s.clone()),
        Some(_) => Err(DecodeError::MalformedArguments),
    }
}

/// Whether the "time last happened" field under `key` is absent or carries
/// an integer.
pub open spec fn opt_ts_ok(o: Seq<(Seq<char>, JsonRep)>, key: Seq<char>) -> bool {
    match lookup_in(o, key) {
        None => true,
        Some(v) => v matches JsonRep::Int(i) && i64::MIN <= i <= i64::MAX,
    }
}

/// The moment the "time last happened" field under `key` decodes to: absent
/// and out-of-range both give `None`; zero and negative give the epoch
/// sentinel.
pub open spec fn opt_ts_of(o: Seq<(Seq<char>, JsonRep)>, key: Seq<char>) -> Option<Timestamp> {
    match lookup_in(o, key) {
        Some(v) => match v {
            JsonRep::Int(i) => spec_timestamp_of(i),
            _ => None,
        },
        _ => None,
    }
}

fn get_opt_ts(entries: &Vec<(String, JsonValue)>, key: &str) -> (r: Result<
    Option<Timestamp>,
    DecodeError,
>)
    ensures
        r is Ok <==> opt_ts_ok(entry_reps_of(entries@), key@),
        r is Err ==> r == Err::<Option<Timestamp>, DecodeError>(DecodeError::MalformedArguments),
        r matches Ok(x) ==> x == opt_ts_of(entry_reps_of(entries@), key@),
{
    let k = key.to_owned();
    match lookup(entries, &k) {
        None => Ok(None),
        Some(JsonValue::Int(i)) => {
            if *i >= i64::MIN as i128 && *i <= i64::MAX as i128 {
                Ok(decode_timestamp(*i as i64))
            } else {
                Err(DecodeError::MalformedArguments)
            }
        },
        Some(_) => Err(DecodeError::MalformedArguments),
    }
}

/// Whether the exact timestamp field under `key` is present and within the
/// calendar range.
pub open spec fn req_ts_ok(o: Seq<(Seq<char>, JsonRep)>, key: Seq<char>) -> bool {
    lookup_in(o, key) matches Some(v) && v matches JsonRep::Int(i) && MIN_TIMESTAMP_SECS <= i
        <= MAX_TIMESTAMP_SECS
}

/// The exact timestamp field under `key`: the wire seconds, unchanged.
pub open spec fn req_ts_of(o: Seq<(Seq<char>, JsonRep)>, key: Seq<char>) -> Timestamp {
    match lookup_in(o, key) {
        Some(v) => match v {
            JsonRep::Int(i) => Timestamp { secs: i as i64 },
            _ => Timestamp { secs: 0 },
        },
        _ => Timestamp { secs: 0 },
    }
}

fn get_req_ts(entries: &Vec<(String, JsonValue)>, key: &str) -> (r: Result<Timestamp, DecodeError>)
    ensures
        r is Ok <==> req_ts_ok(entry_reps_of(entries@), key@),
        r is Err ==> r == Err::<Timestamp, DecodeError>(DecodeError::MalformedArguments),
        r matches Ok(x) ==> x == req_ts_of(entry_reps_of(entries@), key@),
{
    let k = key.to_owned();
    match lookup(entries, &k) {
        Some(JsonValue::Int(i)) => {
            if *i >= MIN_TIMESTAMP_SECS as i128 && *i <= MAX_TIMESTAMP_SECS as i128 {
                Ok(Timestamp { secs: *i as i64 })
            } else {
                Err(DecodeError::MalformedArguments)
            }
        },
        _ => Err(DecodeError::MalformedArguments),
    }
}

/// Whether the identifier field under `key` is present and decodable.
pub open spec fn req_id_ok(o: Seq<(Seq<char>, JsonRep)>, key: Seq<char>) -> bool {
    lookup_in(o, key) matches Some(v) && id_decodable(v)
}

fn get_req_id(entries: &Vec<(String, JsonValue)>, key: &str) -> (r: Result<Id, DecodeError>)
    ensures
        r is Ok <==> req_id_ok(entry_reps_of(entries@), key@),
        r is Err ==> r == Err::<Id, DecodeError>(DecodeError::MalformedArguments),
        r matches Ok(x) ==> (lookup_in(entry_reps_of(entries@), key@) matches Some(v)
            && id_matches(x, v)),
{
    let k = key.to_owned();
    match lookup(entries, &k) {
        Some(v) => match decode_id(v) {
            Ok(x) => Ok(x),
            Err(_) => Err(DecodeError::MalformedArguments),
        },
        None => Err(DecodeError::MalformedArguments),
    }
}

/// Whether the `Priority` field under `key` is absent or a known wire value.
pub open spec fn opt_priority_ok(o: Seq<(Seq<char>, JsonRep)>, key: Seq<char>) -> bool {
    match lookup_in(o, key) {
        None => true,
        Some(v) => v matches JsonRep::Int(i) && Priority::spec_of_wire(i) is Some,
    }
}

/// The `Priority` the field under `key` decodes to, where present.
pub open spec fn opt_priority_of(o: Seq<(Seq<char>, JsonRep)>, key: Seq<char>) -> Option<Priority> {
    match lookup_in(o, key) {
        Some(v) => match v {
            JsonRep::Int(i) => Priority::spec_of_wire(i),
            _ => None,
        },
        _ => None,
    }
}

fn get_opt_priority(entries: &Vec<(String, JsonValue)>, key: &str) -> (r: Result<
    Option<Priority>,
    DecodeError,
>)
    ensures
        r is Ok <==> opt_priority_ok(entry_reps_of(entries@), key@),
        r is Err ==> r == Err::<Option<Priority>, DecodeError>(DecodeError::MalformedArguments),
        r matches Ok(x) ==> x == opt_priority_of(entry_reps_of(entries@), key@),
{
    let k = key.to_owned();
    match lookup(entries, &k) {
        None => Ok(None),
        Some(JsonValue::Int(i)) => {
            if *i >= i64::MIN as i128 && *i <= i64::MAX as i128 {
                match Priority::from_wire(*i as i64) {
                    Some(x) => Ok(Some(x)),
                    None => Err(DecodeError::MalformedArguments),
                }
            } else {
                Err(DecodeError::MalformedArguments)
            }
        },
        Some(_) => Err(DecodeError::MalformedArguments),
    }
}

/// Whether the `Priority` field under `key` is present and a known value.
pub open spec fn req_priority_ok(o: Seq<(Seq<char>, JsonRep)>, key: Seq<char>) -> bool {
    lookup_in(o, key) matches Some(v) && v matches JsonRep::Int(i) && Priority::spec_of_wire(i)
        is Some
}

/// The `Priority` the field under `key` decodes to.
pub open spec fn req_priority_of(o: Seq<(Seq<char>, JsonRep)>, key: Seq<char>) -> Option<Priority> {
    match lookup_in(o, key) {
        Some(v) => match v {
            JsonRep::Int(i) => Priority::spec_of_wire(i),
            _ => None,
        },
        _ => None,
    }
}

fn get_req_priority(entries: &Vec<(String, JsonValue)>, key: &str) -> (r: Result<
    Priority,
    DecodeError,
>)
    ensures
        r is Ok <==> req_priority_ok(entry_reps_of(entries@), key@),
        r is Err ==> r == Err::<Priority, DecodeError>(DecodeError::MalformedArguments),
        r matches Ok(x) ==> Some(x) == req_priority_of(entry_reps_of(entries@), key@),
{
    let k = key.to_owned();
    match lookup(entries, &k) {
        Some(JsonValue::Int(i)) => {
            if *i >= i64::MIN as i128 && *i <= i64::MAX as i128 {
                match Priority::from_wire(*i as i64) {
                    Some(x) => Ok(x),
                    None => Err(DecodeError::MalformedArguments),
                }
            } else {
                Err(DecodeError::MalformedArguments)
            }
        },
        _ => Err(DecodeError::MalformedArguments),
    }
}

/// Whether the `IdleMode` field under `key` is absent or a known wire value.
pub open spec fn opt_idle_mode_ok(o: Seq<(Seq<char>, JsonRep)>, key: Seq<char>) -> bool {
    match lookup_in(o, key) {
        None => true,
        Some(v) => v matches JsonRep::Int(i) && IdleMode::spec_of_wire(i) is Some,
    }
}

/// The `IdleMode` the field under `key` decodes to, where present.
pub open spec fn opt_idle_mode_of(o: Seq<(Seq<char>, JsonRep)>, key: Seq<char>) -> Option<IdleMode> {
    match lookup_in(o, key) {
        Some(v) => match v {
            JsonRep::Int(i) => IdleMode::spec_of_wire(i),
            _ => None,
        },
        _ => None,
    }
}

fn get_opt_idle_mode(entries: &Vec<(String, JsonValue)>, key: &str) -> (r: Result<
    Option<IdleMode>,
    DecodeError,
>)
    ensures
        r is Ok <==> opt_idle_mode_ok(entry_reps_of(entries@), key@),
        r is Err ==> r == Err::<Option<IdleMode>, DecodeError>(DecodeError::MalformedArguments),
        r matches Ok(x) ==> x == opt_idle_mode_of(entry_reps_of(entries@), key@),
{
    let k = key.to_owned();
    match lookup(entries, &k) {
        None => Ok(None),
        Some(JsonValue::Int(i)) => {
            if *i >= i64::MIN as i128 && *i <= i64::MAX as i128 {
                match IdleMode::from_wire(*i as i64) {
                    Some(x) => Ok(Some(x)),
                    None => Err(DecodeError::MalformedArguments),
                }
            } else {
                Err(DecodeError::MalformedArguments)
            }
        },
        Some(_) => Err(DecodeError::MalformedArguments),
    }
}

/// Whether the `RatioMode` field under `key` is absent or a known wire value.
pub open spec fn opt_ratio_mode_ok(o: Seq<(Seq<char>, JsonRep)>, key: Seq<char>) -> bool {
    match lookup_in(o, key) {
        None => true,
        Some(v) => v matches JsonRep::Int(i) && RatioMode::spec_of_wire(i) is Some,
    }
}

/// The `RatioMode` the field under `key` decodes to, where present.
pub open spec fn opt_ratio_mode_of(o: Seq<(Seq<char>, JsonRep)>, key: Seq<char>) -> Option<RatioMode> {
    match lookup_in(o, key) {
        Some(v) => match v {
            JsonRep::Int(i) => RatioMode::spec_of_wire(i),
            _ => None,
        },
        _ => None,
    }
}

fn get_opt_ratio_mode(entries: &Vec<(String, JsonValue)>, key: &str) -> (r: Result<
    Option<RatioMode>,
    DecodeError,
>)
    ensures
        r is Ok <==> opt_ratio_mode_ok(entry_reps_of(entries@), key@),
        r is Err ==> r == Err::<Option<RatioMode>, DecodeError>(DecodeError::MalformedArguments),
        r matches Ok(x) ==> x == opt_ratio_mode_of(entry_reps_of(entries@), key@),
{
    let k = key.to_owned();
    match lookup(entries, &k) {
        None => Ok(None),
        Some(JsonValue::Int(i)) => {
            if *i >= i64::MIN as i128 && *i <= i64::MAX as i128 {
                match RatioMode::from_wire(*i as i64) {
                    Some(x) => Ok(Some(x)),
                    None => Err(DecodeError::MalformedArguments),
                }
            } else {
                Err(DecodeError::MalformedArguments)
            }
        },
        Some(_) => Err(DecodeError::MalformedArguments),
    }
}

/// Whether the `TorrentStatus` field under `key` is absent or a known wire value.
pub open spec fn opt_status_ok(o: Seq<(Seq<char>, JsonRep)>, key: Seq<char>) -> bool {
    match lookup_in(o, key) {
        None => true,
        Some(v) => v matches JsonRep::Int(i) && TorrentStatus::spec_of_wire(i) is Some,
    }
}

/// The `TorrentStatus` the field under `key` decodes to, where present.
pub open spec fn opt_status_of(o: Seq<(Seq<char>, JsonRep)>, key: Seq<char>) -> Option<TorrentStatus> {
    match lookup_in(o, key) {
        Some(v) => match v {
            JsonRep::Int(i) => TorrentStatus::spec_of_wire(i),
            _ => None,
        },
        _ => None,
    }
}

fn get_opt_status(entries: &Vec<(String, JsonValue)>, key: &str) -> (r: Result<
    Option<TorrentStatus>,
    DecodeError,
>)
    ensures
        r is Ok <==> opt_status_ok(entry_reps_of(entries@), key@),
        r is Err ==> r == Err::<Option<TorrentStatus>, DecodeError>(DecodeError::MalformedArguments),
        r matches Ok(x) ==> x == opt_status_of(entry_reps_of(entries@), key@),
{
    let k = key.to_owned();
    match lookup(entries, &k) {
        None => Ok(None),
        Some(JsonValue::Int(i)) => {
            if *i >= i64::MIN as i128 && *i <= i64::MAX as i128 {
                match TorrentStatus::from_wire(*i as i64) {
                    Some(x) => Ok(Some(x)),
                    None => Err(DecodeError::MalformedArguments),
                }
            } else {
                Err(DecodeError::MalformedArguments)
            }
        },
        Some(_) => Err(DecodeError::MalformedArguments),
    }
}

/// Whether the `ErrorType` field under `key` is absent or a known wire value.
pub open spec fn opt_error_type_ok(o: Seq<(Seq<char>, JsonRep)>, key: Seq<char>) -> bool {
    match lookup_in(o, key) {
        None => true,
        Some(v) => v matches JsonRep::Int(i) && ErrorType::spec_of_wire(i) is Some,
    }
}

/// The `ErrorType` the field under `key` decodes to, where present.
pub open spec fn opt_error_type_of(o: Seq<(Seq<char>, JsonRep)>, key: Seq<char>) -> Option<ErrorType> {
    match lookup_in(o, key) {
        Some(v) => match v {
            JsonRep::Int(i) => ErrorType::spec_of_wire(i),
            _ => None,
        },
        _ => None,
    }
}

fn get_opt_error_type(entries: &Vec<(String, JsonValue)>, key: &str) -> (r: Result<
    Option<ErrorType>,
    DecodeError,
>)
    ensures
        r is Ok <==> opt_error_type_ok(entry_reps_of(entries@), key@),
        r is Err ==> r == Err::<Option<ErrorType>, DecodeError>(DecodeError::MalformedArguments),
        r matches Ok(x) ==> x == opt_error_type_of(entry_reps_of(entries@), key@),
{
    let k = key.to_owned();
    match lookup(entries, &k) {
        None => Ok(None),
        Some(JsonValue::Int(i)) => {
            if *i >= i64::MIN as i128 && *i <= i64::MAX as i128 {
                match ErrorType::from_wire(*i as i64) {
                    Some(x) => Ok(Some(x)),
                    None => Err(DecodeError::MalformedArguments),
                }
            } else {
                Err(DecodeError::MalformedArguments)
            }
        },
        Some(_) => Err(DecodeError::MalformedArguments),
    }
}

/// Whether the `TrackerState` field under `key` is absent or a known wire value.
pub open spec fn opt_tracker_state_ok(o: Seq<(Seq<char>, JsonRep)>, key: Seq<char>) -> bool {
    match lookup_in(o, key) {
        None => true,
        Some(v) => v matches JsonRep::Int(i) && TrackerState::spec_of_wire(i) is Some,
    }
}

/// The `TrackerState` the field under `key` decodes to, where present.
pub open spec fn opt_tracker_state_of(o: Seq<(Seq<char>, JsonRep)>, key: Seq<char>) -> Option<TrackerState> {
    match lookup_in(o, key) {
        Some(v) => match v {
            JsonRep::Int(i) => TrackerState::spec_of_wire(i),
            _ => None,
        },
        _ => None,
    }
}

fn get_opt_tracker_state(entries: &Vec<(String, JsonValue)>, key: &str) -> (r: Result<
    Option<TrackerState>,
    DecodeError,
>)
    ensures
        r is Ok <==> opt_tracker_state_ok(entry_reps_of(entries@), key@),
        r is Err ==> r == Err::<Option<TrackerState>, DecodeError>(DecodeError::MalformedArguments),
        r matches Ok(x) ==> x == opt_tracker_state_of(entry_reps_of(entries@), key@),
{
    let k = key.to_owned();
    match lookup(entries, &k) {
        None => Ok(None),
        Some(JsonValue::Int(i)) => {
            if *i >= i64::MIN as i128 && *i <= i64::MAX as i128 {
                match TrackerState::from_wire(*i as i64) {
                    Some(x) => Ok(Some(x)),
                    None => Err(DecodeError::MalformedArguments),
                }
            } else {
                Err(DecodeError::MalformedArguments)
            }
        },
        Some(_) => Err(DecodeError::MalformedArguments),
    }
}

/// Whether the `TrackerState` field under `key` is present and a known value.
pub open spec fn req_tracker_state_ok(o: Seq<(Seq<char>, JsonRep)>, key: Seq<char>) -> bool {
    lookup_in(o, key) matches Some(v) && v matches JsonRep::Int(i) && TrackerState::spec_of_wire(i)
        is Some
}

/// The `TrackerState` the field under `key` decodes to.
pub open spec fn req_tracker_state_of(o: Seq<(Seq<char>, JsonRep)>, key: Seq<char>) -> Option<TrackerState> {
    match lookup_in(o, key) {
        Some(v) => match v {
            JsonRep::Int(i) => TrackerState::spec_of_wire(i),
            _ => None,
        },
        _ => None,
    }
}

fn get_req_tracker_state(entries: &Vec<(String, JsonValue)>, key: &str) -> (r: Result<
    TrackerState,
    DecodeError,
>)
    ensures
        r is Ok <==> req_tracker_state_ok(entry_reps_of(entries@), key@),
        r is Err ==> r == Err::<TrackerState, DecodeError>(DecodeError::MalformedArguments),
        r matches Ok(x) ==> Some(x) == req_tracker_state_of(entry_reps_of(entries@), key@),
{
    let k = key.to_owned();
    match lookup(entries, &k) {
        Some(JsonValue::Int(i)) => {
            if *i >= i64::MIN as i128 && *i <= i64::MAX as i128 {
                match TrackerState::from_wire(*i as i64) {
                    Some(x) => Ok(x),
                    None => Err(DecodeError::MalformedArguments),
                }
            } else {
                Err(DecodeError::MalformedArguments)
            }
        },
        _ => Err(DecodeError::MalformedArguments),
    }
}


/// Whether one `i16` array element is well-formed.
pub open spec fn i16_elem_ok(v: JsonRep) -> bool {
    v matches JsonRep::Int(n) && i16::MIN <= n <= i16::MAX
}

/// The value one `i16` array element decodes to.
pub open spec fn i16_elem_of(v: JsonRep) -> i16 {
    match v {
        JsonRep::Int(n) => n as i16,
        _ => 0 as i16,
    }
}

/// Whether every element of a `i16` array is well-formed.
pub open spec fn i16_seq_ok(xs: Seq<JsonRep>) -> bool {
    forall|i: int| 0 <= i < xs.len() ==> i16_elem_ok(#[trigger] xs[i])
}

/// The values of a `i16` array.
pub open spec fn i16_seq_of(xs: Seq<JsonRep>) -> Seq<i16> {
    Seq::new(xs.len(), |i: int| i16_elem_of(xs[i]))
}

/// Whether one `wanted` array element is well-formed.
pub open spec fn wanted_elem_ok(v: JsonRep) -> bool {
    v is Int || v is Bool
}

/// The value one `wanted` array element decodes to.
pub open spec fn wanted_elem_of(v: JsonRep) -> bool {
    match v {
        JsonRep::Int(n) => n != 0,
        JsonRep::Bool(b) => b,
        _ => false,
    }
}

/// Whether every element of a `wanted` array is well-formed.
pub open spec fn wanted_seq_ok(xs: Seq<JsonRep>) -> bool {
    forall|i: int| 0 <= i < xs.len() ==> wanted_elem_ok(#[trigger] xs[i])
}

/// The values of a `wanted` array.
pub open spec fn wanted_seq_of(xs: Seq<JsonRep>) -> Seq<bool> {
    Seq::new(xs.len(), |i: int| wanted_elem_of(xs[i]))
}

/// Whether one `str` array element is well-formed.
pub open spec fn str_elem_ok(v: JsonRep) -> bool {
    v is Str
}

/// The value one `str` array element decodes to.
pub open spec fn str_elem_of(v: JsonRep) -> Seq<char> {
    match v {
        JsonRep::Str(s) => s,
        _ => Seq::empty(),
    }
}

/// Whether every element of a `str` array is well-formed.
pub open spec fn str_seq_ok(xs: Seq<JsonRep>) -> bool {
    forall|i: int| 0 <= i < xs.len() ==> str_elem_ok(#[trigger] xs[i])
}

/// The values of a `str` array.
pub open spec fn str_seq_of(xs: Seq<JsonRep>) -> Seq<Seq<char>> {
    Seq::new(xs.len(), |i: int| str_elem_of(xs[i]))
}

/// Whether one `prio` array element is well-formed.
pub open spec fn prio_elem_ok(v: JsonRep) -> bool {
    v matches JsonRep::Int(n) && Priority::spec_of_wire(n) is Some
}

/// The value one `prio` array element decodes to.
pub open spec fn prio_elem_of(v: JsonRep) -> Priority {
    match v {
        JsonRep::Int(n) => match Priority::spec_of_wire(n) {
            Some(p) => p,
            None => Priority::Normal,
        },
        _ => Priority::Normal,
    }
}

/// Whether every element of a `prio` array is well-formed.
pub open spec fn prio_seq_ok(xs: Seq<JsonRep>) -> bool {
    forall|i: int| 0 <= i < xs.len() ==> prio_elem_ok(#[trigger] xs[i])
}

/// The values of a `prio` array.
pub open spec fn prio_seq_of(xs: Seq<JsonRep>) -> Seq<Priority> {
    Seq::new(xs.len(), |i: int| prio_elem_of(xs[i]))
}

/// Whether the `i16` array field under `key` is absent or well-formed.
pub open spec fn opt_i16_vec_ok(o: Seq<(Seq<char>, JsonRep)>, key: Seq<char>) -> bool {
    match lookup_in(o, key) {
        None => true,
        Some(v) => v matches JsonRep::Arr(xs) && i16_seq_ok(xs),
    }
}

fn get_opt_i16_vec(entries: &Vec<(String, JsonValue)>, key: &str) -> (r: Result<
    Option<Vec<i16>>,
    DecodeError,
>)
    ensures
        r is Ok <==> opt_i16_vec_ok(entry_reps_of(entries@), key@),
        r is Err ==> r == Err::<Option<Vec<i16>>, DecodeError>(DecodeError::MalformedArguments),
        r matches Ok(x) ==> (match lookup_in(entry_reps_of(entries@), key@) {
            None => x is None,
            Some(v) => v matches JsonRep::Arr(xs) && x matches Some(a) && a@ == i16_seq_of(xs),
        }),
{
    let k = key.to_owned();
    let found = lookup(entries, &k);
    let items = match found {
        None => {
            return Ok(None);
        },
        Some(x) => match x {
            JsonValue::Arr(items) => {
                proof {
                    assert(*x == JsonValue::Arr(*items));
                    lemma_rep_of_arr(*items);
                }
                items
            },
            _ => {
                return Err(DecodeError::MalformedArguments);
            },
        },
    };
    let ghost xs = reps_of(items@);
    let mut out: Vec<i16> = Vec::new();
    let mut j: usize = 0;
    while j < items.len()
        invariant
            j <= items.len(),
            out@.len() == j,
            xs == reps_of(items@),
            xs.len() == items@.len(),
            lookup_in(entry_reps_of(entries@), key@) == Some(JsonRep::Arr(xs)),
            forall|l: int| 0 <= l < j ==> i16_elem_ok(#[trigger] xs[l]),
            forall|l: int| 0 <= l < j ==> (#[trigger] out@[l]) == i16_elem_of(xs[l]),
        decreases items.len() - j,
    {
        proof {
            assert(xs[j as int] == rep_of(items@[j as int]));
        }
        let it = &items[j];
        let val: i16 = match it {
            JsonValue::Int(n) => {
                if *n >= i16::MIN as i128 && *n <= i16::MAX as i128 {
                    *n as i16
                } else {
                    return Err(DecodeError::MalformedArguments);
                }
            },
            _ => {
                return Err(DecodeError::MalformedArguments);
            },
        };
        out.push(val);
        j = j + 1;
    }
    let a = out;
    proof {
        assert(a@ == i16_seq_of(xs)) by {
            assert forall|l: int| 0 <= l < xs.len() implies a@[l] == i16_seq_of(xs)[l] by {
                assert(a@[l] == i16_elem_of(xs[l]));
            }
            assert(a@ =~= i16_seq_of(xs));
        }
    }
    Ok(Some(a))
}

/// Whether the `wanted` array field under `key` is absent or well-formed.
pub open spec fn opt_wanted_vec_ok(o: Seq<(Seq<char>, JsonRep)>, key: Seq<char>) -> bool {
    match lookup_in(o, key) {
        None => true,
        Some(v) => v matches JsonRep::Arr(xs) && wanted_seq_ok(xs),
    }
}

fn get_opt_wanted_vec(entries: &Vec<(String, JsonValue)>, key: &str) -> (r: Result<
    Option<Vec<bool>>,
    DecodeError,
>)
    ensures
        r is Ok <==> opt_wanted_vec_ok(entry_reps_of(entries@), key@),
        r is Err ==> r == Err::<Option<Vec<bool>>, DecodeError>(DecodeError::MalformedArguments),
        r matches Ok(x) ==> (match lookup_in(entry_reps_of(entries@), key@) {
            None => x is None,
            Some(v) => v matches JsonRep::Arr(xs) && x matches Some(a) && a@ == wanted_seq_of(xs),
        }),
{
    let k = key.to_owned();
    let found = lookup(entries, &k);
    let items = match found {
        None => {
            return Ok(None);
        },
        Some(x) => match x {
            JsonValue::Arr(items) => {
                proof {
                    assert(*x == JsonValue::Arr(*items));
                    lemma_rep_of_arr(*items);
                }
                items
            },
            _ => {
                return Err(DecodeError::MalformedArguments);
            },
        },
    };
    let ghost xs = reps_of(items@);
    let mut out: Vec<bool> = Vec::new();
    let mut j: usize = 0;
    while j < items.len()
        invariant
            j <= items.len(),
            out@.len() == j,
            xs == reps_of(items@),
            xs.len() == items@.len(),
            lookup_in(entry_reps_of(entries@), key@) == Some(JsonRep::Arr(xs)),
            forall|l: int| 0 <= l < j ==> wanted_elem_ok(#[trigger] xs[l]),
            forall|l: int| 0 <= l < j ==> (#[trigger] out@[l]) == wanted_elem_of(xs[l]),
        decreases items.len() - j,
    {
        proof {
            assert(xs[j as int] == rep_of(items@[j as int]));
        }
        let it = &items[j];
        let val: bool = match it {
            JsonValue::Int(n) => *n != 0,
            JsonValue::Bool(b) => *b,
            _ => {
                return Err(DecodeError::MalformedArguments);
            },
        };
        out.push(val);
        j = j + 1;
    }
    let a = out;
    proof {
        assert(a@ == wanted_seq_of(xs)) by {
            assert forall|l: int| 0 <= l < xs.len() implies a@[l] == wanted_seq_of(xs)[l] by {
                assert(a@[l] == wanted_elem_of(xs[l]));
            }
            assert(a@ =~= wanted_seq_of(xs));
        }
    }
    Ok(Some(a))
}

/// Whether the `str` array field under `key` is absent or well-formed.
pub open spec fn opt_str_vec_ok(o: Seq<(Seq<char>, JsonRep)>, key: Seq<char>) -> bool {
    match lookup_in(o, key) {
        None => true,
        Some(v) => v matches JsonRep::Arr(xs) && str_seq_ok(xs),
    }
}

fn get_opt_str_vec(entries: &Vec<(String, JsonValue)>, key: &str) -> (r: Result<
    Option<Vec<String>>,
    DecodeError,
>)
    ensures
        r is Ok <==> opt_str_vec_ok(entry_reps_of(entries@), key@),
        r is Err ==> r == Err::<Option<Vec<String>>, DecodeError>(DecodeError::MalformedArguments),
        r matches Ok(x) ==> (match lookup_in(entry_reps_of(entries@), key@) {
            None => x is None,
            Some(v) => v matches JsonRep::Arr(xs) && x matches Some(a) && str_views(a@) == str_seq_of(xs),
        }),
{
    let k = key.to_owned();
    let found = lookup(entries, &k);
    let items = match found {
        None => {
            return Ok(None);
        },
        Some(x) => match x {
            JsonValue::Arr(items) => {
                proof {
                    assert(*x == JsonValue::Arr(*items));
                    lemma_rep_of_arr(*items);
                }
                items
            },
            _ => {
                return Err(DecodeError::MalformedArguments);
            },
        },
    };
    let ghost xs = reps_of(items@);
    let mut out: Vec<String> = Vec::new();
    let mut j: usize = 0;
    while j < items.len()
        invariant
            j <= items.len(),
            out@.len() == j,
            xs == reps_of(items@),
            xs.len() == items@.len(),
            lookup_in(entry_reps_of(entries@), key@) == Some(JsonRep::Arr(xs)),
            forall|l: int| 0 <= l < j ==> str_elem_ok(#[trigger] xs[l]),
            forall|l: int| 0 <= l < j ==> (#[trigger] out@[l])@ == str_elem_of(xs[l]),
        decreases items.len() - j,
    {
        proof {
            assert(xs[j as int] == rep_of(items@[j as int]));
        }
        let it = &items[j];
        let val: String = match it {
            JsonValue::Str(s) => s.clone(),
            _ => {
                return Err(DecodeError::MalformedArguments);
            },
        };
        out.push(val);
        j = j + 1;
    }
    let a = out;
    proof {
        assert(str_views(a@) == str_seq_of(xs)) by {
            assert forall|l: int| 0 <= l < xs.len() implies str_views(a@)[l] == str_seq_of(xs)[l] by {
                assert(a@[l]@ == str_elem_of(xs[l]));
            }
            assert(str_views(a@) =~= str_seq_of(xs));
        }
    }
    Ok(Some(a))
}

/// Whether the `prio` array field under `key` is absent or well-formed.
pub open spec fn opt_prio_vec_ok(o: Seq<(Seq<char>, JsonRep)>, key: Seq<char>) -> bool {
    match lookup_in(o, key) {
        None => true,
        Some(v) => v matches JsonRep::Arr(xs) && prio_seq_ok(xs),
    }
}

fn get_opt_prio_vec(entries: &Vec<(String, JsonValue)>, key: &str) -> (r: Result<
    Option<Vec<Priority>>,
    DecodeError,
>)
    ensures
        r is Ok <==> opt_prio_vec_ok(entry_reps_of(entries@), key@),
        r is Err ==> r == Err::<Option<Vec<Priority>>, DecodeError>(DecodeError::MalformedArguments),
        r matches Ok(x) ==> (match lookup_in(entry_reps_of(entries@), key@) {
            None => x is None,
            Some(v) => v matches JsonRep::Arr(xs) && x matches Some(a) && a@ == prio_seq_of(xs),
        }),
{
    let k = key.to_owned();
    let found = lookup(entries, &k);
    let items = match found {
        None => {
            return Ok(None);
        },
        Some(x) => match x {
            JsonValue::Arr(items) => {
                proof {
                    assert(*x == JsonValue::Arr(*items));
                    lemma_rep_of_arr(*items);
                }
                items
            },
            _ => {
                return Err(DecodeError::MalformedArguments);
            },
        },
    };
    let ghost xs = reps_of(items@);
    let mut out: Vec<Priority> = Vec::new();
    let mut j: usize = 0;
    while j < items.len()
        invariant
            j <= items.len(),
            out@.len() == j,
            xs == reps_of(items@),
            xs.len() == items@.len(),
            lookup_in(entry_reps_of(entries@), key@) == Some(JsonRep::Arr(xs)),
            forall|l: int| 0 <= l < j ==> prio_elem_ok(#[trigger] xs[l]),
            forall|l: int| 0 <= l < j ==> (#[trigger] out@[l]) == prio_elem_of(xs[l]),
        decreases items.len() - j,
    {
        proof {
            assert(xs[j as int] == rep_of(items@[j as int]));
        }
        let it = &items[j];
        let val: Priority = match it {
            JsonValue::Int(n) => {
                if *n >= i64::MIN as i128 && *n <= i64::MAX as i128 {
                    match Priority::from_wire(*n as i64) {
                        Some(p) => p,
                        None => {
                            return Err(DecodeError::MalformedArguments);
                        },
                    }
                } else {
                    return Err(DecodeError::MalformedArguments);
                }
            },
            _ => {
                return Err(DecodeError::MalformedArguments);
            },
        };
        out.push(val);
        j = j + 1;
    }
    let a = out;
    proof {
        assert(a@ == prio_seq_of(xs)) by {
            assert forall|l: int| 0 <= l < xs.len() implies a@[l] == prio_seq_of(xs)[l] by {
                assert(a@[l] == prio_elem_of(xs[l]));
            }
            assert(a@ =~= prio_seq_of(xs));
        }
    }
    Ok(Some(a))
}


/// A piece-completion bitfield: the raw bytes behind the base64 text the
/// wire carries.  No bit-level meaning is assigned at this layer.
#[derive(Debug, Clone)]
pub struct Pieces {
    pub bitfield: Vec<u8>,
}

/// Whether the base64 field under `key` is absent or decodes to bytes.
pub open spec fn opt_pieces_ok(o: Seq<(Seq<char>, JsonRep)>, key: Seq<char>) -> bool {
    match lookup_in(o, key) {
        None => true,
        Some(v) => v matches JsonRep::Str(s) && base64_decoding_of(s) is Some,
    }
}

fn get_opt_pieces(entries: &Vec<(String, JsonValue)>, key: &str) -> (r: Result<
    Option<Pieces>,
    DecodeError,
>)
    ensures
        r is Ok <==> opt_pieces_ok(entry_reps_of(entries@), key@),
        r is Err ==> r == Err::<Option<Pieces>, DecodeError>(DecodeError::MalformedArguments),
        r matches Ok(x) ==> (match lookup_in(entry_reps_of(entries@), key@) {
            None => x is None,
            Some(v) => v matches JsonRep::Str(s) && x matches Some(p) && Some(p.bitfield@)
                == base64_decoding_of(s),
        }),
{
    let k = key.to_owned();
    match lookup(entries, &k) {
        None => Ok(None),
        Some(JsonValue::Str(s)) => match base64_decode(s.as_str()) {
            Some(bytes) => Ok(Some(Pieces { bitfield: bytes })),
            None => Err(DecodeError::MalformedArguments),
        },
        Some(_) => Err(DecodeError::MalformedArguments),
    }
}

/// One connected peer.
#[derive(Debug, Clone)]
pub struct Peer {
    /// The peer's address, as the textual form the server sent.
    pub address: String,
    pub client_name: String,
    pub client_is_choked: bool,
    pub client_is_interested: bool,
    pub flag_str: String,
    pub is_downloading_from: bool,
    pub is_encrypted: bool,
    pub is_incoming: bool,
    pub is_uploading_to: bool,
    pub is_utp: bool,
    pub peer_is_choked: bool,
    pub peer_is_interested: bool,
    pub port: u16,
    /// Bytes per second.
    pub rate_to_client: u64,
    /// Bytes per second.
    pub rate_to_peer: u64,
}

/// Whether an object's entries hold a well-formed `Peer` record.
pub open spec fn peer_decodable(o: Seq<(Seq<char>, JsonRep)>) -> bool {
    req_string_ok(o, "address"@) && req_string_ok(o, "clientName"@) && req_bool_ok(o, "clientIsChoked"@) && req_bool_ok(o, "clientIsInterested"@) && req_string_ok(o, "flagStr"@) && req_bool_ok(o, "isDownloadingFrom"@) && req_bool_ok(o, "isEncrypted"@) && req_bool_ok(o, "isIncoming"@) && req_bool_ok(o, "isUploadingTo"@) && req_bool_ok(o, "isUTP"@) && req_bool_ok(o, "peerIsChoked"@) && req_bool_ok(o, "peerIsInterested"@) && req_u16_ok(o, "port"@) && req_u64_ok(o, "rateToClient"@) && req_u64_ok(o, "rateToPeer"@)
}

/// Whether `x` is the `Peer` record those entries decode to, field by
/// field.
pub open spec fn peer_matches(x: Peer, o: Seq<(Seq<char>, JsonRep)>) -> bool {
    x.address@ == req_string_of(o, "address"@) && x.client_name@ == req_string_of(o, "clientName"@) && x.client_is_choked == req_bool_of(o, "clientIsChoked"@) && x.client_is_interested == req_bool_of(o, "clientIsInterested"@) && x.flag_str@ == req_string_of(o, "flagStr"@) && x.is_downloading_from == req_bool_of(o, "isDownloadingFrom"@) && x.is_encrypted == req_bool_of(o, "isEncrypted"@) && x.is_incoming == req_bool_of(o, "isIncoming"@) && x.is_uploading_to == req_bool_of(o, "isUploadingTo"@) && x.is_utp == req_bool_of(o, "isUTP"@) && x.peer_is_choked == req_bool_of(o, "peerIsChoked"@) && x.peer_is_interested == req_bool_of(o, "peerIsInterested"@) && x.port == req_u16_of(o, "port"@) && x.rate_to_client == req_u64_of(o, "rateToClient"@) && x.rate_to_peer == req_u64_of(o, "rateToPeer"@)
}

/// Whether `v` is an object holding a well-formed `Peer` record.
pub open spec fn peer_value_decodable(v: JsonRep) -> bool {
    v matches JsonRep::Obj(o) && peer_decodable(o)
}

/// Whether `x` is the `Peer` record the object `v` decodes to.
pub open spec fn peer_value_matches(x: Peer, v: JsonRep) -> bool {
    v matches JsonRep::Obj(o) && peer_matches(x, o)
}

impl Peer {
    /// Decodes a `Peer` record from an object.
    pub fn decode(v: &JsonValue) -> (r: Result<Peer, DecodeError>)
        ensures
            r is Ok <==> peer_value_decodable(rep_of(*v)),
            r is Err ==> r == Err::<Peer, DecodeError>(DecodeError::MalformedArguments),
            r matches Ok(x) ==> peer_value_matches(x, rep_of(*v)),
    {
        let entries = match v {
            JsonValue::Obj(es) => es,
            _ => {
                return Err(DecodeError::MalformedArguments);
            },
        };
        proof {
            assert(*v == JsonValue::Obj(*entries));
            lemma_rep_of_obj(*entries);
        }
        let address = get_req_string(entries, "address")?;
        let client_name = get_req_string(entries, "clientName")?;
        let client_is_choked = get_req_bool(entries, "clientIsChoked")?;
        let client_is_interested = get_req_bool(entries, "clientIsInterested")?;
        let flag_str = get_req_string(entries, "flagStr")?;
        let is_downloading_from = get_req_bool(entries, "isDownloadingFrom")?;
        let is_encrypted = get_req_bool(entries, "isEncrypted")?;
        let is_incoming = get_req_bool(entries, "isIncoming")?;
        let is_uploading_to = get_req_bool(entries, "isUploadingTo")?;
        let is_utp = get_req_bool(entries, "isUTP")?;
        let peer_is_choked = get_req_bool(entries, "peerIsChoked")?;
        let peer_is_interested = get_req_bool(entries, "peerIsInterested")?;
        let port = get_req_u16(entries, "port")?;
        let rate_to_client = get_req_u64(entries, "rateToClient")?;
        let rate_to_peer = get_req_u64(entries, "rateToPeer")?;
        Ok(Peer {
            address,
            client_name,
            client_is_choked,
            client_is_interested,
            flag_str,
            is_downloading_from,
            is_encrypted,
            is_incoming,
            is_uploading_to,
            is_utp,
            peer_is_choked,
            peer_is_interested,
            port,
            rate_to_client,
            rate_to_peer,
        })
    }
}
/// Whether every element is an object holding a well-formed `Peer`.
pub open spec fn peer_seq_ok(xs: Seq<JsonRep>) -> bool {
    forall|i: int| 0 <= i < xs.len() ==> peer_value_decodable(#[trigger] xs[i])
}

fn decode_peer_array(items: &Vec<JsonValue>) -> (r: Result<Vec<Peer>, DecodeError>)
    ensures
        r is Ok <==> peer_seq_ok(reps_of(items@)),
        r is Err ==> r == Err::<Vec<Peer>, DecodeError>(DecodeError::MalformedArguments),
        r matches Ok(a) ==> a@.len() == items@.len() && (forall|i: int|
            0 <= i < items@.len() ==> peer_value_matches(#[trigger] a@[i], reps_of(items@)[i])),
{
    let ghost xs = reps_of(items@);
    let mut out: Vec<Peer> = Vec::new();
    let mut j: usize = 0;
    while j < items.len()
        invariant
            j <= items.len(),
            out@.len() == j,
            xs == reps_of(items@),
            xs.len() == items@.len(),
            forall|l: int| 0 <= l < j ==> peer_value_decodable(#[trigger] xs[l]),
            forall|l: int| 0 <= l < j ==> peer_value_matches(#[trigger] out@[l], xs[l]),
        decreases items.len() - j,
    {
        proof {
            assert(xs[j as int] == rep_of(items@[j as int]));
        }
        match Peer::decode(&items[j]) {
            Ok(x) => out.push(x),
            Err(_) => {
                return Err(DecodeError::MalformedArguments);
            },
        }
        j = j + 1;
    }
    Ok(out)
}

/// Whether the `Peer` array field under `key` is absent or well-formed.
pub open spec fn opt_peers_ok(o: Seq<(Seq<char>, JsonRep)>, key: Seq<char>) -> bool {
    match lookup_in(o, key) {
        None => true,
        Some(v) => v matches JsonRep::Arr(xs) && peer_seq_ok(xs),
    }
}

fn get_opt_peers(entries: &Vec<(String, JsonValue)>, key: &str) -> (r: Result<
    Option<Vec<Peer>>,
    DecodeError,
>)
    ensures
        r is Ok <==> opt_peers_ok(entry_reps_of(entries@), key@),
        r is Err ==> r == Err::<Option<Vec<Peer>>, DecodeError>(DecodeError::MalformedArguments),
        r matches Ok(x) ==> (match lookup_in(entry_reps_of(entries@), key@) {
            None => x is None,
            Some(v) => v matches JsonRep::Arr(xs) && x matches Some(a) && a@.len() == xs.len()
                && (forall|i: int|
                0 <= i < xs.len() ==> peer_value_matches(#[trigger] a@[i], xs[i])),
        }),
{
    let k = key.to_owned();
    match lookup(entries, &k) {
        None => Ok(None),
        Some(x) => match x {
            JsonValue::Arr(items) => {
                proof {
                    assert(*x == JsonValue::Arr(*items));
                    lemma_rep_of_arr(*items);
                }
                match decode_peer_array(items) {
                    Ok(a) => Ok(Some(a)),
                    Err(_) => Err(DecodeError::MalformedArguments),
                }
            },
            _ => Err(DecodeError::MalformedArguments),
        },
    }
}

/// Where the connected peers were found.
#[derive(Debug, Clone)]
pub struct PeersFrom {
    pub from_cache: u16,
    pub from_dht: u16,
    pub from_incoming: u16,
    pub from_lpd: u16,
    pub from_ltep: u16,
    pub from_pex: u16,
    pub from_tracker: u16,
}

/// Whether an object's entries hold a well-formed `PeersFrom` record.
pub open spec fn peers_from_decodable(o: Seq<(Seq<char>, JsonRep)>) -> bool {
    req_u16_ok(o, "fromCache"@) && req_u16_ok(o, "fromDht"@) && req_u16_ok(o, "fromIncoming"@) && req_u16_ok(o, "fromLpd"@) && req_u16_ok(o, "fromLtep"@) && req_u16_ok(o, "fromPex"@) && req_u16_ok(o, "fromTracker"@)
}

/// Whether `x` is the `PeersFrom` record those entries decode to, field by
/// field.
pub open spec fn peers_from_matches(x: PeersFrom, o: Seq<(Seq<char>, JsonRep)>) -> bool {
    x.from_cache == req_u16_of(o, "fromCache"@) && x.from_dht == req_u16_of(o, "fromDht"@) && x.from_incoming == req_u16_of(o, "fromIncoming"@) && x.from_lpd == req_u16_of(o, "fromLpd"@) && x.from_ltep == req_u16_of(o, "fromLtep"@) && x.from_pex == req_u16_of(o, "fromPex"@) && x.from_tracker == req_u16_of(o, "fromTracker"@)
}

/// Whether `v` is an object holding a well-formed `PeersFrom` record.
pub open spec fn peers_from_value_decodable(v: JsonRep) -> bool {
    v matches JsonRep::Obj(o) && peers_from_decodable(o)
}

/// Whether `x` is the `PeersFrom` record the object `v` decodes to.
pub open spec fn peers_from_value_matches(x: PeersFrom, v: JsonRep) -> bool {
    v matches JsonRep::Obj(o) && peers_from_matches(x, o)
}

impl PeersFrom {
    /// Decodes a `PeersFrom` record from an object.
    pub fn decode(v: &JsonValue) -> (r: Result<PeersFrom, DecodeError>)
        ensures
            r is Ok <==> peers_from_value_decodable(rep_of(*v)),
            r is Err ==> r == Err::<PeersFrom, DecodeError>(DecodeError::MalformedArguments),
            r matches Ok(x) ==> peers_from_value_matches(x, rep_of(*v)),
    {
        let entries = match v {
            JsonValue::Obj(es) => es,
            _ => {
                return Err(DecodeError::MalformedArguments);
            },
        };
        proof {
            assert(*v == JsonValue::Obj(*entries));
            lemma_rep_of_obj(*entries);
        }
        let from_cache = get_req_u16(entries, "fromCache")?;
        let from_dht = get_req_u16(entries, "fromDht")?;
        let from_incoming = get_req_u16(entries, "fromIncoming")?;
        let from_lpd = get_req_u16(entries, "fromLpd")?;
        let from_ltep = get_req_u16(entries, "fromLtep")?;
        let from_pex = get_req_u16(entries, "fromPex")?;
        let from_tracker = get_req_u16(entries, "fromTracker")?;
        Ok(PeersFrom {
            from_cache,
            from_dht,
            from_incoming,
            from_lpd,
            from_ltep,
            from_pex,
            from_tracker,
        })
    }
}
/// Whether the `PeersFrom` field under `key` is absent or well-formed.
pub open spec fn opt_peers_from_ok(o: Seq<(Seq<char>, JsonRep)>, key: Seq<char>) -> bool {
    match lookup_in(o, key) {
        None => true,
        Some(v) => peers_from_value_decodable(v),
    }
}

fn get_opt_peers_from(entries: &Vec<(String, JsonValue)>, key: &str) -> (r: Result<
    Option<PeersFrom>,
    DecodeError,
>)
    ensures
        r is Ok <==> opt_peers_from_ok(entry_reps_of(entries@), key@),
        r is Err ==> r == Err::<Option<PeersFrom>, DecodeError>(DecodeError::MalformedArguments),
        r matches Ok(x) ==> (match lookup_in(entry_reps_of(entries@), key@) {
            None => x is None,
            Some(v) => x matches Some(pf) && peers_from_value_matches(pf, v),
        }),
{
    let k = key.to_owned();
    match lookup(entries, &k) {
        None => Ok(None),
        Some(v) => match PeersFrom::decode(v) {
            Ok(pf) => Ok(Some(pf)),
            Err(_) => Err(DecodeError::MalformedArguments),
        },
    }
}

/// One file of a torrent.
#[derive(Debug, Clone)]
pub struct File {
    pub length: i64,
    pub bytes_completed: i64,
    pub name: String,
    /// First piece the file occupies; reported by newer servers only.
    pub begin_piece: Option<u64>,
    /// One past the last piece the file occupies; reported by newer servers
    /// only.
    pub end_piece: Option<u64>,
}

/// Whether an object's entries hold a well-formed `File` record.
pub open spec fn file_decodable(o: Seq<(Seq<char>, JsonRep)>) -> bool {
    req_i64_ok(o, "length"@) && req_i64_ok(o, "bytesCompleted"@) && req_string_ok(o, "name"@)
        && opt_u64_ok(o, "beginPiece"@) && opt_u64_ok(o, "endPiece"@)
}

/// Whether `x` is the `File` record those entries decode to, field by
/// field.
pub open spec fn file_matches(x: File, o: Seq<(Seq<char>, JsonRep)>) -> bool {
    x.length == req_i64_of(o, "length"@) && x.bytes_completed == req_i64_of(o, "bytesCompleted"@)
        && x.name@ == req_string_of(o, "name"@) && x.begin_piece == opt_u64_of(o, "beginPiece"@)
        && x.end_piece == opt_u64_of(o, "endPiece"@)
}

/// Whether `v` is an object holding a well-formed `File` record.
pub open spec fn file_value_decodable(v: JsonRep) -> bool {
    v matches JsonRep::Obj(o) && file_decodable(o)
}

/// Whether `x` is the `File` record the object `v` decodes to.
pub open spec fn file_value_matches(x: File, v: JsonRep) -> bool {
    v matches JsonRep::Obj(o) && file_matches(x, o)
}

impl File {
    /// Decodes a `File` record from an object.
    pub fn decode(v: &JsonValue) -> (r: Result<File, DecodeError>)
        ensures
            r is Ok <==> file_value_decodable(rep_of(*v)),
            r is Err ==> r == Err::<File, DecodeError>(DecodeError::MalformedArguments),
            r matches Ok(x) ==> file_value_matches(x, rep_of(*v)),
    {
        let entries = match v {
            JsonValue::Obj(es) => es,
            _ => {
                return Err(DecodeError::MalformedArguments);
            },
        };
        proof {
            assert(*v == JsonValue::Obj(*entries));
            lemma_rep_of_obj(*entries);
        }
        let length = get_req_i64(entries, "length")?;
        let bytes_completed = get_req_i64(entries, "bytesCompleted")?;
        let name = get_req_string(entries, "name")?;
        let begin_piece = get_opt_u64(entries, "beginPiece")?;
        let end_piece = get_opt_u64(entries, "endPiece")?;
        Ok(File {
            length,
            bytes_completed,
            name,
            begin_piece,
            end_piece,
        })
    }
}
/// Whether every element is an object holding a well-formed `File`.
pub open spec fn file_seq_ok(xs: Seq<JsonRep>) -> bool {
    forall|i: int| 0 <= i < xs.len() ==> file_value_decodable(#[trigger] xs[i])
}

fn decode_file_array(items: &Vec<JsonValue>) -> (r: Result<Vec<File>, DecodeError>)
    ensures
        r is Ok <==> file_seq_ok(reps_of(items@)),
        r is Err ==> r == Err::<Vec<File>, DecodeError>(DecodeError::MalformedArguments),
        r matches Ok(a) ==> a@.len() == items@.len() && (forall|i: int|
            0 <= i < items@.len() ==> file_value_matches(#[trigger] a@[i], reps_of(items@)[i])),
{
    let ghost xs = reps_of(items@);
    let mut out: Vec<File> = Vec::new();
    let mut j: usize = 0;
    while j < items.len()
        invariant
            j <= items.len(),
            out@.len() == j,
            xs == reps_of(items@),
            xs.len() == items@.len(),
            forall|l: int| 0 <= l < j ==> file_value_decodable(#[trigger] xs[l]),
            forall|l: int| 0 <= l < j ==> file_value_matches(#[trigger] out@[l], xs[l]),
        decreases items.len() - j,
    {
        proof {
            assert(xs[j as int] == rep_of(items@[j as int]));
        }
        match File::decode(&items[j]) {
            Ok(x) => out.push(x),
            Err(_) => {
                return Err(DecodeError::MalformedArguments);
            },
        }
        j = j + 1;
    }
    Ok(out)
}

/// Whether the `File` array field under `key` is absent or well-formed.
pub open spec fn opt_files_ok(o: Seq<(Seq<char>, JsonRep)>, key: Seq<char>) -> bool {
    match lookup_in(o, key) {
        None => true,
        Some(v) => v matches JsonRep::Arr(xs) && file_seq_ok(xs),
    }
}

fn get_opt_files(entries: &Vec<(String, JsonValue)>, key: &str) -> (r: Result<
    Option<Vec<File>>,
    DecodeError,
>)
    ensures
        r is Ok <==> opt_files_ok(entry_reps_of(entries@), key@),
        r is Err ==> r == Err::<Option<Vec<File>>, DecodeError>(DecodeError::MalformedArguments),
        r matches Ok(x) ==> (match lookup_in(entry_reps_of(entries@), key@) {
            None => x is None,
            Some(v) => v matches JsonRep::Arr(xs) && x matches Some(a) && a@.len() == xs.len()
                && (forall|i: int|
                0 <= i < xs.len() ==> file_value_matches(#[trigger] a@[i], xs[i])),
        }),
{
    let k = key.to_owned();
    match lookup(entries, &k) {
        None => Ok(None),
        Some(x) => match x {
            JsonValue::Arr(items) => {
                proof {
                    assert(*x == JsonValue::Arr(*items));
                    lemma_rep_of_arr(*items);
                }
                match decode_file_array(items) {
                    Ok(a) => Ok(Some(a)),
                    Err(_) => Err(DecodeError::MalformedArguments),
                }
            },
            _ => Err(DecodeError::MalformedArguments),
        },
    }
}

/// Per-file download state.
#[derive(Debug, Clone)]
pub struct FileStat {
    pub bytes_completed: i64,
    pub wanted: bool,
    pub priority: Priority,
}

/// Whether an object's entries hold a well-formed `FileStat` record.
pub open spec fn file_stat_decodable(o: Seq<(Seq<char>, JsonRep)>) -> bool {
    req_i64_ok(o, "bytesCompleted"@) && req_bool_ok(o, "wanted"@) && req_priority_ok(o, "priority"@)
}

/// Whether `x` is the `FileStat` record those entries decode to, field by
/// field.
pub open spec fn file_stat_matches(x: FileStat, o: Seq<(Seq<char>, JsonRep)>) -> bool {
    x.bytes_completed == req_i64_of(o, "bytesCompleted"@) && x.wanted == req_bool_of(o, "wanted"@) && Some(x.priority) == req_priority_of(o, "priority"@)
}

/// Whether `v` is an object holding a well-formed `FileStat` record.
pub open spec fn file_stat_value_decodable(v: JsonRep) -> bool {
    v matches JsonRep::Obj(o) && file_stat_decodable(o)
}

/// Whether `x` is the `FileStat` record the object `v` decodes to.
pub open spec fn file_stat_value_matches(x: FileStat, v: JsonRep) -> bool {
    v matches JsonRep::Obj(o) && file_stat_matches(x, o)
}

impl FileStat {
    /// Decodes a `FileStat` record from an object.
    pub fn decode(v: &JsonValue) -> (r: Result<FileStat, DecodeError>)
        ensures
            r is Ok <==> file_stat_value_decodable(rep_of(*v)),
            r is Err ==> r == Err::<FileStat, DecodeError>(DecodeError::MalformedArguments),
            r matches Ok(x) ==> file_stat_value_matches(x, rep_of(*v)),
    {
        let entries = match v {
            JsonValue::Obj(es) => es,
            _ => {
                return Err(DecodeError::MalformedArguments);
            },
        };
        proof {
            assert(*v == JsonValue::Obj(*entries));
            lemma_rep_of_obj(*entries);
        }
        let bytes_completed = get_req_i64(entries, "bytesCompleted")?;
        let wanted = get_req_bool(entries, "wanted")?;
        let priority = get_req_priority(entries, "priority")?;
        Ok(FileStat {
            bytes_completed,
            wanted,
            priority,
        })
    }
}
/// Whether every element is an object holding a well-formed `FileStat`.
pub open spec fn file_stat_seq_ok(xs: Seq<JsonRep>) -> bool {
    forall|i: int| 0 <= i < xs.len() ==> file_stat_value_decodable(#[trigger] xs[i])
}

fn decode_file_stat_array(items: &Vec<JsonValue>) -> (r: Result<Vec<FileStat>, DecodeError>)
    ensures
        r is Ok <==> file_stat_seq_ok(reps_of(items@)),
        r is Err ==> r == Err::<Vec<FileStat>, DecodeError>(DecodeError::MalformedArguments),
        r matches Ok(a) ==> a@.len() == items@.len() && (forall|i: int|
            0 <= i < items@.len() ==> file_stat_value_matches(#[trigger] a@[i], reps_of(items@)[i])),
{
    let ghost xs = reps_of(items@);
    let mut out: Vec<FileStat> = Vec::new();
    let mut j: usize = 0;
    while j < items.len()
        invariant
            j <= items.len(),
            out@.len() == j,
            xs == reps_of(items@),
            xs.len() == items@.len(),
            forall|l: int| 0 <= l < j ==> file_stat_value_decodable(#[trigger] xs[l]),
            forall|l: int| 0 <= l < j ==> file_stat_value_matches(#[trigger] out@[l], xs[l]),
        decreases items.len() - j,
    {
        proof {
            assert(xs[j as int] == rep_of(items@[j as int]));
        }
        match FileStat::decode(&items[j]) {
            Ok(x) => out.push(x),
            Err(_) => {
                return Err(DecodeError::MalformedArguments);
            },
        }
        j = j + 1;
    }
    Ok(out)
}

/// Whether the `FileStat` array field under `key` is absent or well-formed.
pub open spec fn opt_file_stats_ok(o: Seq<(Seq<char>, JsonRep)>, key: Seq<char>) -> bool {
    match lookup_in(o, key) {
        None => true,
        Some(v) => v matches JsonRep::Arr(xs) && file_stat_seq_ok(xs),
    }
}

fn get_opt_file_stats(entries: &Vec<(String, JsonValue)>, key: &str) -> (r: Result<
    Option<Vec<FileStat>>,
    DecodeError,
>)
    ensures
        r is Ok <==> opt_file_stats_ok(entry_reps_of(entries@), key@),
        r is Err ==> r == Err::<Option<Vec<FileStat>>, DecodeError>(DecodeError::MalformedArguments),
        r matches Ok(x) ==> (match lookup_in(entry_reps_of(entries@), key@) {
            None => x is None,
            Some(v) => v matches JsonRep::Arr(xs) && x matches Some(a) && a@.len() == xs.len()
                && (forall|i: int|
                0 <= i < xs.len() ==> file_stat_value_matches(#[trigger] a@[i], xs[i])),
        }),
{
    let k = key.to_owned();
    match lookup(entries, &k) {
        None => Ok(None),
        Some(x) => match x {
            JsonValue::Arr(items) => {
                proof {
                    assert(*x == JsonValue::Arr(*items));
                    lemma_rep_of_arr(*items);
                }
                match decode_file_stat_array(items) {
                    Ok(a) => Ok(Some(a)),
                    Err(_) => Err(DecodeError::MalformedArguments),
                }
            },
            _ => Err(DecodeError::MalformedArguments),
        },
    }
}

/// One tracker of a torrent.
#[derive(Debug, Clone)]
pub struct Trackers {
    pub id: i32,
    pub announce: String,
    pub scrape: String,
    /// Empty when the server does not send one.
    pub sitename: String,
    pub tier: usize,
}

/// Whether an object's entries hold a well-formed `Trackers` record.
pub open spec fn trackers_decodable(o: Seq<(Seq<char>, JsonRep)>) -> bool {
    req_i32_ok(o, "id"@) && req_string_ok(o, "announce"@) && req_string_ok(o, "scrape"@) && opt_string_ok(o, "sitename"@) && req_usize_ok(o, "tier"@)
}

/// Whether `x` is the `Trackers` record those entries decode to, field by
/// field.
pub open spec fn trackers_matches(x: Trackers, o: Seq<(Seq<char>, JsonRep)>) -> bool {
    x.id == req_i32_of(o, "id"@) && x.announce@ == req_string_of(o, "announce"@) && x.scrape@ == req_string_of(o, "scrape"@) && x.sitename@ == dflt_string_of(o, "sitename"@) && x.tier == req_usize_of(o, "tier"@)
}

/// Whether `v` is an object holding a well-formed `Trackers` record.
pub open spec fn trackers_value_decodable(v: JsonRep) -> bool {
    v matches JsonRep::Obj(o) && trackers_decodable(o)
}

/// Whether `x` is the `Trackers` record the object `v` decodes to.
pub open spec fn trackers_value_matches(x: Trackers, v: JsonRep) -> bool {
    v matches JsonRep::Obj(o) && trackers_matches(x, o)
}

impl Trackers {
    /// Decodes a `Trackers` record from an object.
    pub fn decode(v: &JsonValue) -> (r: Result<Trackers, DecodeError>)
        ensures
            r is Ok <==> trackers_value_decodable(rep_of(*v)),
            r is Err ==> r == Err::<Trackers, DecodeError>(DecodeError::MalformedArguments),
            r matches Ok(x) ==> trackers_value_matches(x, rep_of(*v)),
    {
        let entries = match v {
            JsonValue::Obj(es) => es,
            _ => {
                return Err(DecodeError::MalformedArguments);
            },
        };
        proof {
            assert(*v == JsonValue::Obj(*entries));
            lemma_rep_of_obj(*entries);
        }
        let id = get_req_i32(entries, "id")?;
        let announce = get_req_string(entries, "announce")?;
        let scrape = get_req_string(entries, "scrape")?;
        let sitename = get_dflt_string(entries, "sitename")?;
        let tier = get_req_usize(entries, "tier")?;
        Ok(Trackers {
            id,
            announce,
            scrape,
            sitename,
            tier,
        })
    }
}
/// Whether every element is an object holding a well-formed `Trackers`.
pub open spec fn trackers_seq_ok(xs: Seq<JsonRep>) -> bool {
    forall|i: int| 0 <= i < xs.len() ==> trackers_value_decodable(#[trigger] xs[i])
}

fn decode_trackers_array(items: &Vec<JsonValue>) -> (r: Result<Vec<Trackers>, DecodeError>)
    ensures
        r is Ok <==> trackers_seq_ok(reps_of(items@)),
        r is Err ==> r == Err::<Vec<Trackers>, DecodeError>(DecodeError::MalformedArguments),
        r matches Ok(a) ==> a@.len() == items@.len() && (forall|i: int|
            0 <= i < items@.len() ==> trackers_value_matches(#[trigger] a@[i], reps_of(items@)[i])),
{
    let ghost xs = reps_of(items@);
    let mut out: Vec<Trackers> = Vec::new();
    let mut j: usize = 0;
    while j < items.len()
        invariant
            j <= items.len(),
            out@.len() == j,
            xs == reps_of(items@),
            xs.len() == items@.len(),
            forall|l: int| 0 <= l < j ==> trackers_value_decodable(#[trigger] xs[l]),
            forall|l: int| 0 <= l < j ==> trackers_value_matches(#[trigger] out@[l], xs[l]),
        decreases items.len() - j,
    {
        proof {
            assert(xs[j as int] == rep_of(items@[j as int]));
        }
        match Trackers::decode(&items[j]) {
            Ok(x) => out.push(x),
            Err(_) => {
                return Err(DecodeError::MalformedArguments);
            },
        }
        j = j + 1;
    }
    Ok(out)
}

/// Whether the `Trackers` array field under `key` is absent or well-formed.
pub open spec fn opt_trackerss_ok(o: Seq<(Seq<char>, JsonRep)>, key: Seq<char>) -> bool {
    match lookup_in(o, key) {
        None => true,
        Some(v) => v matches JsonRep::Arr(xs) && trackers_seq_ok(xs),
    }
}

fn get_opt_trackerss(entries: &Vec<(String, JsonValue)>, key: &str) -> (r: Result<
    Option<Vec<Trackers>>,
    DecodeError,
>)
    ensures
        r is Ok <==> opt_trackerss_ok(entry_reps_of(entries@), key@),
        r is Err ==> r == Err::<Option<Vec<Trackers>>, DecodeError>(DecodeError::MalformedArguments),
        r matches Ok(x) ==> (match lookup_in(entry_reps_of(entries@), key@) {
            None => x is None,
            Some(v) => v matches JsonRep::Arr(xs) && x matches Some(a) && a@.len() == xs.len()
                && (forall|i: int|
                0 <= i < xs.len() ==> trackers_value_matches(#[trigger] a@[i], xs[i])),
        }),
{
    let k = key.to_owned();
    match lookup(entries, &k) {
        None => Ok(None),
        Some(x) => match x {
            JsonValue::Arr(items) => {
                proof {
                    assert(*x == JsonValue::Arr(*items));
                    lemma_rep_of_arr(*items);
                }
                match decode_trackers_array(items) {
                    Ok(a) => Ok(Some(a)),
                    Err(_) => Err(DecodeError::MalformedArguments),
                }
            },
            _ => Err(DecodeError::MalformedArguments),
        },
    }
}

/// Announce and scrape statistics for one tracker.
#[derive(Debug, Clone)]
pub struct TrackerStat {
    pub announce_state: TrackerState,
    pub announce: String,
    pub download_count: i64,
    pub has_announced: bool,
    pub has_scraped: bool,
    pub host: String,
    pub id: Id,
    pub is_backup: bool,
    pub last_announce_peer_count: i64,
    pub last_announce_result: String,
    pub last_announce_start_time: Timestamp,
    pub last_announce_succeeded: bool,
    pub last_announce_time: Timestamp,
    pub last_announce_timed_out: bool,
    pub last_scrape_result: String,
    pub last_scrape_start_time: Timestamp,
    pub last_scrape_succeeded: bool,
    pub last_scrape_time: Timestamp,
    pub last_scrape_timed_out: bool,
    pub leecher_count: i64,
    pub next_announce_time: Timestamp,
    pub next_scrape_time: Timestamp,
    pub scrape_state: TrackerState,
    pub scrape: String,
    pub seeder_count: i64,
    /// Empty when the server does not send one.
    pub sitename: String,
    pub tier: usize,
}

/// Whether an object's entries hold a well-formed `TrackerStat` record.
pub open spec fn tracker_stat_decodable(o: Seq<(Seq<char>, JsonRep)>) -> bool {
    req_tracker_state_ok(o, "announceState"@) && req_string_ok(o, "announce"@) && req_i64_ok(o, "downloadCount"@) && req_bool_ok(o, "hasAnnounced"@) && req_bool_ok(o, "hasScraped"@) && req_string_ok(o, "host"@) && req_id_ok(o, "id"@) && req_bool_ok(o, "isBackup"@) && req_i64_ok(o, "lastAnnouncePeerCount"@) && req_string_ok(o, "lastAnnounceResult"@) && req_ts_ok(o, "lastAnnounceStartTime"@) && req_bool_ok(o, "lastAnnounceSucceeded"@) && req_ts_ok(o, "lastAnnounceTime"@) && req_bool_ok(o, "lastAnnounceTimedOut"@) && req_string_ok(o, "lastScrapeResult"@) && req_ts_ok(o, "lastScrapeStartTime"@) && req_bool_ok(o, "lastScrapeSucceeded"@) && req_ts_ok(o, "lastScrapeTime"@) && req_bool_ok(o, "lastScrapeTimedOut"@) && req_i64_ok(o, "leecherCount"@) && req_ts_ok(o, "nextAnnounceTime"@) && req_ts_ok(o, "nextScrapeTime"@) && req_tracker_state_ok(o, "scrapeState"@) && req_string_ok(o, "scrape"@) && req_i64_ok(o, "seederCount"@) && opt_string_ok(o, "sitename"@) && req_usize_ok(o, "tier"@)
}

/// Whether `x` is the `TrackerStat` record those entries decode to, field by
/// field.
pub open spec fn tracker_stat_matches(x: TrackerStat, o: Seq<(Seq<char>, JsonRep)>) -> bool {
    Some(x.announce_state) == req_tracker_state_of(o, "announceState"@) && x.announce@ == req_string_of(o, "announce"@) && x.download_count == req_i64_of(o, "downloadCount"@) && x.has_announced == req_bool_of(o, "hasAnnounced"@) && x.has_scraped == req_bool_of(o, "hasScraped"@) && x.host@ == req_string_of(o, "host"@) && (lookup_in(o, "id"@) matches Some(v) && id_matches(x.id, v)) && x.is_backup == req_bool_of(o, "isBackup"@) && x.last_announce_peer_count == req_i64_of(o, "lastAnnouncePeerCount"@) && x.last_announce_result@ == req_string_of(o, "lastAnnounceResult"@) && x.last_announce_start_time == req_ts_of(o, "lastAnnounceStartTime"@) && x.last_announce_succeeded == req_bool_of(o, "lastAnnounceSucceeded"@) && x.last_announce_time == req_ts_of(o, "lastAnnounceTime"@) && x.last_announce_timed_out == req_bool_of(o, "lastAnnounceTimedOut"@) && x.last_scrape_result@ == req_string_of(o, "lastScrapeResult"@) && x.last_scrape_start_time == req_ts_of(o, "lastScrapeStartTime"@) && x.last_scrape_succeeded == req_bool_of(o, "lastScrapeSucceeded"@) && x.last_scrape_time == req_ts_of(o, "lastScrapeTime"@) && x.last_scrape_timed_out == req_bool_of(o, "lastScrapeTimedOut"@) && x.leecher_count == req_i64_of(o, "leecherCount"@) && x.next_announce_time == req_ts_of(o, "nextAnnounceTime"@) && x.next_scrape_time == req_ts_of(o, "nextScrapeTime"@) && Some(x.scrape_state) == req_tracker_state_of(o, "scrapeState"@) && x.scrape@ == req_string_of(o, "scrape"@) && x.seeder_count == req_i64_of(o, "seederCount"@) && x.sitename@ == dflt_string_of(o, "sitename"@) && x.tier == req_usize_of(o, "tier"@)
}

/// Whether `v` is an object holding a well-formed `TrackerStat` record.
pub open spec fn tracker_stat_value_decodable(v: JsonRep) -> bool {
    v matches JsonRep::Obj(o) && tracker_stat_decodable(o)
}

/// Whether `x` is the `TrackerStat` record the object `v` decodes to.
pub open spec fn tracker_stat_value_matches(x: TrackerStat, v: JsonRep) -> bool {
    v matches JsonRep::Obj(o) && tracker_stat_matches(x, o)
}

impl TrackerStat {
    /// Decodes a `TrackerStat` record from an object.
    #[verifier::rlimit(60)]
    pub fn decode(v: &JsonValue) -> (r: Result<TrackerStat, DecodeError>)
        ensures
            r is Ok <==> tracker_stat_value_decodable(rep_of(*v)),
            r is Err ==> r == Err::<TrackerStat, DecodeError>(DecodeError::MalformedArguments),
            r matches Ok(x) ==> tracker_stat_value_matches(x, rep_of(*v)),
    {
        let entries = match v {
            JsonValue::Obj(es) => es,
            _ => {
                return Err(DecodeError::MalformedArguments);
            },
        };
        proof {
            assert(*v == JsonValue::Obj(*entries));
            lemma_rep_of_obj(*entries);
        }
        let announce_state = get_req_tracker_state(entries, "announceState")?;
        let announce = get_req_string(entries, "announce")?;
        let download_count = get_req_i64(entries, "downloadCount")?;
        let has_announced = get_req_bool(entries, "hasAnnounced")?;
        let has_scraped = get_req_bool(entries, "hasScraped")?;
        let host = get_req_string(entries, "host")?;
        let id = get_req_id(entries, "id")?;
        let is_backup = get_req_bool(entries, "isBackup")?;
        let last_announce_peer_count = get_req_i64(entries, "lastAnnouncePeerCount")?;
        let last_announce_result = get_req_string(entries, "lastAnnounceResult")?;
        let last_announce_start_time = get_req_ts(entries, "lastAnnounceStartTime")?;
        let last_announce_succeeded = get_req_bool(entries, "lastAnnounceSucceeded")?;
        let last_announce_time = get_req_ts(entries, "lastAnnounceTime")?;
        let last_announce_timed_out = get_req_bool(entries, "lastAnnounceTimedOut")?;
        let last_scrape_result = get_req_string(entries, "lastScrapeResult")?;
        let last_scrape_start_time = get_req_ts(entries, "lastScrapeStartTime")?;
        let last_scrape_succeeded = get_req_bool(entries, "lastScrapeSucceeded")?;
        let last_scrape_time = get_req_ts(entries, "lastScrapeTime")?;
        let last_scrape_timed_out = get_req_bool(entries, "lastScrapeTimedOut")?;
        let leecher_count = get_req_i64(entries, "leecherCount")?;
        let next_announce_time = get_req_ts(entries, "nextAnnounceTime")?;
        let next_scrape_time = get_req_ts(entries, "nextScrapeTime")?;
        let scrape_state = get_req_tracker_state(entries, "scrapeState")?;
        let scrape = get_req_string(entries, "scrape")?;
        let seeder_count = get_req_i64(entries, "seederCount")?;
        let sitename = get_dflt_string(entries, "sitename")?;
        let tier = get_req_usize(entries, "tier")?;
        Ok(TrackerStat {
            announce_state,
            announce,
            download_count,
            has_announced,
            has_scraped,
            host,
            id,
            is_backup,
            last_announce_peer_count,
            last_announce_result,
            last_announce_start_time,
            last_announce_succeeded,
            last_announce_time,
            last_announce_timed_out,
            last_scrape_result,
            last_scrape_start_time,
            last_scrape_succeeded,
            last_scrape_time,
            last_scrape_timed_out,
            leecher_count,
            next_announce_time,
            next_scrape_time,
            scrape_state,
            scrape,
            seeder_count,
            sitename,
            tier,
        })
    }
}
/// Whether every element is an object holding a well-formed `TrackerStat`.
pub open spec fn tracker_stat_seq_ok(xs: Seq<JsonRep>) -> bool {
    forall|i: int| 0 <= i < xs.len() ==> tracker_stat_value_decodable(#[trigger] xs[i])
}

fn decode_tracker_stat_array(items: &Vec<JsonValue>) -> (r: Result<Vec<TrackerStat>, DecodeError>)
    ensures
        r is Ok <==> tracker_stat_seq_ok(reps_of(items@)),
        r is Err ==> r == Err::<Vec<TrackerStat>, DecodeError>(DecodeError::MalformedArguments),
        r matches Ok(a) ==> a@.len() == items@.len() && (forall|i: int|
            0 <= i < items@.len() ==> tracker_stat_value_matches(#[trigger] a@[i], reps_of(items@)[i])),
{
    let ghost xs = reps_of(items@);
    let mut out: Vec<TrackerStat> = Vec::new();
    let mut j: usize = 0;
    while j < items.len()
        invariant
            j <= items.len(),
            out@.len() == j,
            xs == reps_of(items@),
            xs.len() == items@.len(),
            forall|l: int| 0 <= l < j ==> tracker_stat_value_decodable(#[trigger] xs[l]),
            forall|l: int| 0 <= l < j ==> tracker_stat_value_matches(#[trigger] out@[l], xs[l]),
        decreases items.len() - j,
    {
        proof {
            assert(xs[j as int] == rep_of(items@[j as int]));
        }
        match TrackerStat::decode(&items[j]) {
            Ok(x) => out.push(x),
            Err(_) => {
                return Err(DecodeError::MalformedArguments);
            },
        }
        j = j + 1;
    }
    Ok(out)
}

/// Whether the `TrackerStat` array field under `key` is absent or well-formed.
pub open spec fn opt_tracker_stats_ok(o: Seq<(Seq<char>, JsonRep)>, key: Seq<char>) -> bool {
    match lookup_in(o, key) {
        None => true,
        Some(v) => v matches JsonRep::Arr(xs) && tracker_stat_seq_ok(xs),
    }
}

fn get_opt_tracker_stats(entries: &Vec<(String, JsonValue)>, key: &str) -> (r: Result<
    Option<Vec<TrackerStat>>,
    DecodeError,
>)
    ensures
        r is Ok <==> opt_tracker_stats_ok(entry_reps_of(entries@), key@),
        r is Err ==> r == Err::<Option<Vec<TrackerStat>>, DecodeError>(DecodeError::MalformedArguments),
        r matches Ok(x) ==> (match lookup_in(entry_reps_of(entries@), key@) {
            None => x is None,
            Some(v) => v matches JsonRep::Arr(xs) && x matches Some(a) && a@.len() == xs.len()
                && (forall|i: int|
                0 <= i < xs.len() ==> tracker_stat_value_matches(#[trigger] a@[i], xs[i])),
        }),
{
    let k = key.to_owned();
    match lookup(entries, &k) {
        None => Ok(None),
        Some(x) => match x {
            JsonValue::Arr(items) => {
                proof {
                    assert(*x == JsonValue::Arr(*items));
                    lemma_rep_of_arr(*items);
                }
                match decode_tracker_stat_array(items) {
                    Ok(a) => Ok(Some(a)),
                    Err(_) => Err(DecodeError::MalformedArguments),
                }
            },
            _ => Err(DecodeError::MalformedArguments),
        },
    }
}

/// One bundle of transfer statistics.
#[derive(Debug, Clone)]
pub struct Stats {
    pub files_added: i32,
    pub downloaded_bytes: i64,
    pub uploaded_bytes: i64,
    pub seconds_active: i64,
    pub session_count: Option<i32>,
}

/// Whether an object's entries hold a well-formed `Stats` record.
pub open spec fn stats_decodable(o: Seq<(Seq<char>, JsonRep)>) -> bool {
    req_i32_ok(o, "filesAdded"@) && req_i64_ok(o, "downloadedBytes"@) && req_i64_ok(o, "uploadedBytes"@) && req_i64_ok(o, "secondsActive"@) && opt_i32_ok(o, "sessionCount"@)
}

/// Whether `x` is the `Stats` record those entries decode to, field by
/// field.
pub open spec fn stats_matches(x: Stats, o: Seq<(Seq<char>, JsonRep)>) -> bool {
    x.files_added == req_i32_of(o, "filesAdded"@) && x.downloaded_bytes == req_i64_of(o, "downloadedBytes"@) && x.uploaded_bytes == req_i64_of(o, "uploadedBytes"@) && x.seconds_active == req_i64_of(o, "secondsActive"@) && x.session_count == opt_i32_of(o, "sessionCount"@)
}

/// Whether `v` is an object holding a well-formed `Stats` record.
pub open spec fn stats_value_decodable(v: JsonRep) -> bool {
    v matches JsonRep::Obj(o) && stats_decodable(o)
}

/// Whether `x` is the `Stats` record the object `v` decodes to.
pub open spec fn stats_value_matches(x: Stats, v: JsonRep) -> bool {
    v matches JsonRep::Obj(o) && stats_matches(x, o)
}

impl Stats {
    /// Decodes a `Stats` record from an object.
    pub fn decode(v: &JsonValue) -> (r: Result<Stats, DecodeError>)
        ensures
            r is Ok <==> stats_value_decodable(rep_of(*v)),
            r is Err ==> r == Err::<Stats, DecodeError>(DecodeError::MalformedArguments),
            r matches Ok(x) ==> stats_value_matches(x, rep_of(*v)),
    {
        let entries = match v {
            JsonValue::Obj(es) => es,
            _ => {
                return Err(DecodeError::MalformedArguments);
            },
        };
        proof {
            assert(*v == JsonValue::Obj(*entries));
            lemma_rep_of_obj(*entries);
        }
        let files_added = get_req_i32(entries, "filesAdded")?;
        let downloaded_bytes = get_req_i64(entries, "downloadedBytes")?;
        let uploaded_bytes = get_req_i64(entries, "uploadedBytes")?;
        let seconds_active = get_req_i64(entries, "secondsActive")?;
        let session_count = get_opt_i32(entries, "sessionCount")?;
        Ok(Stats {
            files_added,
            downloaded_bytes,
            uploaded_bytes,
            seconds_active,
            session_count,
        })
    }
}
/// Whether the `Stats` field under `key` is present and well-formed.
pub open spec fn req_stats_ok(o: Seq<(Seq<char>, JsonRep)>, key: Seq<char>) -> bool {
    lookup_in(o, key) matches Some(v) && stats_value_decodable(v)
}

fn get_req_stats(entries: &Vec<(String, JsonValue)>, key: &str) -> (r: Result<Stats, DecodeError>)
    ensures
        r is Ok <==> req_stats_ok(entry_reps_of(entries@), key@),
        r is Err ==> r == Err::<Stats, DecodeError>(DecodeError::MalformedArguments),
        r matches Ok(x) ==> (lookup_in(entry_reps_of(entries@), key@) matches Some(v)
            && stats_value_matches(x, v)),
{
    let k = key.to_owned();
    match lookup(entries, &k) {
        None => Err(DecodeError::MalformedArguments),
        Some(v) => match Stats::decode(v) {
            Ok(x) => Ok(x),
            Err(_) => Err(DecodeError::MalformedArguments),
        },
    }
}


/// One torrent, with every field the protocol may report.  A field the
/// request did not ask for stays `None`.
#[derive(Debug, Clone)]
pub struct Torrent {
    pub activity_date: Option<Timestamp>,
    pub added_date: Option<Timestamp>,
    /// How many connected peers have each piece, `-1` where the
    /// piece is already held.
    pub availability: Option<Vec<i16>>,
    pub bandwidth_priority: Option<Priority>,
    pub comment: Option<String>,
    pub corrupt_ever: Option<u64>,
    pub creator: Option<String>,
    pub date_created: Option<Timestamp>,
    pub desired_available: Option<u64>,
    pub done_date: Option<Timestamp>,
    pub download_dir: Option<String>,
    pub downloaded_ever: Option<u64>,
    pub download_limit: Option<u64>,
    pub download_limited: Option<bool>,
    pub edit_date: Option<Timestamp>,
    pub error: Option<ErrorType>,
    pub error_string: Option<String>,
    pub eta: Option<i64>,
    pub eta_idle: Option<i64>,
    pub group: Option<String>,
    pub hash_string: Option<String>,
    pub have_unchecked: Option<u64>,
    pub have_valid: Option<u64>,
    pub honors_session_limits: Option<bool>,
    pub id: Option<i64>,
    pub is_finished: Option<bool>,
    pub is_private: Option<bool>,
    pub is_stalled: Option<bool>,
    pub labels: Option<Vec<String>>,
    pub left_until_done: Option<i64>,
    pub magnet_link: Option<String>,
    pub manual_announce_time: Option<Timestamp>,
    pub max_connected_peers: Option<u16>,
    pub name: Option<String>,
    pub peer_limit: Option<u16>,
    pub peers: Option<Vec<Peer>>,
    pub peers_connected: Option<i64>,
    pub peers_from: Option<PeersFrom>,
    pub peers_getting_from_us: Option<i64>,
    pub peers_sending_to_us: Option<i64>,
    /// The piece-completion bitfield, decoded from base64.
    pub pieces: Option<Pieces>,
    pub piece_count: Option<u64>,
    pub piece_size: Option<u64>,
    pub primary_mime_type: Option<String>,
    pub queue_position: Option<usize>,
    pub rate_download: Option<i64>,
    pub rate_upload: Option<i64>,
    pub seconds_downloading: Option<u64>,
    pub seconds_seeding: Option<i64>,
    pub seed_idle_limit: Option<u64>,
    pub seed_idle_mode: Option<IdleMode>,
    pub seed_ratio_mode: Option<RatioMode>,
    pub sequential_download: Option<bool>,
    pub size_when_done: Option<i64>,
    pub start_date: Option<Timestamp>,
    pub status: Option<TorrentStatus>,
    pub torrent_file: Option<String>,
    pub total_size: Option<i64>,
    pub trackers: Option<Vec<Trackers>>,
    pub tracker_list: Option<String>,
    pub tracker_stats: Option<Vec<TrackerStat>>,
    pub uploaded_ever: Option<i64>,
    pub upload_limit: Option<u64>,
    pub upload_limited: Option<bool>,
    pub files: Option<Vec<File>>,
    /// For each file, whether it will be downloaded.
    pub wanted: Option<Vec<bool>>,
    pub webseeds: Option<Vec<String>>,
    pub webseeds_sending_to_us: Option<u16>,
    pub priorities: Option<Vec<Priority>>,
    pub file_stats: Option<Vec<FileStat>>,
    pub file_count: Option<usize>,
}

/// Whether an object's entries hold a well-formed `Torrent` record.
pub open spec fn torrent_decodable(o: Seq<(Seq<char>, JsonRep)>) -> bool {
    opt_ts_ok(o, "activityDate"@) && opt_ts_ok(o, "addedDate"@) && opt_i16_vec_ok(o, "availability"@) && opt_priority_ok(o, "bandwidthPriority"@) && opt_string_ok(o, "comment"@) && opt_u64_ok(o, "corruptEver"@) && opt_string_ok(o, "creator"@) && opt_ts_ok(o, "dateCreated"@) && opt_u64_ok(o, "desiredAvailable"@) && opt_ts_ok(o, "doneDate"@) && opt_string_ok(o, "downloadDir"@) && opt_u64_ok(o, "downloadedEver"@) && opt_u64_ok(o, "downloadLimit"@) && opt_bool_ok(o, "downloadLimited"@) && opt_ts_ok(o, "editDate"@) && opt_error_type_ok(o, "error"@) && opt_string_ok(o, "errorString"@) && opt_i64_ok(o, "eta"@) && opt_i64_ok(o, "etaIdle"@) && opt_string_ok(o, "group"@) && opt_string_ok(o, "hashString"@) && opt_u64_ok(o, "haveUnchecked"@) && opt_u64_ok(o, "haveValid"@) && opt_bool_ok(o, "honorsSessionLimits"@) && opt_i64_ok(o, "id"@) && opt_bool_ok(o, "isFinished"@) && opt_bool_ok(o, "isPrivate"@) && opt_bool_ok(o, "isStalled"@) && opt_str_vec_ok(o, "labels"@) && opt_i64_ok(o, "leftUntilDone"@) && opt_string_ok(o, "magnetLink"@) && opt_ts_ok(o, "manualAnnounceTime"@) && opt_u16_ok(o, "maxConnectedPeers"@) && opt_string_ok(o, "name"@) && opt_u16_ok(o, "peer-limit"@) && opt_peers_ok(o, "peers"@) && opt_i64_ok(o, "peersConnected"@) && opt_peers_from_ok(o, "peersFrom"@) && opt_i64_ok(o, "peersGettingFromUs"@) && opt_i64_ok(o, "peersSendingToUs"@) && opt_pieces_ok(o, "pieces"@) && opt_u64_ok(o, "pieceCount"@) && opt_u64_ok(o, "pieceSize"@) && opt_string_ok(o, "primary-mime-type"@) && opt_usize_ok(o, "queuePosition"@) && opt_i64_ok(o, "rateDownload"@) && opt_i64_ok(o, "rateUpload"@) && opt_u64_ok(o, "secondsDownloading"@) && opt_i64_ok(o, "secondsSeeding"@) && opt_u64_ok(o, "seedIdleLimit"@) && opt_idle_mode_ok(o, "seedIdleMode"@) && opt_ratio_mode_ok(o, "seedRatioMode"@) && opt_bool_ok(o, "sequentialDownload"@) && opt_i64_ok(o, "sizeWhenDone"@) && opt_ts_ok(o, "startDate"@) && opt_status_ok(o, "status"@) && opt_string_ok(o, "torrentFile"@) && opt_i64_ok(o, "totalSize"@) && opt_trackerss_ok(o, "trackers"@) && opt_string_ok(o, "trackerList"@) && opt_tracker_stats_ok(o, "trackerStats"@) && opt_i64_ok(o, "uploadedEver"@) && opt_u64_ok(o, "uploadLimit"@) && opt_bool_ok(o, "uploadLimited"@) && opt_files_ok(o, "files"@) && opt_wanted_vec_ok(o, "wanted"@) && opt_str_vec_ok(o, "webseeds"@) && opt_u16_ok(o, "webseedsSendingToUs"@) && opt_prio_vec_ok(o, "priorities"@) && opt_file_stats_ok(o, "fileStats"@) && opt_usize_ok(o, "file-count"@)
}

/// Whether `x` is the `Torrent` record those entries decode to, field by
/// field.
pub open spec fn torrent_matches(x: Torrent, o: Seq<(Seq<char>, JsonRep)>) -> bool {
    x.activity_date == opt_ts_of(o, "activityDate"@) && x.added_date == opt_ts_of(o, "addedDate"@) && (match lookup_in(o, "availability"@) {
        None => x.availability is None,
        Some(v) => v matches JsonRep::Arr(xs) && x.availability matches Some(a) && a@ == i16_seq_of(xs),
    }) && x.bandwidth_priority == opt_priority_of(o, "bandwidthPriority"@) && opt_str_view(x.comment) == opt_string_of(o, "comment"@) && x.corrupt_ever == opt_u64_of(o, "corruptEver"@) && opt_str_view(x.creator) == opt_string_of(o, "creator"@) && x.date_created == opt_ts_of(o, "dateCreated"@) && x.desired_available == opt_u64_of(o, "desiredAvailable"@) && x.done_date == opt_ts_of(o, "doneDate"@) && opt_str_view(x.download_dir) == opt_string_of(o, "downloadDir"@) && x.downloaded_ever == opt_u64_of(o, "downloadedEver"@) && x.download_limit == opt_u64_of(o, "downloadLimit"@) && x.download_limited == opt_bool_of(o, "downloadLimited"@) && x.edit_date == opt_ts_of(o, "editDate"@) && x.error == opt_error_type_of(o, "error"@) && opt_str_view(x.error_string) == opt_string_of(o, "errorString"@) && x.eta == opt_i64_of(o, "eta"@) && x.eta_idle == opt_i64_of(o, "etaIdle"@) && opt_str_view(x.group) == opt_string_of(o, "group"@) && opt_str_view(x.hash_string) == opt_string_of(o, "hashString"@) && x.have_unchecked == opt_u64_of(o, "haveUnchecked"@) && x.have_valid == opt_u64_of(o, "haveValid"@) && x.honors_session_limits == opt_bool_of(o, "honorsSessionLimits"@) && x.id == opt_i64_of(o, "id"@) && x.is_finished == opt_bool_of(o, "isFinished"@) && x.is_private == opt_bool_of(o, "isPrivate"@) && x.is_stalled == opt_bool_of(o, "isStalled"@) && (match lookup_in(o, "labels"@) {
        None => x.labels is None,
        Some(v) => v matches JsonRep::Arr(xs) && x.labels matches Some(a) && str_views(a@)
            == str_seq_of(xs),
    }) && x.left_until_done == opt_i64_of(o, "leftUntilDone"@) && opt_str_view(x.magnet_link) == opt_string_of(o, "magnetLink"@) && x.manual_announce_time == opt_ts_of(o, "manualAnnounceTime"@) && x.max_connected_peers == opt_u16_of(o, "maxConnectedPeers"@) && opt_str_view(x.name) == opt_string_of(o, "name"@) && x.peer_limit == opt_u16_of(o, "peer-limit"@) && (match lookup_in(o, "peers"@) {
        None => x.peers is None,
        Some(v) => v matches JsonRep::Arr(xs) && x.peers matches Some(a) && a@.len() == xs.len()
            && (forall|i: int| 0 <= i < xs.len() ==> peer_value_matches(#[trigger] a@[i], xs[i])),
    }) && x.peers_connected == opt_i64_of(o, "peersConnected"@) && (match lookup_in(o, "peersFrom"@) {
        None => x.peers_from is None,
        Some(v) => x.peers_from matches Some(pf) && peers_from_value_matches(pf, v),
    }) && x.peers_getting_from_us == opt_i64_of(o, "peersGettingFromUs"@) && x.peers_sending_to_us == opt_i64_of(o, "peersSendingToUs"@) && (match lookup_in(o, "pieces"@) {
        None => x.pieces is None,
        Some(v) => v matches JsonRep::Str(s) && x.pieces matches Some(p) && Some(p.bitfield@)
            == base64_decoding_of(s),
    }) && x.piece_count == opt_u64_of(o, "pieceCount"@) && x.piece_size == opt_u64_of(o, "pieceSize"@) && opt_str_view(x.primary_mime_type) == opt_string_of(o, "primary-mime-type"@) && x.queue_position == opt_usize_of(o, "queuePosition"@) && x.rate_download == opt_i64_of(o, "rateDownload"@) && x.rate_upload == opt_i64_of(o, "rateUpload"@) && x.seconds_downloading == opt_u64_of(o, "secondsDownloading"@) && x.seconds_seeding == opt_i64_of(o, "secondsSeeding"@) && x.seed_idle_limit == opt_u64_of(o, "seedIdleLimit"@) && x.seed_idle_mode == opt_idle_mode_of(o, "seedIdleMode"@) && x.seed_ratio_mode == opt_ratio_mode_of(o, "seedRatioMode"@) && x.sequential_download == opt_bool_of(o, "sequentialDownload"@) && x.size_when_done == opt_i64_of(o, "sizeWhenDone"@) && x.start_date == opt_ts_of(o, "startDate"@) && x.status == opt_status_of(o, "status"@) && opt_str_view(x.torrent_file) == opt_string_of(o, "torrentFile"@) && x.total_size == opt_i64_of(o, "totalSize"@) && (match lookup_in(o, "trackers"@) {
        None => x.trackers is None,
        Some(v) => v matches JsonRep::Arr(xs) && x.trackers matches Some(a) && a@.len() == xs.len()
            && (forall|i: int| 0 <= i < xs.len() ==> trackers_value_matches(#[trigger] a@[i], xs[i])),
    }) && opt_str_view(x.tracker_list) == opt_string_of(o, "trackerList"@) && (match lookup_in(o, "trackerStats"@) {
        None => x.tracker_stats is None,
        Some(v) => v matches JsonRep::Arr(xs) && x.tracker_stats matches Some(a) && a@.len() == xs.len()
            && (forall|i: int| 0 <= i < xs.len() ==> tracker_stat_value_matches(#[trigger] a@[i], xs[i])),
    }) && x.uploaded_ever == opt_i64_of(o, "uploadedEver"@) && x.upload_limit == opt_u64_of(o, "uploadLimit"@) && x.upload_limited == opt_bool_of(o, "uploadLimited"@) && (match lookup_in(o, "files"@) {
        None => x.files is None,
        Some(v) => v matches JsonRep::Arr(xs) && x.files matches Some(a) && a@.len() == xs.len()
            && (forall|i: int| 0 <= i < xs.len() ==> file_value_matches(#[trigger] a@[i], xs[i])),
    }) && (match lookup_in(o, "wanted"@) {
        None => x.wanted is None,
        Some(v) => v matches JsonRep::Arr(xs) && x.wanted matches Some(a) && a@ == wanted_seq_of(xs),
    }) && (match lookup_in(o, "webseeds"@) {
        None => x.webseeds is None,
        Some(v) => v matches JsonRep::Arr(xs) && x.webseeds matches Some(a) && str_views(a@)
            == str_seq_of(xs),
    }) && x.webseeds_sending_to_us == opt_u16_of(o, "webseedsSendingToUs"@) && (match lookup_in(o, "priorities"@) {
        None => x.priorities is None,
        Some(v) => v matches JsonRep::Arr(xs) && x.priorities matches Some(a) && a@ == prio_seq_of(xs),
    }) && (match lookup_in(o, "fileStats"@) {
        None => x.file_stats is None,
        Some(v) => v matches JsonRep::Arr(xs) && x.file_stats matches Some(a) && a@.len() == xs.len()
            && (forall|i: int| 0 <= i < xs.len() ==> file_stat_value_matches(#[trigger] a@[i], xs[i])),
    }) && x.file_count == opt_usize_of(o, "file-count"@)
}

/// Whether `v` is an object holding a well-formed `Torrent` record.
pub open spec fn torrent_value_decodable(v: JsonRep) -> bool {
    v matches JsonRep::Obj(o) && torrent_decodable(o)
}

/// Whether `x` is the `Torrent` record the object `v` decodes to.
pub open spec fn torrent_value_matches(x: Torrent, v: JsonRep) -> bool {
    v matches JsonRep::Obj(o) && torrent_matches(x, o)
}

impl Torrent {
    /// Decodes a `Torrent` record from an object.
    #[verifier::rlimit(100)]
    pub fn decode(v: &JsonValue) -> (r: Result<Torrent, DecodeError>)
        ensures
            r is Ok <==> torrent_value_decodable(rep_of(*v)),
            r is Err ==> r == Err::<Torrent, DecodeError>(DecodeError::MalformedArguments),
            r matches Ok(x) ==> torrent_value_matches(x, rep_of(*v)),
    {
        let entries = match v {
            JsonValue::Obj(es) => es,
            _ => {
                return Err(DecodeError::MalformedArguments);
            },
        };
        proof {
            assert(*v == JsonValue::Obj(*entries));
            lemma_rep_of_obj(*entries);
        }
        let activity_date = get_opt_ts(entries, "activityDate")?;
        let added_date = get_opt_ts(entries, "addedDate")?;
        let availability = get_opt_i16_vec(entries, "availability")?;
        let bandwidth_priority = get_opt_priority(entries, "bandwidthPriority")?;
        let comment = get_opt_string(entries, "comment")?;
        let corrupt_ever = get_opt_u64(entries, "corruptEver")?;
        let creator = get_opt_string(entries, "creator")?;
        let date_created = get_opt_ts(entries, "dateCreated")?;
        let desired_available = get_opt_u64(entries, "desiredAvailable")?;
        let done_date = get_opt_ts(entries, "doneDate")?;
        let download_dir = get_opt_string(entries, "downloadDir")?;
        let downloaded_ever = get_opt_u64(entries, "downloadedEver")?;
        let download_limit = get_opt_u64(entries, "downloadLimit")?;
        let download_limited = get_opt_bool(entries, "downloadLimited")?;
        let edit_date = get_opt_ts(entries, "editDate")?;
        let error = get_opt_error_type(entries, "error")?;
        let error_string = get_opt_string(entries, "errorString")?;
        let eta = get_opt_i64(entries, "eta")?;
        let eta_idle = get_opt_i64(entries, "etaIdle")?;
        let group = get_opt_string(entries, "group")?;
        let hash_string = get_opt_string(entries, "hashString")?;
        let have_unchecked = get_opt_u64(entries, "haveUnchecked")?;
        let have_valid = get_opt_u64(entries, "haveValid")?;
        let honors_session_limits = get_opt_bool(entries, "honorsSessionLimits")?;
        let id = get_opt_i64(entries, "id")?;
        let is_finished = get_opt_bool(entries, "isFinished")?;
        let is_private = get_opt_bool(entries, "isPrivate")?;
        let is_stalled = get_opt_bool(entries, "isStalled")?;
        let labels = get_opt_str_vec(entries, "labels")?;
        let left_until_done = get_opt_i64(entries, "leftUntilDone")?;
        let magnet_link = get_opt_string(entries, "magnetLink")?;
        let manual_announce_time = get_opt_ts(entries, "manualAnnounceTime")?;
        let max_connected_peers = get_opt_u16(entries, "maxConnectedPeers")?;
        let name = get_opt_string(entries, "name")?;
        let peer_limit = get_opt_u16(entries, "peer-limit")?;
        let peers = get_opt_peers(entries, "peers")?;
        let peers_connected = get_opt_i64(entries, "peersConnected")?;
        let peers_from = get_opt_peers_from(entries, "peersFrom")?;
        let peers_getting_from_us = get_opt_i64(entries, "peersGettingFromUs")?;
        let peers_sending_to_us = get_opt_i64(entries, "peersSendingToUs")?;
        let pieces = get_opt_pieces(entries, "pieces")?;
        let piece_count = get_opt_u64(entries, "pieceCount")?;
        let piece_size = get_opt_u64(entries, "pieceSize")?;
        let primary_mime_type = get_opt_string(entries, "primary-mime-type")?;
        let queue_position = get_opt_usize(entries, "queuePosition")?;
        let rate_download = get_opt_i64(entries, "rateDownload")?;
        let rate_upload = get_opt_i64(entries, "rateUpload")?;
        let seconds_downloading = get_opt_u64(entries, "secondsDownloading")?;
        let seconds_seeding = get_opt_i64(entries, "secondsSeeding")?;
        let seed_idle_limit = get_opt_u64(entries, "seedIdleLimit")?;
        let seed_idle_mode = get_opt_idle_mode(entries, "seedIdleMode")?;
        let seed_ratio_mode = get_opt_ratio_mode(entries, "seedRatioMode")?;
        let sequential_download = get_opt_bool(entries, "sequentialDownload")?;
        let size_when_done = get_opt_i64(entries, "sizeWhenDone")?;
        let start_date = get_opt_ts(entries, "startDate")?;
        let status = get_opt_status(entries, "status")?;
        let torrent_file = get_opt_string(entries, "torrentFile")?;
        let total_size = get_opt_i64(entries, "totalSize")?;
        let trackers = get_opt_trackerss(entries, "trackers")?;
        let tracker_list = get_opt_string(entries, "trackerList")?;
        let tracker_stats = get_opt_tracker_stats(entries, "trackerStats")?;
        let uploaded_ever = get_opt_i64(entries, "uploadedEver")?;
        let upload_limit = get_opt_u64(entries, "uploadLimit")?;
        let upload_limited = get_opt_bool(entries, "uploadLimited")?;
        let files = get_opt_files(entries, "files")?;
        let wanted = get_opt_wanted_vec(entries, "wanted")?;
        let webseeds = get_opt_str_vec(entries, "webseeds")?;
        let webseeds_sending_to_us = get_opt_u16(entries, "webseedsSendingToUs")?;
        let priorities = get_opt_prio_vec(entries, "priorities")?;
        let file_stats = get_opt_file_stats(entries, "fileStats")?;
        let file_count = get_opt_usize(entries, "file-count")?;
        Ok(Torrent {
            activity_date,
            added_date,
            availability,
            bandwidth_priority,
            comment,
            corrupt_ever,
            creator,
            date_created,
            desired_available,
            done_date,
            download_dir,
            downloaded_ever,
            download_limit,
            download_limited,
            edit_date,
            error,
            error_string,
            eta,
            eta_idle,
            group,
            hash_string,
            have_unchecked,
            have_valid,
            honors_session_limits,
            id,
            is_finished,
            is_private,
            is_stalled,
            labels,
            left_until_done,
            magnet_link,
            manual_announce_time,
            max_connected_peers,
            name,
            peer_limit,
            peers,
            peers_connected,
            peers_from,
            peers_getting_from_us,
            peers_sending_to_us,
            pieces,
            piece_count,
            piece_size,
            primary_mime_type,
            queue_position,
            rate_download,
            rate_upload,
            seconds_downloading,
            seconds_seeding,
            seed_idle_limit,
            seed_idle_mode,
            seed_ratio_mode,
            sequential_download,
            size_when_done,
            start_date,
            status,
            torrent_file,
            total_size,
            trackers,
            tracker_list,
            tracker_stats,
            uploaded_ever,
            upload_limit,
            upload_limited,
            files,
            wanted,
            webseeds,
            webseeds_sending_to_us,
            priorities,
            file_stats,
            file_count,
        })
    }

    /// Either the numeric id or the hash string, both unique handles the
    /// server accepts.
    pub fn id(&self) -> (r: Option<Id>)
        ensures
            match self.id {
                Some(i) => r == Some(Id::Id(i)),
                None => match self.hash_string {
                    Some(_) => r matches Some(x) && x matches Id::Hash(h) && Some(h@)
                        == opt_str_view(self.hash_string),
                    None => r is None,
                },
            },
    {
        match self.id {
            Some(i) => Some(Id::Id(i)),
            None => match &self.hash_string {
                Some(h) => Some(Id::Hash(h.clone())),
                None => None,
            },
        }
    }
}
/// Whether every element is an object holding a well-formed `Torrent`.
pub open spec fn torrent_seq_ok(xs: Seq<JsonRep>) -> bool {
    forall|i: int| 0 <= i < xs.len() ==> torrent_value_decodable(#[trigger] xs[i])
}

fn decode_torrent_array(items: &Vec<JsonValue>) -> (r: Result<Vec<Torrent>, DecodeError>)
    ensures
        r is Ok <==> torrent_seq_ok(reps_of(items@)),
        r is Err ==> r == Err::<Vec<Torrent>, DecodeError>(DecodeError::MalformedArguments),
        r matches Ok(a) ==> a@.len() == items@.len() && (forall|i: int|
            0 <= i < items@.len() ==> torrent_value_matches(#[trigger] a@[i], reps_of(items@)[i])),
{
    let ghost xs = reps_of(items@);
    let mut out: Vec<Torrent> = Vec::new();
    let mut j: usize = 0;
    while j < items.len()
        invariant
            j <= items.len(),
            out@.len() == j,
            xs == reps_of(items@),
            xs.len() == items@.len(),
            forall|l: int| 0 <= l < j ==> torrent_value_decodable(#[trigger] xs[l]),
            forall|l: int| 0 <= l < j ==> torrent_value_matches(#[trigger] out@[l], xs[l]),
        decreases items.len() - j,
    {
        proof {
            assert(xs[j as int] == rep_of(items@[j as int]));
        }
        match Torrent::decode(&items[j]) {
            Ok(x) => out.push(x),
            Err(_) => {
                return Err(DecodeError::MalformedArguments);
            },
        }
        j = j + 1;
    }
    Ok(out)
}

/// Whether the `Torrent` array field under `key` is absent or well-formed.
pub open spec fn opt_torrents_ok(o: Seq<(Seq<char>, JsonRep)>, key: Seq<char>) -> bool {
    match lookup_in(o, key) {
        None => true,
        Some(v) => v matches JsonRep::Arr(xs) && torrent_seq_ok(xs),
    }
}

fn get_opt_torrents(entries: &Vec<(String, JsonValue)>, key: &str) -> (r: Result<
    Option<Vec<Torrent>>,
    DecodeError,
>)
    ensures
        r is Ok <==> opt_torrents_ok(entry_reps_of(entries@), key@),
        r is Err ==> r == Err::<Option<Vec<Torrent>>, DecodeError>(DecodeError::MalformedArguments),
        r matches Ok(x) ==> (match lookup_in(entry_reps_of(entries@), key@) {
            None => x is None,
            Some(v) => v matches JsonRep::Arr(xs) && x matches Some(a) && a@.len() == xs.len()
                && (forall|i: int|
                0 <= i < xs.len() ==> torrent_value_matches(#[trigger] a@[i], xs[i])),
        }),
{
    let k = key.to_owned();
    match lookup(entries, &k) {
        None => Ok(None),
        Some(x) => match x {
            JsonValue::Arr(items) => {
                proof {
                    assert(*x == JsonValue::Arr(*items));
                    lemma_rep_of_arr(*items);
                }
                match decode_torrent_array(items) {
                    Ok(a) => Ok(Some(a)),
                    Err(_) => Err(DecodeError::MalformedArguments),
                }
            },
            _ => Err(DecodeError::MalformedArguments),
        },
    }
}

/// A typed result payload: how the `arguments` object of a response
/// decodes into this type.
pub trait RpcResponseArgument: Sized {
    /// Whether these object entries hold a well-formed payload.
    spec fn spec_decodable(o: Seq<(Seq<char>, JsonRep)>) -> bool;

    /// Whether `self` is the payload those entries decode to.
    spec fn spec_matches(self, o: Seq<(Seq<char>, JsonRep)>) -> bool;

    /// Decodes the payload from the `arguments` object.
    fn decode_args(v: &JsonValue) -> (r: Result<Self, DecodeError>)
        ensures
            r is Ok <==> (rep_of(*v) matches JsonRep::Obj(o) && Self::spec_decodable(o)),
            r is Err ==> r == Err::<Self, DecodeError>(DecodeError::MalformedArguments),
            r matches Ok(x) ==> (rep_of(*v) matches JsonRep::Obj(o) && x.spec_matches(o)),
    ;
}

/// The empty result of `session-set`.
#[derive(Debug, Clone)]
pub struct SessionSet {
}

/// Whether an object's entries hold a well-formed `SessionSet` record.
pub open spec fn session_set_decodable(o: Seq<(Seq<char>, JsonRep)>) -> bool {
    true
}

/// Whether `x` is the `SessionSet` record those entries decode to, field by
/// field.
pub open spec fn session_set_matches(x: SessionSet, o: Seq<(Seq<char>, JsonRep)>) -> bool {
    true
}

/// Whether `v` is an object holding a well-formed `SessionSet` record.
pub open spec fn session_set_value_decodable(v: JsonRep) -> bool {
    v matches JsonRep::Obj(o) && session_set_decodable(o)
}

/// Whether `x` is the `SessionSet` record the object `v` decodes to.
pub open spec fn session_set_value_matches(x: SessionSet, v: JsonRep) -> bool {
    v matches JsonRep::Obj(o) && session_set_matches(x, o)
}

impl SessionSet {
    /// Decodes a `SessionSet` record from an object.
    pub fn decode(v: &JsonValue) -> (r: Result<SessionSet, DecodeError>)
        ensures
            r is Ok <==> session_set_value_decodable(rep_of(*v)),
            r is Err ==> r == Err::<SessionSet, DecodeError>(DecodeError::MalformedArguments),
            r matches Ok(x) ==> session_set_value_matches(x, rep_of(*v)),
    {
        let entries = match v {
            JsonValue::Obj(es) => es,
            _ => {
                return Err(DecodeError::MalformedArguments);
            },
        };
        proof {
            assert(*v == JsonValue::Obj(*entries));
            lemma_rep_of_obj(*entries);
        }
        Ok(SessionSet {
        })
    }
}
impl RpcResponseArgument for SessionSet {
    open spec fn spec_decodable(o: Seq<(Seq<char>, JsonRep)>) -> bool {
        session_set_decodable(o)
    }

    open spec fn spec_matches(self, o: Seq<(Seq<char>, JsonRep)>) -> bool {
        session_set_matches(self, o)
    }

    fn decode_args(v: &JsonValue) -> (r: Result<Self, DecodeError>) {
        Self::decode(v)
    }
}

/// The empty result of `session-close`.
#[derive(Debug, Clone)]
pub struct SessionClose {
}

/// Whether an object's entries hold a well-formed `SessionClose` record.
pub open spec fn session_close_decodable(o: Seq<(Seq<char>, JsonRep)>) -> bool {
    true
}

/// Whether `x` is the `SessionClose` record those entries decode to, field by
/// field.
pub open spec fn session_close_matches(x: SessionClose, o: Seq<(Seq<char>, JsonRep)>) -> bool {
    true
}

/// Whether `v` is an object holding a well-formed `SessionClose` record.
pub open spec fn session_close_value_decodable(v: JsonRep) -> bool {
    v matches JsonRep::Obj(o) && session_close_decodable(o)
}

/// Whether `x` is the `SessionClose` record the object `v` decodes to.
pub open spec fn session_close_value_matches(x: SessionClose, v: JsonRep) -> bool {
    v matches JsonRep::Obj(o) && session_close_matches(x, o)
}

impl SessionClose {
    /// Decodes a `SessionClose` record from an object.
    pub fn decode(v: &JsonValue) -> (r: Result<SessionClose, DecodeError>)
        ensures
            r is Ok <==> session_close_value_decodable(rep_of(*v)),
            r is Err ==> r == Err::<SessionClose, DecodeError>(DecodeError::MalformedArguments),
            r matches Ok(x) ==> session_close_value_matches(x, rep_of(*v)),
    {
        let entries = match v {
            JsonValue::Obj(es) => es,
            _ => {
                return Err(DecodeError::MalformedArguments);
            },
        };
        proof {
            assert(*v == JsonValue::Obj(*entries));
            lemma_rep_of_obj(*entries);
        }
        Ok(SessionClose {
        })
    }
}
impl RpcResponseArgument for SessionClose {
    open spec fn spec_decodable(o: Seq<(Seq<char>, JsonRep)>) -> bool {
        session_close_decodable(o)
    }

    open spec fn spec_matches(self, o: Seq<(Seq<char>, JsonRep)>) -> bool {
        session_close_matches(self, o)
    }

    fn decode_args(v: &JsonValue) -> (r: Result<Self, DecodeError>) {
        Self::decode(v)
    }
}

/// An empty result.
#[derive(Debug)]
pub struct Nothing {
}

/// Whether an object's entries hold a well-formed `Nothing` record.
pub open spec fn nothing_decodable(o: Seq<(Seq<char>, JsonRep)>) -> bool {
    true
}

/// Whether `x` is the `Nothing` record those entries decode to, field by
/// field.
pub open spec fn nothing_matches(x: Nothing, o: Seq<(Seq<char>, JsonRep)>) -> bool {
    true
}

/// Whether `v` is an object holding a well-formed `Nothing` record.
pub open spec fn nothing_value_decodable(v: JsonRep) -> bool {
    v matches JsonRep::Obj(o) && nothing_decodable(o)
}

/// Whether `x` is the `Nothing` record the object `v` decodes to.
pub open spec fn nothing_value_matches(x: Nothing, v: JsonRep) -> bool {
    v matches JsonRep::Obj(o) && nothing_matches(x, o)
}

impl Nothing {
    /// Decodes a `Nothing` record from an object.
    pub fn decode(v: &JsonValue) -> (r: Result<Nothing, DecodeError>)
        ensures
            r is Ok <==> nothing_value_decodable(rep_of(*v)),
            r is Err ==> r == Err::<Nothing, DecodeError>(DecodeError::MalformedArguments),
            r matches Ok(x) ==> nothing_value_matches(x, rep_of(*v)),
    {
        let entries = match v {
            JsonValue::Obj(es) => es,
            _ => {
                return Err(DecodeError::MalformedArguments);
            },
        };
        proof {
            assert(*v == JsonValue::Obj(*entries));
            lemma_rep_of_obj(*entries);
        }
        Ok(Nothing {
        })
    }
}
impl RpcResponseArgument for Nothing {
    open spec fn spec_decodable(o: Seq<(Seq<char>, JsonRep)>) -> bool {
        nothing_decodable(o)
    }

    open spec fn spec_matches(self, o: Seq<(Seq<char>, JsonRep)>) -> bool {
        nothing_matches(self, o)
    }

    fn decode_args(v: &JsonValue) -> (r: Result<Self, DecodeError>) {
        Self::decode(v)
    }
}

/// The session settings `session-get` reports.
#[derive(Debug, Clone)]
pub struct SessionGet {
    pub blocklist_enabled: bool,
    pub download_dir: String,
    pub encryption: String,
    pub rpc_version: i32,
    pub rpc_version_minimum: i32,
    pub version: String,
}

/// Whether an object's entries hold a well-formed `SessionGet` record.
pub open spec fn session_get_decodable(o: Seq<(Seq<char>, JsonRep)>) -> bool {
    req_bool_ok(o, "blocklist-enabled"@) && req_string_ok(o, "download-dir"@) && req_string_ok(o, "encryption"@) && req_i32_ok(o, "rpc-version"@) && req_i32_ok(o, "rpc-version-minimum"@) && req_string_ok(o, "version"@)
}

/// Whether `x` is the `SessionGet` record those entries decode to, field by
/// field.
pub open spec fn session_get_matches(x: SessionGet, o: Seq<(Seq<char>, JsonRep)>) -> bool {
    x.blocklist_enabled == req_bool_of(o, "blocklist-enabled"@) && x.download_dir@ == req_string_of(o, "download-dir"@) && x.encryption@ == req_string_of(o, "encryption"@) && x.rpc_version == req_i32_of(o, "rpc-version"@) && x.rpc_version_minimum == req_i32_of(o, "rpc-version-minimum"@) && x.version@ == req_string_of(o, "version"@)
}

/// Whether `v` is an object holding a well-formed `SessionGet` record.
pub open spec fn session_get_value_decodable(v: JsonRep) -> bool {
    v matches JsonRep::Obj(o) && session_get_decodable(o)
}

/// Whether `x` is the `SessionGet` record the object `v` decodes to.
pub open spec fn session_get_value_matches(x: SessionGet, v: JsonRep) -> bool {
    v matches JsonRep::Obj(o) && session_get_matches(x, o)
}

impl SessionGet {
    /// Decodes a `SessionGet` record from an object.
    pub fn decode(v: &JsonValue) -> (r: Result<SessionGet, DecodeError>)
        ensures
            r is Ok <==> session_get_value_decodable(rep_of(*v)),
            r is Err ==> r == Err::<SessionGet, DecodeError>(DecodeError::MalformedArguments),
            r matches Ok(x) ==> session_get_value_matches(x, rep_of(*v)),
    {
        let entries = match v {
            JsonValue::Obj(es) => es,
            _ => {
                return Err(DecodeError::MalformedArguments);
            },
        };
        proof {
            assert(*v == JsonValue::Obj(*entries));
            lemma_rep_of_obj(*entries);
        }
        let blocklist_enabled = get_req_bool(entries, "blocklist-enabled")?;
        let download_dir = get_req_string(entries, "download-dir")?;
        let encryption = get_req_string(entries, "encryption")?;
        let rpc_version = get_req_i32(entries, "rpc-version")?;
        let rpc_version_minimum = get_req_i32(entries, "rpc-version-minimum")?;
        let version = get_req_string(entries, "version")?;
        Ok(SessionGet {
            blocklist_enabled,
            download_dir,
            encryption,
            rpc_version,
            rpc_version_minimum,
            version,
        })
    }
}
impl RpcResponseArgument for SessionGet {
    open spec fn spec_decodable(o: Seq<(Seq<char>, JsonRep)>) -> bool {
        session_get_decodable(o)
    }

    open spec fn spec_matches(self, o: Seq<(Seq<char>, JsonRep)>) -> bool {
        session_get_matches(self, o)
    }

    fn decode_args(v: &JsonValue) -> (r: Result<Self, DecodeError>) {
        Self::decode(v)
    }
}

/// The counters `session-stats` reports.
#[derive(Debug, Clone)]
pub struct SessionStats {
    pub torrent_count: i32,
    pub active_torrent_count: i32,
    pub paused_torrent_count: i32,
    pub download_speed: i64,
    pub upload_speed: i64,
    pub current_stats: Stats,
    pub cumulative_stats: Stats,
}

/// Whether an object's entries hold a well-formed `SessionStats` record.
pub open spec fn session_stats_decodable(o: Seq<(Seq<char>, JsonRep)>) -> bool {
    req_i32_ok(o, "torrentCount"@) && req_i32_ok(o, "activeTorrentCount"@) && req_i32_ok(o, "pausedTorrentCount"@) && req_i64_ok(o, "downloadSpeed"@) && req_i64_ok(o, "uploadSpeed"@) && req_stats_ok(o, "current-stats"@) && req_stats_ok(o, "cumulative-stats"@)
}

/// Whether `x` is the `SessionStats` record those entries decode to, field by
/// field.
pub open spec fn session_stats_matches(x: SessionStats, o: Seq<(Seq<char>, JsonRep)>) -> bool {
    x.torrent_count == req_i32_of(o, "torrentCount"@) && x.active_torrent_count == req_i32_of(o, "activeTorrentCount"@) && x.paused_torrent_count == req_i32_of(o, "pausedTorrentCount"@) && x.download_speed == req_i64_of(o, "downloadSpeed"@) && x.upload_speed == req_i64_of(o, "uploadSpeed"@) && (lookup_in(o, "current-stats"@) matches Some(v) && stats_value_matches(x.current_stats, v)) && (lookup_in(o, "cumulative-stats"@) matches Some(v) && stats_value_matches(x.cumulative_stats, v))
}

/// Whether `v` is an object holding a well-formed `SessionStats` record.
pub open spec fn session_stats_value_decodable(v: JsonRep) -> bool {
    v matches JsonRep::Obj(o) && session_stats_decodable(o)
}

/// Whether `x` is the `SessionStats` record the object `v` decodes to.
pub open spec fn session_stats_value_matches(x: SessionStats, v: JsonRep) -> bool {
    v matches JsonRep::Obj(o) && session_stats_matches(x, o)
}

impl SessionStats {
    /// Decodes a `SessionStats` record from an object.
    pub fn decode(v: &JsonValue) -> (r: Result<SessionStats, DecodeError>)
        ensures
            r is Ok <==> session_stats_value_decodable(rep_of(*v)),
            r is Err ==> r == Err::<SessionStats, DecodeError>(DecodeError::MalformedArguments),
            r matches Ok(x) ==> session_stats_value_matches(x, rep_of(*v)),
    {
        let entries = match v {
            JsonValue::Obj(es) => es,
            _ => {
                return Err(DecodeError::MalformedArguments);
            },
        };
        proof {
            assert(*v == JsonValue::Obj(*entries));
            lemma_rep_of_obj(*entries);
        }
        let torrent_count = get_req_i32(entries, "torrentCount")?;
        let active_torrent_count = get_req_i32(entries, "activeTorrentCount")?;
        let paused_torrent_count = get_req_i32(entries, "pausedTorrentCount")?;
        let download_speed = get_req_i64(entries, "downloadSpeed")?;
        let upload_speed = get_req_i64(entries, "uploadSpeed")?;
        let current_stats = get_req_stats(entries, "current-stats")?;
        let cumulative_stats = get_req_stats(entries, "cumulative-stats")?;
        Ok(SessionStats {
            torrent_count,
            active_torrent_count,
            paused_torrent_count,
            download_speed,
            upload_speed,
            current_stats,
            cumulative_stats,
        })
    }
}
impl RpcResponseArgument for SessionStats {
    open spec fn spec_decodable(o: Seq<(Seq<char>, JsonRep)>) -> bool {
        session_stats_decodable(o)
    }

    open spec fn spec_matches(self, o: Seq<(Seq<char>, JsonRep)>) -> bool {
        session_stats_matches(self, o)
    }

    fn decode_args(v: &JsonValue) -> (r: Result<Self, DecodeError>) {
        Self::decode(v)
    }
}

/// The result of `blocklist-update`.
#[derive(Debug, Clone)]
pub struct BlocklistUpdate {
    pub blocklist_size: Option<i32>,
}

/// Whether an object's entries hold a well-formed `BlocklistUpdate` record.
pub open spec fn blocklist_update_decodable(o: Seq<(Seq<char>, JsonRep)>) -> bool {
    opt_i32_ok(o, "blocklist-size"@)
}

/// Whether `x` is the `BlocklistUpdate` record those entries decode to, field by
/// field.
pub open spec fn blocklist_update_matches(x: BlocklistUpdate, o: Seq<(Seq<char>, JsonRep)>) -> bool {
    x.blocklist_size == opt_i32_of(o, "blocklist-size"@)
}

/// Whether `v` is an object holding a well-formed `BlocklistUpdate` record.
pub open spec fn blocklist_update_value_decodable(v: JsonRep) -> bool {
    v matches JsonRep::Obj(o) && blocklist_update_decodable(o)
}

/// Whether `x` is the `BlocklistUpdate` record the object `v` decodes to.
pub open spec fn blocklist_update_value_matches(x: BlocklistUpdate, v: JsonRep) -> bool {
    v matches JsonRep::Obj(o) && blocklist_update_matches(x, o)
}

impl BlocklistUpdate {
    /// Decodes a `BlocklistUpdate` record from an object.
    pub fn decode(v: &JsonValue) -> (r: Result<BlocklistUpdate, DecodeError>)
        ensures
            r is Ok <==> blocklist_update_value_decodable(rep_of(*v)),
            r is Err ==> r == Err::<BlocklistUpdate, DecodeError>(DecodeError::MalformedArguments),
            r matches Ok(x) ==> blocklist_update_value_matches(x, rep_of(*v)),
    {
        let entries = match v {
            JsonValue::Obj(es) => es,
            _ => {
                return Err(DecodeError::MalformedArguments);
            },
        };
        proof {
            assert(*v == JsonValue::Obj(*entries));
            lemma_rep_of_obj(*entries);
        }
        let blocklist_size = get_opt_i32(entries, "blocklist-size")?;
        Ok(BlocklistUpdate {
            blocklist_size,
        })
    }
}
impl RpcResponseArgument for BlocklistUpdate {
    open spec fn spec_decodable(o: Seq<(Seq<char>, JsonRep)>) -> bool {
        blocklist_update_decodable(o)
    }

    open spec fn spec_matches(self, o: Seq<(Seq<char>, JsonRep)>) -> bool {
        blocklist_update_matches(self, o)
    }

    fn decode_args(v: &JsonValue) -> (r: Result<Self, DecodeError>) {
        Self::decode(v)
    }
}

/// The result of `free-space`.
#[derive(Debug, Clone)]
pub struct FreeSpace {
    pub path: String,
    pub size_bytes: i64,
}

/// Whether an object's entries hold a well-formed `FreeSpace` record.
pub open spec fn free_space_decodable(o: Seq<(Seq<char>, JsonRep)>) -> bool {
    req_string_ok(o, "path"@) && req_i64_ok(o, "size-bytes"@)
}

/// Whether `x` is the `FreeSpace` record those entries decode to, field by
/// field.
pub open spec fn free_space_matches(x: FreeSpace, o: Seq<(Seq<char>, JsonRep)>) -> bool {
    x.path@ == req_string_of(o, "path"@) && x.size_bytes == req_i64_of(o, "size-bytes"@)
}

/// Whether `v` is an object holding a well-formed `FreeSpace` record.
pub open spec fn free_space_value_decodable(v: JsonRep) -> bool {
    v matches JsonRep::Obj(o) && free_space_decodable(o)
}

/// Whether `x` is the `FreeSpace` record the object `v` decodes to.
pub open spec fn free_space_value_matches(x: FreeSpace, v: JsonRep) -> bool {
    v matches JsonRep::Obj(o) && free_space_matches(x, o)
}

impl FreeSpace {
    /// Decodes a `FreeSpace` record from an object.
    pub fn decode(v: &JsonValue) -> (r: Result<FreeSpace, DecodeError>)
        ensures
            r is Ok <==> free_space_value_decodable(rep_of(*v)),
            r is Err ==> r == Err::<FreeSpace, DecodeError>(DecodeError::MalformedArguments),
            r matches Ok(x) ==> free_space_value_matches(x, rep_of(*v)),
    {
        let entries = match v {
            JsonValue::Obj(es) => es,
            _ => {
                return Err(DecodeError::MalformedArguments);
            },
        };
        proof {
            assert(*v == JsonValue::Obj(*entries));
            lemma_rep_of_obj(*entries);
        }
        let path = get_req_string(entries, "path")?;
        let size_bytes = get_req_i64(entries, "size-bytes")?;
        Ok(FreeSpace {
            path,
            size_bytes,
        })
    }
}
impl RpcResponseArgument for FreeSpace {
    open spec fn spec_decodable(o: Seq<(Seq<char>, JsonRep)>) -> bool {
        free_space_decodable(o)
    }

    open spec fn spec_matches(self, o: Seq<(Seq<char>, JsonRep)>) -> bool {
        free_space_matches(self, o)
    }

    fn decode_args(v: &JsonValue) -> (r: Result<Self, DecodeError>) {
        Self::decode(v)
    }
}

/// The result of `port-test`.
#[derive(Debug, Clone)]
pub struct PortTest {
    pub port_is_open: bool,
}

/// Whether an object's entries hold a well-formed `PortTest` record.
pub open spec fn port_test_decodable(o: Seq<(Seq<char>, JsonRep)>) -> bool {
    req_bool_ok(o, "port-is-open"@)
}

/// Whether `x` is the `PortTest` record those entries decode to, field by
/// field.
pub open spec fn port_test_matches(x: PortTest, o: Seq<(Seq<char>, JsonRep)>) -> bool {
    x.port_is_open == req_bool_of(o, "port-is-open"@)
}

/// Whether `v` is an object holding a well-formed `PortTest` record.
pub open spec fn port_test_value_decodable(v: JsonRep) -> bool {
    v matches JsonRep::Obj(o) && port_test_decodable(o)
}

/// Whether `x` is the `PortTest` record the object `v` decodes to.
pub open spec fn port_test_value_matches(x: PortTest, v: JsonRep) -> bool {
    v matches JsonRep::Obj(o) && port_test_matches(x, o)
}

impl PortTest {
    /// Decodes a `PortTest` record from an object.
    pub fn decode(v: &JsonValue) -> (r: Result<PortTest, DecodeError>)
        ensures
            r is Ok <==> port_test_value_decodable(rep_of(*v)),
            r is Err ==> r == Err::<PortTest, DecodeError>(DecodeError::MalformedArguments),
            r matches Ok(x) ==> port_test_value_matches(x, rep_of(*v)),
    {
        let entries = match v {
            JsonValue::Obj(es) => es,
            _ => {
                return Err(DecodeError::MalformedArguments);
            },
        };
        proof {
            assert(*v == JsonValue::Obj(*entries));
            lemma_rep_of_obj(*entries);
        }
        let port_is_open = get_req_bool(entries, "port-is-open")?;
        Ok(PortTest {
            port_is_open,
        })
    }
}
impl RpcResponseArgument for PortTest {
    open spec fn spec_decodable(o: Seq<(Seq<char>, JsonRep)>) -> bool {
        port_test_decodable(o)
    }

    open spec fn spec_matches(self, o: Seq<(Seq<char>, JsonRep)>) -> bool {
        port_test_matches(self, o)
    }

    fn decode_args(v: &JsonValue) -> (r: Result<Self, DecodeError>) {
        Self::decode(v)
    }
}

/// The result of `torrent-rename-path`.
#[derive(Debug, Clone)]
pub struct TorrentRenamePath {
    pub path: Option<String>,
    pub name: Option<String>,
    pub id: Option<i64>,
}

/// Whether an object's entries hold a well-formed `TorrentRenamePath` record.
pub open spec fn torrent_rename_path_decodable(o: Seq<(Seq<char>, JsonRep)>) -> bool {
    opt_string_ok(o, "path"@) && opt_string_ok(o, "name"@) && opt_i64_ok(o, "id"@)
}

/// Whether `x` is the `TorrentRenamePath` record those entries decode to, field by
/// field.
pub open spec fn torrent_rename_path_matches(x: TorrentRenamePath, o: Seq<(Seq<char>, JsonRep)>) -> bool {
    opt_str_view(x.path) == opt_string_of(o, "path"@) && opt_str_view(x.name) == opt_string_of(o, "name"@) && x.id == opt_i64_of(o, "id"@)
}

/// Whether `v` is an object holding a well-formed `TorrentRenamePath` record.
pub open spec fn torrent_rename_path_value_decodable(v: JsonRep) -> bool {
    v matches JsonRep::Obj(o) && torrent_rename_path_decodable(o)
}

/// Whether `x` is the `TorrentRenamePath` record the object `v` decodes to.
pub open spec fn torrent_rename_path_value_matches(x: TorrentRenamePath, v: JsonRep) -> bool {
    v matches JsonRep::Obj(o) && torrent_rename_path_matches(x, o)
}

impl TorrentRenamePath {
    /// Decodes a `TorrentRenamePath` record from an object.
    pub fn decode(v: &JsonValue) -> (r: Result<TorrentRenamePath, DecodeError>)
        ensures
            r is Ok <==> torrent_rename_path_value_decodable(rep_of(*v)),
            r is Err ==> r == Err::<TorrentRenamePath, DecodeError>(DecodeError::MalformedArguments),
            r matches Ok(x) ==> torrent_rename_path_value_matches(x, rep_of(*v)),
    {
        let entries = match v {
            JsonValue::Obj(es) => es,
            _ => {
                return Err(DecodeError::MalformedArguments);
            },
        };
        proof {
            assert(*v == JsonValue::Obj(*entries));
            lemma_rep_of_obj(*entries);
        }
        let path = get_opt_string(entries, "path")?;
        let name = get_opt_string(entries, "name")?;
        let id = get_opt_i64(entries, "id")?;
        Ok(TorrentRenamePath {
            path,
            name,
            id,
        })
    }
}
impl RpcResponseArgument for TorrentRenamePath {
    open spec fn spec_decodable(o: Seq<(Seq<char>, JsonRep)>) -> bool {
        torrent_rename_path_decodable(o)
    }

    open spec fn spec_matches(self, o: Seq<(Seq<char>, JsonRep)>) -> bool {
        torrent_rename_path_matches(self, o)
    }

    fn decode_args(v: &JsonValue) -> (r: Result<Self, DecodeError>) {
        Self::decode(v)
    }
}

/// The torrent list of a `torrent-get` response.
#[derive(Debug)]
pub struct Torrents<T> {
    pub torrents: Vec<T>,
}

/// Whether an object's entries hold a well-formed torrent list.
pub open spec fn torrents_decodable(o: Seq<(Seq<char>, JsonRep)>) -> bool {
    lookup_in(o, "torrents"@) matches Some(v) && v matches JsonRep::Arr(xs) && torrent_seq_ok(xs)
}

/// Whether `x` is the torrent list those entries decode to.
pub open spec fn torrents_matches(x: Torrents<Torrent>, o: Seq<(Seq<char>, JsonRep)>) -> bool {
    lookup_in(o, "torrents"@) matches Some(v) && v matches JsonRep::Arr(xs) && x.torrents@.len()
        == xs.len() && (forall|i: int|
        0 <= i < xs.len() ==> torrent_value_matches(#[trigger] x.torrents@[i], xs[i]))
}

impl RpcResponseArgument for Torrents<Torrent> {
    open spec fn spec_decodable(o: Seq<(Seq<char>, JsonRep)>) -> bool {
        torrents_decodable(o)
    }

    open spec fn spec_matches(self, o: Seq<(Seq<char>, JsonRep)>) -> bool {
        torrents_matches(self, o)
    }

    fn decode_args(v: &JsonValue) -> (r: Result<Self, DecodeError>) {
        let entries = match v {
            JsonValue::Obj(es) => es,
            _ => {
                return Err(DecodeError::MalformedArguments);
            },
        };
        proof {
            assert(*v == JsonValue::Obj(*entries));
            lemma_rep_of_obj(*entries);
        }
        let k = "torrents".to_owned();
        match lookup(entries, &k) {
            Some(x) => match x {
                JsonValue::Arr(items) => {
                    proof {
                        assert(*x == JsonValue::Arr(*items));
                        lemma_rep_of_arr(*items);
                    }
                    match decode_torrent_array(items) {
                        Ok(ts) => Ok(Torrents { torrents: ts }),
                        Err(_) => Err(DecodeError::MalformedArguments),
                    }
                },
                _ => Err(DecodeError::MalformedArguments),
            },
            None => Err(DecodeError::MalformedArguments),
        }
    }
}

/// The key-presence union of a `torrent-add` response: the server answers
/// with a `torrent-added` object, a `torrent-duplicate` object, or — when
/// the call failed — neither, which decodes to the explicit `Error` case
/// rather than a decode failure.
#[derive(Debug)]
pub enum TorrentAddedOrDuplicate {
    TorrentDuplicate(Torrent),
    TorrentAdded(Torrent),
    Error,
}

/// Whether every value in the object is a well-formed torrent record, as
/// the union's decoder demands of each entry it inspects.
pub open spec fn added_or_duplicate_decodable(o: Seq<(Seq<char>, JsonRep)>) -> bool {
    forall|i: int| 0 <= i < o.len() ==> torrent_value_decodable((#[trigger] o[i]).1)
}

/// Which variant the object's key set selects, and that the variant carries
/// the torrent under that key.
pub open spec fn added_or_duplicate_matches(
    x: TorrentAddedOrDuplicate,
    o: Seq<(Seq<char>, JsonRep)>,
) -> bool {
    match (lookup_in(o, "torrent-added"@), lookup_in(o, "torrent-duplicate"@)) {
        (Some(a), None) => x matches TorrentAddedOrDuplicate::TorrentAdded(t)
            && torrent_value_matches(t, a),
        (None, Some(d)) => x matches TorrentAddedOrDuplicate::TorrentDuplicate(t)
            && torrent_value_matches(t, d),
        _ => x is Error,
    }
}

impl RpcResponseArgument for TorrentAddedOrDuplicate {
    open spec fn spec_decodable(o: Seq<(Seq<char>, JsonRep)>) -> bool {
        added_or_duplicate_decodable(o)
    }

    open spec fn spec_matches(self, o: Seq<(Seq<char>, JsonRep)>) -> bool {
        added_or_duplicate_matches(self, o)
    }

    #[verifier::rlimit(50)]
    fn decode_args(v: &JsonValue) -> (r: Result<Self, DecodeError>) {
        let entries = match v {
            JsonValue::Obj(es) => es,
            _ => {
                return Err(DecodeError::MalformedArguments);
            },
        };
        proof {
            assert(*v == JsonValue::Obj(*entries));
            lemma_rep_of_obj(*entries);
        }
        let ghost es = entry_reps_of(entries@);
        let k_added = "torrent-added".to_owned();
        let k_dup = "torrent-duplicate".to_owned();
        let mut added: Option<Torrent> = None;
        let mut duplicate: Option<Torrent> = None;
        let mut j: usize = 0;
        proof {
            reveal_strlit("torrent-added");
            reveal_strlit("torrent-duplicate");
            assert(("torrent-added"@).len() != ("torrent-duplicate"@).len());
            assert("torrent-added"@ != "torrent-duplicate"@);
            assert(es.take(0) =~= Seq::<(Seq<char>, JsonRep)>::empty());
        }
        while j < entries.len()
            invariant
                j <= entries.len(),
                es == entry_reps_of(entries@),
                es.len() == entries@.len(),
                rep_of(*v) == JsonRep::Obj(es),
                k_added@ == "torrent-added"@,
                k_dup@ == "torrent-duplicate"@,
                "torrent-added"@ != "torrent-duplicate"@,
                forall|l: int| 0 <= l < j ==> torrent_value_decodable((#[trigger] es[l]).1),
                match lookup_in(es.take(j as int), "torrent-added"@) {
                    None => added is None,
                    Some(av) => added matches Some(t) && torrent_value_matches(t, av),
                },
                match lookup_in(es.take(j as int), "torrent-duplicate"@) {
                    None => duplicate is None,
                    Some(dv) => duplicate matches Some(t) && torrent_value_matches(t, dv),
                },
            decreases entries.len() - j,
        {
            proof {
                assert(es[j as int] == (entries@[j as int].0@, rep_of(entries@[j as int].1)));
            }
            let t = match Torrent::decode(&entries[j].1) {
                Ok(t) => t,
                Err(_) => {
                    return Err(DecodeError::MalformedArguments);
                },
            };
            if entries[j].0 == k_added {
                added = Some(t);
            } else if entries[j].0 == k_dup {
                duplicate = Some(t);
            }
            j = j + 1;
            proof {
                assert(es.take(j as int).last() == es[j - 1]);
                assert(es.take(j as int).drop_last() =~= es.take(j - 1));
            }
        }
        proof {
            assert(es.take(j as int) =~= es);
        }
        match (added, duplicate) {
            (Some(t), None) => Ok(TorrentAddedOrDuplicate::TorrentAdded(t)),
            (None, Some(t)) => Ok(TorrentAddedOrDuplicate::TorrentDuplicate(t)),
            _ => Ok(TorrentAddedOrDuplicate::Error),
        }
    }
}

/// Whether `o` is a response envelope: an object carrying an `arguments`
/// value and a `result` string.
pub open spec fn envelope_ok(o: JsonRep) -> bool {
    o matches JsonRep::Obj(es) && lookup_in(es, "arguments"@) is Some && (lookup_in(
        es,
        "result"@,
    ) matches Some(s) && s is Str)
}

/// The `arguments` value of an envelope.
pub open spec fn envelope_arguments(o: JsonRep) -> JsonRep {
    match o {
        JsonRep::Obj(es) => match lookup_in(es, "arguments"@) {
            Some(a) => a,
            None => JsonRep::Null,
        },
        _ => JsonRep::Null,
    }
}

/// The characters of the `result` string of an envelope.
pub open spec fn envelope_result(o: JsonRep) -> Seq<char> {
    match o {
        JsonRep::Obj(es) => match lookup_in(es, "result"@) {
            Some(s) => match s {
                JsonRep::Str(t) => t,
                _ => Seq::empty(),
            },
            None => Seq::empty(),
        },
        _ => Seq::empty(),
    }
}

/// One decoded response: the typed payload and the server's result string.
/// Any well-formed envelope decodes, whatever the result string says — an
/// application-level failure is data, not a transport error.
#[derive(Debug)]
pub struct RpcResponse<T: RpcResponseArgument> {
    pub arguments: T,
    pub result: String,
}

impl<T: RpcResponseArgument> RpcResponse<T> {
    /// Whether the server reported success: true exactly when `result` is
    /// the literal string `success`.
    pub fn is_ok(&self) -> (r: bool)
        ensures
            r == (self.result@ == "success"@),
    {
        let succ: String = "success".to_owned();
        self.result == succ
    }

    /// Decodes a response body: the envelope first, then the typed payload
    /// from its `arguments` object.
    pub fn decode(v: &JsonValue) -> (r: Result<RpcResponse<T>, DecodeError>)
        ensures
            r is Ok <==> (envelope_ok(rep_of(*v)) && (envelope_arguments(rep_of(*v))
                matches JsonRep::Obj(ao) && T::spec_decodable(ao))),
            r is Err ==> (if !envelope_ok(rep_of(*v)) {
                r == Err::<RpcResponse<T>, DecodeError>(DecodeError::MalformedEnvelope)
            } else {
                r == Err::<RpcResponse<T>, DecodeError>(DecodeError::MalformedArguments)
            }),
            r matches Ok(resp) ==> resp.result@ == envelope_result(rep_of(*v)) && (
            envelope_arguments(rep_of(*v)) matches JsonRep::Obj(ao)
                && resp.arguments.spec_matches(ao)),
    {
        let entries = match v {
            JsonValue::Obj(es) => es,
            _ => {
                return Err(DecodeError::MalformedEnvelope);
            },
        };
        proof {
            assert(*v == JsonValue::Obj(*entries));
            lemma_rep_of_obj(*entries);
        }
        let k_arguments = "arguments".to_owned();
        let args_value = match lookup(entries, &k_arguments) {
            Some(x) => x,
            None => {
                return Err(DecodeError::MalformedEnvelope);
            },
        };
        let k_result = "result".to_owned();
        let result = match lookup(entries, &k_result) {
            Some(JsonValue::Str(s)) => s.clone(),
            _ => {
                return Err(DecodeError::MalformedEnvelope);
            },
        };
        let arguments = match T::decode_args(args_value) {
            Ok(a) => a,
            Err(e) => {
                return Err(e);
            },
        };
        Ok(RpcResponse { arguments, result })
    }
}


} // verus!
