//! The protocol's data types: requests, responses, and the values shared
//! between them.

use vstd::prelude::*;

pub mod request;
pub mod response;

pub use request::{
    ArgumentFields, Args, FreeSpaceArgs, Method, QueueMoveArgs, RpcRequest, SessionSetArgs,
    TorrentAction, TorrentActionArgs, TorrentAddArgs, TorrentGetArgs, TorrentGetField,
    TorrentRemoveArgs, TorrentRenamePathArgs, TorrentSetArgs, TorrentSetLocationArgs, TrackerList,
};
pub use response::{
    BlocklistUpdate, DecodeError, ErrorType, File, FileStat, FreeSpace, Nothing, Peer, PeersFrom,
    Pieces, PortTest, RpcResponse, RpcResponseArgument, SessionClose, SessionGet, SessionSet,
    SessionStats, Stats, Timestamp, Torrent, TorrentAddedOrDuplicate, TorrentRenamePath,
    TorrentStatus, Torrents, TrackerStat, TrackerState, Trackers,
};

verus! {

/// Credentials for HTTP basic authentication.
#[derive(Debug, Clone)]
pub struct BasicAuth {
    pub user: String,
    pub password: String,
}

/// A torrent identifier as the protocol names one: either the numeric id
/// assigned by the server or the content-hash string.  On the wire it is a
/// bare JSON number or string, with no tag.
#[derive(Debug, Clone, PartialEq, Eq, PartialOrd, Ord, Hash)]
pub enum Id {
    Id(i64),
    Hash(String),
}

/// A file's bandwidth priority.
#[derive(Debug, Clone, Copy, PartialEq, Eq, Structural)]
pub enum Priority {
    Low,
    Normal,
    High,
}

impl Priority {
    /// The integer this priority is encoded as on the wire.
    pub open spec fn spec_wire(self) -> int {
        match self {
            Priority::Low => -1,
            Priority::Normal => 0,
            Priority::High => 1,
        }
    }

    /// The priority a wire integer decodes to, if any.
    pub open spec fn spec_of_wire(i: int) -> Option<Priority> {
        if i == -1 {
            Some(Priority::Low)
        } else if i == 0 {
            Some(Priority::Normal)
        } else if i == 1 {
            Some(Priority::High)
        } else {
            None
        }
    }

    pub fn to_wire(&self) -> (r: i64)
        ensures
            r as int == self.spec_wire(),
    {
        match self {
            Priority::Low => -1,
            Priority::Normal => 0,
            Priority::High => 1,
        }
    }

    pub fn from_wire(i: i64) -> (r: Option<Priority>)
        ensures
            r == Self::spec_of_wire(i as int),
    {
        if i == -1 {
            Some(Priority::Low)
        } else if i == 0 {
            Some(Priority::Normal)
        } else if i == 1 {
            Some(Priority::High)
        } else {
            None
        }
    }
}

/// Which idle-seeding limit applies to a torrent.
#[derive(Debug, Clone, Copy, PartialEq, Eq, Hash, Structural)]
pub enum IdleMode {
    Global,
    Single,
    Unlimited,
}

impl IdleMode {
    /// The integer this mode is encoded as on the wire.
    pub open spec fn spec_wire(self) -> int {
        match self {
            IdleMode::Global => 0,
            IdleMode::Single => 1,
            IdleMode::Unlimited => 2,
        }
    }

    /// The mode a wire integer decodes to, if any.
    pub open spec fn spec_of_wire(i: int) -> Option<IdleMode> {
        if i == 0 {
            Some(IdleMode::Global)
        } else if i == 1 {
            Some(IdleMode::Single)
        } else if i == 2 {
            Some(IdleMode::Unlimited)
        } else {
            None
        }
    }

    pub fn to_wire(&self) -> (r: i64)
        ensures
            r as int == self.spec_wire(),
    {
        match self {
            IdleMode::Global => 0,
            IdleMode::Single => 1,
            IdleMode::Unlimited => 2,
        }
    }

    pub fn from_wire(i: i64) -> (r: Option<IdleMode>)
        ensures
            r == Self::spec_of_wire(i as int),
    {
        if i == 0 {
            Some(IdleMode::Global)
        } else if i == 1 {
            Some(IdleMode::Single)
        } else if i == 2 {
            Some(IdleMode::Unlimited)
        } else {
            None
        }
    }
}

/// Which seed-ratio limit applies to a torrent.
#[derive(Debug, Clone, Copy, PartialEq, Eq, Hash, Structural)]
pub enum RatioMode {
    Global,
    Single,
    Unlimited,
}

impl RatioMode {
    /// The integer this mode is encoded as on the wire.
    pub open spec fn spec_wire(self) -> int {
        match self {
            RatioMode::Global => 0,
            RatioMode::Single => 1,
            RatioMode::Unlimited => 2,
        }
    }

    /// The mode a wire integer decodes to, if any.
    pub open spec fn spec_of_wire(i: int) -> Option<RatioMode> {
        if i == 0 {
            Some(RatioMode::Global)
        } else if i == 1 {
            Some(RatioMode::Single)
        } else if i == 2 {
            Some(RatioMode::Unlimited)
        } else {
            None
        }
    }

    pub fn to_wire(&self) -> (r: i64)
        ensures
            r as int == self.spec_wire(),
    {
        match self {
            RatioMode::Global => 0,
            RatioMode::Single => 1,
            RatioMode::Unlimited => 2,
        }
    }

    pub fn from_wire(i: i64) -> (r: Option<RatioMode>)
        ensures
            r == Self::spec_of_wire(i as int),
    {
        if i == 0 {
            Some(RatioMode::Global)
        } else if i == 1 {
            Some(RatioMode::Single)
        } else if i == 2 {
            Some(RatioMode::Unlimited)
        } else {
            None
        }
    }
}

} // verus!
