use vstd::prelude::*;

verus! {

/// The value of an address field of a [`BoundaryRecord`].
///
/// An address is relative to the aggregate that holds the record: it is
/// either null or names one of that aggregate's own storage slots.
#[derive(Clone, Copy, Debug, PartialEq, Eq, Structural)]
pub enum Address {
    /// Designates nothing.
    Null,
    /// The owner's encoded user name.
    UserName,
    /// The owner's encoded password.
    Password,
    /// The owner's boxed last-will options.
    Will,
    /// The owner's boxed transport-security options.
    Security,
}

impl Address {
    /// Whether this address designates nothing.
    pub fn is_null(&self) -> (null: bool)
        ensures
            null == (*self == Address::Null),
    {
        match self {
            Address::Null => true,
            _ => false,
        }
    }
}

/// The fixed-layout value handed to the connect call: a format tag and
/// version, the scalar settings, and one address field for each piece of
/// data that lives outside the record.
#[derive(Clone, Copy, Debug, PartialEq, Eq)]
pub struct BoundaryRecord {
    /// Four-character code that identifies the record family.
    pub struct_id: [i8; 4],
    /// Layout version of the record.
    pub struct_version: i32,
    /// Longest silence between client and broker, in seconds.
    pub keep_alive_interval: u64,
    /// Nonzero when the broker is to discard stored session state.
    pub clean_session: i32,
    /// Upper bound on messages sent but not yet acknowledged.
    pub max_inflight: i32,
    /// Address of the last-will options.
    pub will: Address,
    /// Address of the encoded user name.
    pub username: Address,
    /// Address of the encoded password.
    pub password: Address,
    /// Time allowed for the connect to complete, in seconds.
    pub connect_timeout: u64,
    /// Delay between retries, in seconds.
    pub retry_interval: u64,
    /// Address of the transport-security options.
    pub ssl: Address,
    /// Nonzero when a lost connection is to be re-established.
    pub automatic_reconnect: i32,
    /// Shortest delay before a reconnect attempt, in seconds.
    pub min_retry_interval: u64,
    /// Longest delay before a reconnect attempt, in seconds.
    pub max_retry_interval: u64,
}

impl BoundaryRecord {
    /// The record of a fresh configuration: tag `MQTC`, version 5, every
    /// scalar zero and every address null.
    pub open spec fn initial() -> BoundaryRecord {
        BoundaryRecord {
            struct_id: [77i8, 81i8, 84i8, 67i8],
            struct_version: 5,
            keep_alive_interval: 0,
            clean_session: 0,
            max_inflight: 0,
            will: Address::Null,
            username: Address::Null,
            password: Address::Null,
            connect_timeout: 0,
            retry_interval: 0,
            ssl: Address::Null,
            automatic_reconnect: 0,
            min_retry_interval: 0,
            max_retry_interval: 0,
        }
    }

    /// This record with its four address fields replaced.
    pub open spec fn with_addresses(
        self,
        will: Address,
        ssl: Address,
        username: Address,
        password: Address,
    ) -> BoundaryRecord {
        BoundaryRecord { will, ssl, username, password, ..self }
    }

    /// Whether `self` and `other` agree on the tag, the version and every
    /// scalar setting, whatever their address fields hold.
    pub open spec fn same_scalars(self, other: BoundaryRecord) -> bool {
        self.with_addresses(other.will, other.ssl, other.username, other.password) == other
    }
}

impl Default for BoundaryRecord {
    fn default() -> (record: BoundaryRecord)
        ensures
            record == BoundaryRecord::initial(),
    {
        BoundaryRecord {
            struct_id: [77i8, 81i8, 84i8, 67i8],
            struct_version: 5,
            keep_alive_interval: 0,
            clean_session: 0,
            max_inflight: 0,
            will: Address::Null,
            username: Address::Null,
            password: Address::Null,
            connect_timeout: 0,
            retry_interval: 0,
            ssl: Address::Null,
            automatic_reconnect: 0,
            min_retry_interval: 0,
            max_retry_interval: 0,
        }
    }
}

} // verus!
