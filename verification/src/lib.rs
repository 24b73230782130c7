//! Connection options for an MQTT client session.
//!
//! A [`connect_options::ConnectOptionsBuilder`] collects the values a client
//! sends when it opens a session with a broker. Finalizing it yields a
//! [`connect_options::ConnectOptions`]: an immutable snapshot that owns its
//! credentials and sub-configurations, together with a fixed-layout
//! [`record::BoundaryRecord`] whose address fields designate that owned data.
//!
//! Addresses are modelled relative to their owner: an address field names a
//! storage slot of the aggregate that holds the record, so it can only ever
//! be resolved against the storage of that same aggregate.

pub mod connect_options;
pub mod encoding;
pub mod error;
pub mod interval;
pub mod record;
pub mod ssl_options;
pub mod will_options;
