//! DNS service discovery (DNS-SD) client logic, verified.
//!
//! The data and the decisions of an asynchronous client for the DNS-SD C
//! API: the TXT record codec, status codes and errors, interfaces, DNS
//! classes and types, flag sets, the decoding of every kind of reply, and
//! the state machines that drive result streams (fusing after an error,
//! idle timeouts, the failure latch of a shared connection, record
//! lifetimes and socket readiness).
use vstd::prelude::*;

pub mod dns_consts;
pub mod error;
pub mod flags;
pub mod interface;
pub mod readiness;
pub mod records;
pub mod service;
pub mod stream;
pub mod txt_record;

pub use dns_consts::{Class, Type};
pub use error::{DNSServiceError, Error, InputError};
pub use flags::{
    BrowsedFlags, EnumeratedFlags, QueriedRecordFlags, QueryRecordFlags, RegisterFlags,
    RegisterRecordFlags, RegisteredFlags, ResolvedFlags, ResolvedHostFlags,
};
pub use interface::{Interface, InterfaceIndex};
pub use records::{full_name_from_buffer, FullName, Record, RecordUpdate};
pub use service::{
    decode_a, decode_aaaa, BrowseData, BrowseResult, Enumerate, EnumerateResult,
    NonExhaustiveMarker, QueryRecordData, QueryRecordResult, RegisterData, RegisterRecordData,
    RegisterResult, ResolveHostData, ResolveHostResult, ResolveResult, ScopedSocketAddr,
    MAX_DOMAIN_NAME,
};
pub use txt_record::{TxtRecord, TxtRecordError, TxtRecordIter};
