use vstd::prelude::*;

use crate::dns_consts::{Class, Type};
use crate::error::{c_string_ok, check_c_string, error_for, is_success_code, Error, InputError};
use crate::flags::{
    BrowsedFlags, EnumeratedFlags, QueriedRecordFlags, QueryRecordFlags, RegisterFlags,
    RegisterRecordFlags, RegisteredFlags, ResolvedFlags, ResolvedHostFlags,
    FLAGS_BROWSE_DOMAINS, FLAGS_REGISTRATION_DOMAINS,
};
use crate::interface::{interface_from_raw, Interface};

verus! {

/// Maximum length of a full name, the trailing dot and the terminating NUL
/// included.
pub const MAX_DOMAIN_NAME: usize = 1009;

/// Marker that keeps option structs open for new fields while allowing
/// `..Default::default()` updates.
#[derive(Clone, Copy, PartialEq, Eq, Structural, PartialOrd, Ord, Hash, Debug, Default)]
pub struct NonExhaustiveMarker;

/// A port in network byte order: most significant byte first.
pub open spec fn network_port_value(b: (u8, u8)) -> u16 {
    (b.0 as u16 * 256 + b.1 as u16) as u16
}

/// Bytes of a host-order port in network byte order.
pub fn port_to_network(port: u16) -> (r: (u8, u8))
    ensures
        r.0 == port / 256,
        r.1 == port % 256,
        network_port_value(r) == port,
{
    ((port / 256) as u8, (port % 256) as u8)
}

/// Host-order port from its bytes in network byte order.
pub fn port_from_network(b: (u8, u8)) -> (r: u16)
    ensures
        r == network_port_value(b),
        r == b.0 * 256 + b.1,
{
    b.0 as u16 * 256 + b.1 as u16
}

/// A port survives the trip to network byte order and back, and the first
/// byte on the wire is its most significant one.
pub proof fn lemma_port_round_trip(port: u16)
    ensures
        network_port_value(((port / 256) as u8, (port % 256) as u8)) == port,
        ((port / 256) as u8) as int * 256 + ((port % 256) as u8) as int == port,
{
}

/// Whether to enumerate domains which are browsed or domains for which
/// registrations can be made.
#[derive(Clone, Copy, PartialEq, Eq, Structural, PartialOrd, Ord, Hash, Debug)]
pub enum Enumerate {
    /// enumerate domains which can be browsed
    BrowseDomains,
    /// enumerate domains to register services/records on
    RegistrationDomains,
}

impl Enumerate {
    /// The flag word selecting this kind of enumeration.
    pub fn into_flags(self) -> (r: u32)
        ensures
            r == (match self {
                Enumerate::BrowseDomains => FLAGS_BROWSE_DOMAINS,
                Enumerate::RegistrationDomains => FLAGS_REGISTRATION_DOMAINS,
            }),
    {
        match self {
            Enumerate::BrowseDomains => FLAGS_BROWSE_DOMAINS,
            Enumerate::RegistrationDomains => FLAGS_REGISTRATION_DOMAINS,
        }
    }
}

/// Browse result
#[derive(Clone, PartialEq, Eq, PartialOrd, Ord, Hash, Debug)]
pub struct BrowseResult {
    /// Flags indicating whether the service was added or removed and
    /// whether there are more pending results.
    pub flags: BrowsedFlags,
    /// Interface the service was found on.
    pub interface: Interface,
    /// Name of the service.
    pub service_name: String,
    /// Type of the service
    pub reg_type: String,
    /// Domain the service was found in
    pub domain: String,
}

impl BrowseResult {
    /// Decode the values of one browse reply.
    pub fn from_reply(
        error_code: i32,
        flags: u32,
        interface_index: u32,
        service_name: String,
        reg_type: String,
        domain: String,
    ) -> (r: Result<BrowseResult, Error>)
        ensures
            r is Ok <==> is_success_code(error_code),
            r matches Err(e) ==> error_for(error_code, e),
            r matches Ok(b) ==> b.flags@ == flags & BrowsedFlags::mask() && b.interface
                == interface_from_raw(interface_index) && b.service_name@ == service_name@
                && b.reg_type@ == reg_type@ && b.domain@ == domain@,
    {
        match Error::from(error_code) {
            Err(e) => Err(e),
            Ok(()) => Ok(
                BrowseResult {
                    flags: BrowsedFlags::from_bits_truncate(flags),
                    interface: Interface::from_raw(interface_index),
                    service_name,
                    reg_type,
                    domain,
                },
            ),
        }
    }
}

/// Resolve result
#[derive(Clone, PartialEq, Eq, PartialOrd, Ord, Hash, Debug)]
pub struct ResolveResult {
    /// flags
    pub flags: ResolvedFlags,
    /// interface service was resolved on
    pub interface: Interface,
    /// full name of service
    pub fullname: String,
    /// hostname the service is provided on
    pub host_target: String,
    /// port the service is provided on (native endian)
    pub port: u16,
    /// TXT RDATA describing service parameters
    pub txt: Vec<u8>,
}

impl ResolveResult {
    /// Decode the values of one resolve reply; the port comes as its two
    /// bytes in network byte order.
    pub fn from_reply(
        error_code: i32,
        flags: u32,
        interface_index: u32,
        fullname: String,
        host_target: String,
        port: (u8, u8),
        txt: Vec<u8>,
    ) -> (r: Result<ResolveResult, Error>)
        ensures
            r is Ok <==> is_success_code(error_code),
            r matches Err(e) ==> error_for(error_code, e),
            r matches Ok(b) ==> b.flags@ == flags & ResolvedFlags::mask() && b.interface
                == interface_from_raw(interface_index) && b.fullname@ == fullname@
                && b.host_target@ == host_target@ && b.port == network_port_value(port)
                && b.txt@ == txt@,
    {
        match Error::from(error_code) {
            Err(e) => Err(e),
            Ok(()) => Ok(
                ResolveResult {
                    flags: ResolvedFlags::from_bits_truncate(flags),
                    interface: Interface::from_raw(interface_index),
                    fullname,
                    host_target,
                    port: port_from_network(port),
                    txt,
                },
            ),
        }
    }
}

/// Service registration result
#[derive(Clone, PartialEq, Eq, PartialOrd, Ord, Hash, Debug)]
pub struct RegisterResult {
    /// flags
    pub flags: RegisteredFlags,
    /// if `NO_AUTO_RENAME` was set this is the original name, otherwise it
    /// might be different.
    pub name: String,
    /// the registered service type
    pub reg_type: String,
    /// domain the service was registered on
    pub domain: String,
}

impl RegisterResult {
    /// Decode the values of one registration reply.
    pub fn from_reply(
        error_code: i32,
        flags: u32,
        name: String,
        reg_type: String,
        domain: String,
    ) -> (r: Result<RegisterResult, Error>)
        ensures
            r is Ok <==> is_success_code(error_code),
            r matches Err(e) ==> error_for(error_code, e),
            r matches Ok(b) ==> b.flags@ == flags & RegisteredFlags::mask() && b.name@ == name@
                && b.reg_type@ == reg_type@ && b.domain@ == domain@,
    {
        match Error::from(error_code) {
            Err(e) => Err(e),
            Ok(()) => Ok(
                RegisterResult {
                    flags: RegisteredFlags::from_bits_truncate(flags),
                    name,
                    reg_type,
                    domain,
                },
            ),
        }
    }
}

/// Query result
#[derive(Clone, PartialEq, Eq, PartialOrd, Ord, Hash, Debug)]
pub struct QueryRecordResult {
    /// flags
    pub flags: QueriedRecordFlags,
    /// interface the record was found on
    pub interface: Interface,
    /// name of record
    pub fullname: String,
    /// type of record
    pub rr_type: Type,
    /// class of record
    pub rr_class: Class,
    /// wire RDATA of record
    pub rdata: Vec<u8>,
    /// TTL (time to live) of record
    pub ttl: u32,
}

impl QueryRecordResult {
    /// Decode the values of one query reply.
    pub fn from_reply(
        error_code: i32,
        flags: u32,
        interface_index: u32,
        fullname: String,
        rr_type: u16,
        rr_class: u16,
        rdata: Vec<u8>,
        ttl: u32,
    ) -> (r: Result<QueryRecordResult, Error>)
        ensures
            r is Ok <==> is_success_code(error_code),
            r matches Err(e) ==> error_for(error_code, e),
            r matches Ok(b) ==> b.flags@ == flags & QueriedRecordFlags::mask() && b.interface
                == interface_from_raw(interface_index) && b.fullname@ == fullname@ && b.rr_type
                == Type(rr_type) && b.rr_class == Class(rr_class) && b.rdata@ == rdata@ && b.ttl
                == ttl,
    {
        match Error::from(error_code) {
            Err(e) => Err(e),
            Ok(()) => Ok(
                QueryRecordResult {
                    flags: QueriedRecordFlags::from_bits_truncate(flags),
                    interface: Interface::from_raw(interface_index),
                    fullname,
                    rr_type: Type(rr_type),
                    rr_class: Class(rr_class),
                    rdata,
                    ttl,
                },
            ),
        }
    }
}

/// Domain enumeration result
#[derive(Clone, PartialEq, Eq, PartialOrd, Ord, Hash, Debug)]
pub struct EnumerateResult {
    /// flags
    pub flags: EnumeratedFlags,
    /// interface domain was found on
    pub interface: Interface,
    /// domain name
    pub domain: String,
}

impl EnumerateResult {
    /// Decode the values of one domain enumeration reply.
    pub fn from_reply(error_code: i32, flags: u32, interface_index: u32, domain: String) -> (r:
        Result<EnumerateResult, Error>)
        ensures
            r is Ok <==> is_success_code(error_code),
            r matches Err(e) ==> error_for(error_code, e),
            r matches Ok(b) ==> b.flags@ == flags & EnumeratedFlags::mask() && b.interface
                == interface_from_raw(interface_index) && b.domain@ == domain@,
    {
        match Error::from(error_code) {
            Err(e) => Err(e),
            Ok(()) => Ok(
                EnumerateResult {
                    flags: EnumeratedFlags::from_bits_truncate(flags),
                    interface: Interface::from_raw(interface_index),
                    domain,
                },
            ),
        }
    }
}

/// IP address with port and "scope id" (even for IPv4)
#[derive(Clone, Copy, PartialEq, Eq, PartialOrd, Ord, Hash, Debug)]
#[allow(inconsistent_fields)]
pub enum ScopedSocketAddr {
    /// IPv4 target
    V4 {
        /// IP address octets
        address: [u8; 4],
        /// Port
        port: u16,
        /// Scope id (interface index; 0 for any)
        scope_id: u32,
    },
    /// IPv6 target
    V6 {
        /// IP address octets
        address: [u8; 16],
        /// Port
        port: u16,
        /// Scope id (interface index; 0 for any)
        scope_id: u32,
    },
}

/// Resolve host result
#[derive(Clone, PartialEq, Eq, PartialOrd, Ord, Hash, Debug)]
pub struct ResolveHostResult {
    /// flags
    pub flags: ResolvedHostFlags,
    /// address
    pub address: ScopedSocketAddr,
}

/// Whether a query result is a usable address record of the given type and
/// length.
pub open spec fn is_address_record(a: QueryRecordResult, rr_type: u16, len: nat) -> bool {
    a.rr_class == Class(1) && a.rr_type == Type(rr_type) && a.rdata@.len() == len
}

/// Turn an `A` record into an IPv4 address result; other records are
/// dropped.
pub fn decode_a(a: QueryRecordResult, port: u16) -> (r: Option<ResolveHostResult>)
    ensures
        r.is_some() <==> is_address_record(a, 1, 4),
        r matches Some(h) ==> h.flags@ == a.flags@ & ResolvedHostFlags::mask() && (
        h.address matches ScopedSocketAddr::V4 { address, port: p, scope_id } && address@
            == a.rdata@ && p == port && scope_id == a.interface.scope_id_spec()),
{
    if a.rr_class == Class::IN() && a.rr_type == Type::A() && a.rdata.len() == 4 {
        let d = &a.rdata;
        let octets: [u8; 4] = [d[0], d[1], d[2], d[3]];
        assert(octets@ =~= a.rdata@);
        Some(
            ResolveHostResult {
                flags: ResolvedHostFlags::from_bits_truncate(a.flags.bits()),
                address: ScopedSocketAddr::V4 {
                    address: octets,
                    port,
                    scope_id: a.interface.scope_id(),
                },
            },
        )
    } else {
        None
    }
}

/// Turn an `AAAA` record into an IPv6 address result; other records are
/// dropped.
pub fn decode_aaaa(a: QueryRecordResult, port: u16) -> (r: Option<ResolveHostResult>)
    ensures
        r.is_some() <==> is_address_record(a, 28, 16),
        r matches Some(h) ==> h.flags@ == a.flags@ & ResolvedHostFlags::mask() && (
        h.address matches ScopedSocketAddr::V6 { address, port: p, scope_id } && address@
            == a.rdata@ && p == port && scope_id == a.interface.scope_id_spec()),
{
    if a.rr_class == Class::IN() && a.rr_type == Type::AAAA() && a.rdata.len() == 16 {
        let d = &a.rdata;
        let octets: [u8; 16] = [
            d[0],
            d[1],
            d[2],
            d[3],
            d[4],
            d[5],
            d[6],
            d[7],
            d[8],
            d[9],
            d[10],
            d[11],
            d[12],
            d[13],
            d[14],
            d[15],
        ];
        assert(octets@ =~= a.rdata@);
        Some(
            ResolveHostResult {
                flags: ResolvedHostFlags::from_bits_truncate(a.flags.bits()),
                address: ScopedSocketAddr::V6 {
                    address: octets,
                    port,
                    scope_id: a.interface.scope_id(),
                },
            },
        )
    } else {
        None
    }
}

/// Optional data when browsing for a service
#[derive(Clone, Copy, PartialEq, Eq, PartialOrd, Ord, Hash, Debug)]
pub struct BrowseData<'a> {
    /// interface to query records on
    pub interface: Interface,
    /// domain on which to search for the service
    pub domain: Option<&'a str>,
    /// Keeps the struct open for new fields.
    pub _non_exhaustive: NonExhaustiveMarker,
}

impl<'a> Default for BrowseData<'a> {
    fn default() -> (r: BrowseData<'a>)
        ensures
            r.interface == Interface::Any,
            r.domain is None,
    {
        BrowseData { interface: Interface::Any, domain: None, _non_exhaustive: NonExhaustiveMarker }
    }
}

/// Optional data when querying for a record
#[derive(Clone, Copy, PartialEq, Eq, PartialOrd, Ord, Hash, Debug)]
pub struct QueryRecordData {
    /// flags for query
    pub flags: QueryRecordFlags,
    /// interface to query records on
    pub interface: Interface,
    /// class of the resource record (default: `IN`)
    pub rr_class: Class,
    /// Keeps the struct open for new fields.
    pub _non_exhaustive: NonExhaustiveMarker,
}

impl Default for QueryRecordData {
    fn default() -> (r: QueryRecordData)
        ensures
            r.flags@ == 0,
            r.interface == Interface::Any,
            r.rr_class == Class(1),
    {
        QueryRecordData {
            flags: QueryRecordFlags::empty(),
            interface: Interface::Any,
            rr_class: Class::IN(),
            _non_exhaustive: NonExhaustiveMarker,
        }
    }
}

/// Optional data when resolving a host name
#[derive(Clone, Copy, PartialEq, Eq, PartialOrd, Ord, Hash, Debug)]
pub struct ResolveHostData {
    /// flags for query
    pub flags: QueryRecordFlags,
    /// interface to query records on
    pub interface: Interface,
    /// Keeps the struct open for new fields.
    pub _non_exhaustive: NonExhaustiveMarker,
}

impl Default for ResolveHostData {
    fn default() -> (r: ResolveHostData)
        ensures
            r.flags@ == 0,
            r.interface == Interface::Any,
    {
        ResolveHostData {
            flags: QueryRecordFlags::empty(),
            interface: Interface::Any,
            _non_exhaustive: NonExhaustiveMarker,
        }
    }
}

/// Optional data when registering a record
#[derive(Clone, Copy, PartialEq, Eq, PartialOrd, Ord, Hash, Debug)]
pub struct RegisterRecordData {
    /// flags for registration
    pub flags: RegisterRecordFlags,
    /// interface to register record on
    pub interface: Interface,
    /// class of the resource record (default: `IN`)
    pub rr_class: Class,
    /// time to live of the resource record in seconds (passing 0 will
    /// select a sensible default)
    pub ttl: u32,
    /// Keeps the struct open for new fields.
    pub _non_exhaustive: NonExhaustiveMarker,
}

impl Default for RegisterRecordData {
    fn default() -> (r: RegisterRecordData)
        ensures
            r.flags@ == 0,
            r.interface == Interface::Any,
            r.rr_class == Class(1),
            r.ttl == 0,
    {
        RegisterRecordData {
            flags: RegisterRecordFlags::empty(),
            interface: Interface::Any,
            rr_class: Class::IN(),
            ttl: 0,
            _non_exhaustive: NonExhaustiveMarker,
        }
    }
}

/// Optional data when registering a service
#[derive(Clone, Copy, PartialEq, Eq, PartialOrd, Ord, Hash, Debug)]
pub struct RegisterData<'a> {
    /// flags for registration
    pub flags: RegisterFlags,
    /// interface to register service on
    pub interface: Interface,
    /// service name, defaults to hostname
    pub name: Option<&'a str>,
    /// domain on which to advertise the service
    pub domain: Option<&'a str>,
    /// the SRV target host name, defaults to local hostname(s).
    /// Address records are NOT automatically generated for other names.
    pub host: Option<&'a str>,
    /// The TXT record rdata. Empty RDATA is treated like `b"\0"`, i.e.
    /// a TXT record with a single empty string.
    pub txt: &'a [u8],
    /// Keeps the struct open for new fields.
    pub _non_exhaustive: NonExhaustiveMarker,
}

impl<'a> Default for RegisterData<'a> {
    fn default() -> (r: RegisterData<'a>)
        ensures
            r.flags@ == 0,
            r.interface == Interface::Any,
            r.name is None,
            r.domain is None,
            r.host is None,
            r.txt@.len() == 0,
    {
        let txt: &[u8] = &[];
        assert(txt@.len() == 0);
        RegisterData {
            flags: RegisterFlags::empty(),
            interface: Interface::Any,
            name: None,
            domain: None,
            host: None,
            txt,
            _non_exhaustive: NonExhaustiveMarker,
        }
    }
}

/// Whether an optional string can be handed over as a C string (or a null
/// pointer).
pub open spec fn optional_c_string_ok(s: Option<&str>) -> bool {
    match s {
        Some(t) => c_string_ok(t@),
        None => true,
    }
}

/// Check an optional string for NUL bytes.
fn check_optional_c_string(s: Option<&str>) -> (r: Result<(), InputError>)
    ensures
        r is Ok <==> optional_c_string_ok(s),
        r is Err ==> r == Err::<(), InputError>(InputError::InteriorNul),
{
    match s {
        Some(t) => check_c_string(t),
        None => Ok(()),
    }
}

/// The raw arguments of a service registration, as the service library
/// takes them.
#[derive(Clone, Copy, PartialEq, Eq, Debug)]
pub struct RegisterRequest {
    /// flag word
    pub flags: u32,
    /// raw interface index
    pub interface_index: u32,
    /// port bytes in network byte order
    pub port: (u8, u8),
    /// length of the TXT RDATA
    pub txt_len: u16,
}

/// Validate the arguments of a service registration and compute the raw
/// values handed to the service library.
pub fn register_request(reg_type: &str, port: u16, data: &RegisterData) -> (r: Result<
    RegisterRequest,
    InputError,
>)
    ensures
        r is Ok <==> (c_string_ok(reg_type@) && optional_c_string_ok(data.name)
            && optional_c_string_ok(data.domain) && optional_c_string_ok(data.host)
            && data.txt@.len() <= 0xffff),
        r matches Err(e) ==> (e == InputError::InteriorNul || (e == InputError::RdataTooLong
            && data.txt@.len() > 0xffff)),
        r matches Ok(q) ==> q.flags == data.flags@ && q.interface_index
            == crate::interface::interface_to_raw(data.interface) && network_port_value(q.port)
            == port && q.port.0 == port / 256 && q.txt_len == data.txt@.len(),
{
    check_optional_c_string(data.name)?;
    check_c_string(reg_type)?;
    check_optional_c_string(data.domain)?;
    check_optional_c_string(data.host)?;
    let txt_len = crate::error::rdata_length(data.txt)?;
    Ok(
        RegisterRequest {
            flags: data.flags.bits(),
            interface_index: data.interface.into_raw(),
            port: port_to_network(port),
            txt_len,
        },
    )
}

} // verus!
