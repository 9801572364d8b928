use vstd::prelude::*;

verus! {

/// Status code reported by the service library for success.
pub const NO_ERROR: i32 = 0;

/// Whether a status code reports success.
///
/// Besides zero, three codes are informational ("grow cache", "config
/// changed", "mem free") and do not report a failure either.
pub open spec fn is_success_code(code: i32) -> bool {
    code == NO_ERROR || code == -65790 || code == -65791 || code == -65792
}

/// Known error codes
#[derive(Clone, Copy, Eq, PartialEq, Structural, Ord, PartialOrd, Hash, Debug)]
pub enum DNSServiceError {
    /// Code -65537: unknown error
    Unknown,
    /// Code -65538: no such name
    NoSuchName,
    /// Code -65539: out of memory
    NoMemory,
    /// Code -65540: bad parameter
    BadParam,
    /// Code -65541: bad reference
    BadReference,
    /// Code -65542: bad state
    BadState,
    /// Code -65543: bad flags
    BadFlags,
    /// Code -65544: not supported
    Unsupported,
    /// Code -65545: not initialized
    NotInitialized,
    /// Code -65547: already registered
    AlreadyRegistered,
    /// Code -65548: name conflict
    NameConflict,
    /// Code -65549: invalid
    Invalid,
    /// Code -65550: firewall
    Firewall,
    /// Code -65551: client library incompatible with daemon
    Incompatible,
    /// Code -65552: bad interface index
    BadInterfaceIndex,
    /// Code -65553: refused
    Refused,
    /// Code -65554: no such record
    NoSuchRecord,
    /// Code -65555: no auth
    NoAuth,
    /// Code -65556: no such key
    NoSuchKey,
    /// Code -65557: NAT traversal
    NATTraversal,
    /// Code -65558: double NAT
    DoubleNAT,
    /// Code -65559: bad time
    BadTime,
    /// Code -65560: bad signature
    BadSig,
    /// Code -65561: bad key
    BadKey,
    /// Code -65562: transient
    Transient,
    /// Code -65563: service not running
    ServiceNotRunning,
    /// Code -65564: NAT port mapping unsupported
    NATPortMappingUnsupported,
    /// Code -65565: NAT port mapping disabled
    NATPortMappingDisabled,
    /// Code -65566: no router
    NoRouter,
    /// Code -65567: polling mode
    PollingMode,
    /// Code -65568: timeout
    Timeout,
    /// Code -65569: defunct connection
    DefunctConnection,
    /// Code -65570: policy denied
    PolicyDenied,
    /// Code -65571: not permitted
    NotPermitted,
    /// Code -65572: stale data
    StaleData,
    /// Legacy name: "no value"; its old code now means `NATTraversal`, so
    /// decoding never yields it
    NoValue,
    /// Legacy name: "buffer too small"; its old code now means `DoubleNAT`,
    /// so decoding never yields it
    BufferTooSmall,
}

/// The named error that a status code stands for, if any.
pub open spec fn known_error(code: i32) -> Option<DNSServiceError> {
    if code == -65537i32 {
        Some(DNSServiceError::Unknown)
    } else if code == -65538i32 {
        Some(DNSServiceError::NoSuchName)
    } else if code == -65539i32 {
        Some(DNSServiceError::NoMemory)
    } else if code == -65540i32 {
        Some(DNSServiceError::BadParam)
    } else if code == -65541i32 {
        Some(DNSServiceError::BadReference)
    } else if code == -65542i32 {
        Some(DNSServiceError::BadState)
    } else if code == -65543i32 {
        Some(DNSServiceError::BadFlags)
    } else if code == -65544i32 {
        Some(DNSServiceError::Unsupported)
    } else if code == -65545i32 {
        Some(DNSServiceError::NotInitialized)
    } else if code == -65547i32 {
        Some(DNSServiceError::AlreadyRegistered)
    } else if code == -65548i32 {
        Some(DNSServiceError::NameConflict)
    } else if code == -65549i32 {
        Some(DNSServiceError::Invalid)
    } else if code == -65550i32 {
        Some(DNSServiceError::Firewall)
    } else if code == -65551i32 {
        Some(DNSServiceError::Incompatible)
    } else if code == -65552i32 {
        Some(DNSServiceError::BadInterfaceIndex)
    } else if code == -65553i32 {
        Some(DNSServiceError::Refused)
    } else if code == -65554i32 {
        Some(DNSServiceError::NoSuchRecord)
    } else if code == -65555i32 {
        Some(DNSServiceError::NoAuth)
    } else if code == -65556i32 {
        Some(DNSServiceError::NoSuchKey)
    } else if code == -65557i32 {
        Some(DNSServiceError::NATTraversal)
    } else if code == -65558i32 {
        Some(DNSServiceError::DoubleNAT)
    } else if code == -65559i32 {
        Some(DNSServiceError::BadTime)
    } else if code == -65560i32 {
        Some(DNSServiceError::BadSig)
    } else if code == -65561i32 {
        Some(DNSServiceError::BadKey)
    } else if code == -65562i32 {
        Some(DNSServiceError::Transient)
    } else if code == -65563i32 {
        Some(DNSServiceError::ServiceNotRunning)
    } else if code == -65564i32 {
        Some(DNSServiceError::NATPortMappingUnsupported)
    } else if code == -65565i32 {
        Some(DNSServiceError::NATPortMappingDisabled)
    } else if code == -65566i32 {
        Some(DNSServiceError::NoRouter)
    } else if code == -65567i32 {
        Some(DNSServiceError::PollingMode)
    } else if code == -65568i32 {
        Some(DNSServiceError::Timeout)
    } else if code == -65569i32 {
        Some(DNSServiceError::DefunctConnection)
    } else if code == -65570i32 {
        Some(DNSServiceError::PolicyDenied)
    } else if code == -65571i32 {
        Some(DNSServiceError::NotPermitted)
    } else if code == -65572i32 {
        Some(DNSServiceError::StaleData)
    } else {
        None
    }
}

/// Human readable description of an error.
pub open spec fn description_of(e: DNSServiceError) -> Seq<char> {
    match e {
        DNSServiceError::Unknown => "unknown error"@,
        DNSServiceError::NoSuchName => "no such name"@,
        DNSServiceError::NoMemory => "out of memory"@,
        DNSServiceError::BadParam => "bad parameter"@,
        DNSServiceError::BadReference => "bad reference"@,
        DNSServiceError::BadState => "bad state"@,
        DNSServiceError::BadFlags => "bad flags"@,
        DNSServiceError::Unsupported => "not supported"@,
        DNSServiceError::NotInitialized => "not initialized"@,
        DNSServiceError::AlreadyRegistered => "already registered"@,
        DNSServiceError::NameConflict => "name conflict"@,
        DNSServiceError::Invalid => "invalid"@,
        DNSServiceError::Firewall => "firewall"@,
        DNSServiceError::Incompatible => "client library incompatible with daemon"@,
        DNSServiceError::BadInterfaceIndex => "bad interface index"@,
        DNSServiceError::Refused => "refused"@,
        DNSServiceError::NoSuchRecord => "no such record"@,
        DNSServiceError::NoAuth => "no auth"@,
        DNSServiceError::NoSuchKey => "no such key"@,
        DNSServiceError::NATTraversal => "NAT traversal"@,
        DNSServiceError::DoubleNAT => "double NAT"@,
        DNSServiceError::BadTime => "bad time"@,
        DNSServiceError::BadSig => "bad signature"@,
        DNSServiceError::BadKey => "bad key"@,
        DNSServiceError::Transient => "transient"@,
        DNSServiceError::ServiceNotRunning => "service not running"@,
        DNSServiceError::NATPortMappingUnsupported => "NAT port mapping unsupported"@,
        DNSServiceError::NATPortMappingDisabled => "NAT port mapping disabled"@,
        DNSServiceError::NoRouter => "no router"@,
        DNSServiceError::PollingMode => "polling mode"@,
        DNSServiceError::Timeout => "timeout"@,
        DNSServiceError::DefunctConnection => "defunct connection"@,
        DNSServiceError::PolicyDenied => "policy denied"@,
        DNSServiceError::NotPermitted => "not permitted"@,
        DNSServiceError::StaleData => "stale data"@,
        DNSServiceError::NoValue => "no value"@,
        DNSServiceError::BufferTooSmall => "buffer too small"@,
    }
}

impl DNSServiceError {
    /// The named error for a status code, or `None` when the code is not a
    /// known error.
    pub fn try_from(code: i32) -> (r: Option<DNSServiceError>)
        ensures
            r == known_error(code),
    {
        if code == -65537i32 {
            Some(DNSServiceError::Unknown)
        } else if code == -65538i32 {
            Some(DNSServiceError::NoSuchName)
        } else if code == -65539i32 {
            Some(DNSServiceError::NoMemory)
        } else if code == -65540i32 {
            Some(DNSServiceError::BadParam)
        } else if code == -65541i32 {
            Some(DNSServiceError::BadReference)
        } else if code == -65542i32 {
            Some(DNSServiceError::BadState)
        } else if code == -65543i32 {
            Some(DNSServiceError::BadFlags)
        } else if code == -65544i32 {
            Some(DNSServiceError::Unsupported)
        } else if code == -65545i32 {
            Some(DNSServiceError::NotInitialized)
        } else if code == -65547i32 {
            Some(DNSServiceError::AlreadyRegistered)
        } else if code == -65548i32 {
            Some(DNSServiceError::NameConflict)
        } else if code == -65549i32 {
            Some(DNSServiceError::Invalid)
        } else if code == -65550i32 {
            Some(DNSServiceError::Firewall)
        } else if code == -65551i32 {
            Some(DNSServiceError::Incompatible)
        } else if code == -65552i32 {
            Some(DNSServiceError::BadInterfaceIndex)
        } else if code == -65553i32 {
            Some(DNSServiceError::Refused)
        } else if code == -65554i32 {
            Some(DNSServiceError::NoSuchRecord)
        } else if code == -65555i32 {
            Some(DNSServiceError::NoAuth)
        } else if code == -65556i32 {
            Some(DNSServiceError::NoSuchKey)
        } else if code == -65557i32 {
            Some(DNSServiceError::NATTraversal)
        } else if code == -65558i32 {
            Some(DNSServiceError::DoubleNAT)
        } else if code == -65559i32 {
            Some(DNSServiceError::BadTime)
        } else if code == -65560i32 {
            Some(DNSServiceError::BadSig)
        } else if code == -65561i32 {
            Some(DNSServiceError::BadKey)
        } else if code == -65562i32 {
            Some(DNSServiceError::Transient)
        } else if code == -65563i32 {
            Some(DNSServiceError::ServiceNotRunning)
        } else if code == -65564i32 {
            Some(DNSServiceError::NATPortMappingUnsupported)
        } else if code == -65565i32 {
            Some(DNSServiceError::NATPortMappingDisabled)
        } else if code == -65566i32 {
            Some(DNSServiceError::NoRouter)
        } else if code == -65567i32 {
            Some(DNSServiceError::PollingMode)
        } else if code == -65568i32 {
            Some(DNSServiceError::Timeout)
        } else if code == -65569i32 {
            Some(DNSServiceError::DefunctConnection)
        } else if code == -65570i32 {
            Some(DNSServiceError::PolicyDenied)
        } else if code == -65571i32 {
            Some(DNSServiceError::NotPermitted)
        } else if code == -65572i32 {
            Some(DNSServiceError::StaleData)
        } else {
            None
        }
    }

    /// Human readable description
    pub fn description(&self) -> (r: &'static str)
        ensures
            r@ == description_of(*self),
    {
        match *self {
            DNSServiceError::Unknown => "unknown error",
            DNSServiceError::NoSuchName => "no such name",
            DNSServiceError::NoMemory => "out of memory",
            DNSServiceError::BadParam => "bad parameter",
            DNSServiceError::BadReference => "bad reference",
            DNSServiceError::BadState => "bad state",
            DNSServiceError::BadFlags => "bad flags",
            DNSServiceError::Unsupported => "not supported",
            DNSServiceError::NotInitialized => "not initialized",
            DNSServiceError::AlreadyRegistered => "already registered",
            DNSServiceError::NameConflict => "name conflict",
            DNSServiceError::Invalid => "invalid",
            DNSServiceError::Firewall => "firewall",
            DNSServiceError::Incompatible => "client library incompatible with daemon",
            DNSServiceError::BadInterfaceIndex => "bad interface index",
            DNSServiceError::Refused => "refused",
            DNSServiceError::NoSuchRecord => "no such record",
            DNSServiceError::NoAuth => "no auth",
            DNSServiceError::NoSuchKey => "no such key",
            DNSServiceError::NATTraversal => "NAT traversal",
            DNSServiceError::DoubleNAT => "double NAT",
            DNSServiceError::BadTime => "bad time",
            DNSServiceError::BadSig => "bad signature",
            DNSServiceError::BadKey => "bad key",
            DNSServiceError::Transient => "transient",
            DNSServiceError::ServiceNotRunning => "service not running",
            DNSServiceError::NATPortMappingUnsupported => "NAT port mapping unsupported",
            DNSServiceError::NATPortMappingDisabled => "NAT port mapping disabled",
            DNSServiceError::NoRouter => "no router",
            DNSServiceError::PollingMode => "polling mode",
            DNSServiceError::Timeout => "timeout",
            DNSServiceError::DefunctConnection => "defunct connection",
            DNSServiceError::PolicyDenied => "policy denied",
            DNSServiceError::NotPermitted => "not permitted",
            DNSServiceError::StaleData => "stale data",
            DNSServiceError::NoValue => "no value",
            DNSServiceError::BufferTooSmall => "buffer too small",
        }
    }
}
/// An I/O error as reported by the operating system or the event loop.
#[verifier::external_type_specification]
#[verifier::external_body]
pub struct ExIoError(std::io::Error);

/// API Error
pub enum Error {
    /// If error code used some recognized name
    KnownError(DNSServiceError),
    /// Unrecognized error codes
    UnknownError(i32),
    /// IO error
    IoError(std::io::Error),
}

/// The outcome that a status code stands for: `None` on success, else the
/// named error (or `Err(code)` for an unrecognized code).
pub open spec fn status_outcome(code: i32) -> Option<Result<DNSServiceError, i32>> {
    if is_success_code(code) {
        None
    } else {
        match known_error(code) {
            Some(e) => Some(Ok(e)),
            None => Some(Err(code)),
        }
    }
}

/// Whether `e` is the error that a failing status code decodes to.
pub open spec fn error_for(code: i32, e: Error) -> bool {
    match status_outcome(code) {
        None => false,
        Some(Ok(k)) => e matches Error::KnownError(x) && x == k,
        Some(Err(c)) => e matches Error::UnknownError(x) && x == c,
    }
}

/// Whether `r` is what a status code decodes to.
pub open spec fn decodes_to(code: i32, r: Result<(), Error>) -> bool {
    match r {
        Ok(_) => is_success_code(code),
        Err(e) => !is_success_code(code) && error_for(code, e),
    }
}

impl Error {
    /// Check if a raw error code represents an error, and convert it
    /// accordingly. (Not all codes are treated as an error, including `0`.)
    pub fn from(value: i32) -> (r: Result<(), Error>)
        ensures
            decodes_to(value, r),
    {
        if value == NO_ERROR || value == -65790i32 || value == -65791i32 || value == -65792i32 {
            Ok(())
        } else {
            match DNSServiceError::try_from(value) {
                Some(e) => Err(Error::KnownError(e)),
                None => Err(Error::UnknownError(value)),
            }
        }
    }
}

/// Input that the service library cannot be handed.
#[derive(Clone, Copy, Eq, PartialEq, Structural, Ord, PartialOrd, Hash, Debug)]
pub enum InputError {
    /// A string holds a NUL byte
    InteriorNul,
    /// Record data longer than 65535 bytes
    RdataTooLong,
}

/// Length of record data as the service library takes it: a 16 bit count.
pub fn rdata_length(rdata: &[u8]) -> (r: Result<u16, InputError>)
    ensures
        rdata@.len() <= 0xffff ==> r == Ok::<u16, InputError>(rdata@.len() as u16),
        rdata@.len() > 0xffff ==> r == Err::<u16, InputError>(InputError::RdataTooLong),
{
    if rdata.len() > 0xffff {
        Err(InputError::RdataTooLong)
    } else {
        Ok(rdata.len() as u16)
    }
}

/// A string without NUL characters, so that it can stand as a C string.
pub open spec fn c_string_ok(s: Seq<char>) -> bool {
    forall|i: int| 0 <= i < s.len() ==> s[i] != '\0'
}

/// Check that a string can be handed over as a NUL-terminated C string.
pub fn check_c_string(s: &str) -> (r: Result<(), InputError>)
    ensures
        r is Ok <==> c_string_ok(s@),
        r is Err ==> r == Err::<(), InputError>(InputError::InteriorNul),
{
    let mut i: usize = 0;
    let n = s.unicode_len();
    while i < n
        invariant
            n == s@.len(),
            i <= n,
            forall|j: int| 0 <= j < i ==> s@[j] != '\0',
        decreases n - i,
    {
        if s.get_char(i) == '\0' {
            return Err(InputError::InteriorNul);
        }
        i += 1;
    }
    Ok(())
}

} // verus!
