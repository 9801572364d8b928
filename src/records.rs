use vstd::prelude::*;

use crate::dns_consts::Type;
use crate::error::{c_string_ok, check_c_string, rdata_length, InputError};
use crate::service::MAX_DOMAIN_NAME;

verus! {

/// A successful record registration
///
/// Tracks what must happen when the record is dropped: a registered record
/// is removed from its service again, unless it was kept. The default TXT
/// record of a service registration has no record reference of its own and
/// is never removed.
#[derive(Clone, Copy, PartialEq, Eq, Structural, Debug)]
pub struct Record {
    rr_type: Type,
    registered: bool,
}

/// Arguments of a record update, as the service library takes them.
#[derive(Clone, Copy, PartialEq, Eq, Structural, Debug)]
pub struct RecordUpdate {
    /// length of the new record data
    pub rd_len: u16,
    /// new time to live in seconds
    pub ttl: u32,
}

impl Record {
    /// Type of the record
    pub closed spec fn spec_rr_type(&self) -> Type {
        self.rr_type
    }

    /// Whether dropping the record removes it from its service.
    pub closed spec fn spec_removes_on_drop(&self) -> bool {
        self.registered
    }

    /// A record that was just added to or registered with a service.
    pub fn new(rr_type: Type) -> (r: Record)
        ensures
            r.spec_rr_type() == rr_type,
            r.spec_removes_on_drop(),
    {
        Record { rr_type, registered: true }
    }

    /// The default TXT record of a service registration.
    pub fn default_txt() -> (r: Record)
        ensures
            r.spec_rr_type() == Type(0x10),
            !r.spec_removes_on_drop(),
    {
        Record { rr_type: Type::TXT(), registered: false }
    }

    /// Type of the record
    pub fn rr_type(&self) -> (r: Type)
        ensures
            r == self.spec_rr_type(),
    {
        self.rr_type
    }

    /// Whether dropping the record removes it from its service.
    pub fn removes_on_drop(&self) -> (r: bool)
        ensures
            r == self.spec_removes_on_drop(),
    {
        self.registered
    }

    /// Check new record data and give the arguments of the update.
    ///
    /// The type and class of a record cannot change.
    pub fn update_record(&self, rdata: &[u8], ttl: u32) -> (r: Result<RecordUpdate, InputError>)
        ensures
            rdata@.len() <= 0xffff ==> r == Ok::<RecordUpdate, InputError>(
                RecordUpdate { rd_len: rdata@.len() as u16, ttl },
            ),
            rdata@.len() > 0xffff ==> r == Err::<RecordUpdate, InputError>(
                InputError::RdataTooLong,
            ),
    {
        let rd_len = rdata_length(rdata)?;
        Ok(RecordUpdate { rd_len, ttl })
    }

    /// Keep the record for as long as the underlying registration or
    /// connection lives: dropping it no longer removes it.
    pub fn keep(&mut self)
        ensures
            !final(self).spec_removes_on_drop(),
            final(self).spec_rr_type() == old(self).spec_rr_type(),
    {
        self.registered = false;
    }
}

/// Full name consisting of (up to) three parts
pub struct FullName<'a> {
    /// (unescaped) service name (becomes single label in full name)
    pub service: Option<&'a str>,
    /// registration type (valid names don't need escaping)
    pub reg_type: &'a str,
    /// (escaped) domain name (most names don't need escaping)
    pub domain: &'a str,
}

impl<'a> FullName<'a> {
    /// Check that all parts can be handed over as C strings.
    pub fn check(&self) -> (r: Result<(), InputError>)
        ensures
            r is Ok <==> (match self.service {
                Some(s) => c_string_ok(s@),
                None => true,
            }) && c_string_ok(self.reg_type@) && c_string_ok(self.domain@),
            r is Err ==> r == Err::<(), InputError>(InputError::InteriorNul),
    {
        match self.service {
            Some(s) => check_c_string(s)?,
            None => {},
        }
        check_c_string(self.reg_type)?;
        check_c_string(self.domain)
    }
}

/// Index of the first NUL byte of `b` at or after `i`, stopping at `limit`.
pub open spec fn nul_index(b: Seq<u8>, i: int, limit: int) -> int
    decreases limit - i,
{
    if i >= limit {
        limit
    } else if b[i] == 0 {
        i
    } else {
        nul_index(b, i + 1, limit)
    }
}

/// The name that the full-name helper wrote into `buf`: the bytes before
/// the first NUL, and never more than `MAX_DOMAIN_NAME - 1` bytes (the last
/// byte of the name buffer is always taken as a NUL).
pub fn full_name_from_buffer(buf: &[u8]) -> (r: Vec<u8>)
    ensures
        ({
            let limit = if buf@.len() < MAX_DOMAIN_NAME - 1 {
                buf@.len() as int
            } else {
                MAX_DOMAIN_NAME - 1
            };
            r@ == buf@.subrange(0, nul_index(buf@, 0, limit))
        }),
{
    let limit = if buf.len() < MAX_DOMAIN_NAME - 1 {
        buf.len()
    } else {
        MAX_DOMAIN_NAME - 1
    };
    let mut out: Vec<u8> = Vec::new();
    let mut i: usize = 0;
    while i < limit && buf[i] != 0
        invariant
            limit <= buf@.len(),
            i <= limit,
            nul_index(buf@, 0, limit as int) == nul_index(buf@, i as int, limit as int),
            out@ == buf@.subrange(0, i as int),
        decreases limit - i,
    {
        out.push(buf[i]);
        i += 1;
        assert(out@ =~= buf@.subrange(0, i as int));
    }
    out
}

} // verus!
