use vstd::prelude::*;

verus! {

/// Raw code selecting any interface.
pub const INTERFACE_INDEX_ANY: u32 = 0;

/// Raw code selecting the local machine only (all bits set).
pub const INTERFACE_INDEX_LOCAL_ONLY: u32 = 0xffff_ffff;

/// Raw code selecting unicast resolution (all bits but the lowest set).
pub const INTERFACE_INDEX_UNICAST: u32 = 0xffff_fffe;

/// Raw code selecting peer-to-peer interfaces.
pub const INTERFACE_INDEX_P2P: u32 = 0xffff_fffd;

/// Whether a raw code is one of the four reserved selectors.
pub open spec fn is_reserved_index(raw: u32) -> bool {
    raw == INTERFACE_INDEX_ANY || raw == INTERFACE_INDEX_LOCAL_ONLY || raw
        == INTERFACE_INDEX_UNICAST || raw == INTERFACE_INDEX_P2P
}

/// Network interface index
///
/// Identifies a single interface by index; never one of the reserved codes
/// when built through `from_raw`.
#[derive(Clone, Copy, PartialEq, Eq, Structural, PartialOrd, Ord, Hash, Debug)]
pub struct InterfaceIndex(u32);

impl View for InterfaceIndex {
    type V = u32;

    /// The raw index.
    closed spec fn view(&self) -> u32 {
        self.0
    }
}

impl InterfaceIndex {
    /// Construct from a raw index, refusing the reserved selector codes.
    pub fn from_raw(ndx: u32) -> (r: Option<InterfaceIndex>)
        ensures
            is_reserved_index(ndx) <==> r.is_none(),
            r matches Some(i) ==> i@ == ndx,
    {
        if ndx == INTERFACE_INDEX_ANY || ndx == INTERFACE_INDEX_LOCAL_ONLY || ndx
            == INTERFACE_INDEX_UNICAST || ndx == INTERFACE_INDEX_P2P {
            None
        } else {
            Some(InterfaceIndex(ndx))
        }
    }

    /// The raw index.
    pub fn into_raw(self) -> (r: u32)
        ensures
            r == self@,
    {
        self.0
    }
}

} // verus!

verus! {

/// Network interface
///
/// Either identifies a single interface (by index) or one of the special
/// selectors.
#[derive(Clone, Copy, PartialEq, Eq, Structural, PartialOrd, Ord, Hash, Debug)]
#[non_exhaustive]
pub enum Interface {
    /// Any interface; depending on domain name this means either
    /// multicast or unicast
    Any,
    /// Single interface
    Index(InterfaceIndex),
    /// Local machine only
    LocalOnly,
    /// Unicast resolution only
    Unicast,
    /// Peer-to-peer interfaces
    PeerToPeer,
}

/// The interface that a raw code selects.
pub closed spec fn interface_from_raw(raw: u32) -> Interface {
    if raw == INTERFACE_INDEX_ANY {
        Interface::Any
    } else if raw == INTERFACE_INDEX_LOCAL_ONLY {
        Interface::LocalOnly
    } else if raw == INTERFACE_INDEX_UNICAST {
        Interface::Unicast
    } else if raw == INTERFACE_INDEX_P2P {
        Interface::PeerToPeer
    } else {
        Interface::Index(InterfaceIndex(raw))
    }
}

/// The raw code of an interface.
pub open spec fn interface_to_raw(i: Interface) -> u32 {
    match i {
        Interface::Any => INTERFACE_INDEX_ANY,
        Interface::Index(ndx) => ndx@,
        Interface::LocalOnly => INTERFACE_INDEX_LOCAL_ONLY,
        Interface::Unicast => INTERFACE_INDEX_UNICAST,
        Interface::PeerToPeer => INTERFACE_INDEX_P2P,
    }
}

/// An interface is well formed when an index never holds a reserved code.
pub open spec fn interface_wf(i: Interface) -> bool {
    i matches Interface::Index(ndx) ==> !is_reserved_index(ndx@)
}

impl Default for Interface {
    fn default() -> (r: Interface)
        ensures
            r == Interface::Any,
    {
        Interface::Any
    }
}

impl Interface {
    /// Construct from raw value
    pub fn from_raw(raw: u32) -> (r: Interface)
        ensures
            r == interface_from_raw(raw),
            interface_wf(r),
    {
        if raw == INTERFACE_INDEX_ANY {
            Interface::Any
        } else if raw == INTERFACE_INDEX_LOCAL_ONLY {
            Interface::LocalOnly
        } else if raw == INTERFACE_INDEX_UNICAST {
            Interface::Unicast
        } else if raw == INTERFACE_INDEX_P2P {
            Interface::PeerToPeer
        } else {
            Interface::Index(InterfaceIndex(raw))
        }
    }

    /// Convert to raw value
    pub fn into_raw(self) -> (r: u32)
        ensures
            r == interface_to_raw(self),
    {
        match self {
            Interface::Any => INTERFACE_INDEX_ANY,
            Interface::Index(ndx) => ndx.0,
            Interface::LocalOnly => INTERFACE_INDEX_LOCAL_ONLY,
            Interface::Unicast => INTERFACE_INDEX_UNICAST,
            Interface::PeerToPeer => INTERFACE_INDEX_P2P,
        }
    }

    /// The interface index, or zero if not a single interface is selected.
    pub open spec fn scope_id_spec(self) -> u32 {
        match self {
            Interface::Index(ndx) => ndx@,
            _ => 0u32,
        }
    }

    /// Extract scope id / interface index
    ///
    /// Returns the interface index (or zero if not a single interface is
    /// selected)
    pub fn scope_id(self) -> (r: u32)
        ensures
            r == self.scope_id_spec(),
    {
        match self {
            Interface::Index(ndx) => ndx.0,
            _ => 0,
        }
    }
}

/// Every raw code survives the trip through `Interface` unchanged.
pub proof fn lemma_interface_raw_round_trip(x: u32)
    ensures
        interface_to_raw(interface_from_raw(x)) == x,
{
}

/// Every well-formed interface survives the trip through its raw code.
pub proof fn lemma_interface_value_round_trip(i: Interface)
    requires
        interface_wf(i),
    ensures
        interface_from_raw(interface_to_raw(i)) == i,
{
}

} // verus!
