use vstd::prelude::*;

verus! {

/// At least one more result is pending in the queue.
pub const FLAGS_MORE_COMING: u32 = 0x1;

/// The result is new; when clear, it was removed.
pub const FLAGS_ADD: u32 = 0x2;

/// The default domain to search (always combined with `ADD`).
pub const FLAGS_DEFAULT: u32 = 0x4;

/// A name conflict is reported instead of handled automatically.
pub const FLAGS_NO_AUTO_RENAME: u32 = 0x8;

/// There may be several records with the given name, type and class.
pub const FLAGS_SHARED: u32 = 0x10;

/// The record with the given name, type and class is unique.
pub const FLAGS_UNIQUE: u32 = 0x20;

/// Enumerate domains that are recommended for browsing.
pub const FLAGS_BROWSE_DOMAINS: u32 = 0x40;

/// Enumerate domains that are recommended for registration.
pub const FLAGS_REGISTRATION_DOMAINS: u32 = 0x80;

/// Long-lived unicast query.
pub const FLAGS_LONG_LIVED_QUERY: u32 = 0x100;

/// Flags of a browse result
#[derive(Clone, Copy, PartialEq, Eq, Structural, PartialOrd, Ord, Hash, Debug, Default)]
pub struct BrowsedFlags {
    bits: u32,
}

impl View for BrowsedFlags {
    type V = u32;

    /// The flag word.
    closed spec fn view(&self) -> u32 {
        self.bits
    }
}

impl BrowsedFlags {
    /// At least one more result is pending in the queue.
    #[allow(non_snake_case)]
    pub fn MORE_COMING() -> (r: BrowsedFlags)
        ensures
            r@ == FLAGS_MORE_COMING,
    {
        BrowsedFlags { bits: FLAGS_MORE_COMING }
    }

    /// The result is new; when clear, it was removed.
    #[allow(non_snake_case)]
    pub fn ADD() -> (r: BrowsedFlags)
        ensures
            r@ == FLAGS_ADD,
    {
        BrowsedFlags { bits: FLAGS_ADD }
    }

    /// The bits that this set can hold.
    pub open spec fn mask() -> u32 {
        FLAGS_MORE_COMING | FLAGS_ADD
    }

    /// The empty set.
    pub fn empty() -> (r: BrowsedFlags)
        ensures
            r@ == 0,
    {
        BrowsedFlags { bits: 0 }
    }

    /// The set of all flags.
    pub fn all() -> (r: BrowsedFlags)
        ensures
            r@ == Self::mask(),
    {
        BrowsedFlags { bits: FLAGS_MORE_COMING | FLAGS_ADD }
    }

    /// The flag word of the service library.
    pub fn bits(&self) -> (r: u32)
        ensures
            r == self@,
    {
        self.bits
    }

    /// Convert a flag word, dropping the bits this set cannot hold.
    pub fn from_bits_truncate(bits: u32) -> (r: BrowsedFlags)
        ensures
            r@ == bits & Self::mask(),
    {
        BrowsedFlags { bits: bits & (FLAGS_MORE_COMING | FLAGS_ADD) }
    }

    /// Whether all flags of `other` are set.
    pub fn contains(&self, other: BrowsedFlags) -> (r: bool)
        ensures
            r == (self@ & other@ == other@),
    {
        self.bits & other.bits == other.bits
    }

    /// The flags set in either.
    pub fn union(self, other: BrowsedFlags) -> (r: BrowsedFlags)
        ensures
            r@ == self@ | other@,
    {
        BrowsedFlags { bits: self.bits | other.bits }
    }

    /// Whether no flag is set.
    pub fn is_empty(&self) -> (r: bool)
        ensures
            r == (self@ == 0),
    {
        self.bits == 0
    }

    /// Each named flag converts to exactly its raw value, that value
    /// converts back to the set of just that flag, and converting any word
    /// keeps only known bits.
    pub proof fn lemma_named_flags(raw: u32)
        ensures
            FLAGS_MORE_COMING & Self::mask() == FLAGS_MORE_COMING,
            FLAGS_ADD & Self::mask() == FLAGS_ADD,
            (raw & Self::mask()) & !Self::mask() == 0,
    {
        assert(0x1u32 & (0x1u32 | 0x2u32) == 0x1u32 && 0x2u32 & (0x1u32 | 0x2u32) == 0x2u32 && (raw & (0x1u32 | 0x2u32)) & !(0x1u32 | 0x2u32) == 0) by (bit_vector);
    }
}

/// Flags of a domain enumeration result
#[derive(Clone, Copy, PartialEq, Eq, Structural, PartialOrd, Ord, Hash, Debug, Default)]
pub struct EnumeratedFlags {
    bits: u32,
}

impl View for EnumeratedFlags {
    type V = u32;

    /// The flag word.
    closed spec fn view(&self) -> u32 {
        self.bits
    }
}

impl EnumeratedFlags {
    /// At least one more result is pending in the queue.
    #[allow(non_snake_case)]
    pub fn MORE_COMING() -> (r: EnumeratedFlags)
        ensures
            r@ == FLAGS_MORE_COMING,
    {
        EnumeratedFlags { bits: FLAGS_MORE_COMING }
    }

    /// The result is new; when clear, it was removed.
    #[allow(non_snake_case)]
    pub fn ADD() -> (r: EnumeratedFlags)
        ensures
            r@ == FLAGS_ADD,
    {
        EnumeratedFlags { bits: FLAGS_ADD }
    }

    /// The default domain to search (always combined with `ADD`).
    #[allow(non_snake_case)]
    pub fn DEFAULT() -> (r: EnumeratedFlags)
        ensures
            r@ == FLAGS_DEFAULT,
    {
        EnumeratedFlags { bits: FLAGS_DEFAULT }
    }

    /// The bits that this set can hold.
    pub open spec fn mask() -> u32 {
        FLAGS_MORE_COMING | FLAGS_ADD | FLAGS_DEFAULT
    }

    /// The empty set.
    pub fn empty() -> (r: EnumeratedFlags)
        ensures
            r@ == 0,
    {
        EnumeratedFlags { bits: 0 }
    }

    /// The set of all flags.
    pub fn all() -> (r: EnumeratedFlags)
        ensures
            r@ == Self::mask(),
    {
        EnumeratedFlags { bits: FLAGS_MORE_COMING | FLAGS_ADD | FLAGS_DEFAULT }
    }

    /// The flag word of the service library.
    pub fn bits(&self) -> (r: u32)
        ensures
            r == self@,
    {
        self.bits
    }

    /// Convert a flag word, dropping the bits this set cannot hold.
    pub fn from_bits_truncate(bits: u32) -> (r: EnumeratedFlags)
        ensures
            r@ == bits & Self::mask(),
    {
        EnumeratedFlags { bits: bits & (FLAGS_MORE_COMING | FLAGS_ADD | FLAGS_DEFAULT) }
    }

    /// Whether all flags of `other` are set.
    pub fn contains(&self, other: EnumeratedFlags) -> (r: bool)
        ensures
            r == (self@ & other@ == other@),
    {
        self.bits & other.bits == other.bits
    }

    /// The flags set in either.
    pub fn union(self, other: EnumeratedFlags) -> (r: EnumeratedFlags)
        ensures
            r@ == self@ | other@,
    {
        EnumeratedFlags { bits: self.bits | other.bits }
    }

    /// Whether no flag is set.
    pub fn is_empty(&self) -> (r: bool)
        ensures
            r == (self@ == 0),
    {
        self.bits == 0
    }

    /// Each named flag converts to exactly its raw value, that value
    /// converts back to the set of just that flag, and converting any word
    /// keeps only known bits.
    pub proof fn lemma_named_flags(raw: u32)
        ensures
            FLAGS_MORE_COMING & Self::mask() == FLAGS_MORE_COMING,
            FLAGS_ADD & Self::mask() == FLAGS_ADD,
            FLAGS_DEFAULT & Self::mask() == FLAGS_DEFAULT,
            (raw & Self::mask()) & !Self::mask() == 0,
    {
        assert(0x1u32 & (0x1u32 | 0x2u32 | 0x4u32) == 0x1u32 && 0x2u32 & (0x1u32 | 0x2u32 | 0x4u32) == 0x2u32 && 0x4u32 & (0x1u32 | 0x2u32 | 0x4u32) == 0x4u32 && (raw & (0x1u32 | 0x2u32 | 0x4u32)) & !(0x1u32 | 0x2u32 | 0x4u32) == 0) by (bit_vector);
    }
}

/// Flags used to query for a record
#[derive(Clone, Copy, PartialEq, Eq, Structural, PartialOrd, Ord, Hash, Debug, Default)]
pub struct QueryRecordFlags {
    bits: u32,
}

impl View for QueryRecordFlags {
    type V = u32;

    /// The flag word.
    closed spec fn view(&self) -> u32 {
        self.bits
    }
}

impl QueryRecordFlags {
    /// Long-lived unicast query.
    #[allow(non_snake_case)]
    pub fn LONG_LIVED_QUERY() -> (r: QueryRecordFlags)
        ensures
            r@ == FLAGS_LONG_LIVED_QUERY,
    {
        QueryRecordFlags { bits: FLAGS_LONG_LIVED_QUERY }
    }

    /// The bits that this set can hold.
    pub open spec fn mask() -> u32 {
        FLAGS_LONG_LIVED_QUERY
    }

    /// The empty set.
    pub fn empty() -> (r: QueryRecordFlags)
        ensures
            r@ == 0,
    {
        QueryRecordFlags { bits: 0 }
    }

    /// The set of all flags.
    pub fn all() -> (r: QueryRecordFlags)
        ensures
            r@ == Self::mask(),
    {
        QueryRecordFlags { bits: FLAGS_LONG_LIVED_QUERY }
    }

    /// The flag word of the service library.
    pub fn bits(&self) -> (r: u32)
        ensures
            r == self@,
    {
        self.bits
    }

    /// Convert a flag word, dropping the bits this set cannot hold.
    pub fn from_bits_truncate(bits: u32) -> (r: QueryRecordFlags)
        ensures
            r@ == bits & Self::mask(),
    {
        QueryRecordFlags { bits: bits & (FLAGS_LONG_LIVED_QUERY) }
    }

    /// Whether all flags of `other` are set.
    pub fn contains(&self, other: QueryRecordFlags) -> (r: bool)
        ensures
            r == (self@ & other@ == other@),
    {
        self.bits & other.bits == other.bits
    }

    /// The flags set in either.
    pub fn union(self, other: QueryRecordFlags) -> (r: QueryRecordFlags)
        ensures
            r@ == self@ | other@,
    {
        QueryRecordFlags { bits: self.bits | other.bits }
    }

    /// Whether no flag is set.
    pub fn is_empty(&self) -> (r: bool)
        ensures
            r == (self@ == 0),
    {
        self.bits == 0
    }

    /// Each named flag converts to exactly its raw value, that value
    /// converts back to the set of just that flag, and converting any word
    /// keeps only known bits.
    pub proof fn lemma_named_flags(raw: u32)
        ensures
            FLAGS_LONG_LIVED_QUERY & Self::mask() == FLAGS_LONG_LIVED_QUERY,
            (raw & Self::mask()) & !Self::mask() == 0,
    {
        assert(0x100u32 & (0x100u32) == 0x100u32 && (raw & (0x100u32)) & !(0x100u32) == 0) by (bit_vector);
    }
}

/// Flags of a query result
#[derive(Clone, Copy, PartialEq, Eq, Structural, PartialOrd, Ord, Hash, Debug, Default)]
pub struct QueriedRecordFlags {
    bits: u32,
}

impl View for QueriedRecordFlags {
    type V = u32;

    /// The flag word.
    closed spec fn view(&self) -> u32 {
        self.bits
    }
}

impl QueriedRecordFlags {
    /// At least one more result is pending in the queue.
    #[allow(non_snake_case)]
    pub fn MORE_COMING() -> (r: QueriedRecordFlags)
        ensures
            r@ == FLAGS_MORE_COMING,
    {
        QueriedRecordFlags { bits: FLAGS_MORE_COMING }
    }

    /// The result is new; when clear, it was removed.
    #[allow(non_snake_case)]
    pub fn ADD() -> (r: QueriedRecordFlags)
        ensures
            r@ == FLAGS_ADD,
    {
        QueriedRecordFlags { bits: FLAGS_ADD }
    }

    /// The bits that this set can hold.
    pub open spec fn mask() -> u32 {
        FLAGS_MORE_COMING | FLAGS_ADD
    }

    /// The empty set.
    pub fn empty() -> (r: QueriedRecordFlags)
        ensures
            r@ == 0,
    {
        QueriedRecordFlags { bits: 0 }
    }

    /// The set of all flags.
    pub fn all() -> (r: QueriedRecordFlags)
        ensures
            r@ == Self::mask(),
    {
        QueriedRecordFlags { bits: FLAGS_MORE_COMING | FLAGS_ADD }
    }

    /// The flag word of the service library.
    pub fn bits(&self) -> (r: u32)
        ensures
            r == self@,
    {
        self.bits
    }

    /// Convert a flag word, dropping the bits this set cannot hold.
    pub fn from_bits_truncate(bits: u32) -> (r: QueriedRecordFlags)
        ensures
            r@ == bits & Self::mask(),
    {
        QueriedRecordFlags { bits: bits & (FLAGS_MORE_COMING | FLAGS_ADD) }
    }

    /// Whether all flags of `other` are set.
    pub fn contains(&self, other: QueriedRecordFlags) -> (r: bool)
        ensures
            r == (self@ & other@ == other@),
    {
        self.bits & other.bits == other.bits
    }

    /// The flags set in either.
    pub fn union(self, other: QueriedRecordFlags) -> (r: QueriedRecordFlags)
        ensures
            r@ == self@ | other@,
    {
        QueriedRecordFlags { bits: self.bits | other.bits }
    }

    /// Whether no flag is set.
    pub fn is_empty(&self) -> (r: bool)
        ensures
            r == (self@ == 0),
    {
        self.bits == 0
    }

    /// Each named flag converts to exactly its raw value, that value
    /// converts back to the set of just that flag, and converting any word
    /// keeps only known bits.
    pub proof fn lemma_named_flags(raw: u32)
        ensures
            FLAGS_MORE_COMING & Self::mask() == FLAGS_MORE_COMING,
            FLAGS_ADD & Self::mask() == FLAGS_ADD,
            (raw & Self::mask()) & !Self::mask() == 0,
    {
        assert(0x1u32 & (0x1u32 | 0x2u32) == 0x1u32 && 0x2u32 & (0x1u32 | 0x2u32) == 0x2u32 && (raw & (0x1u32 | 0x2u32)) & !(0x1u32 | 0x2u32) == 0) by (bit_vector);
    }
}

/// Flags used to register a service
#[derive(Clone, Copy, PartialEq, Eq, Structural, PartialOrd, Ord, Hash, Debug, Default)]
pub struct RegisterFlags {
    bits: u32,
}

impl View for RegisterFlags {
    type V = u32;

    /// The flag word.
    closed spec fn view(&self) -> u32 {
        self.bits
    }
}

impl RegisterFlags {
    /// A name conflict is reported instead of handled automatically.
    #[allow(non_snake_case)]
    pub fn NO_AUTO_RENAME() -> (r: RegisterFlags)
        ensures
            r@ == FLAGS_NO_AUTO_RENAME,
    {
        RegisterFlags { bits: FLAGS_NO_AUTO_RENAME }
    }

    /// There may be several records with the given name, type and class.
    #[allow(non_snake_case)]
    pub fn SHARED() -> (r: RegisterFlags)
        ensures
            r@ == FLAGS_SHARED,
    {
        RegisterFlags { bits: FLAGS_SHARED }
    }

    /// The record with the given name, type and class is unique.
    #[allow(non_snake_case)]
    pub fn UNIQUE() -> (r: RegisterFlags)
        ensures
            r@ == FLAGS_UNIQUE,
    {
        RegisterFlags { bits: FLAGS_UNIQUE }
    }

    /// The bits that this set can hold.
    pub open spec fn mask() -> u32 {
        FLAGS_NO_AUTO_RENAME | FLAGS_SHARED | FLAGS_UNIQUE
    }

    /// The empty set.
    pub fn empty() -> (r: RegisterFlags)
        ensures
            r@ == 0,
    {
        RegisterFlags { bits: 0 }
    }

    /// The set of all flags.
    pub fn all() -> (r: RegisterFlags)
        ensures
            r@ == Self::mask(),
    {
        RegisterFlags { bits: FLAGS_NO_AUTO_RENAME | FLAGS_SHARED | FLAGS_UNIQUE }
    }

    /// The flag word of the service library.
    pub fn bits(&self) -> (r: u32)
        ensures
            r == self@,
    {
        self.bits
    }

    /// Convert a flag word, dropping the bits this set cannot hold.
    pub fn from_bits_truncate(bits: u32) -> (r: RegisterFlags)
        ensures
            r@ == bits & Self::mask(),
    {
        RegisterFlags { bits: bits & (FLAGS_NO_AUTO_RENAME | FLAGS_SHARED | FLAGS_UNIQUE) }
    }

    /// Whether all flags of `other` are set.
    pub fn contains(&self, other: RegisterFlags) -> (r: bool)
        ensures
            r == (self@ & other@ == other@),
    {
        self.bits & other.bits == other.bits
    }

    /// The flags set in either.
    pub fn union(self, other: RegisterFlags) -> (r: RegisterFlags)
        ensures
            r@ == self@ | other@,
    {
        RegisterFlags { bits: self.bits | other.bits }
    }

    /// Whether no flag is set.
    pub fn is_empty(&self) -> (r: bool)
        ensures
            r == (self@ == 0),
    {
        self.bits == 0
    }

    /// Each named flag converts to exactly its raw value, that value
    /// converts back to the set of just that flag, and converting any word
    /// keeps only known bits.
    pub proof fn lemma_named_flags(raw: u32)
        ensures
            FLAGS_NO_AUTO_RENAME & Self::mask() == FLAGS_NO_AUTO_RENAME,
            FLAGS_SHARED & Self::mask() == FLAGS_SHARED,
            FLAGS_UNIQUE & Self::mask() == FLAGS_UNIQUE,
            (raw & Self::mask()) & !Self::mask() == 0,
    {
        assert(0x8u32 & (0x8u32 | 0x10u32 | 0x20u32) == 0x8u32 && 0x10u32 & (0x8u32 | 0x10u32 | 0x20u32) == 0x10u32 && 0x20u32 & (0x8u32 | 0x10u32 | 0x20u32) == 0x20u32 && (raw & (0x8u32 | 0x10u32 | 0x20u32)) & !(0x8u32 | 0x10u32 | 0x20u32) == 0) by (bit_vector);
    }
}

/// Flags of a service registration result
///
/// Some implementations (avahi) do not report `ADD`.
#[derive(Clone, Copy, PartialEq, Eq, Structural, PartialOrd, Ord, Hash, Debug, Default)]
pub struct RegisteredFlags {
    bits: u32,
}

impl View for RegisteredFlags {
    type V = u32;

    /// The flag word.
    closed spec fn view(&self) -> u32 {
        self.bits
    }
}

impl RegisteredFlags {
    /// The result is new; when clear, it was removed.
    #[allow(non_snake_case)]
    pub fn ADD() -> (r: RegisteredFlags)
        ensures
            r@ == FLAGS_ADD,
    {
        RegisteredFlags { bits: FLAGS_ADD }
    }

    /// The bits that this set can hold.
    pub open spec fn mask() -> u32 {
        FLAGS_ADD
    }

    /// The empty set.
    pub fn empty() -> (r: RegisteredFlags)
        ensures
            r@ == 0,
    {
        RegisteredFlags { bits: 0 }
    }

    /// The set of all flags.
    pub fn all() -> (r: RegisteredFlags)
        ensures
            r@ == Self::mask(),
    {
        RegisteredFlags { bits: FLAGS_ADD }
    }

    /// The flag word of the service library.
    pub fn bits(&self) -> (r: u32)
        ensures
            r == self@,
    {
        self.bits
    }

    /// Convert a flag word, dropping the bits this set cannot hold.
    pub fn from_bits_truncate(bits: u32) -> (r: RegisteredFlags)
        ensures
            r@ == bits & Self::mask(),
    {
        RegisteredFlags { bits: bits & (FLAGS_ADD) }
    }

    /// Whether all flags of `other` are set.
    pub fn contains(&self, other: RegisteredFlags) -> (r: bool)
        ensures
            r == (self@ & other@ == other@),
    {
        self.bits & other.bits == other.bits
    }

    /// The flags set in either.
    pub fn union(self, other: RegisteredFlags) -> (r: RegisteredFlags)
        ensures
            r@ == self@ | other@,
    {
        RegisteredFlags { bits: self.bits | other.bits }
    }

    /// Whether no flag is set.
    pub fn is_empty(&self) -> (r: bool)
        ensures
            r == (self@ == 0),
    {
        self.bits == 0
    }

    /// Each named flag converts to exactly its raw value, that value
    /// converts back to the set of just that flag, and converting any word
    /// keeps only known bits.
    pub proof fn lemma_named_flags(raw: u32)
        ensures
            FLAGS_ADD & Self::mask() == FLAGS_ADD,
            (raw & Self::mask()) & !Self::mask() == 0,
    {
        assert(0x2u32 & (0x2u32) == 0x2u32 && (raw & (0x2u32)) & !(0x2u32) == 0) by (bit_vector);
    }
}

/// Flags used to register a record
#[derive(Clone, Copy, PartialEq, Eq, Structural, PartialOrd, Ord, Hash, Debug, Default)]
pub struct RegisterRecordFlags {
    bits: u32,
}

impl View for RegisterRecordFlags {
    type V = u32;

    /// The flag word.
    closed spec fn view(&self) -> u32 {
        self.bits
    }
}

impl RegisterRecordFlags {
    /// There may be several records with the given name, type and class.
    #[allow(non_snake_case)]
    pub fn SHARED() -> (r: RegisterRecordFlags)
        ensures
            r@ == FLAGS_SHARED,
    {
        RegisterRecordFlags { bits: FLAGS_SHARED }
    }

    /// The record with the given name, type and class is unique.
    #[allow(non_snake_case)]
    pub fn UNIQUE() -> (r: RegisterRecordFlags)
        ensures
            r@ == FLAGS_UNIQUE,
    {
        RegisterRecordFlags { bits: FLAGS_UNIQUE }
    }

    /// The bits that this set can hold.
    pub open spec fn mask() -> u32 {
        FLAGS_SHARED | FLAGS_UNIQUE
    }

    /// The empty set.
    pub fn empty() -> (r: RegisterRecordFlags)
        ensures
            r@ == 0,
    {
        RegisterRecordFlags { bits: 0 }
    }

    /// The set of all flags.
    pub fn all() -> (r: RegisterRecordFlags)
        ensures
            r@ == Self::mask(),
    {
        RegisterRecordFlags { bits: FLAGS_SHARED | FLAGS_UNIQUE }
    }

    /// The flag word of the service library.
    pub fn bits(&self) -> (r: u32)
        ensures
            r == self@,
    {
        self.bits
    }

    /// Convert a flag word, dropping the bits this set cannot hold.
    pub fn from_bits_truncate(bits: u32) -> (r: RegisterRecordFlags)
        ensures
            r@ == bits & Self::mask(),
    {
        RegisterRecordFlags { bits: bits & (FLAGS_SHARED | FLAGS_UNIQUE) }
    }

    /// Whether all flags of `other` are set.
    pub fn contains(&self, other: RegisterRecordFlags) -> (r: bool)
        ensures
            r == (self@ & other@ == other@),
    {
        self.bits & other.bits == other.bits
    }

    /// The flags set in either.
    pub fn union(self, other: RegisterRecordFlags) -> (r: RegisterRecordFlags)
        ensures
            r@ == self@ | other@,
    {
        RegisterRecordFlags { bits: self.bits | other.bits }
    }

    /// Whether no flag is set.
    pub fn is_empty(&self) -> (r: bool)
        ensures
            r == (self@ == 0),
    {
        self.bits == 0
    }

    /// Each named flag converts to exactly its raw value, that value
    /// converts back to the set of just that flag, and converting any word
    /// keeps only known bits.
    pub proof fn lemma_named_flags(raw: u32)
        ensures
            FLAGS_SHARED & Self::mask() == FLAGS_SHARED,
            FLAGS_UNIQUE & Self::mask() == FLAGS_UNIQUE,
            (raw & Self::mask()) & !Self::mask() == 0,
    {
        assert(0x10u32 & (0x10u32 | 0x20u32) == 0x10u32 && 0x20u32 & (0x10u32 | 0x20u32) == 0x20u32 && (raw & (0x10u32 | 0x20u32)) & !(0x10u32 | 0x20u32) == 0) by (bit_vector);
    }
}

/// Flags of a resolve result
#[derive(Clone, Copy, PartialEq, Eq, Structural, PartialOrd, Ord, Hash, Debug, Default)]
pub struct ResolvedFlags {
    bits: u32,
}

impl View for ResolvedFlags {
    type V = u32;

    /// The flag word.
    closed spec fn view(&self) -> u32 {
        self.bits
    }
}

impl ResolvedFlags {
    /// At least one more result is pending in the queue.
    #[allow(non_snake_case)]
    pub fn MORE_COMING() -> (r: ResolvedFlags)
        ensures
            r@ == FLAGS_MORE_COMING,
    {
        ResolvedFlags { bits: FLAGS_MORE_COMING }
    }

    /// The bits that this set can hold.
    pub open spec fn mask() -> u32 {
        FLAGS_MORE_COMING
    }

    /// The empty set.
    pub fn empty() -> (r: ResolvedFlags)
        ensures
            r@ == 0,
    {
        ResolvedFlags { bits: 0 }
    }

    /// The set of all flags.
    pub fn all() -> (r: ResolvedFlags)
        ensures
            r@ == Self::mask(),
    {
        ResolvedFlags { bits: FLAGS_MORE_COMING }
    }

    /// The flag word of the service library.
    pub fn bits(&self) -> (r: u32)
        ensures
            r == self@,
    {
        self.bits
    }

    /// Convert a flag word, dropping the bits this set cannot hold.
    pub fn from_bits_truncate(bits: u32) -> (r: ResolvedFlags)
        ensures
            r@ == bits & Self::mask(),
    {
        ResolvedFlags { bits: bits & (FLAGS_MORE_COMING) }
    }

    /// Whether all flags of `other` are set.
    pub fn contains(&self, other: ResolvedFlags) -> (r: bool)
        ensures
            r == (self@ & other@ == other@),
    {
        self.bits & other.bits == other.bits
    }

    /// The flags set in either.
    pub fn union(self, other: ResolvedFlags) -> (r: ResolvedFlags)
        ensures
            r@ == self@ | other@,
    {
        ResolvedFlags { bits: self.bits | other.bits }
    }

    /// Whether no flag is set.
    pub fn is_empty(&self) -> (r: bool)
        ensures
            r == (self@ == 0),
    {
        self.bits == 0
    }

    /// Each named flag converts to exactly its raw value, that value
    /// converts back to the set of just that flag, and converting any word
    /// keeps only known bits.
    pub proof fn lemma_named_flags(raw: u32)
        ensures
            FLAGS_MORE_COMING & Self::mask() == FLAGS_MORE_COMING,
            (raw & Self::mask()) & !Self::mask() == 0,
    {
        assert(0x1u32 & (0x1u32) == 0x1u32 && (raw & (0x1u32)) & !(0x1u32) == 0) by (bit_vector);
    }
}

/// Flags of a host address result
///
/// Holds no `MORE_COMING`, as the results merge two queries.
#[derive(Clone, Copy, PartialEq, Eq, Structural, PartialOrd, Ord, Hash, Debug, Default)]
pub struct ResolvedHostFlags {
    bits: u32,
}

impl View for ResolvedHostFlags {
    type V = u32;

    /// The flag word.
    closed spec fn view(&self) -> u32 {
        self.bits
    }
}

impl ResolvedHostFlags {
    /// The result is new; when clear, it was removed.
    #[allow(non_snake_case)]
    pub fn ADD() -> (r: ResolvedHostFlags)
        ensures
            r@ == FLAGS_ADD,
    {
        ResolvedHostFlags { bits: FLAGS_ADD }
    }

    /// The bits that this set can hold.
    pub open spec fn mask() -> u32 {
        FLAGS_ADD
    }

    /// The empty set.
    pub fn empty() -> (r: ResolvedHostFlags)
        ensures
            r@ == 0,
    {
        ResolvedHostFlags { bits: 0 }
    }

    /// The set of all flags.
    pub fn all() -> (r: ResolvedHostFlags)
        ensures
            r@ == Self::mask(),
    {
        ResolvedHostFlags { bits: FLAGS_ADD }
    }

    /// The flag word of the service library.
    pub fn bits(&self) -> (r: u32)
        ensures
            r == self@,
    {
        self.bits
    }

    /// Convert a flag word, dropping the bits this set cannot hold.
    pub fn from_bits_truncate(bits: u32) -> (r: ResolvedHostFlags)
        ensures
            r@ == bits & Self::mask(),
    {
        ResolvedHostFlags { bits: bits & (FLAGS_ADD) }
    }

    /// Whether all flags of `other` are set.
    pub fn contains(&self, other: ResolvedHostFlags) -> (r: bool)
        ensures
            r == (self@ & other@ == other@),
    {
        self.bits & other.bits == other.bits
    }

    /// The flags set in either.
    pub fn union(self, other: ResolvedHostFlags) -> (r: ResolvedHostFlags)
        ensures
            r@ == self@ | other@,
    {
        ResolvedHostFlags { bits: self.bits | other.bits }
    }

    /// Whether no flag is set.
    pub fn is_empty(&self) -> (r: bool)
        ensures
            r == (self@ == 0),
    {
        self.bits == 0
    }

    /// Each named flag converts to exactly its raw value, that value
    /// converts back to the set of just that flag, and converting any word
    /// keeps only known bits.
    pub proof fn lemma_named_flags(raw: u32)
        ensures
            FLAGS_ADD & Self::mask() == FLAGS_ADD,
            (raw & Self::mask()) & !Self::mask() == 0,
    {
        assert(0x2u32 & (0x2u32) == 0x2u32 && (raw & (0x2u32)) & !(0x2u32) == 0) by (bit_vector);
    }
}

} // verus!
