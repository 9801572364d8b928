use vstd::prelude::*;

verus! {

/// DNS CLASS
///
/// A 16 bit code point; the names below are the standard ones.
#[derive(Copy, Clone, PartialEq, Eq, Structural, PartialOrd, Ord, Hash, Debug)]
pub struct Class(pub u16);

impl Class {
    /// CLASS Internet
    #[allow(non_snake_case)]
    pub fn IN() -> (r: Class)
        ensures
            r == Class(0x0001u16),
    {
        Class(0x0001)
    }

    /// CLASS "Chaos"
    #[allow(non_snake_case)]
    pub fn CH() -> (r: Class)
        ensures
            r == Class(0x0003u16),
    {
        Class(0x0003)
    }

    /// CLASS "Hesiod"
    #[allow(non_snake_case)]
    pub fn HS() -> (r: Class)
        ensures
            r == Class(0x0004u16),
    {
        Class(0x0004)
    }

    /// QCLASS NONE
    #[allow(non_snake_case)]
    pub fn NONE() -> (r: Class)
        ensures
            r == Class(0x00feu16),
    {
        Class(0x00fe)
    }

    /// QCLASS "*" (ANY)
    #[allow(non_snake_case)]
    pub fn ANY() -> (r: Class)
        ensures
            r == Class(0x00ffu16),
    {
        Class(0x00ff)
    }
}

/// DNS (RR)TYPE
///
/// A 16 bit code point; the names below are the standard ones.
#[derive(Copy, Clone, PartialEq, Eq, Structural, PartialOrd, Ord, Hash, Debug)]
pub struct Type(pub u16);

impl Type {
    /// a host address
    #[allow(non_snake_case)]
    pub fn A() -> (r: Type)
        ensures
            r == Type(0x0001u16),
    {
        Type(0x0001)
    }

    /// an authoritative name server
    #[allow(non_snake_case)]
    pub fn NS() -> (r: Type)
        ensures
            r == Type(0x0002u16),
    {
        Type(0x0002)
    }

    /// the canonical name for an alias
    #[allow(non_snake_case)]
    pub fn CNAME() -> (r: Type)
        ensures
            r == Type(0x0005u16),
    {
        Type(0x0005)
    }

    /// marks the start of a zone of authority
    #[allow(non_snake_case)]
    pub fn SOA() -> (r: Type)
        ensures
            r == Type(0x0006u16),
    {
        Type(0x0006)
    }

    /// a null RR (EXPERIMENTAL)
    #[allow(non_snake_case)]
    pub fn NULL() -> (r: Type)
        ensures
            r == Type(0x000au16),
    {
        Type(0x000a)
    }

    /// a domain name pointer
    #[allow(non_snake_case)]
    pub fn PTR() -> (r: Type)
        ensures
            r == Type(0x000cu16),
    {
        Type(0x000c)
    }

    /// host information
    #[allow(non_snake_case)]
    pub fn HINFO() -> (r: Type)
        ensures
            r == Type(0x000du16),
    {
        Type(0x000d)
    }

    /// mail exchange
    #[allow(non_snake_case)]
    pub fn MX() -> (r: Type)
        ensures
            r == Type(0x000fu16),
    {
        Type(0x000f)
    }

    /// text strings
    #[allow(non_snake_case)]
    pub fn TXT() -> (r: Type)
        ensures
            r == Type(0x0010u16),
    {
        Type(0x0010)
    }

    /// IP6 Address
    #[allow(non_snake_case)]
    pub fn AAAA() -> (r: Type)
        ensures
            r == Type(0x001cu16),
    {
        Type(0x001c)
    }

    /// Server Selection
    #[allow(non_snake_case)]
    pub fn SRV() -> (r: Type)
        ensures
            r == Type(0x0021u16),
    {
        Type(0x0021)
    }

    /// Naming Authority Pointer
    #[allow(non_snake_case)]
    pub fn NAPTR() -> (r: Type)
        ensures
            r == Type(0x0023u16),
    {
        Type(0x0023)
    }

    /// OPT
    #[allow(non_snake_case)]
    pub fn OPT() -> (r: Type)
        ensures
            r == Type(0x0029u16),
    {
        Type(0x0029)
    }

    /// NSEC
    #[allow(non_snake_case)]
    pub fn NSEC() -> (r: Type)
        ensures
            r == Type(0x002fu16),
    {
        Type(0x002f)
    }

    /// "*", a request for all records the server/cache has available
    #[allow(non_snake_case)]
    pub fn ANY() -> (r: Type)
        ensures
            r == Type(0x00ffu16),
    {
        Type(0x00ff)
    }
}

} // verus!
