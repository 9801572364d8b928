use async_dnssd::error::{check_c_string, rdata_length};
use async_dnssd::{DNSServiceError, Error, InputError};

#[test]
fn test_ffi_err_description() {
    assert_eq!(DNSServiceError::NoAuth.description(), "no auth");
}

#[test]
fn descriptions_of_other_errors() {
    assert_eq!(DNSServiceError::NameConflict.description(), "name conflict");
    assert_eq!(
        DNSServiceError::Incompatible.description(),
        "client library incompatible with daemon"
    );
    assert_eq!(DNSServiceError::BufferTooSmall.description(), "buffer too small");
}

#[test]
fn success_codes_decode_to_ok() {
    assert!(Error::from(0).is_ok());
    assert!(Error::from(-65790).is_ok());
    assert!(Error::from(-65791).is_ok());
    assert!(Error::from(-65792).is_ok());
}

#[test]
fn known_codes_decode_to_named_errors() {
    assert!(matches!(Error::from(-65548), Err(Error::KnownError(DNSServiceError::NameConflict))));
    assert!(matches!(Error::from(-65537), Err(Error::KnownError(DNSServiceError::Unknown))));
    assert!(matches!(Error::from(-65555), Err(Error::KnownError(DNSServiceError::NoAuth))));
    assert!(matches!(Error::from(-65572), Err(Error::KnownError(DNSServiceError::StaleData))));
    assert_eq!(DNSServiceError::try_from(-65557), Some(DNSServiceError::NATTraversal));
    assert_eq!(DNSServiceError::try_from(-65546), None);
}

#[test]
fn unknown_codes_are_preserved() {
    assert!(matches!(Error::from(-65546), Err(Error::UnknownError(-65546))));
    assert!(matches!(Error::from(42), Err(Error::UnknownError(42))));
    assert!(matches!(Error::from(-1), Err(Error::UnknownError(-1))));
}

#[test]
fn rdata_length_limits() {
    assert_eq!(rdata_length(&[1, 2, 3]), Ok(3));
    assert_eq!(rdata_length(&vec![0u8; 0xffff]), Ok(0xffff));
    assert_eq!(rdata_length(&vec![0u8; 0x10000]), Err(InputError::RdataTooLong));
}

#[test]
fn c_strings_reject_nul() {
    assert_eq!(check_c_string("_ssh._tcp"), Ok(()));
    assert_eq!(check_c_string(""), Ok(()));
    assert_eq!(check_c_string("a\0b"), Err(InputError::InteriorNul));
}
