use libmdbx::error::{mdbx_result, optional};
use libmdbx::sys;
use libmdbx::Error;

#[test]
fn known_codes_map_to_their_variants() {
    assert_eq!(Error::from_err_code(sys::MDBX_KEYEXIST), Error::KeyExist);
    assert_eq!(Error::from_err_code(-30798), Error::NotFound);
    assert_eq!(Error::from_err_code(-30796), Error::Corrupted);
    assert_eq!(Error::from_err_code(-30778), Error::Busy);
    assert_eq!(Error::from_err_code(-30417), Error::TooLarge);
    assert_eq!(Error::from_err_code(22), Error::InvalidValue);
    assert_eq!(Error::from_err_code(13), Error::Access);
}

#[test]
fn unknown_codes_are_kept() {
    assert_eq!(Error::from_err_code(12345), Error::Other(12345));
    assert_eq!(Error::from_err_code(-1), Error::Other(-1));
}

#[test]
fn error_codes_round_trip() {
    for code in [-30799, -30798, -30790, -30421, 13, 22, 7, -5] {
        assert_eq!(Error::from_err_code(code).to_err_code(), code);
    }
    assert_eq!(Error::DbsFull.to_err_code(), -30791);
}

#[test]
fn status_codes_as_results() {
    assert_eq!(mdbx_result(0), Ok(false));
    assert_eq!(mdbx_result(-1), Ok(true));
    assert_eq!(mdbx_result(-30798), Err(Error::NotFound));
    assert_eq!(mdbx_result(-30782), Err(Error::BadTxn));
}

#[test]
fn not_found_becomes_none() {
    assert_eq!(optional::<u8>(Ok(3)), Ok(Some(3)));
    assert_eq!(optional::<u8>(Err(Error::NotFound)), Ok(None));
    assert_eq!(optional::<u8>(Err(Error::MapFull)), Err(Error::MapFull));
}
