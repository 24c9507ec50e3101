use virtual_visca::visca::PanTilt;
use virtual_visca::{decode, DecodeError, DecodeVisca};

#[test]
fn root_decode_empty_is_badly_formed() {
    assert_eq!(decode(&[]), Err(DecodeError::BadlyFormed(vec![])));
}

#[test]
fn root_decode_address_only_is_badly_formed() {
    assert_eq!(decode(&[0x81]), Err(DecodeError::BadlyFormed(vec![0x81])));
}

#[test]
fn root_decode_unknown_category() {
    assert_eq!(
        decode(&[0x81, 0x05, 0x06, 0xFF]),
        Err(DecodeError::Unrecognized([0x05, 0x00, 0x00, 0x00]))
    );
}

#[test]
fn root_try_decode_home_and_reset() {
    assert_eq!(PanTilt::try_decode(&[0x81, 0x01, 0x06, 0x04, 0xFF]), Ok(PanTilt::Home));
    assert_eq!(PanTilt::try_decode(&[0x85, 0x01, 0x06, 0x05, 0xFF]), Ok(PanTilt::Reset));
    assert_eq!(PanTilt::decode_from(&[0x81, 0x01, 0x06, 0x04, 0xFF, 0x33]), PanTilt::Home);
}
