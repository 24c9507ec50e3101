use virtual_visca::decode::{
    decode, ptd_from_u8s, CategoryCode, CommandCode, DecodeError, DecodeVisca,
    UnrecognizedCategoryError, UnrecognizedCommandCode,
};
use virtual_visca::visca::{Command, PanTilt, PanTiltDirection};

#[test]
fn decode_home() {
    let res = decode(&[0x81, 0x01, 0x06, 0x04, 0xFF]);
    assert_eq!(res, Ok(Command::PanTilt(PanTilt::Home)));
}

#[test]
fn decode_reset_any_address() {
    let res = decode(&[0x83, 0x01, 0x06, 0x05, 0xFF]);
    assert_eq!(res, Ok(Command::PanTilt(PanTilt::Reset)));
}

#[test]
fn decode_home_ignores_extra_bytes_before_terminator() {
    let res = decode(&[0x81, 0x01, 0x06, 0x04, 0x00, 0x00, 0xFF]);
    assert_eq!(res, Ok(Command::PanTilt(PanTilt::Home)));
}

#[test]
fn decode_empty_packet() {
    let res = decode(&[]);
    assert_eq!(res, Err(DecodeError::Raw("expected an address byte at least.".to_string())));
}

#[test]
fn decode_address_only() {
    assert_eq!(decode(&[0x81]), Err(DecodeError::Incomplete));
}

#[test]
fn decode_without_terminator() {
    assert_eq!(decode(&[0x81, 0x01, 0x06, 0x04]), Err(DecodeError::NoTerminator));
    assert_eq!(decode(&[0x81, 0x01]), Err(DecodeError::NoTerminator));
}

#[test]
fn decode_address_and_terminator_only() {
    assert_eq!(decode(&[0x81, 0xFF]), Err(DecodeError::Incomplete));
}

#[test]
fn decode_inquiry_is_unimplemented() {
    assert_eq!(
        decode(&[0x81, 0x09, 0x06, 0x12, 0xFF]),
        Err(DecodeError::Unimplemented("Inquiry".to_string()))
    );
}

#[test]
fn decode_unknown_category() {
    assert_eq!(
        decode(&[0x81, 0x07, 0x06, 0x04, 0xFF]),
        Err(DecodeError::UnrecognizedCategory(UnrecognizedCategoryError(0x07)))
    );
}

#[test]
fn decode_command_without_command_byte() {
    assert_eq!(decode(&[0x81, 0x01, 0xFF]), Err(DecodeError::Incomplete));
}

#[test]
fn decode_unknown_command() {
    assert_eq!(
        decode(&[0x81, 0x01, 0x04, 0x07, 0x02, 0xFF]),
        Err(DecodeError::UnrecognizedCommand(UnrecognizedCommandCode(0x04)))
    );
}

#[test]
fn decode_pan_tilt_without_subcommand() {
    assert_eq!(decode(&[0x81, 0x01, 0x06, 0xFF]), Err(DecodeError::Incomplete));
}

#[test]
fn decode_unknown_subcommand() {
    assert_eq!(
        decode(&[0x81, 0x01, 0x06, 0x02, 0x01, 0x01, 0xFF]),
        Err(DecodeError::Raw("unexpected pantilt subcommand".to_string()))
    );
}

#[test]
fn decode_move_is_badly_formed() {
    let packet = [0x81, 0x01, 0x06, 0x01, 0x0C, 0x0A, 0x01, 0x01, 0xFF];
    assert_eq!(decode(&packet), Err(DecodeError::BadlyFormed(packet.to_vec())));
    let short = [0x81, 0x01, 0x06, 0x01, 0x0C, 0xFF];
    assert_eq!(decode(&short), Err(DecodeError::BadlyFormed(short.to_vec())));
}

#[test]
fn directions_from_codes() {
    assert_eq!(ptd_from_u8s(0x03, 0x01), Ok(PanTiltDirection::Up));
    assert_eq!(ptd_from_u8s(0x03, 0x02), Ok(PanTiltDirection::Down));
    assert_eq!(ptd_from_u8s(0x01, 0x03), Ok(PanTiltDirection::Left));
    assert_eq!(ptd_from_u8s(0x02, 0x03), Ok(PanTiltDirection::Right));
    assert_eq!(ptd_from_u8s(0x01, 0x01), Ok(PanTiltDirection::UpLeft));
    assert_eq!(ptd_from_u8s(0x02, 0x01), Ok(PanTiltDirection::UpRight));
    assert_eq!(ptd_from_u8s(0x01, 0x02), Ok(PanTiltDirection::DownLeft));
    assert_eq!(ptd_from_u8s(0x02, 0x02), Ok(PanTiltDirection::DownRight));
    assert_eq!(ptd_from_u8s(0x03, 0x03), Ok(PanTiltDirection::Stop));
}

#[test]
fn invalid_direction_codes() {
    assert_eq!(
        ptd_from_u8s(0x00, 0x01),
        Err(DecodeError::Raw("invalid pan tilt direction codes".to_string()))
    );
    assert!(ptd_from_u8s(0x04, 0x03).is_err());
}

#[test]
fn category_codes() {
    assert_eq!(CategoryCode::try_from(&0x01), Ok(CategoryCode::Command));
    assert_eq!(CategoryCode::try_from(&0x09), Ok(CategoryCode::Inquiry));
    assert_eq!(CategoryCode::try_from(&0x02), Err(UnrecognizedCategoryError(0x02)));
}

#[test]
fn command_codes() {
    assert_eq!(CommandCode::try_from(&0x06), Ok(CommandCode::PanTilt));
    assert_eq!(CommandCode::try_from(&0x04), Err(UnrecognizedCommandCode(0x04)));
}

#[test]
fn errors_convert_into_decode_errors() {
    assert_eq!(
        DecodeError::from(UnrecognizedCategoryError(3)),
        DecodeError::UnrecognizedCategory(UnrecognizedCategoryError(3))
    );
    assert_eq!(
        DecodeError::from(UnrecognizedCommandCode(5)),
        DecodeError::UnrecognizedCommand(UnrecognizedCommandCode(5))
    );
}

#[test]
fn try_decode_home_and_reset() {
    assert_eq!(PanTilt::try_decode(&[0x81, 0x01, 0x06, 0x04, 0xFF]), Ok(PanTilt::Home));
    assert_eq!(PanTilt::try_decode(&[0x82, 0x01, 0x06, 0x05, 0xFF]), Ok(PanTilt::Reset));
    assert_eq!(PanTilt::try_decode(&[0x81, 0x01, 0x06, 0x05, 0xFF, 0x00]), Ok(PanTilt::Reset));
}

#[test]
fn decode_from_reset() {
    assert_eq!(PanTilt::decode_from(&[0x81, 0x01, 0x06, 0x05, 0xFF]), PanTilt::Reset);
}

#[test]
fn try_decode_ignores_address_byte() {
    for address in [0x80u8, 0x81, 0x88, 0x00] {
        assert_eq!(PanTilt::try_decode(&[address, 0x01, 0x06, 0x04, 0xFF]), Ok(PanTilt::Home));
        assert_eq!(PanTilt::try_decode(&[address, 0x01, 0x06, 0x05, 0xFF]), Ok(PanTilt::Reset));
        assert_eq!(decode(&[address, 0x01, 0x06, 0x05, 0xFF]), Ok(Command::PanTilt(PanTilt::Reset)));
    }
}
