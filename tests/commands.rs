use camera_control::{
    Autofocus, Focus, InquiryRequestBuilder, Move, Power, Preset, Response, Result, ViscaAction,
    ViscaError, ViscaInquiry, Zoom,
};

fn action_bytes<A: ViscaAction>(action: A) -> Result<Vec<u8>> {
    action.action(1).build()?.to_bytes()
}

fn response(frame: &[u8]) -> Response {
    Response::from_frame(frame).unwrap()
}

#[test]
fn test_power_to_bytes_on() {
    assert_eq!(action_bytes(Power::On).unwrap(), b"\x81\x01\x04\x00\x02\xFF".to_vec());
}

#[test]
fn test_power_to_bytes_off() {
    assert_eq!(action_bytes(Power::Off).unwrap(), b"\x81\x01\x04\x00\x03\xFF".to_vec());
}

#[test]
fn test_power_inquiry_to_bytes() -> Result<()> {
    assert_eq!(
        InquiryRequestBuilder::new(1).build::<Power>()?.to_bytes(),
        Ok(b"\x81\x09\x04\x00\xFF".into())
    );
    Ok(())
}

#[test]
fn test_power_inquiry_from_response_payload() {
    assert!(matches!(Power::from_response(&response(b"\x90\x50\x02\xFF")), Ok(Power::On)));
    assert!(matches!(Power::from_response(&response(b"\x90\x50\x03\xFF")), Ok(Power::Off)));
    assert!(matches!(
        Power::from_response(&response(b"\x90\x50\x00\xFF")),
        Err(ViscaError::InvalidPowerValue)
    ));
}

#[test]
fn power_inquiry_masks_high_nibble() {
    assert!(matches!(Power::from_response(&response(b"\x90\x50\xF2\xFF")), Ok(Power::On)));
    assert!(matches!(Power::from_response(&response(b"\x90\x50\x13\xFF")), Ok(Power::Off)));
}

#[test]
fn power_inquiry_without_payload_is_rejected() {
    assert!(matches!(
        Power::from_response(&response(b"\x90\x50\xFF")),
        Err(ViscaError::InvalidPowerValue)
    ));
}

#[test]
fn test_power_from_bool() {
    assert_eq!(Power::from(true), Power::On);
    assert_eq!(Power::from(false), Power::Off);
}

#[test]
fn test_power_into_bool() {
    let on: bool = Power::On.into();
    let off: bool = Power::Off.into();
    assert!(on);
    assert!(!off);
}

#[test]
fn test_zoom_to_bytes() {
    assert_eq!(action_bytes(Zoom::Stop).unwrap(), b"\x81\x01\x04\x07\x00\xFF".to_vec());
    assert_eq!(action_bytes(Zoom::Tele).unwrap(), b"\x81\x01\x04\x07\x02\xFF".to_vec());
    assert_eq!(action_bytes(Zoom::Wide).unwrap(), b"\x81\x01\x04\x07\x03\xFF".to_vec());
}

#[test]
fn test_zoom_try_from() {
    assert!(matches!(Zoom::try_from("in"), Ok(Zoom::Tele)));
    assert!(matches!(Zoom::try_from("out"), Ok(Zoom::Wide)));
    assert!(matches!(Zoom::try_from("stop"), Ok(Zoom::Stop)));
    assert!(matches!(Zoom::try_from("anything else"), Err(ViscaError::InvalidZoomValue)));
    assert!(matches!(Zoom::try_from(""), Err(ViscaError::InvalidZoomValue)));
    assert!(matches!(Zoom::try_from("In"), Err(ViscaError::InvalidZoomValue)));
}

#[test]
fn zoom_into_u8() {
    assert_eq!(u8::from(Zoom::Tele), 0x02);
    assert_eq!(u8::from(Zoom::Wide), 0x03);
    assert_eq!(u8::from(Zoom::Stop), 0x00);
}

#[test]
fn test_autofocus_to_bytes() {
    assert_eq!(action_bytes(Autofocus::Auto).unwrap(), b"\x81\x01\x04\x38\x02\xFF".to_vec());
    assert_eq!(action_bytes(Autofocus::Manual).unwrap(), b"\x81\x01\x04\x38\x03\xFF".to_vec());
}

#[test]
fn test_autofocus_inquiry_to_bytes() -> Result<()> {
    assert_eq!(
        InquiryRequestBuilder::new(1)
            .build::<Autofocus>()?
            .to_bytes(),
        Ok(b"\x81\x09\x04\x38\xFF".into())
    );
    Ok(())
}

#[test]
fn test_autofocus_from_response_payload() {
    assert!(matches!(
        Autofocus::from_response(&response(b"\x90\x50\x02\xFF")),
        Ok(Autofocus::Auto)
    ));
    assert!(matches!(
        Autofocus::from_response(&response(b"\x90\x50\x03\xFF")),
        Ok(Autofocus::Manual)
    ));
    assert!(matches!(
        Autofocus::from_response(&response(b"\x90\x50\x00\xFF")),
        Err(ViscaError::InvalidAutofocusValue)
    ));
}

#[test]
fn test_autofocus_from_bool() {
    assert_eq!(Autofocus::from(true), Autofocus::Auto);
    assert_eq!(Autofocus::from(false), Autofocus::Manual);
}

#[test]
fn test_autofocus_into_bool() {
    let auto: bool = Autofocus::Auto.into();
    let manual: bool = Autofocus::Manual.into();
    assert!(auto);
    assert!(!manual);
}

#[test]
fn test_focus_to_bytes() {
    assert_eq!(action_bytes(Focus::Stop).unwrap(), b"\x81\x01\x04\x08\x00\xFF".to_vec());
    assert_eq!(action_bytes(Focus::Far).unwrap(), b"\x81\x01\x04\x08\x02\xFF".to_vec());
    assert_eq!(action_bytes(Focus::Near).unwrap(), b"\x81\x01\x04\x08\x03\xFF".to_vec());
}

#[test]
fn test_focus_try_from() {
    assert!(matches!(Focus::try_from("far"), Ok(Focus::Far)));
    assert!(matches!(Focus::try_from("near"), Ok(Focus::Near)));
    assert!(matches!(Focus::try_from("stop"), Ok(Focus::Stop)));
    assert!(matches!(Focus::try_from("anything else"), Err(ViscaError::InvalidFocusValue)));
}

#[test]
fn test_preset_to_bytes() {
    assert_eq!(action_bytes(Preset::Store(3)).unwrap(), b"\x81\x01\x04\x3F\x01\x03\xFF".to_vec());
    assert_eq!(action_bytes(Preset::Store(4)).unwrap(), b"\x81\x01\x04\x3F\x01\x04\xFF".to_vec());
    assert!(matches!(action_bytes(Preset::Store(0x10)), Err(ViscaError::InvalidPreset)));
    assert_eq!(action_bytes(Preset::Recall(3)).unwrap(), b"\x81\x01\x04\x3F\x02\x03\xFF".to_vec());
    assert_eq!(action_bytes(Preset::Recall(4)).unwrap(), b"\x81\x01\x04\x3F\x02\x04\xFF".to_vec());
    assert!(matches!(action_bytes(Preset::Recall(0x10)), Err(ViscaError::InvalidPreset)));
}

#[test]
fn preset_bounds() {
    assert_eq!(Preset::Store(0x0F).visca_action_data().unwrap(), vec![0x01, 0x0F]);
    assert_eq!(Preset::Recall(0).visca_action_data().unwrap(), vec![0x02, 0x00]);
    assert!(matches!(Preset::Store(0x10).visca_action_data(), Err(ViscaError::InvalidPreset)));
    assert!(matches!(Preset::Recall(0xFF).visca_action_data(), Err(ViscaError::InvalidPreset)));
}

#[test]
fn test_move_to_bytes() {
    let cases: Vec<(Move, &[u8])> = vec![
        (Move::Up(0x01), b"\x81\x01\x06\x01\x00\x01\x03\x01\xFF"),
        (Move::Up(0x14), b"\x81\x01\x06\x01\x00\x14\x03\x01\xFF"),
        (Move::Down(0x01), b"\x81\x01\x06\x01\x00\x01\x03\x02\xFF"),
        (Move::Down(0x14), b"\x81\x01\x06\x01\x00\x14\x03\x02\xFF"),
        (Move::Left(0x01), b"\x81\x01\x06\x01\x01\x00\x01\x03\xFF"),
        (Move::Left(0x18), b"\x81\x01\x06\x01\x18\x00\x01\x03\xFF"),
        (Move::Right(0x01), b"\x81\x01\x06\x01\x01\x00\x02\x03\xFF"),
        (Move::Right(0x18), b"\x81\x01\x06\x01\x18\x00\x02\x03\xFF"),
        (Move::Stop, b"\x81\x01\x06\x01\x00\x00\x03\x03\xFF"),
    ];
    for (command, expected) in cases {
        assert_eq!(action_bytes(command).unwrap(), expected.to_vec());
    }
    for command in [
        Move::Up(0x00),
        Move::Up(0x15),
        Move::Down(0x00),
        Move::Down(0x15),
        Move::Left(0x00),
        Move::Left(0x19),
        Move::Right(0x00),
        Move::Right(0x19),
    ] {
        assert!(matches!(action_bytes(command), Err(ViscaError::InvalidSpeed)));
    }
}

#[test]
fn move_up_payload_and_speed_bounds() {
    assert_eq!(Move::Up(0x01).visca_action_data().unwrap(), vec![0x00, 0x01, 0x03, 0x01]);
    assert!(matches!(Move::Up(0x00).visca_action_data(), Err(ViscaError::InvalidSpeed)));
    assert!(matches!(Move::Up(0x15).visca_action_data(), Err(ViscaError::InvalidSpeed)));
}

#[test]
fn power_on_encodes_category_id_payload() {
    let bytes = action_bytes(Power::On).unwrap();
    assert_eq!(&bytes[1..bytes.len() - 1], &[0x01, 0x04, 0x00, 0x02]);
    let bytes = action_bytes(Power::Off).unwrap();
    assert_eq!(&bytes[1..bytes.len() - 1], &[0x01, 0x04, 0x00, 0x03]);
}
