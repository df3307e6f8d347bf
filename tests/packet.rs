use camera_control::{
    header_for_address, ActionRequestBuilder, Header, Request, RequestCategory, RequestKind,
    Response, ResponseKind, ViscaAction, ViscaError,
};

fn decode(frame: &[u8]) -> Result<Response, ViscaError> {
    Response::from_frame(frame)
}

#[test]
fn test_try_from_kinds() {
    for frame in [&b"\x90\x40\xFF"[..], b"\x90\x41\xFF", b"\x90\xC1\xFF"] {
        assert_eq!(decode(frame).unwrap().kind(), ResponseKind::Ack);
    }
    for frame in [&b"\x90\x50\xFF"[..], b"\x90\x51\xFF", b"\x90\xD1\xFF"] {
        assert_eq!(decode(frame).unwrap().kind(), ResponseKind::Completion);
    }
}

#[test]
fn test_try_from_malformed() {
    for frame in [&b""[..], b"\x90", b"\x90\xFF", b"\x90\x00\xFF", b"\x90\x60\xFF"] {
        assert!(matches!(decode(frame), Err(ViscaError::InvalidResponse)));
    }
}

#[test]
fn frame_without_start_bit_or_terminator_is_rejected() {
    assert!(matches!(decode(b"\x10\x41\xFF"), Err(ViscaError::InvalidResponse)));
    assert!(matches!(decode(b"\x90\x41\x00"), Err(ViscaError::InvalidResponse)));
}

#[test]
fn test_try_from_device_errors() {
    let cases: Vec<(&[u8], ViscaError)> = vec![
        (b"\x90\x60\x01\xFF", ViscaError::InvalidMessageLength),
        (b"\x90\x60\x02\xFF", ViscaError::Syntax),
        (b"\x90\x60\x03\xFF", ViscaError::CommandBufferFull),
        (b"\x90\x60\x04\xFF", ViscaError::CommandCanceled),
        (b"\x90\x60\x05\xFF", ViscaError::NoSocket),
        (b"\x90\x60\x41\xFF", ViscaError::CommandNotExecutable),
        (b"\x90\x60\x06\xFF", ViscaError::Unknown),
        (b"\x90\x61\x04\xFF", ViscaError::CommandCanceled),
        (b"\xE0\x60\x01\xFF", ViscaError::InvalidMessageLength),
    ];
    for (frame, expected) in cases {
        assert_eq!(decode(frame).unwrap_err(), expected);
    }
}

#[test]
fn error_frame_missing_sub_code() {
    assert!(matches!(decode(b"\x90\x60\x01\xFF"), Err(ViscaError::InvalidMessageLength)));
    assert!(matches!(decode(b"\x90\x60\xFF"), Err(ViscaError::InvalidResponse)));
}

#[test]
fn test_address() {
    let cases: Vec<(&[u8], u8)> = vec![
        (b"\x80\x40\xFF", 0),
        (b"\x90\x40\xFF", 1),
        (b"\xA0\x40\xFF", 2),
        (b"\xB0\x40\xFF", 3),
        (b"\xC0\x40\xFF", 4),
        (b"\xD0\x40\xFF", 5),
        (b"\xE0\x40\xFF", 6),
        (b"\xF0\x40\xFF", 7),
    ];
    for (frame, address) in cases {
        assert_eq!(decode(frame).unwrap().address(), address);
    }
}

#[test]
fn test_payload() {
    assert_eq!(decode(b"\x90\x41\xFF").unwrap().payload(), Vec::<u8>::new());
    assert_eq!(decode(b"\x90\x41\x02\xFF").unwrap().payload(), vec![0x02]);
    assert_eq!(decode(b"\x90\x41\x02\x03\xFF").unwrap().payload(), vec![0x02, 0x03]);
    assert_eq!(decode(b"\xD0\x50\x02\xFF").unwrap().data(), &[0x02]);
}

#[test]
fn test_request_to_bytes() {
    let cases: Vec<(Request, &[u8])> = vec![
        (Request::new(0, 1, RequestKind::Command, RequestCategory::Camera, 0x01, vec![]), b"\x81\x01\x04\x01\xFF"),
        (Request::new(1, 1, RequestKind::Command, RequestCategory::Camera, 0x01, vec![]), b"\x91\x01\x04\x01\xFF"),
        (Request::new(2, 1, RequestKind::Command, RequestCategory::Camera, 0x01, vec![]), b"\xA1\x01\x04\x01\xFF"),
        (Request::new(0, 2, RequestKind::Command, RequestCategory::Camera, 0x01, vec![]), b"\x82\x01\x04\x01\xFF"),
        (Request::new(1, 3, RequestKind::Command, RequestCategory::Camera, 0x01, vec![]), b"\x93\x01\x04\x01\xFF"),
        (Request::new(2, 4, RequestKind::Command, RequestCategory::Camera, 0x01, vec![]), b"\xA4\x01\x04\x01\xFF"),
        (Request::new(0, 1, RequestKind::Inquiry, RequestCategory::Camera, 0x01, vec![]), b"\x81\x09\x04\x01\xFF"),
        (Request::new(0, 1, RequestKind::Command, RequestCategory::PanTilt, 0x01, vec![]), b"\x81\x01\x06\x01\xFF"),
        (Request::new(0, 1, RequestKind::Command, RequestCategory::Camera, 0x09, vec![]), b"\x81\x01\x04\x09\xFF"),
        (
            Request::new(0, 1, RequestKind::Command, RequestCategory::Camera, 0x01, vec![0x20, 0x42]),
            b"\x81\x01\x04\x01\x20\x42\xFF",
        ),
    ];
    for (request, expected) in cases {
        assert_eq!(request.to_bytes().unwrap(), expected.to_vec());
    }
}

#[test]
fn request_with_invalid_address_fails() {
    let to_eight = Request::new(0, 8, RequestKind::Command, RequestCategory::Camera, 0x01, vec![]);
    assert!(matches!(to_eight.to_bytes(), Err(ViscaError::InvalidAddress)));
    let from_eight = Request::new(8, 1, RequestKind::Command, RequestCategory::Camera, 0x01, vec![]);
    assert!(matches!(from_eight.to_bytes(), Err(ViscaError::InvalidAddress)));
}

#[test]
fn header_for_every_address() {
    for address in 0u8..=7 {
        assert_eq!(header_for_address(address).unwrap(), 0x80 | address);
    }
    for address in [8u8, 9, 0x7F, 0xFF] {
        assert!(matches!(header_for_address(address), Err(ViscaError::InvalidAddress)));
    }
}

#[test]
fn address_round_trips_through_header() {
    for sender in 0u8..=7 {
        for receiver in 0u8..=7 {
            let bytes = Request::new(sender, receiver, RequestKind::Inquiry, RequestCategory::Camera, 0, vec![])
                .to_bytes()
                .unwrap();
            let header = Header::from_byte(bytes[0]).unwrap();
            assert_eq!(header.sender(), sender);
            assert_eq!(header.receiver(), receiver);
            let reply = [bytes[0], 0x50, 0xFF];
            assert_eq!(decode(&reply).unwrap().address(), sender);
        }
    }
    assert!(Header::from_byte(0x7F).is_none());
}

#[test]
fn test_action_request_builder() {
    let built = camera_control::Move::Up(0x14).action(3).sender(3).build().unwrap().to_bytes().unwrap();
    assert_eq!(built, b"\xB3\x01\x06\x01\x00\x14\x03\x01\xFF".to_vec());
    let refused: Result<Request, ViscaError> =
        ActionRequestBuilder::sender(camera_control::Move::Up(0x15).action(3), 3).build();
    assert!(matches!(refused, Err(ViscaError::InvalidSpeed)));
}
