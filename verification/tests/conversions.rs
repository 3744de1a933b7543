use klymene_srv::codes::{PeerCode, PeerInitCode, ServerCode};

#[test]
fn enums_conversion() {
    let code = 1u32; // Login code
    // A code is a number with a name, not a fieldless enum, so it cannot be
    // cast with `as`; `u32::from` gives the number that the cast gave.
    assert_eq!(code, u32::from(ServerCode::Login()));
    assert_eq!(ServerCode::try_from(code).unwrap(), ServerCode::Login());
    let code = 4u32; // Code doesn't exist
    assert!(ServerCode::try_from(code).is_err());
}

#[test]
fn server_codes_have_their_numbers() {
    assert_eq!(u32::from(ServerCode::SetListenPort()), 2);
    assert_eq!(u32::from(ServerCode::Ping()), 32);
    assert_eq!(u32::from(ServerCode::ExcludedSearchPhrases()), 160);
    assert_eq!(u32::from(ServerCode::CantConnectToPeer()), 1001);
    assert_eq!(u32::from(ServerCode::CantCreateRoom()), 1003);
}

#[test]
fn every_server_number_round_trips() {
    let mut known = 0;
    for value in 0u32..2000 {
        if let Ok(code) = ServerCode::try_from(value) {
            assert_eq!(u32::from(code), value);
            assert_eq!(ServerCode::try_from(u32::from(code)), Ok(code));
            known += 1;
        }
    }
    assert_eq!(known, 74);
    assert!(ServerCode::try_from(0).is_err());
    assert!(ServerCode::try_from(1002).is_err());
    assert!(ServerCode::try_from(u32::MAX).is_err());
}

#[test]
fn peer_codes_convert_both_ways() {
    assert_eq!(u8::from(PeerCode::SharedFileListRequest()), 4);
    assert_eq!(u8::from(PeerCode::PlaceInQueueRequest()), 51);
    assert_eq!(PeerCode::try_from(40u8), Ok(PeerCode::TransferRequest()));
    assert!(PeerCode::try_from(0u8).is_err());
    assert!(PeerCode::try_from(255u8).is_err());
    let mut known = 0;
    for value in 0u8..=255 {
        if let Ok(code) = PeerCode::try_from(value) {
            assert_eq!(u8::from(code), value);
            known += 1;
        }
    }
    assert_eq!(known, 14);
}

#[test]
fn peer_init_codes_cast_to_their_numbers() {
    assert_eq!(PeerInitCode::PierceFirewall as u32, 0);
    assert_eq!(PeerInitCode::PeerInit as u32, 1);
}
