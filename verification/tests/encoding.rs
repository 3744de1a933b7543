use klymene_srv::protocol::{frame, frame_request, BinaryEncode, Login, LoginRequest, ProtocolMessage};

fn sample_request() -> LoginRequest {
    LoginRequest {
        username: "username".into(),
        password: "password".into(),
        version_number: 177,
        hash: "d51c9a7e9353746a6020f9602d452929".into(),
        minor_version: 1,
    }
}

#[test]
fn u32_is_little_endian() {
    assert_eq!(0x0403_0201u32.encode(), vec![1, 2, 3, 4]);
    assert_eq!(0u32.encode(), vec![0, 0, 0, 0]);
    assert_eq!(u32::MAX.encode(), vec![255, 255, 255, 255]);
}

#[test]
fn string_carries_its_byte_length() {
    assert_eq!(String::from("abc").encode(), vec![3, 0, 0, 0, b'a', b'b', b'c']);
    assert_eq!(String::new().encode(), vec![0, 0, 0, 0]);
    // Two bytes in UTF-8 for one character: the length counts bytes.
    assert_eq!(String::from("é").encode(), vec![2, 0, 0, 0, 0xc3, 0xa9]);
}

#[test]
fn login_request_fields_in_order() {
    let req = LoginRequest {
        username: "ab".into(),
        password: "c".into(),
        version_number: 177,
        hash: "".into(),
        minor_version: 1,
    };
    assert_eq!(
        req.encode(),
        vec![2, 0, 0, 0, b'a', b'b', 1, 0, 0, 0, b'c', 177, 0, 0, 0, 0, 0, 0, 0, 1, 0, 0, 0]
    );
}

#[test]
fn login_message_starts_with_its_code() {
    let req = sample_request();
    let bytes = Login::encode_request(&req);
    assert_eq!(Login::CODE, 1);
    assert_eq!(&bytes[..4], &[1, 0, 0, 0]);
    assert_eq!(&bytes[4..], req.encode().as_slice());
    assert_eq!(bytes.len(), 4 + 12 + 12 + 4 + 36 + 4);
}

#[test]
fn frame_prefixes_the_length() {
    assert_eq!(frame(&[9, 8, 7]), vec![3, 0, 0, 0, 9, 8, 7]);
    assert_eq!(frame(&[]), vec![0, 0, 0, 0]);
    let body = Login::encode_request(&sample_request());
    let framed = frame(&body);
    let length = u32::from_le_bytes([framed[0], framed[1], framed[2], framed[3]]);
    assert_eq!(length as usize, body.len());
    assert_eq!(&framed[4..], body.as_slice());
}

#[test]
fn different_requests_encode_differently() {
    let a = sample_request();
    let mut b = sample_request();
    b.username = "usernam".into();
    b.password = "epassword".into();
    assert_ne!(a.encode(), b.encode());
}

#[test]
fn framed_login_request() {
    let req = sample_request();
    let framed = frame_request::<Login>(&req);
    assert_eq!(framed, frame(&Login::encode_request(&req)));
    assert_eq!(&framed[..8], &[72, 0, 0, 0, 1, 0, 0, 0]);
}
