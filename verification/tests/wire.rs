use bincode::Options;
use ipfee::wire::{frame_fee, frame_user_tx, put_bytes, put_int};
use ipfee::EncodeError;
use ipfee::{encode, IpFeeMsg, PeerIp};

fn fee_event(cu_limit: u64, cu_used: u64, fee: u64) -> IpFeeMsg {
    IpFeeMsg::Fee { signature: [7u8; 64], cu_limit, cu_used, fee }
}

fn fee_record(tail: &[u8]) -> Vec<u8> {
    let mut expected = vec![1u8];
    expected.extend_from_slice(&[7u8; 64]);
    expected.extend_from_slice(tail);
    expected
}

#[test]
fn fee_record_has_tag_signature_and_three_integers() {
    let bytes = encode(&fee_event(200_000, 150, 5_000)).unwrap();
    let expected = fee_record(&[252, 0x40, 0x0D, 0x03, 0x00, 150, 251, 0x88, 0x13]);
    assert_eq!(bytes, expected);
}

#[test]
fn small_integers_take_one_byte() {
    assert_eq!(encode(&fee_event(0, 1, 250)).unwrap(), fee_record(&[0, 1, 250]));
}

#[test]
fn integer_251_takes_the_two_byte_form() {
    assert_eq!(encode(&fee_event(251, 0, 0)).unwrap(), fee_record(&[251, 251, 0, 0, 0]));
}

#[test]
fn integer_65535_is_the_last_two_byte_value() {
    assert_eq!(encode(&fee_event(65_535, 0, 0)).unwrap(), fee_record(&[251, 255, 255, 0, 0]));
}

#[test]
fn integer_65536_takes_the_four_byte_form() {
    assert_eq!(encode(&fee_event(65_536, 0, 0)).unwrap(), fee_record(&[252, 0, 0, 1, 0, 0, 0]));
}

#[test]
fn integer_above_u32_takes_the_eight_byte_form() {
    assert_eq!(
        encode(&fee_event(4_294_967_295, 4_294_967_296, u64::MAX)).unwrap(),
        fee_record(&[
            252, 255, 255, 255, 255, 253, 0, 0, 0, 0, 1, 0, 0, 0, 253, 255, 255, 255, 255, 255,
            255, 255, 255,
        ])
    );
}

#[test]
fn user_tx_record_with_ipv4_peer() {
    let mut signature = [0u8; 64];
    for (i, b) in signature.iter_mut().enumerate() {
        *b = i as u8;
    }
    let msg = IpFeeMsg::UserTx { ip: PeerIp::V4([192, 168, 1, 10]), signature };
    let mut expected = vec![0u8, 0, 192, 168, 1, 10];
    expected.extend_from_slice(&signature);
    assert_eq!(encode(&msg).unwrap(), expected);
}

#[test]
fn user_tx_record_with_ipv6_peer() {
    let octets = [0x20, 0x01, 0x0d, 0xb8, 0, 0, 0, 0, 0, 0, 0, 0, 0, 0, 0, 1];
    let msg = IpFeeMsg::UserTx { ip: PeerIp::V6(octets), signature: [9u8; 64] };
    let mut expected = vec![0u8, 1];
    expected.extend_from_slice(&octets);
    expected.extend_from_slice(&[9u8; 64]);
    assert_eq!(encode(&msg).unwrap(), expected);
    assert_eq!(expected.len(), 82);
}

#[test]
fn fee_record_matches_the_encoder_on_the_same_fields() {
    let reference = bincode::DefaultOptions::new()
        .serialize(&(1u32, [7u8; 32], [7u8; 32], 70_000u64, 300u64, 9_000_000_000u64))
        .unwrap();
    assert_eq!(encode(&fee_event(70_000, 300, 9_000_000_000)).unwrap(), reference);
}

#[test]
fn user_tx_record_matches_the_encoder_on_the_same_fields() {
    let reference = bincode::DefaultOptions::new()
        .serialize(&(0u32, 0u32, [10u8, 0, 0, 1], [3u8; 32], [3u8; 32]))
        .unwrap();
    let msg = IpFeeMsg::UserTx { ip: PeerIp::V4([10, 0, 0, 1]), signature: [3u8; 64] };
    assert_eq!(encode(&msg).unwrap(), reference);
}

#[test]
fn records_follow_each_other_without_framing() {
    let a = encode(&fee_event(1, 2, 3)).unwrap();
    let b = encode(&fee_event(4, 5, 6)).unwrap();
    assert_eq!(a.len(), 68);
    let mut stream = a.clone();
    stream.extend_from_slice(&b);
    assert_eq!(stream.len(), 136);
    assert_eq!(&stream[68..], &b[..]);
}

#[test]
fn put_bytes_appends_at_the_end() {
    let mut out = vec![1u8, 2];
    put_bytes(&mut out, &[3, 4, 5]);
    assert_eq!(out, vec![1, 2, 3, 4, 5]);
    put_bytes(&mut out, &[]);
    assert_eq!(out, vec![1, 2, 3, 4, 5]);
}

#[test]
fn put_int_appends_what_the_encoder_returned() {
    let mut out = vec![9u8];
    assert!(put_int(&mut out, Ok(vec![251, 1, 2])));
    assert_eq!(out, vec![9, 251, 1, 2]);
}

#[test]
fn put_int_leaves_the_bytes_on_an_encoder_error() {
    let mut out = vec![9u8];
    assert!(!put_int(&mut out, Err(Box::new(bincode::ErrorKind::SizeLimit))));
    assert_eq!(out, vec![9]);
}

fn encoder_error() -> Result<Vec<u8>, Box<bincode::ErrorKind>> {
    Err(Box::new(bincode::ErrorKind::SizeLimit))
}

#[test]
fn frame_fee_joins_the_fields_in_order() {
    let bytes = frame_fee(Ok(vec![1]), &[7u8; 64], Ok(vec![251, 1, 2]), Ok(vec![3]), Ok(vec![4]));
    assert_eq!(bytes, Ok(fee_record(&[251, 1, 2, 3, 4])));
}

#[test]
fn frame_fee_fails_when_any_integer_failed() {
    let sig = [7u8; 64];
    assert_eq!(
        frame_fee(encoder_error(), &sig, Ok(vec![1]), Ok(vec![2]), Ok(vec![3])),
        Err(EncodeError::Integer)
    );
    assert_eq!(
        frame_fee(Ok(vec![1]), &sig, encoder_error(), Ok(vec![2]), Ok(vec![3])),
        Err(EncodeError::Integer)
    );
    assert_eq!(
        frame_fee(Ok(vec![1]), &sig, Ok(vec![1]), encoder_error(), Ok(vec![3])),
        Err(EncodeError::Integer)
    );
    assert_eq!(
        frame_fee(Ok(vec![1]), &sig, Ok(vec![1]), Ok(vec![2]), encoder_error()),
        Err(EncodeError::Integer)
    );
}

#[test]
fn frame_user_tx_joins_the_fields_in_order() {
    let bytes = frame_user_tx(Ok(vec![0]), Ok(vec![0]), &PeerIp::V4([1, 2, 3, 4]), &[5u8; 64]);
    let mut expected = vec![0u8, 0, 1, 2, 3, 4];
    expected.extend_from_slice(&[5u8; 64]);
    assert_eq!(bytes, Ok(expected));
}

#[test]
fn frame_user_tx_fails_when_an_index_failed() {
    let ip = PeerIp::V6([0u8; 16]);
    assert_eq!(
        frame_user_tx(encoder_error(), Ok(vec![1]), &ip, &[5u8; 64]),
        Err(EncodeError::Integer)
    );
    assert_eq!(
        frame_user_tx(Ok(vec![0]), encoder_error(), &ip, &[5u8; 64]),
        Err(EncodeError::Integer)
    );
}
