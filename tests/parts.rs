use frost_driver::apdu::{parse_response, CommandBuilder};
use frost_driver::codec::{inflate, pack, unpack};
use frost_driver::error::ProtocolError;
use frost_driver::index::{identifier_number, position_of};
use frost_driver::keygen::KeygenContext;
use frost_driver::{command, response};

const G_COMPRESSED: &str = "0279be667ef9dcbbac55a06295ce870b07029bfcdb2dce28d959f2815b16f81798";
const G_UNCOMPRESSED: &str = "0479be667ef9dcbbac55a06295ce870b07029bfcdb2dce28d959f2815b16f81798483ada7726a3c4655da4fbfc0e1108a8fd17b448a68554199c47d08ffb10d4b8";

fn hex(s: &str) -> Vec<u8> {
    (0..s.len()).step_by(2).map(|i| u8::from_str_radix(&s[i..i + 2], 16).unwrap()).collect()
}

#[test]
fn skip_self_rule() {
    assert_eq!(KeygenContext::index_to_identifier(0, 1), 2);
    assert_eq!(KeygenContext::index_to_identifier(1, 1), 3);
    assert_eq!(KeygenContext::index_to_identifier(0, 2), 1);
    assert_eq!(KeygenContext::index_to_identifier(1, 2), 3);
    assert_eq!(KeygenContext::index_to_identifier(0, 3), 1);
    assert_eq!(KeygenContext::index_to_identifier(1, 3), 2);
}

#[test]
fn position_in_subset() {
    assert_eq!(position_of(&vec![1, 3, 5], 3), Some(1));
    assert_eq!(position_of(&vec![1, 3, 5], 2), None);
    assert_eq!(position_of(&vec![], 2), None);
}

#[test]
fn identifier_bytes() {
    let mut b = vec![0u8; 32];
    b[31] = 5;
    b[30] = 1;
    assert_eq!(identifier_number(&b), Some(261));
    b[0] = 1;
    assert_eq!(identifier_number(&b), None);
    assert_eq!(identifier_number(&vec![0u8; 31]), None);
}

#[test]
fn framing_round_trip() {
    let msgs = vec![vec![1, 2, 3], vec![], vec![9]];
    let b = pack(&msgs);
    assert_eq!(b, vec![0, 0, 0, 3, 1, 2, 3, 0, 0, 0, 0, 0, 0, 0, 1, 9]);
    assert_eq!(unpack(&b), Some(msgs));
    assert_eq!(unpack(&[]), Some(vec![]));
    assert_eq!(unpack(&[0, 0, 0]), None);
    assert_eq!(unpack(&[0, 0, 0, 2, 7]), None);
}

#[test]
fn inflate_copies() {
    assert_eq!(inflate(&vec![4, 5], 3), vec![vec![4, 5], vec![4, 5], vec![4, 5]]);
    assert!(inflate(&vec![4], 0).is_empty());
}

#[test]
fn builder_layout() {
    let c = CommandBuilder::new(0x80, 0x10).p1(1).p2(2).push(7).extend(&[8, 9]).build();
    assert_eq!(c, vec![0x80, 0x10, 1, 2, 3, 7, 8, 9]);
    assert_eq!(CommandBuilder::new(1, 2).build(), vec![1, 2, 0, 0]);
}

#[test]
fn response_status() {
    assert_eq!(parse_response(&[1, 2, 0x90, 0x00]), Ok(vec![1, 2]));
    assert_eq!(parse_response(&[0x90, 0x00]), Ok(vec![]));
    assert_eq!(parse_response(&[1, 0x6a, 0x82]), Err(ProtocolError::CardError));
    assert_eq!(parse_response(&[0x90]), Err(ProtocolError::CardError));
}

#[test]
fn setup_command() {
    let secret = [7u8; 32];
    let c = command::setup(2, 3, 1, &secret, &hex(G_COMPRESSED)).unwrap();
    let mut expected = vec![0, 1, 2, 3, 98, 1];
    expected.extend_from_slice(&secret);
    expected.extend(hex(G_UNCOMPRESSED));
    assert_eq!(c, expected);
    assert_eq!(command::setup(2, 3, 1, &secret, &[2, 1, 2]), Err(ProtocolError::InvalidPointEncoding));
}

#[test]
fn commit_and_sign_commands() {
    assert_eq!(command::commit(), vec![0, 2, 0, 0]);
    assert_eq!(command::sign(b"hi"), vec![0, 4, 2, 0, 2, b'h', b'i']);
}

#[test]
fn commitments_from_card_and_back() {
    let mut raw = hex(G_UNCOMPRESSED);
    raw.extend(hex(G_UNCOMPRESSED));
    raw.extend([0x90, 0x00]);
    let commitments = response::commit(&raw).unwrap();
    let c = command::commitment(2, &commitments).unwrap();
    let mut expected = vec![0, 3, 2, 0, 130];
    expected.extend(hex(G_UNCOMPRESSED));
    expected.extend(hex(G_UNCOMPRESSED));
    assert_eq!(c, expected);
    assert_eq!(response::commit(&[1, 2, 0x90, 0x00]), Err(ProtocolError::InvalidPointEncoding));
    assert_eq!(response::commit(&[0x6a, 0x82]), Err(ProtocolError::CardError));
}

#[test]
fn share_from_card() {
    let mut raw = vec![0u8; 31];
    raw.push(1);
    raw.extend([0x90, 0x00]);
    assert!(response::sign(&raw).is_ok());
    let mut bad = vec![0xffu8; 32];
    bad.extend([0x90, 0x00]);
    assert_eq!(response::sign(&bad), Err(ProtocolError::CryptoError));
    assert_eq!(response::sign(&[0x6f, 0x00]), Err(ProtocolError::CardError));
}

#[test]
fn plain_answers() {
    assert_eq!(response::setup(&[0x90, 0x00]), Ok(()));
    assert_eq!(response::commitment(&[0x69, 0x85]), Err(ProtocolError::CardError));
}
