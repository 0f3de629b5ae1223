use chacha20poly1305::aead::{Aead, KeyInit};
use chacha20poly1305::{ChaCha20Poly1305, Key, Nonce};
use gon::addr::Address;
use gon::daemon::node::{
    frame, frame_length, unframe, CodecError, Node, NodeError, NodeMessageCodec, Received,
    KEY_LEN, NONCE_LEN, PREFIX_LEN, TAG_LEN,
};

fn key() -> Vec<u8> {
    (0u8..32).collect()
}

fn nonce() -> Vec<u8> {
    (100u8..112).collect()
}

fn codec() -> NodeMessageCodec {
    NodeMessageCodec::new(Some(key()))
}

fn node() -> Node {
    Node::new(Address::new(192, 168, 1, 5, 4000), codec())
}

/// What the cipher of the crate makes of `msg` under `key` and `nonce`.
fn cipher_of(key: &[u8], nonce: &[u8], msg: &[u8]) -> Vec<u8> {
    let cipher = ChaCha20Poly1305::new(Key::from_slice(key));
    cipher.encrypt(Nonce::from_slice(nonce), msg).unwrap()
}

#[test]
fn lengths_are_those_of_the_cipher() {
    assert_eq!(KEY_LEN, 32);
    assert_eq!(NONCE_LEN, 12);
    assert_eq!(TAG_LEN, 16);
    assert_eq!(PREFIX_LEN, 4);
}

#[test]
fn codec_takes_the_key_that_was_stored() {
    assert_eq!(codec().key(), &key());
}

#[test]
fn codec_makes_the_key_that_is_missing() {
    let codec = NodeMessageCodec::new(None);
    assert_eq!(codec.key().len(), 32);
}

#[test]
fn two_fresh_codecs_differ() {
    let a = NodeMessageCodec::new(None);
    let b = NodeMessageCodec::new(None);
    assert_ne!(a.key(), b.key());
}

#[test]
fn stored_key_of_wrong_length_is_replaced() {
    for stored in [vec![], vec![1, 2, 3], vec![7; 31], vec![7; 33]] {
        let codec = NodeMessageCodec::new(Some(stored.clone()));
        assert_eq!(codec.key().len(), 32);
        assert_ne!(codec.key(), &stored);
    }
}

#[test]
fn nonce_of_wrong_length_is_refused() {
    for len in [0usize, 1, 11, 13, 24] {
        let r = codec().encrypt_with(&vec![7; len], b"value");
        assert_eq!(r, Err(CodecError::InvalidNonce));
    }
}

#[test]
fn encrypt_with_puts_the_nonce_before_the_cipher_of_the_crate() {
    let msg = b"a notification for the host".to_vec();
    let sealed = codec().encrypt_with(&nonce(), &msg).unwrap();
    assert_eq!(sealed.len(), 12 + msg.len() + 16);
    assert_eq!(&sealed[..12], nonce().as_slice());
    assert_eq!(&sealed[12..], cipher_of(&key(), &nonce(), &msg).as_slice());
    assert_ne!(&sealed[12..12 + msg.len()], msg.as_slice());
}

#[test]
fn encrypt_draws_a_nonce_for_each_value() {
    let codec = codec();
    let msg = b"the same value twice".to_vec();
    let first = codec.encrypt(&msg).unwrap();
    let second = codec.encrypt(&msg).unwrap();
    assert_eq!(first.len(), 12 + msg.len() + 16);
    assert_eq!(second.len(), 12 + msg.len() + 16);
    assert_ne!(&first[..12], &second[..12]);
    assert_ne!(&first[12..], &second[12..]);
    assert_eq!(&first[12..], cipher_of(&key(), &first[..12], &msg).as_slice());
    assert_eq!(&second[12..], cipher_of(&key(), &second[..12], &msg).as_slice());
    assert_eq!(codec.decrypt(&first), Ok(msg.clone()));
    assert_eq!(codec.decrypt(&second), Ok(msg));
}

#[test]
fn encrypt_of_nothing_is_nonce_and_tag() {
    let sealed = codec().encrypt(&[]).unwrap();
    assert_eq!(sealed.len(), 12 + 16);
    assert_eq!(codec().decrypt(&sealed), Ok(vec![]));
}

#[test]
fn decrypt_opens_what_encrypt_sealed() {
    let codec = codec();
    for len in [0usize, 1, 15, 16, 17, 63, 64, 65, 1000] {
        let msg: Vec<u8> = (0..len).map(|i| (i % 251) as u8).collect();
        let sealed = codec.encrypt(&msg).unwrap();
        assert_eq!(codec.decrypt(&sealed), Ok(msg.clone()));
        let sealed = codec.encrypt_with(&nonce(), &msg).unwrap();
        assert_eq!(codec.decrypt(&sealed), Ok(msg));
    }
}

#[test]
fn decrypt_needs_no_stored_nonce() {
    let msg = b"from a peer".to_vec();
    let peer_nonce = vec![9u8; 12];
    let mut sealed = peer_nonce.clone();
    sealed.extend_from_slice(&cipher_of(&key(), &peer_nonce, &msg));
    assert_eq!(codec().decrypt(&sealed), Ok(msg));
}

#[test]
fn decrypt_refuses_what_was_changed() {
    let codec = codec();
    let sealed = codec.encrypt(b"untouched").unwrap();
    for at in 0..sealed.len() {
        let mut changed = sealed.clone();
        changed[at] ^= 1;
        assert_eq!(codec.decrypt(&changed), Err(CodecError::DecryptError));
    }
    assert_eq!(codec.decrypt(&sealed[..sealed.len() - 1]), Err(CodecError::DecryptError));
    assert_eq!(codec.decrypt(&sealed[1..]), Err(CodecError::DecryptError));
}

#[test]
fn decrypt_refuses_what_is_shorter_than_nonce_and_tag() {
    let codec = codec();
    for len in 0..28usize {
        assert_eq!(codec.decrypt(&vec![0; len]), Err(CodecError::DecryptError));
    }
}

#[test]
fn decrypt_refuses_another_key() {
    let sealed = codec().encrypt(b"for the group").unwrap();
    let other_key = NodeMessageCodec::new(Some(vec![9; 32]));
    assert_eq!(other_key.decrypt(&sealed), Err(CodecError::DecryptError));
}

#[test]
fn frame_puts_the_length_first() {
    assert_eq!(frame(&[]), Some(vec![0, 0, 0, 0]));
    assert_eq!(frame(&[9, 8, 7]), Some(vec![0, 0, 0, 3, 9, 8, 7]));
    let body = vec![5u8; 300];
    let wire = frame(&body).unwrap();
    assert_eq!(&wire[..4], &[0, 0, 1, 44]);
    assert_eq!(&wire[4..], body.as_slice());
    let body = vec![1u8; 0x01_02_03];
    let wire = frame(&body).unwrap();
    assert_eq!(&wire[..4], &[0, 1, 2, 3]);
    assert_eq!(wire.len(), 4 + 0x01_02_03);
}

#[test]
fn frame_length_reads_most_significant_byte_first() {
    assert_eq!(frame_length(&[0, 0, 0, 0]), 0);
    assert_eq!(frame_length(&[0, 0, 0, 1]), 1);
    assert_eq!(frame_length(&[0, 0, 1, 0]), 256);
    assert_eq!(frame_length(&[0, 1, 0, 0]), 65536);
    assert_eq!(frame_length(&[1, 0, 0, 0]), 16777216);
    assert_eq!(frame_length(&[0x12, 0x34, 0x56, 0x78]), 0x12345678);
    assert_eq!(frame_length(&[255, 255, 255, 255]), u32::MAX as usize);
    assert_eq!(frame_length(&[0, 0, 1, 44]), u32::from_be_bytes([0, 0, 1, 44]) as usize);
}

#[test]
fn unframe_gives_the_body_back() {
    let body = vec![3u8, 1, 4, 1, 5];
    let wire = frame(&body).unwrap();
    assert_eq!(unframe(&wire), Some(body.as_slice()));
    assert_eq!(unframe(&[0, 0, 0, 0]), Some(&[][..]));
}

#[test]
fn unframe_takes_one_frame_and_no_more() {
    let mut wire = frame(&[1, 2]).unwrap();
    wire.extend_from_slice(&[0, 0, 0, 1, 9]);
    assert_eq!(unframe(&wire), Some(&[1u8, 2][..]));
}

#[test]
fn unframe_finds_nothing_in_a_short_read() {
    let wire = frame(&[1, 2, 3, 4, 5, 6]).unwrap();
    for given in 0..wire.len() {
        assert_eq!(unframe(&wire[..given]), None);
    }
    assert!(unframe(&wire).is_some());
    assert_eq!(unframe(&[255, 255, 255, 255, 1, 2, 3]), None);
}

#[test]
fn node_knows_its_address() {
    assert_eq!(node().get_addr_v4(), Some((192, 168, 1, 5, 4000)));
    assert_eq!(node().addr, Address::new(192, 168, 1, 5, 4000));
}

#[test]
fn send_frames_the_sealed_value() {
    let data = b"serialized request".to_vec();
    let wire = node().send(&data).unwrap();
    assert_eq!(wire.len(), 4 + 12 + data.len() + 16);
    assert_eq!(&wire[..4], &((12 + data.len() + 16) as u32).to_be_bytes());
    assert_eq!(&wire[16..], cipher_of(&key(), &wire[4..16], &data).as_slice());
    assert_eq!(codec().decrypt(&wire[4..]), Ok(data.clone()));

    let answer = node().reply(&data).unwrap();
    assert_eq!(answer.len(), wire.len());
    assert_eq!(&answer[..4], &wire[..4]);
    assert_ne!(&answer[4..16], &wire[4..16]);
    assert_eq!(codec().decrypt(&answer[4..]), Ok(data));
}

#[test]
fn what_is_sent_is_read_back() {
    let node = node();
    for len in [0usize, 1, 100, 70_000] {
        let data: Vec<u8> = (0..len).map(|i| (i * 7 % 256) as u8).collect();
        let wire = node.send(&data).unwrap();
        assert_eq!(
            node.handle_client(&wire),
            Ok(Received { data, consumed: wire.len() })
        );
    }
}

#[test]
fn reading_consumes_exactly_one_frame() {
    let node = node();
    let first = node.send(b"first").unwrap();
    let second = node.send(b"second").unwrap();
    let mut wire = first.clone();
    wire.extend_from_slice(&second);
    let got = node.handle_client(&wire).unwrap();
    assert_eq!(got.data, b"first".to_vec());
    assert_eq!(got.consumed, first.len());
    let got = node.handle_client(&wire[got.consumed..]).unwrap();
    assert_eq!(got.data, b"second".to_vec());
    assert_eq!(got.consumed, second.len());
}

#[test]
fn short_read_yields_no_value() {
    let node = node();
    let wire = node.send(b"do not decode me early").unwrap();
    for given in 0..wire.len() {
        assert_eq!(node.handle_client(&wire[..given]), Err(NodeError::Incomplete));
    }
}

#[test]
fn changed_frame_is_refused() {
    let node = node();
    let mut wire = node.send(b"authentic").unwrap();
    let last = wire.len() - 1;
    wire[last] ^= 0x80;
    assert_eq!(node.handle_client(&wire), Err(NodeError::Codec(CodecError::DecryptError)));
    assert_eq!(
        node.handle_client(&[0, 0, 0, 2, 1, 2]),
        Err(NodeError::Codec(CodecError::DecryptError))
    );
}

#[test]
fn frame_of_another_group_is_refused() {
    let stranger =
        Node::new(Address::new(192, 168, 1, 6, 4000), NodeMessageCodec::new(Some(vec![42; 32])));
    let wire = stranger.send(b"hello").unwrap();
    assert_eq!(node().handle_client(&wire), Err(NodeError::Codec(CodecError::DecryptError)));
}
