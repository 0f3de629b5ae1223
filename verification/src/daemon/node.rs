//! The transport of a node: sealing bytes and framing them for the wire.
//!
//! On the wire a value is a frame: four bytes that hold a length, most
//! significant byte first, and then that many bytes, which are the sealed
//! value. Sealing is ChaCha20-Poly1305 under the key that all nodes of one
//! group share, and under a nonce that is drawn for each value and sent
//! in front of it.

use crate::addr::Address;
use chacha20poly1305::aead::{Aead, AeadCore, KeyInit, OsRng};
use chacha20poly1305::{ChaCha20Poly1305, Key, Nonce};
use vstd::prelude::*;
use vstd::slice::{slice_subrange, slice_to_vec};

verus! {

/// The length of a key, in bytes.
pub const KEY_LEN: usize = 32;

/// The length of a nonce, in bytes.
pub const NONCE_LEN: usize = 12;

/// By how many bytes sealing lengthens a value: the authentication tag.
pub const TAG_LEN: usize = 16;

/// The length of the prefix of a frame, in bytes.
pub const PREFIX_LEN: usize = 4;

/// The sealed form of `plain` under `key` and `nonce`: what
/// `ChaCha20Poly1305::encrypt` returns for them, without associated data.
pub uninterp spec fn sealed(key: Seq<u8>, nonce: Seq<u8>, plain: Seq<u8>) -> Seq<u8>;

/// What `ChaCha20Poly1305::decrypt` returns for `cipher` under `key` and
/// `nonce`, without associated data: the value that was sealed, or `None`
/// where `cipher` is not authentic.
pub uninterp spec fn opened(key: Seq<u8>, nonce: Seq<u8>, cipher: Seq<u8>) -> Option<Seq<u8>>;

/// Whether a value of `len` bytes can be sealed: with its nonce and its tag
/// it must not be longer than a frame can announce, nor than a vector can
/// hold.
pub open spec fn sealable(len: nat) -> bool {
    NONCE_LEN + len + TAG_LEN <= u32::MAX && NONCE_LEN + len + TAG_LEN <= isize::MAX
}

/// `ChaCha20Poly1305::encrypt` of the crate `chacha20poly1305`, with the
/// cipher made from `key` by `KeyInit::new`.
///
/// Believed of it, for a value that with its tag has no more than
/// `u32::MAX` bytes: it does not fail; what it returns depends on the three
/// arguments alone, is 16 bytes longer than `plain`, and is opened again to
/// `plain` by `ChaCha20Poly1305::decrypt` under the same key and nonce.
#[verifier::external_body]
fn aead_encrypt(key: &[u8], nonce: &[u8], plain: &[u8]) -> (r: Option<Vec<u8>>)
    requires
        key@.len() == KEY_LEN,
        nonce@.len() == NONCE_LEN,
        plain@.len() + TAG_LEN <= u32::MAX,
        plain@.len() + TAG_LEN <= isize::MAX,
    ensures
        r is Some,
        r matches Some(cipher) ==> cipher@ == sealed(key@, nonce@, plain@),
        r matches Some(cipher) ==> cipher@.len() == plain@.len() + TAG_LEN,
        r matches Some(cipher) ==> opened(key@, nonce@, cipher@) == Some(plain@),
{
    let cipher = ChaCha20Poly1305::new(Key::from_slice(key));
    cipher.encrypt(Nonce::from_slice(nonce), plain).ok()
}

/// `ChaCha20Poly1305::decrypt` of the crate `chacha20poly1305`, with the
/// cipher made from `key` by `KeyInit::new`.
///
/// Believed of it, for no more than `u32::MAX` bytes: what it returns
/// depends on the three arguments alone, and a value that it returns is 16
/// bytes shorter than `cipher`.
#[verifier::external_body]
fn aead_decrypt(key: &[u8], nonce: &[u8], cipher: &[u8]) -> (r: Option<Vec<u8>>)
    requires
        key@.len() == KEY_LEN,
        nonce@.len() == NONCE_LEN,
        cipher@.len() <= u32::MAX,
    ensures
        r is Some <==> opened(key@, nonce@, cipher@) is Some,
        r matches Some(plain) ==> opened(key@, nonce@, cipher@) == Some(plain@),
        r matches Some(plain) ==> plain@.len() + TAG_LEN == cipher@.len(),
{
    let aead = ChaCha20Poly1305::new(Key::from_slice(key));
    aead.decrypt(Nonce::from_slice(nonce), cipher).ok()
}

/// `AeadCore::generate_nonce` for `ChaCha20Poly1305`, fed by the system's
/// random source `OsRng`. Believed of it: the nonce has 12 bytes.
#[verifier::external_body]
fn random_nonce() -> (nonce: Vec<u8>)
    ensures
        nonce@.len() == NONCE_LEN,
{
    ChaCha20Poly1305::generate_nonce(&mut OsRng).to_vec()
}

/// `KeyInit::generate_key` for `ChaCha20Poly1305`, fed by the system's
/// random source `OsRng`. Believed of it: the key has 32 bytes.
#[verifier::external_body]
fn random_key() -> (key: Vec<u8>)
    ensures
        key@.len() == KEY_LEN,
{
    ChaCha20Poly1305::generate_key(&mut OsRng).to_vec()
}

/// Why a value could not be sealed or opened.
#[derive(Clone, Copy, Debug, PartialEq, Eq, Structural)]
pub enum CodecError {
    /// The nonce does not have 12 bytes.
    InvalidNonce,
    /// The value is too long to be sealed.
    EncryptError,
    /// The bytes are not what this key has sealed: they were changed on the
    /// way, or sealed under another key.
    DecryptError,
}

/// Seals and opens the values that a node exchanges, under the key that the
/// nodes of a group share.
///
/// Every value is sealed under a nonce of its own, which travels in front
/// of it: a sealed value is the nonce, then what the cipher made of the
/// value, then the tag.
pub struct NodeMessageCodec {
    key: Vec<u8>,
}

impl NodeMessageCodec {
    #[verifier::type_invariant]
    spec fn wf(self) -> bool {
        self.key@.len() == KEY_LEN
    }

    /// The key, as a mathematical value.
    pub closed spec fn spec_key(&self) -> Seq<u8> {
        self.key@
    }

    /// The sealed form of `plain` under `nonce`: the nonce, and behind it
    /// what the cipher returns.
    pub open spec fn seal_with(&self, nonce: Seq<u8>, plain: Seq<u8>) -> Seq<u8> {
        nonce + sealed(self.spec_key(), nonce, plain)
    }

    /// What `wire` opens to: what the cipher returns for all that follows
    /// the first 12 bytes, under those as the nonce. Nothing opens that is
    /// shorter than a nonce or longer than a frame can announce.
    pub open spec fn open(&self, wire: Seq<u8>) -> Option<Seq<u8>> {
        if NONCE_LEN <= wire.len() <= u32::MAX {
            opened(self.spec_key(), wire.take(NONCE_LEN as int), wire.skip(NONCE_LEN as int))
        } else {
            None
        }
    }

    /// A codec with the key that a node has stored of earlier runs, if it
    /// has 32 bytes, and else with a key made at random.
    pub fn new(stored_key: Option<Vec<u8>>) -> (codec: NodeMessageCodec)
        ensures
            codec.spec_key().len() == KEY_LEN,
            (stored_key matches Some(k) && k@.len() == KEY_LEN) ==> codec.spec_key()
                == stored_key->0@,
    {
        let key = match stored_key {
            Some(k) => if k.len() == KEY_LEN {
                k
            } else {
                random_key()
            },
            None => random_key(),
        };
        NodeMessageCodec { key }
    }

    /// The key, to be stored for later runs and shared with the group.
    pub fn key(&self) -> (k: &Vec<u8>)
        ensures
            k@ == self.spec_key(),
            k@.len() == KEY_LEN,
    {
        proof {
            use_type_invariant(self);
        }
        &self.key
    }

    /// Seals `msg` under `nonce`, which must have 12 bytes and must not
    /// serve a second value under the same key. The result is the nonce
    /// and, behind it, the sealed value, which is 16 bytes longer than
    /// `msg`; [`decrypt`](Self::decrypt) opens it to `msg` again.
    pub fn encrypt_with(&self, nonce: &[u8], msg: &[u8]) -> (r: Result<Vec<u8>, CodecError>)
        ensures
            r is Ok <==> nonce@.len() == NONCE_LEN && sealable(msg@.len()),
            r matches Err(e) ==> e == (if nonce@.len() != NONCE_LEN {
                CodecError::InvalidNonce
            } else {
                CodecError::EncryptError
            }),
            r matches Ok(cipher) ==> {
                &&& cipher@ == self.seal_with(nonce@, msg@)
                &&& cipher@.len() == NONCE_LEN + msg@.len() + TAG_LEN
                &&& self.open(cipher@) == Some(msg@)
            },
    {
        proof {
            use_type_invariant(self);
        }
        if nonce.len() != NONCE_LEN {
            return Err(CodecError::InvalidNonce);
        }
        if msg.len() > u32::MAX as usize - NONCE_LEN - TAG_LEN || msg.len() > isize::MAX as usize
            - NONCE_LEN - TAG_LEN {
            return Err(CodecError::EncryptError);
        }
        match aead_encrypt(self.key.as_slice(), nonce, msg) {
            Some(body) => {
                let mut cipher = slice_to_vec(nonce);
                cipher.extend_from_slice(body.as_slice());
                proof {
                    assert(cipher@ =~= nonce@ + body@);
                    assert(cipher@.take(NONCE_LEN as int) =~= nonce@);
                    assert(cipher@.skip(NONCE_LEN as int) =~= body@);
                }
                Ok(cipher)
            },
            None => Err(CodecError::EncryptError),
        }
    }

    /// Seals `msg` under a nonce that is drawn at random for this one
    /// value. The result is the nonce and, behind it, the sealed value,
    /// which is 16 bytes longer than `msg`; [`decrypt`](Self::decrypt)
    /// opens it to `msg` again.
    pub fn encrypt(&self, msg: &[u8]) -> (r: Result<Vec<u8>, CodecError>)
        ensures
            r is Ok <==> sealable(msg@.len()),
            r matches Err(e) ==> e == CodecError::EncryptError,
            r matches Ok(cipher) ==> {
                &&& exists|nonce: Seq<u8>|
                    nonce.len() == NONCE_LEN && cipher@ == #[trigger] self.seal_with(nonce, msg@)
                &&& cipher@.len() == NONCE_LEN + msg@.len() + TAG_LEN
                &&& self.open(cipher@) == Some(msg@)
            },
    {
        let nonce = random_nonce();
        let r = self.encrypt_with(nonce.as_slice(), msg);
        proof {
            if r is Ok {
                assert(r->Ok_0@ == self.seal_with(nonce@, msg@));
            }
        }
        r
    }

    /// Opens `msg`, a nonce with a sealed value behind it: gives back the
    /// value that was sealed, and fails with [`CodecError::DecryptError`]
    /// where `msg` is not authentic.
    pub fn decrypt(&self, msg: &[u8]) -> (r: Result<Vec<u8>, CodecError>)
        ensures
            r is Ok <==> self.open(msg@) is Some,
            r matches Err(e) ==> e == CodecError::DecryptError,
            r matches Ok(plain) ==> self.open(msg@) == Some(plain@),
            r matches Ok(plain) ==> NONCE_LEN + plain@.len() + TAG_LEN == msg@.len(),
    {
        proof {
            use_type_invariant(self);
        }
        if msg.len() < NONCE_LEN || msg.len() > u32::MAX as usize {
            return Err(CodecError::DecryptError);
        }
        let nonce = slice_subrange(msg, 0, NONCE_LEN);
        let body = slice_subrange(msg, NONCE_LEN, msg.len());
        proof {
            assert(nonce@ =~= msg@.take(NONCE_LEN as int));
            assert(body@ =~= msg@.skip(NONCE_LEN as int));
        }
        match aead_decrypt(self.key.as_slice(), nonce, body) {
            Some(plain) => Ok(plain),
            None => Err(CodecError::DecryptError),
        }
    }
}

/// The prefix of a frame that holds `len` bytes: `len` in four bytes, most
/// significant first.
pub open spec fn prefix_of(len: nat) -> Seq<u8>
    recommends
        len <= u32::MAX,
{
    seq![
        (len / 0x100_0000) as u8,
        (len / 0x1_0000 % 0x100) as u8,
        (len / 0x100 % 0x100) as u8,
        (len % 0x100) as u8,
    ]
}

/// The length that the first four bytes of `wire` announce.
pub open spec fn length_of(wire: Seq<u8>) -> nat
    recommends
        wire.len() >= PREFIX_LEN,
{
    (wire[0] as nat) * 0x100_0000 + (wire[1] as nat) * 0x1_0000 + (wire[2] as nat) * 0x100
        + wire[3] as nat
}

/// The frame that holds `body`.
pub open spec fn frame_of(body: Seq<u8>) -> Seq<u8>
    recommends
        body.len() <= u32::MAX,
{
    prefix_of(body.len()) + body
}

/// What the first frame in `wire` holds. There is none where `wire` ends
/// before the prefix does, or before the announced length is reached.
pub open spec fn first_frame(wire: Seq<u8>) -> Option<Seq<u8>> {
    if wire.len() >= PREFIX_LEN && wire.len() >= PREFIX_LEN + length_of(wire) {
        Some(wire.subrange(PREFIX_LEN as int, PREFIX_LEN + length_of(wire)))
    } else {
        None
    }
}

/// The prefix of a frame holds the length that it was made for.
pub proof fn lemma_prefix_holds_length(len: nat)
    requires
        len <= u32::MAX,
    ensures
        prefix_of(len).len() == PREFIX_LEN,
        length_of(prefix_of(len)) == len,
{
}

/// A reader that is given a frame, followed by anything, finds in it what
/// the frame was made of, and that frame ends where the rest begins.
pub proof fn lemma_frame_is_read_back(body: Seq<u8>, rest: Seq<u8>)
    requires
        body.len() <= u32::MAX,
    ensures
        frame_of(body).len() == PREFIX_LEN + body.len(),
        first_frame(frame_of(body) + rest) == Some(body),
{
    lemma_prefix_holds_length(body.len());
    let wire = frame_of(body) + rest;
    assert(wire.subrange(PREFIX_LEN as int, PREFIX_LEN + body.len()) =~= body);
}

/// A reader that is given less than a whole frame finds no frame.
pub proof fn lemma_short_read_finds_nothing(body: Seq<u8>, given: nat)
    requires
        body.len() <= u32::MAX,
        given < PREFIX_LEN + body.len(),
    ensures
        first_frame(frame_of(body).take(given as int)) is None,
{
    lemma_prefix_holds_length(body.len());
}

/// The frame that holds `body`, or `None` where `body` is longer than a
/// prefix can announce.
pub fn frame(body: &[u8]) -> (r: Option<Vec<u8>>)
    ensures
        r is Some <==> body@.len() <= u32::MAX,
        r matches Some(wire) ==> wire@ == frame_of(body@),
{
    let len = body.len();
    if len > u32::MAX as usize {
        return None;
    }
    let mut wire: Vec<u8> = Vec::new();
    wire.push((len / 0x100_0000) as u8);
    wire.push((len / 0x1_0000 % 0x100) as u8);
    wire.push((len / 0x100 % 0x100) as u8);
    wire.push((len % 0x100) as u8);
    wire.extend_from_slice(body);
    assert(wire@ =~= frame_of(body@));
    Some(wire)
}

/// The length that a prefix announces: how many bytes follow it.
pub fn frame_length(prefix: &[u8; 4]) -> (len: usize)
    ensures
        len == length_of(prefix@),
        len <= u32::MAX,
{
    let len: u32 = (prefix[0] as u32) * 0x100_0000 + (prefix[1] as u32) * 0x1_0000 + (
    prefix[2] as u32) * 0x100 + prefix[3] as u32;
    len as usize
}

/// What the first frame in `wire` holds.
pub fn unframe(wire: &[u8]) -> (r: Option<&[u8]>)
    ensures
        r is Some <==> first_frame(wire@) is Some,
        r matches Some(body) ==> first_frame(wire@) == Some(body@),
        r matches Some(body) ==> PREFIX_LEN + body@.len() <= wire@.len(),
{
    if wire.len() < PREFIX_LEN {
        return None;
    }
    let len: u32 = (wire[0] as u32) * 0x100_0000 + (wire[1] as u32) * 0x1_0000 + (wire[2] as u32)
        * 0x100 + wire[3] as u32;
    let len = len as usize;
    if wire.len() - PREFIX_LEN < len {
        return None;
    }
    Some(slice_subrange(wire, PREFIX_LEN, PREFIX_LEN + len))
}

/// Why a node could not put a value on the wire or take one from it.
#[derive(Clone, Copy, Debug, PartialEq, Eq, Structural)]
pub enum NodeError {
    /// The bytes end before the frame does.
    Incomplete,
    /// The value could not be sealed or opened.
    Codec(CodecError),
}

/// What a node has taken from the wire.
#[derive(Clone, Debug, PartialEq, Eq)]
pub struct Received {
    /// The value, opened.
    pub data: Vec<u8>,
    /// How many bytes of the wire the frame took.
    pub consumed: usize,
}

/// A node of the group, as far as the wire is concerned: where it listens
/// and how it seals.
pub struct Node {
    pub addr: Address,
    pub codec: NodeMessageCodec,
}

impl Node {
    /// The node that listens at `addr` and seals with `codec`.
    pub fn new(addr: Address, codec: NodeMessageCodec) -> (node: Node)
        ensures
            node.addr == addr,
            node.codec == codec,
    {
        Node { addr, codec }
    }

    /// The octets and the port of the address at which the node listens.
    pub fn get_addr_v4(&self) -> (r: Option<(u8, u8, u8, u8, u16)>)
        ensures
            r == Some(
                (self.addr.ip.a, self.addr.ip.b, self.addr.ip.c, self.addr.ip.d, self.addr.port),
            ),
    {
        Some((self.addr.ip.a, self.addr.ip.b, self.addr.ip.c, self.addr.ip.d, self.addr.port))
    }

    /// What the node writes for `data` when it seals under `nonce`: the
    /// frame of the sealed `data`.
    pub open spec fn wire_with(&self, nonce: Seq<u8>, data: Seq<u8>) -> Seq<u8> {
        frame_of(self.codec.seal_with(nonce, data))
    }

    /// What the node takes from `wire`: the first frame, opened, and how
    /// many bytes that frame took.
    pub open spec fn read(&self, wire: Seq<u8>) -> Result<(Seq<u8>, nat), NodeError> {
        match first_frame(wire) {
            None => Err(NodeError::Incomplete),
            Some(body) => match self.codec.open(body) {
                None => Err(NodeError::Codec(CodecError::DecryptError)),
                Some(data) => Ok((data, (PREFIX_LEN + body.len()) as nat)),
            },
        }
    }

    /// The bytes to write for `data`, a serialized request or answer: one
    /// frame that holds `data`, sealed under a nonce of its own. A node
    /// with the same key that is given these bytes takes `data` from them.
    pub fn send(&self, data: &[u8]) -> (r: Result<Vec<u8>, NodeError>)
        ensures
            r is Ok <==> sealable(data@.len()),
            r matches Err(e) ==> e == NodeError::Codec(CodecError::EncryptError),
            r matches Ok(wire) ==> {
                &&& exists|nonce: Seq<u8>|
                    nonce.len() == NONCE_LEN && wire@ == #[trigger] self.wire_with(nonce, data@)
                &&& wire@.len() == PREFIX_LEN + NONCE_LEN + data@.len() + TAG_LEN
                &&& self.read(wire@) == Ok::<(Seq<u8>, nat), NodeError>((data@, wire@.len()))
            },
    {
        let cipher = match self.codec.encrypt(data) {
            Ok(cipher) => cipher,
            Err(e) => {
                return Err(NodeError::Codec(e));
            },
        };
        match frame(cipher.as_slice()) {
            Some(wire) => {
                proof {
                    lemma_frame_is_read_back(cipher@, Seq::empty());
                    assert(frame_of(cipher@) + Seq::<u8>::empty() =~= frame_of(cipher@));
                    let nonce = choose|nonce: Seq<u8>|
                        nonce.len() == NONCE_LEN && cipher@ == #[trigger] self.codec.seal_with(
                            nonce,
                            data@,
                        );
                    assert(wire@ == self.wire_with(nonce, data@));
                }
                Ok(wire)
            },
            None => Err(NodeError::Codec(CodecError::EncryptError)),
        }
    }

    /// The bytes to write for `data`, the serialized answer to a request.
    pub fn reply(&self, data: &[u8]) -> (r: Result<Vec<u8>, NodeError>)
        ensures
            r is Ok <==> sealable(data@.len()),
            r matches Err(e) ==> e == NodeError::Codec(CodecError::EncryptError),
            r matches Ok(wire) ==> {
                &&& exists|nonce: Seq<u8>|
                    nonce.len() == NONCE_LEN && wire@ == #[trigger] self.wire_with(nonce, data@)
                &&& wire@.len() == PREFIX_LEN + NONCE_LEN + data@.len() + TAG_LEN
                &&& self.read(wire@) == Ok::<(Seq<u8>, nat), NodeError>((data@, wire@.len()))
            },
    {
        self.send(data)
    }

    /// Takes one value from the bytes that a connection has delivered: the
    /// first frame, opened. Bytes that end before the frame does give
    /// [`NodeError::Incomplete`], and a frame that is not authentic gives
    /// [`CodecError::DecryptError`].
    pub fn handle_client(&self, wire: &[u8]) -> (r: Result<Received, NodeError>)
        ensures
            r is Ok <==> self.read(wire@) is Ok,
            r matches Err(e) ==> self.read(wire@) == Err::<(Seq<u8>, nat), NodeError>(e),
            r matches Ok(got) ==> self.read(wire@) == Ok::<(Seq<u8>, nat), NodeError>(
                (got.data@, got.consumed as nat),
            ),
    {
        let body = match unframe(wire) {
            Some(body) => body,
            None => {
                return Err(NodeError::Incomplete);
            },
        };
        assert(PREFIX_LEN + body@.len() <= wire.len());
        match self.codec.decrypt(body) {
            Ok(data) => Ok(Received { data, consumed: PREFIX_LEN + body.len() }),
            Err(e) => Err(NodeError::Codec(e)),
        }
    }
}

/// A node that is given less than a whole frame takes no value from it.
pub proof fn lemma_short_read_gives_no_value(node: Node, body: Seq<u8>, given: nat)
    requires
        body.len() <= u32::MAX,
        given < PREFIX_LEN + body.len(),
    ensures
        node.read(frame_of(body).take(given as int)) == Err::<(Seq<u8>, nat), NodeError>(
            NodeError::Incomplete,
        ),
{
    lemma_short_read_finds_nothing(body, given);
}

/// A node that is given a frame, followed by anything, takes from it what
/// the frame's contents open to, and no byte of what follows.
pub proof fn lemma_read_takes_one_frame(node: Node, body: Seq<u8>, rest: Seq<u8>)
    requires
        body.len() <= u32::MAX,
    ensures
        node.read(frame_of(body) + rest) == match node.codec.open(body) {
            Some(data) => Ok::<(Seq<u8>, nat), NodeError>((data, frame_of(body).len())),
            None => Err(NodeError::Codec(CodecError::DecryptError)),
        },
{
    lemma_frame_is_read_back(body, rest);
}

} // verus!
