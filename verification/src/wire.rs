//! The byte layout of an event on the wire.
//!
//! Records follow each other without a length or a delimiter. A record is the
//! variant's index, then the fields in declaration order. Indices and 64-bit
//! fields are variable-length integers, little-endian; octets and signature
//! bytes stand as they are. An index is below 251, so it is one byte whatever
//! the width of the integer that carries it.

use vstd::prelude::*;
use crate::event::{IpFeeMsg, PeerIp};

verus! {

/// The `width` low bytes of `v`, least significant first.
pub open spec fn le_bytes(v: nat, width: nat) -> Seq<u8>
    decreases width,
{
    if width == 0 {
        Seq::empty()
    } else {
        seq![(v % 256) as u8] + le_bytes(v / 256, (width - 1) as nat)
    }
}

/// The variable-length form of an unsigned integer below 2^64: one byte for a
/// value under 251, else a marker byte (251, 252, 253) and the value as a
/// little-endian u16, u32 or u64, whichever is the first to hold it.
pub open spec fn varint(v: nat) -> Seq<u8> {
    if v < 251 {
        seq![v as u8]
    } else if v < 0x1_0000 {
        seq![251u8] + le_bytes(v, 2)
    } else if v < 0x1_0000_0000 {
        seq![252u8] + le_bytes(v, 4)
    } else {
        seq![253u8] + le_bytes(v, 8)
    }
}

/// The bytes of a peer address: the family's index, then its octets.
pub open spec fn ip_bytes(ip: PeerIp) -> Seq<u8> {
    varint(ip.family()) + ip.octets()
}

/// The bytes of one event on the wire.
pub open spec fn wire_bytes(msg: IpFeeMsg) -> Seq<u8> {
    match msg {
        IpFeeMsg::UserTx { ip, signature } => varint(0) + ip_bytes(ip) + signature@,
        IpFeeMsg::Fee { signature, cu_limit, cu_used, fee } => varint(1) + signature@ + varint(
            cu_limit as nat,
        ) + varint(cu_used as nat) + varint(fee as nat),
    }
}

/// `bincode::ErrorKind`, the error of the integer encoder. Opaque here: it is
/// only carried from the encoder to `put_int`.
#[verifier::external_type_specification]
#[verifier::external_body]
pub struct ExBincodeErrorKind(bincode::ErrorKind);

/// Why an event could not be put into bytes.
#[derive(Clone, Copy, Debug, PartialEq, Eq)]
pub enum EncodeError {
    /// The integer encoder reported an error for one of the fields.
    Integer,
}

/// What `bincode::Options::serialize` on `bincode::DefaultOptions::new()`
/// answers for the integer `v`: the bytes it returns, or `None` where it
/// reports an error. The answer depends on `v` alone.
pub uninterp spec fn bincode_answer(v: u64) -> Option<Seq<u8>>;

/// An answer of the integer encoder as a plain value.
pub open spec fn answer_of(r: Result<Vec<u8>, Box<bincode::ErrorKind>>) -> Option<Seq<u8>> {
    match r {
        Ok(bytes) => Some(bytes@),
        Err(_) => None,
    }
}

/// The record of `msg` as the integer encoder's answers give it: the answers
/// for the indices and amounts, joined with the octets and signature bytes in
/// field order, or `None` where the encoder reports an error for one of them.
pub open spec fn encoded(msg: IpFeeMsg) -> Option<Seq<u8>> {
    match msg {
        IpFeeMsg::UserTx { ip, signature } => match (
            bincode_answer(0),
            bincode_answer(ip.family() as u64),
        ) {
            (Some(variant), Some(family)) => Some(variant + family + ip.octets() + signature@),
            _ => None,
        },
        IpFeeMsg::Fee { signature, cu_limit, cu_used, fee } => match (
            bincode_answer(1),
            bincode_answer(cu_limit),
            bincode_answer(cu_used),
            bincode_answer(fee),
        ) {
            (Some(variant), Some(limit), Some(used), Some(paid)) => Some(
                variant + signature@ + limit + used + paid,
            ),
            _ => None,
        },
    }
}

/// Calls `bincode::Options::serialize` on `bincode::DefaultOptions::new()`
/// with a `u64`. Trusted: the call's answer is `bincode_answer(v)`, that is,
/// it depends on `v` alone; and when bincode returns bytes, they are the
/// variable-length form of `v` that bincode documents for its default options
/// (varint encoding, little-endian, no byte limit). Nothing is claimed of
/// when it returns an error.
#[verifier::external_body]
fn bincode_varint(v: u64) -> (r: Result<Vec<u8>, Box<bincode::ErrorKind>>)
    ensures
        answer_of(r) == bincode_answer(v),
        r matches Ok(bytes) ==> bytes@ == varint(v as nat),
{
    bincode::Options::serialize(bincode::DefaultOptions::new(), &v)
}

/// Appends `bytes` to `out`.
pub fn put_bytes(out: &mut Vec<u8>, bytes: &[u8])
    ensures
        final(out)@ == old(out)@ + bytes@,
{
    let mut i: usize = 0;
    while i < bytes.len()
        invariant
            i <= bytes@.len(),
            out@ == old(out)@ + bytes@.take(i as int),
        decreases bytes@.len() - i,
    {
        out.push(bytes[i]);
        i += 1;
        proof {
            assert(bytes@.take(i as int) == bytes@.take(i - 1).push(bytes@[i - 1]));
        }
    }
    proof {
        assert(bytes@.take(i as int) == bytes@);
    }
}

/// Appends an integer field as the encoder returned it. On an encoder error
/// `out` keeps its bytes and the answer is `false`.
pub fn put_int(out: &mut Vec<u8>, encoded: Result<Vec<u8>, Box<bincode::ErrorKind>>) -> (done: bool)
    ensures
        done <==> encoded is Ok,
        encoded matches Ok(bytes) ==> final(out)@ == old(out)@ + bytes@,
        encoded is Err ==> final(out)@ == old(out)@,
{
    match encoded {
        Ok(bytes) => {
            put_bytes(out, bytes.as_slice());
            true
        },
        Err(_) => false,
    }
}

/// The record of a user transaction from the encoder's answers for the two
/// indices: that of the variant and that of the address family. The bytes are
/// owed when both answers are bytes; an encoder error on either gives
/// `EncodeError::Integer`.
pub fn frame_user_tx(
    variant: Result<Vec<u8>, Box<bincode::ErrorKind>>,
    family: Result<Vec<u8>, Box<bincode::ErrorKind>>,
    ip: &PeerIp,
    signature: &[u8; 64],
) -> (r: Result<Vec<u8>, EncodeError>)
    ensures
        variant is Err || family is Err ==> r == Err::<Vec<u8>, EncodeError>(
            EncodeError::Integer,
        ),
        variant is Ok && family is Ok ==> r is Ok && r->Ok_0@ == variant->Ok_0@ + family->Ok_0@
            + ip.octets() + signature@,
{
    let mut out: Vec<u8> = Vec::new();
    if !put_int(&mut out, variant) {
        return Err(EncodeError::Integer);
    }
    if !put_int(&mut out, family) {
        return Err(EncodeError::Integer);
    }
    match ip {
        PeerIp::V4(octets) => put_bytes(&mut out, octets.as_slice()),
        PeerIp::V6(octets) => put_bytes(&mut out, octets.as_slice()),
    }
    put_bytes(&mut out, signature.as_slice());
    Ok(out)
}

/// The record of a fee outcome from the encoder's answers for the variant's
/// index and the three amounts. The bytes are owed when all four answers are
/// bytes; an encoder error on any gives `EncodeError::Integer`.
pub fn frame_fee(
    variant: Result<Vec<u8>, Box<bincode::ErrorKind>>,
    signature: &[u8; 64],
    cu_limit: Result<Vec<u8>, Box<bincode::ErrorKind>>,
    cu_used: Result<Vec<u8>, Box<bincode::ErrorKind>>,
    fee: Result<Vec<u8>, Box<bincode::ErrorKind>>,
) -> (r: Result<Vec<u8>, EncodeError>)
    ensures
        variant is Err || cu_limit is Err || cu_used is Err || fee is Err ==> r == Err::<
            Vec<u8>,
            EncodeError,
        >(EncodeError::Integer),
        variant is Ok && cu_limit is Ok && cu_used is Ok && fee is Ok ==> r is Ok && r->Ok_0@
            == variant->Ok_0@ + signature@ + cu_limit->Ok_0@ + cu_used->Ok_0@ + fee->Ok_0@,
{
    let mut out: Vec<u8> = Vec::new();
    if !put_int(&mut out, variant) {
        return Err(EncodeError::Integer);
    }
    put_bytes(&mut out, signature.as_slice());
    if !put_int(&mut out, cu_limit) {
        return Err(EncodeError::Integer);
    }
    if !put_int(&mut out, cu_used) {
        return Err(EncodeError::Integer);
    }
    if !put_int(&mut out, fee) {
        return Err(EncodeError::Integer);
    }
    Ok(out)
}

/// The wire bytes of `msg`. Each index and amount goes through the integer
/// encoder. The bytes are owed exactly when the encoder answers with bytes
/// for every one of them: then they are those answers joined in field order,
/// which is `wire_bytes(msg)`. Where the encoder reports an error for any of
/// them, the answer is `EncodeError::Integer`.
pub fn encode(msg: &IpFeeMsg) -> (r: Result<Vec<u8>, EncodeError>)
    ensures
        match r {
            Ok(bytes) => encoded(*msg) == Some(bytes@) && bytes@ == wire_bytes(*msg),
            Err(e) => encoded(*msg) is None && e == EncodeError::Integer,
        },
{
    match msg {
        IpFeeMsg::UserTx { ip, signature } => {
            let family = match ip {
                PeerIp::V4(_) => bincode_varint(0),
                PeerIp::V6(_) => bincode_varint(1),
            };
            frame_user_tx(bincode_varint(0), family, ip, signature)
        },
        IpFeeMsg::Fee { signature, cu_limit, cu_used, fee } => frame_fee(
            bincode_varint(1),
            signature,
            bincode_varint(*cu_limit),
            bincode_varint(*cu_used),
            bincode_varint(*fee),
        ),
    }
}

} // verus!
