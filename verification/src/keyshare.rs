//! One party's share of a generated key, as far as this layer reads it: the
//! group's public key, the party's index, the rank of every party and the
//! threshold. The secret part travels along in its serialized form and is
//! never opened here.

use vstd::prelude::*;
use vstd::slice::slice_to_vec;
use crate::message::ByteBuffer;

verus! {

/// Length of a public key in its compressed form.
pub const PUBLIC_KEY_LEN: usize = 33;

#[verifier::external_type_specification]
#[verifier::external_body]
pub struct ExAffinePoint(k256::AffinePoint);

/// The point that `AffinePoint::from_bytes` of `GroupEncoding` reads from 33
/// bytes, if it reads one. It reads the point at infinity from 33 zero
/// bytes. Otherwise the first byte is a tag of SEC1 and the other 32 are an
/// x-coordinate: with the tag 2 or 3 it reads the point of the curve with
/// that x-coordinate and an even or odd y-coordinate, with the tag 5 the one
/// with an even y-coordinate, and nothing where the curve has no such point
/// or the tag is another.
pub uninterp spec fn decoded_point(bytes: Seq<u8>) -> Option<k256::AffinePoint>;

/// The 33 bytes that `AffinePoint::to_bytes` of `GroupEncoding` writes for a
/// point: its compressed form of SEC1, which is the tag 2 or 3 and the
/// x-coordinate, and 33 zero bytes for the point at infinity.
pub uninterp spec fn point_encoding(point: k256::AffinePoint) -> Seq<u8>;

/// Calls `AffinePoint::from_bytes` of `GroupEncoding` on 33 bytes. Nothing
/// is proved of it: the contract names the outcome, which depends on the
/// bytes alone.
#[verifier::external_body]
pub(crate) fn decode_point(bytes: &[u8; 33]) -> (point: Option<k256::AffinePoint>)
    ensures
        point == decoded_point(bytes@),
{
    let repr: k256::CompressedPoint = (*bytes).into();
    <k256::AffinePoint as k256::elliptic_curve::group::GroupEncoding>::from_bytes(&repr).into()
}

/// Calls `AffinePoint::to_bytes` of `GroupEncoding`, whose result has 33
/// bytes by its type. Nothing is proved of it: the contract names the
/// bytes, which depend on the point alone.
#[verifier::external_body]
pub(crate) fn encode_point(point: &k256::AffinePoint) -> (bytes: [u8; 33])
    ensures
        bytes@ == point_encoding(*point),
{
    <k256::AffinePoint as k256::elliptic_curve::group::GroupEncoding>::to_bytes(point).into()
}

/// One party's share of a key.
#[derive(Debug)]
pub struct KeyshareHandle {
    public_key: k256::AffinePoint,
    party_id: u8,
    rank_list: Vec<u8>,
    threshold: u8,
    sealed: Vec<u8>,
}

/// The mathematical content of a keyshare.
pub struct KeyshareView {
    /// The group's public key.
    pub public_key: k256::AffinePoint,
    /// This party's index.
    pub party_id: u8,
    /// The rank of each party, by index.
    pub rank_list: Seq<u8>,
    /// How many parties it takes to sign.
    pub threshold: u8,
    /// The whole share, secret part included, in its serialized form.
    pub sealed: Seq<u8>,
}

impl View for KeyshareHandle {
    type V = KeyshareView;

    closed spec fn view(&self) -> KeyshareView {
        KeyshareView {
            public_key: self.public_key,
            party_id: self.party_id,
            rank_list: self.rank_list@,
            threshold: self.threshold,
            sealed: self.sealed@,
        }
    }
}

/// The number of parties as one byte can say it.
pub open spec fn participants_byte(parties: nat) -> u8 {
    (parties % 256) as u8
}

impl KeyshareHandle {
    /// The keyshare with the given parts.
    pub fn new(
        public_key: k256::AffinePoint,
        party_id: u8,
        rank_list: Vec<u8>,
        threshold: u8,
        sealed: Vec<u8>,
    ) -> (share: KeyshareHandle)
        ensures
            share@ == (KeyshareView {
                public_key,
                party_id,
                rank_list: rank_list@,
                threshold,
                sealed: sealed@,
            }),
    {
        KeyshareHandle { public_key, party_id, rank_list, threshold, sealed }
    }

    /// The group's public key.
    pub fn public_key(&self) -> (point: k256::AffinePoint)
        ensures
            point == self@.public_key,
    {
        self.public_key
    }

    /// The number of parties that took part in generating the key.
    pub fn parties(&self) -> (n: usize)
        ensures
            n == self@.rank_list.len(),
    {
        self.rank_list.len()
    }

    /// The whole share in its serialized form.
    pub fn sealed(&self) -> (bytes: &[u8])
        ensures
            bytes@ == self@.sealed,
    {
        self.sealed.as_slice()
    }

    /// A second keyshare with the same content. The first stays with its
    /// owner, untouched.
    pub fn duplicate(&self) -> (copy: KeyshareHandle)
        ensures
            copy@ == self@,
    {
        KeyshareHandle {
            public_key: self.public_key,
            party_id: self.party_id,
            rank_list: slice_to_vec(self.rank_list.as_slice()),
            threshold: self.threshold,
            sealed: slice_to_vec(self.sealed.as_slice()),
        }
    }
}

/// The serialized form of a keyshare, or the empty buffer where there is no
/// keyshare.
pub fn dkls_keyshare_to_bytes(handle: Option<&KeyshareHandle>) -> (buf: ByteBuffer)
    ensures
        buf@ == match handle {
            Some(share) => share@.sealed,
            None => Seq::<u8>::empty(),
        },
{
    match handle {
        None => ByteBuffer::empty(),
        Some(share) => ByteBuffer::from_vec(slice_to_vec(share.sealed.as_slice())),
    }
}

/// The group's public key in its compressed form of 33 bytes; nothing where
/// there is no keyshare.
pub fn dkls_keyshare_public_key(handle: Option<&KeyshareHandle>) -> (out: Option<[u8; 33]>)
    ensures
        handle is None <==> out is None,
        handle matches Some(share) ==> out.unwrap()@ == point_encoding(share@.public_key),
        out matches Some(bytes) ==> bytes@.len() == PUBLIC_KEY_LEN,
{
    match handle {
        None => None,
        Some(share) => Some(encode_point(&share.public_key)),
    }
}

/// The number of parties, cut to one byte; 0 where there is no keyshare.
pub fn dkls_keyshare_participants(handle: Option<&KeyshareHandle>) -> (n: u8)
    ensures
        n == match handle {
            Some(share) => participants_byte(share@.rank_list.len()),
            None => 0u8,
        },
{
    match handle {
        None => 0,
        Some(share) => {
            let parties: usize = share.rank_list.len();
            (parties % 256) as u8
        },
    }
}

/// The threshold; 0 where there is no keyshare.
pub fn dkls_keyshare_threshold(handle: Option<&KeyshareHandle>) -> (t: u8)
    ensures
        t == match handle {
            Some(share) => share@.threshold,
            None => 0u8,
        },
{
    match handle {
        None => 0,
        Some(share) => share.threshold,
    }
}

/// The party's index; 0 where there is no keyshare.
pub fn dkls_keyshare_party_id(handle: Option<&KeyshareHandle>) -> (id: u8)
    ensures
        id == match handle {
            Some(share) => share@.party_id,
            None => 0u8,
        },
{
    match handle {
        None => 0,
        Some(share) => share.party_id,
    }
}

} // verus!
