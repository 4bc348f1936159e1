//! Peer and lobby identifiers, and the invite-code conversion.
//!
//! Both identifiers are 64-bit values handed out by the provider.  An invite
//! code is the base62 rendering of a lobby identifier, short enough to paste
//! into a chat window; decoding an invite code recovers the identifier.

use vstd::prelude::*;

verus! {

/// A remote participant's stable identifier.
#[derive(Clone, Copy, PartialEq, Eq, Structural, Debug, Hash)]
pub struct UserId(pub u64);

/// A joinable lobby's stable identifier.
#[derive(Clone, Copy, PartialEq, Eq, Structural, Debug, Hash)]
pub struct LobbyId(pub u64);

impl LobbyId {
    /// Wrap a raw 64-bit lobby identifier.
    pub fn from_raw(raw: u64) -> (r: LobbyId)
        ensures
            r == LobbyId(raw),
    {
        LobbyId(raw)
    }

    /// The raw 64-bit value.
    pub fn raw(&self) -> (r: u64)
        ensures
            r == self.0,
    {
        self.0
    }
}

/// What base62::encode returns for a number: its digits in the standard
/// alphabet (0 to 9, then A to Z, then a to z), most significant first.
pub uninterp spec fn base62_of(n: u128) -> Seq<char>;

/// Relies on base62::encode: the standard-alphabet base62 digits of `n`, a
/// function of `n` alone.
#[verifier::external_body]
pub(crate) fn base62_encode_u64(n: u64) -> (r: String)
    ensures
        r@ == base62_of(n as u128),
{
    base62::encode(n)
}

/// Holds when `r` is what decoding the digits `s` must yield: whenever `s` is
/// the encoding of some number, that number comes back.
pub open spec fn decodes_base62(s: Seq<char>, r: Result<u128, ()>) -> bool {
    forall|n: u128| s == base62_of(n) ==> r == Ok::<u128, ()>(n)
}

/// Relies on base62::decode: it inverts base62::encode on every encoded
/// number, and rejects other inputs it cannot read.
#[verifier::external_body]
pub(crate) fn base62_decode_str(s: &str) -> (r: Result<u128, ()>)
    ensures
        decodes_base62(s@, r),
{
    match base62::decode(s) {
        Ok(v) => Ok(v),
        Err(_) => Err(()),
    }
}

/// Render a lobby identifier as an invite code.
pub fn encode_lobby_id_raw(id: LobbyId) -> (r: String)
    ensures
        r@ == base62_of(id.0 as u128),
{
    base62_encode_u64(id.0)
}

/// Recover a lobby identifier from an invite code.
///
/// An invite code produced by `encode_lobby_id_raw` decodes to the identifier
/// that went in; anything unreadable decodes to the zero identifier.
pub fn decode_lobby_id(code: &str) -> (r: LobbyId)
    ensures
        forall|n: u64| code@ == base62_of(n as u128) ==> r == LobbyId(n),
{
    match base62_decode_str(code) {
        Err(()) => LobbyId(0),
        Ok(v) => {
            if v <= u64::MAX as u128 {
                LobbyId(v as u64)
            } else {
                LobbyId(0)
            }
        },
    }
}

} // verus!
