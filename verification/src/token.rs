//! Stateless address-validation tokens.
//!
//! A token is the fixed marker, then the client IP address as fixed-width
//! octets, then the original destination connection identifier. Minting and
//! validating are pure functions of the address and the identifier; no state
//! is kept and no expiry is attached.

use vstd::prelude::*;

verus! {

/// A client address as seen by the dispatch logic: the IP address by its
/// fixed-width octet encoding (4 octets for IPv4, 16 for IPv6) and the UDP
/// port.
pub struct ClientAddr {
    pub ip: Vec<u8>,
    pub port: u16,
}

impl ClientAddr {
    /// An address is well formed when its octets are those of one of the two
    /// address families.
    pub open spec fn wf(self) -> bool {
        self.ip@.len() == 4 || self.ip@.len() == 16
    }
}

/// The marker that every token starts with.
pub open spec fn token_marker() -> Seq<u8> {
    seq![113u8, 117u8, 105u8, 99u8, 104u8, 101u8]
}

/// The token minted for a destination connection identifier and a client IP.
pub open spec fn spec_mint(dcid: Seq<u8>, ip: Seq<u8>) -> Seq<u8> {
    token_marker() + ip + dcid
}

/// What validating a token against a client IP yields: the embedded
/// identifier when the marker and the address octets match exactly, nothing
/// otherwise.
pub open spec fn spec_validate(ip: Seq<u8>, token: Seq<u8>) -> Option<Seq<u8>> {
    if token.len() >= token_marker().len() + ip.len()
        && token.subrange(0, token_marker().len() as int) == token_marker()
        && token.subrange(token_marker().len() as int, (token_marker().len() + ip.len()) as int)
            == ip {
        Some(token.subrange((token_marker().len() + ip.len()) as int, token.len() as int))
    } else {
        None
    }
}

/// Mint the address-validation token for a destination connection identifier
/// and a client address: marker, then address octets, then the identifier.
pub fn mint_token(dcid: &Vec<u8>, addr: &ClientAddr) -> (r: Vec<u8>)
    ensures
        r@ == spec_mint(dcid@, addr.ip@),
{
    let mut out: Vec<u8> = Vec::new();
    out.push(113u8);
    out.push(117u8);
    out.push(105u8);
    out.push(99u8);
    out.push(104u8);
    out.push(101u8);
    assert(out@ =~= token_marker());
    let mut i: usize = 0;
    while i < addr.ip.len()
        invariant
            i <= addr.ip@.len(),
            out@ == token_marker() + addr.ip@.subrange(0, i as int),
        decreases addr.ip@.len() - i,
    {
        out.push(addr.ip[i]);
        i = i + 1;
        assert(out@ =~= token_marker() + addr.ip@.subrange(0, i as int));
    }
    assert(addr.ip@.subrange(0, addr.ip@.len() as int) =~= addr.ip@);
    let mut j: usize = 0;
    while j < dcid.len()
        invariant
            j <= dcid@.len(),
            out@ == token_marker() + addr.ip@ + dcid@.subrange(0, j as int),
        decreases dcid@.len() - j,
    {
        out.push(dcid[j]);
        j = j + 1;
        assert(out@ =~= token_marker() + addr.ip@ + dcid@.subrange(0, j as int));
    }
    assert(dcid@.subrange(0, dcid@.len() as int) =~= dcid@);
    out
}

/// Validate a token against the client address it arrived from. Returns the
/// embedded original destination connection identifier exactly when the
/// marker matches and the embedded octets equal the client's; any other
/// token yields nothing.
pub fn validate_token(addr: &ClientAddr, token: &Vec<u8>) -> (r: Option<Vec<u8>>)
    ensures
        match r {
            Some(cid) => spec_validate(addr.ip@, token@) == Some(cid@),
            None => spec_validate(addr.ip@, token@) is None,
        },
{
    let alen = addr.ip.len();
    if token.len() < 6 || token.len() - 6 < alen {
        return None;
    }
    let marker: [u8; 6] = [113u8, 117u8, 105u8, 99u8, 104u8, 101u8];
    let mut i: usize = 0;
    while i < 6
        invariant
            i <= 6,
            token@.len() >= 6,
            marker@ == token_marker(),
            token@.subrange(0, i as int) == token_marker().subrange(0, i as int),
        decreases 6 - i,
    {
        if token[i] != marker[i] {
            assert(token@.subrange(0, 6)[i as int] != token_marker()[i as int]);
            return None;
        }
        i = i + 1;
        assert(token@.subrange(0, i as int) =~= token_marker().subrange(0, i as int));
    }
    assert(token@.subrange(0, 6) =~= token_marker());
    let tlen = token.len();
    let mut j: usize = 0;
    while j < alen
        invariant
            j <= alen,
            alen == addr.ip@.len(),
            6 + alen <= tlen,
            tlen == token@.len(),
            token@.subrange(6, 6 + j as int) == addr.ip@.subrange(0, j as int),
        decreases alen - j,
    {
        if token[6 + j] != addr.ip[j] {
            assert(token@.subrange(6, 6 + alen as int)[j as int] != addr.ip@[j as int]);
            return None;
        }
        j = j + 1;
        assert(token@.subrange(6, 6 + j as int) =~= addr.ip@.subrange(0, j as int));
    }
    assert(token@.subrange(6, 6 + alen as int) =~= addr.ip@);
    let mut cid: Vec<u8> = Vec::new();
    let mut k: usize = 6 + alen;
    while k < token.len()
        invariant
            6 + alen <= k <= token@.len(),
            cid@ == token@.subrange(6 + alen as int, k as int),
        decreases token@.len() - k,
    {
        cid.push(token[k]);
        k = k + 1;
        assert(cid@ =~= token@.subrange(6 + alen as int, k as int));
    }
    assert(cid@ =~= token@.subrange(6 + alen as int, token@.len() as int));
    Some(cid)
}

/// Law: a token minted for an identifier and an address validates against
/// that same address and yields back exactly the identifier.
pub proof fn lemma_token_round_trip(dcid: Seq<u8>, ip: Seq<u8>)
    ensures
        spec_validate(ip, spec_mint(dcid, ip)) == Some(dcid),
{
    let t = spec_mint(dcid, ip);
    assert(t.subrange(0, 6) =~= token_marker());
    assert(t.subrange(6, 6 + ip.len() as int) =~= ip);
    assert(t.subrange(6 + ip.len() as int, t.len() as int) =~= dcid);
}

/// Law: a token minted for one address never validates against a different
/// address of the same address family. The restriction to one family is
/// essential: across families a crafted identifier can make an IPv4
/// token's octets line up with an IPv6 address, since the token itself
/// does not record the family.
pub proof fn lemma_token_wrong_addr(dcid: Seq<u8>, ip: Seq<u8>, other: Seq<u8>)
    requires
        other.len() == ip.len(),
        other != ip,
    ensures
        spec_validate(other, spec_mint(dcid, ip)) is None,
{
    let t = spec_mint(dcid, ip);
    assert(t.subrange(6, 6 + other.len() as int) =~= ip);
    if spec_validate(other, t) is Some {
        assert(t.subrange(6, 6 + other.len() as int) == other);
        assert(ip =~= other);
    }
}

} // verus!
