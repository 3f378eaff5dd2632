//! The packet demultiplexer: the handshake-bootstrap decision for every
//! inbound datagram.
//!
//! A datagram whose destination identifier (or its derived server-chosen
//! counterpart) is known is fed to its connection. For an unknown
//! identifier, only a handshake-initiating packet may create state, and
//! only after version negotiation and, when enabled, stateless address
//! validation have run their course; everything else is dropped without a
//! response.

use vstd::prelude::*;
use crate::bytes::bytes_clone;
use crate::conn::Connection;
use crate::conn::spec_fresh_record;
use crate::seed::MAX_CONN_ID_LEN;
use crate::table::ClientMap;
use crate::token::ClientAddr;
use crate::token::mint_token;
use crate::token::spec_mint;
use crate::token::spec_validate;
use crate::token::validate_token;

verus! {

/// The packet types the demultiplexer tells apart.
#[derive(Clone, Copy, PartialEq, Eq, Structural, Debug)]
pub enum PacketType {
    /// The handshake-initiating type.
    Initial,
    Retry,
    Handshake,
    ZeroRtt,
    VersionNegotiation,
    Short,
}

/// What the demultiplexer reads from a parsed datagram header.
#[derive(Clone, Debug)]
pub struct HeaderInfo {
    pub ty: PacketType,
    pub version: u32,
    /// The client-chosen destination identifier.
    pub dcid: Vec<u8>,
    /// The client's source identifier.
    pub scid: Vec<u8>,
    /// The address-validation token, present on every Initial packet.
    pub token: Option<Vec<u8>>,
}

/// The demultiplexer's decision for one datagram.
#[derive(Clone, Debug)]
pub enum DispatchDecision {
    /// Feed the datagram to the connection keyed by `key`.
    Feed { key: Vec<u8> },
    /// Unknown identifier and not a handshake-initiating packet: drop
    /// silently.
    DropUnknownType,
    /// The token failed validation: drop silently, never answer.
    DropInvalidToken,
    /// The echoed identifier has the wrong length: drop silently.
    DropBadDcidLen,
    /// Unsupported version: answer with a version-negotiation packet
    /// echoing the client's identifiers, and create no state.
    SendVersionNegotiation,
    /// Challenge the client: answer with a Retry packet carrying `token`
    /// and `new_scid`, and create no state.
    SendRetry { token: Vec<u8>, new_scid: Vec<u8> },
    /// Open a connection under the server-chosen identifier `scid`, with
    /// the validated original destination identifier if validation ran.
    Accept { scid: Vec<u8>, odcid: Option<Vec<u8>> },
}

/// Whether the datagram's identifiers resolve to a live connection.
pub open spec fn spec_known(map: ClientMap, hdr: HeaderInfo, derived: Seq<u8>) -> bool {
    map.spec_contains_key(hdr.dcid@) || map.spec_contains_key(derived)
}

/// The token bytes an Initial packet carries.
pub open spec fn spec_token_bytes(hdr: HeaderInfo) -> Seq<u8> {
    match hdr.token {
        Some(t) => t@,
        None => Seq::empty(),
    }
}

/// Decide what to do with one inbound datagram.
///
/// `derived_cid` is the server-chosen identifier derived from the client's
/// destination identifier (see `seed::derive_conn_id`), and
/// `version_supported` is the engine's verdict on the header's version.
/// The table is not touched: creating or feeding a connection is the
/// caller's step, guided by the decision.
pub fn dispatch(
    map: &ClientMap,
    hdr: &HeaderInfo,
    derived_cid: &Vec<u8>,
    from: &ClientAddr,
    retry_enabled: bool,
    version_supported: bool,
) -> (d: DispatchDecision)
    requires
        hdr.ty is Initial ==> hdr.token is Some,
    ensures
        ({
            let known = spec_known(*map, *hdr, derived_cid@);
            let tok = spec_token_bytes(*hdr);
            match d {
                DispatchDecision::Feed { key } => known && key@ == (
                if map.spec_contains_key(hdr.dcid@) {
                    hdr.dcid@
                } else {
                    derived_cid@
                }),
                DispatchDecision::DropUnknownType => !known && !(hdr.ty is Initial),
                DispatchDecision::SendVersionNegotiation => !known && hdr.ty is Initial
                    && !version_supported,
                DispatchDecision::SendRetry { token, new_scid } => !known && hdr.ty is Initial
                    && version_supported && retry_enabled && tok.len() == 0 && token@
                    == spec_mint(hdr.dcid@, from.ip@) && new_scid@ == derived_cid@,
                DispatchDecision::DropInvalidToken => !known && hdr.ty is Initial
                    && version_supported && retry_enabled && tok.len() > 0 && spec_validate(
                    from.ip@,
                    tok,
                ) is None,
                DispatchDecision::DropBadDcidLen => !known && hdr.ty is Initial
                    && version_supported && retry_enabled && tok.len() > 0 && spec_validate(
                    from.ip@,
                    tok,
                ) is Some && hdr.dcid@.len() != MAX_CONN_ID_LEN as nat,
                DispatchDecision::Accept { scid, odcid } => !known && hdr.ty is Initial
                    && version_supported && (
                if retry_enabled {
                    tok.len() > 0 && hdr.dcid@.len() == MAX_CONN_ID_LEN as nat && scid@
                        == hdr.dcid@ && (match spec_validate(from.ip@, tok) {
                        Some(oc) => odcid matches Some(ov) && ov@ == oc,
                        None => false,
                    })
                } else {
                    scid@ == derived_cid@ && odcid is None
                }),
            }
        }),
{
    let in_dcid = map.contains_key(&hdr.dcid);
    if in_dcid || map.contains_key(derived_cid) {
        let key = if in_dcid {
            bytes_clone(&hdr.dcid)
        } else {
            bytes_clone(derived_cid)
        };
        return DispatchDecision::Feed { key };
    }
    if hdr.ty != PacketType::Initial {
        return DispatchDecision::DropUnknownType;
    }
    if !version_supported {
        return DispatchDecision::SendVersionNegotiation;
    }
    if retry_enabled {
        match &hdr.token {
            Some(tok) => {
                if tok.len() == 0 {
                    return DispatchDecision::SendRetry {
                        token: mint_token(&hdr.dcid, from),
                        new_scid: bytes_clone(derived_cid),
                    };
                }
                match validate_token(from, tok) {
                    None => DispatchDecision::DropInvalidToken,
                    Some(odcid) => {
                        if hdr.dcid.len() != MAX_CONN_ID_LEN {
                            DispatchDecision::DropBadDcidLen
                        } else {
                            DispatchDecision::Accept {
                                scid: bytes_clone(&hdr.dcid),
                                odcid: Some(odcid),
                            }
                        }
                    },
                }
            },
            None => {
                proof {
                    assert(false);
                }
                DispatchDecision::DropUnknownType
            },
        }
    } else {
        DispatchDecision::Accept { scid: bytes_clone(derived_cid), odcid: None }
    }
}

/// Carry out a decision's effect on the connection table. Only an accepted
/// handshake creates state — one fresh record, keyed by the server-chosen
/// identifier; every other decision leaves the table exactly as it was.
/// Returns the position of the record the datagram should be fed to, if
/// any.
pub fn apply_decision(map: &mut ClientMap, d: &DispatchDecision, max_datagram_size: usize) -> (r:
    Option<usize>)
    requires
        old(map).wf(),
        1 <= max_datagram_size,
    ensures
        final(map).wf(),
        match d {
            DispatchDecision::Feed { key } => final(map).entries@ == old(map).entries@ && (
            match r {
                Some(i) => i < final(map).entries@.len() && final(map).entries@[i as int].key@
                    == key@,
                None => !old(map).spec_contains_key(key@),
            }),
            DispatchDecision::Accept { scid, odcid } => if old(map).spec_contains_key(scid@) {
                final(map).entries@ == old(map).entries@ && r is None
            } else {
                let n = old(map).entries@.len() as int;
                &&& final(map).entries@.len() == n + 1
                &&& final(map).entries@.subrange(0, n) == old(map).entries@
                &&& final(map).entries@[n].key@ == scid@
                &&& spec_fresh_record(final(map).entries@[n].conn, max_datagram_size as int)
                &&& r matches Some(i) && i == n
            },
            _ => final(map).entries@ == old(map).entries@ && r is None,
        },
{
    match d {
        DispatchDecision::Feed { key } => map.find(key),
        DispatchDecision::Accept { scid, odcid: _ } => {
            let conn = Connection::new(max_datagram_size);
            let key = bytes_clone(scid);
            if map.insert_new(key, conn) {
                proof {
                    let n = old(map).entries@.len() as int;
                    assert(map.entries@.subrange(0, n) =~= old(map).entries@);
                }
                Some(map.len() - 1)
            } else {
                None
            }
        },
        _ => None,
    }
}

} // verus!
