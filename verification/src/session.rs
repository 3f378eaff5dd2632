//! Application-session selection.
//!
//! Once the transport engine reports that a connection has progressed far
//! enough, the negotiated application-protocol name picks the session
//! variant: an HTTP/0.9-style session, a multiplexed HTTP/3 session, or the
//! lightweight datagram ping session. An unknown name selects nothing and
//! the connection stays transport-only.

use vstd::prelude::*;

verus! {

/// The application-session variants a connection can run.
#[derive(Clone, Copy, PartialEq, Eq, Structural, Debug)]
pub enum AppProto {
    Http09,
    Http3,
    Siduck,
}

/// The protocol name `hq-interop`.
pub open spec fn alpn_hq_interop() -> Seq<u8> {
    seq![104u8, 113u8, 45u8, 105u8, 110u8, 116u8, 101u8, 114u8, 111u8, 112u8]
}

/// The protocol name `hq-29`.
pub open spec fn alpn_hq_29() -> Seq<u8> {
    seq![104u8, 113u8, 45u8, 50u8, 57u8]
}

/// The protocol name `hq-28`.
pub open spec fn alpn_hq_28() -> Seq<u8> {
    seq![104u8, 113u8, 45u8, 50u8, 56u8]
}

/// The protocol name `hq-27`.
pub open spec fn alpn_hq_27() -> Seq<u8> {
    seq![104u8, 113u8, 45u8, 50u8, 55u8]
}

/// The protocol name `http/0.9`.
pub open spec fn alpn_http_0_9() -> Seq<u8> {
    seq![104u8, 116u8, 116u8, 112u8, 47u8, 48u8, 46u8, 57u8]
}

/// The protocol name `h3`.
pub open spec fn alpn_h3() -> Seq<u8> {
    seq![104u8, 51u8]
}

/// The protocol name `h3-29`.
pub open spec fn alpn_h3_29() -> Seq<u8> {
    seq![104u8, 51u8, 45u8, 50u8, 57u8]
}

/// The protocol name `h3-28`.
pub open spec fn alpn_h3_28() -> Seq<u8> {
    seq![104u8, 51u8, 45u8, 50u8, 56u8]
}

/// The protocol name `h3-27`.
pub open spec fn alpn_h3_27() -> Seq<u8> {
    seq![104u8, 51u8, 45u8, 50u8, 55u8]
}

/// The protocol name `siduck`.
pub open spec fn alpn_siduck() -> Seq<u8> {
    seq![115u8, 105u8, 100u8, 117u8, 99u8, 107u8]
}

/// The protocol name `siduck-00`.
pub open spec fn alpn_siduck_00() -> Seq<u8> {
    seq![115u8, 105u8, 100u8, 117u8, 99u8, 107u8, 45u8, 48u8, 48u8]
}

/// The names that select the HTTP/0.9-style session.
pub open spec fn http09_names() -> Seq<Seq<u8>> {
    seq![alpn_hq_interop(), alpn_hq_29(), alpn_hq_28(), alpn_hq_27(), alpn_http_0_9()]
}

/// The names that select the HTTP/3 session.
pub open spec fn http3_names() -> Seq<Seq<u8>> {
    seq![alpn_h3(), alpn_h3_29(), alpn_h3_28(), alpn_h3_27()]
}

/// The names that select the datagram ping session.
pub open spec fn siduck_names() -> Seq<Seq<u8>> {
    seq![alpn_siduck(), alpn_siduck_00()]
}

/// Which session variant, if any, a negotiated protocol name selects.
/// Matching is exact and case-sensitive.
pub open spec fn spec_select(p: Seq<u8>) -> Option<AppProto> {
    if http09_names().contains(p) {
        Some(AppProto::Http09)
    } else if http3_names().contains(p) {
        Some(AppProto::Http3)
    } else if siduck_names().contains(p) {
        Some(AppProto::Siduck)
    } else {
        None
    }
}

/// Compare a byte vector against a fixed byte pattern.
fn eq_arr<const N: usize>(a: &Vec<u8>, b: &[u8; N]) -> (r: bool)
    ensures
        r == (a@ == b@),
{
    if a.len() != N {
        assert(a@ != b@);
        return false;
    }
    let mut i: usize = 0;
    while i < N
        invariant
            i <= N,
            a@.len() == N,
            b@.len() == N,
            a@.subrange(0, i as int) == b@.subrange(0, i as int),
        decreases N - i,
    {
        if a[i] != b[i] {
            assert(a@[i as int] != b@[i as int]);
            return false;
        }
        i = i + 1;
        assert(a@.subrange(0, i as int) =~= b@.subrange(0, i as int));
    }
    assert(a@ =~= a@.subrange(0, N as int));
    assert(b@ =~= b@.subrange(0, N as int));
    true
}

/// Select the session variant for a negotiated application-protocol name:
/// exact match against the known name sets, or nothing for an unknown name.
pub fn select_app_proto(p: &Vec<u8>) -> (r: Option<AppProto>)
    ensures
        r == spec_select(p@),
{
    if eq_arr(p, &[104, 113, 45, 105, 110, 116, 101, 114, 111, 112])
        || eq_arr(p, &[104, 113, 45, 50, 57]) || eq_arr(p, &[104, 113, 45, 50, 56])
        || eq_arr(p, &[104, 113, 45, 50, 55])
        || eq_arr(p, &[104, 116, 116, 112, 47, 48, 46, 57]) {
        assert(http09_names().contains(p@)) by {
            if p@ == alpn_hq_interop() {
                assert(http09_names()[0] == p@);
            } else if p@ == alpn_hq_29() {
                assert(http09_names()[1] == p@);
            } else if p@ == alpn_hq_28() {
                assert(http09_names()[2] == p@);
            } else if p@ == alpn_hq_27() {
                assert(http09_names()[3] == p@);
            } else {
                assert(http09_names()[4] == p@);
            }
        }
        return Some(AppProto::Http09);
    }
    if eq_arr(p, &[104, 51]) || eq_arr(p, &[104, 51, 45, 50, 57])
        || eq_arr(p, &[104, 51, 45, 50, 56]) || eq_arr(p, &[104, 51, 45, 50, 55]) {
        assert(http3_names().contains(p@)) by {
            if p@ == alpn_h3() {
                assert(http3_names()[0] == p@);
            } else if p@ == alpn_h3_29() {
                assert(http3_names()[1] == p@);
            } else if p@ == alpn_h3_28() {
                assert(http3_names()[2] == p@);
            } else {
                assert(http3_names()[3] == p@);
            }
        }
        assert(!http09_names().contains(p@)) by {
            assert(forall|i: int|
                0 <= i < http09_names().len() ==> http09_names()[i] != p@);
        }
        return Some(AppProto::Http3);
    }
    if eq_arr(p, &[115, 105, 100, 117, 99, 107])
        || eq_arr(p, &[115, 105, 100, 117, 99, 107, 45, 48, 48]) {
        assert(siduck_names().contains(p@)) by {
            if p@ == alpn_siduck() {
                assert(siduck_names()[0] == p@);
            } else {
                assert(siduck_names()[1] == p@);
            }
        }
        assert(!http09_names().contains(p@)) by {
            assert(forall|i: int|
                0 <= i < http09_names().len() ==> http09_names()[i] != p@);
        }
        assert(!http3_names().contains(p@)) by {
            assert(forall|i: int|
                0 <= i < http3_names().len() ==> http3_names()[i] != p@);
        }
        return Some(AppProto::Siduck);
    }
    assert(!http09_names().contains(p@)) by {
        assert(forall|i: int|
            0 <= i < http09_names().len() ==> http09_names()[i] != p@);
    }
    assert(!http3_names().contains(p@)) by {
        assert(forall|i: int|
            0 <= i < http3_names().len() ==> http3_names()[i] != p@);
    }
    assert(!siduck_names().contains(p@)) by {
        assert(forall|i: int|
            0 <= i < siduck_names().len() ==> siduck_names()[i] != p@);
    }
    None
}

} // verus!
