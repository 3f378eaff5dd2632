//! Per-connection state: the record the connection table owns for every
//! live connection, its send-flow bookkeeping, and the in-flight partial
//! request and response bytes keyed by stream identifier.

use vstd::prelude::*;
use crate::session::AppProto;
use crate::session::spec_select;
use crate::session::select_app_proto;

verus! {

/// The shared output buffer's size, in bytes.
pub const MAX_BUF_SIZE: usize = 65536;

/// How many full-size datagrams one burst may carry at most.
pub const MAX_SEND_BURST_PACKETS: usize = 10;

/// The burst ceiling for a maximum datagram size: the buffer size or the
/// fixed packet-count multiple of the datagram size, whichever is smaller.
pub open spec fn spec_burst_ceiling(d: int) -> int {
    if d * MAX_SEND_BURST_PACKETS < MAX_BUF_SIZE {
        d * MAX_SEND_BURST_PACKETS
    } else {
        MAX_BUF_SIZE as int
    }
}

/// In-flight partial data keyed by stream identifier: an association list
/// with pairwise-distinct keys.
#[derive(Clone, Debug)]
pub struct StreamMap {
    pub entries: Vec<(u64, Vec<u8>)>,
}

impl StreamMap {
    /// Keys are pairwise distinct.
    pub open spec fn wf(self) -> bool {
        forall|i: int, j: int|
            0 <= i < j < self.entries@.len() ==> self.entries@[i].0 != self.entries@[j].0
    }

    /// Whether a stream identifier has an entry.
    pub open spec fn spec_contains(self, sid: u64) -> bool {
        exists|i: int| 0 <= i < self.entries@.len() && self.entries@[i].0 == sid
    }

    /// The bytes stored for a stream identifier.
    pub open spec fn spec_get(self, sid: u64) -> Seq<u8> {
        self.entries@[choose|i: int|
            0 <= i < self.entries@.len() && self.entries@[i].0 == sid].1@
    }

    /// Two positions holding the same key are the same position.
    pub proof fn lemma_key_at_one_index(self, a: int, b: int)
        requires
            self.wf(),
            0 <= a < self.entries@.len(),
            0 <= b < self.entries@.len(),
            self.entries@[a].0 == self.entries@[b].0,
        ensures
            a == b,
    {
        if a < b {
            assert(self.entries@[a].0 != self.entries@[b].0);
        } else if b < a {
            assert(self.entries@[b].0 != self.entries@[a].0);
        }
    }

    pub fn new() -> (r: StreamMap)
        ensures
            r.wf(),
            r.entries@.len() == 0,
    {
        StreamMap { entries: Vec::new() }
    }

    fn find(&self, sid: u64) -> (r: Option<usize>)
        ensures
            match r {
                Some(i) => i < self.entries@.len() && self.entries@[i as int].0 == sid,
                None => !self.spec_contains(sid),
            },
    {
        let mut i: usize = 0;
        while i < self.entries.len()
            invariant
                i <= self.entries@.len(),
                forall|j: int| 0 <= j < i ==> self.entries@[j].0 != sid,
            decreases self.entries@.len() - i,
        {
            if self.entries[i].0 == sid {
                return Some(i);
            }
            i = i + 1;
        }
        None
    }

    /// Whether a stream identifier has an entry.
    pub fn contains(&self, sid: u64) -> (r: bool)
        ensures
            r == self.spec_contains(sid),
    {
        match self.find(sid) {
            Some(i) => {
                proof {
                    assert(self.entries@[i as int].0 == sid);
                }
                true
            },
            None => false,
        }
    }

    /// The bytes stored for a stream identifier, if any.
    pub fn get(&self, sid: u64) -> (r: Option<&Vec<u8>>)
        requires
            self.wf(),
        ensures
            match r {
                Some(v) => self.spec_contains(sid) && v@ == self.spec_get(sid),
                None => !self.spec_contains(sid),
            },
    {
        match self.find(sid) {
            Some(i) => {
                proof {
                    let w = choose|k: int|
                        0 <= k < self.entries@.len() && self.entries@[k].0 == sid;
                    self.lemma_key_at_one_index(w, i as int);
                }
                Some(&self.entries[i].1)
            },
            None => None,
        }
    }

    /// Store bytes for a stream identifier, replacing any earlier entry.
    pub fn set(&mut self, sid: u64, data: Vec<u8>)
        requires
            old(self).wf(),
        ensures
            final(self).wf(),
            final(self).spec_contains(sid),
            final(self).spec_get(sid) == data@,
            forall|s: u64|
                s != sid ==> final(self).spec_contains(s) == old(self).spec_contains(s),
            forall|s: u64|
                s != sid && old(self).spec_contains(s) ==> final(self).spec_get(s) == old(
                    self,
                ).spec_get(s),
    {
        let r = self.find(sid);
        match r {
            Some(i) => {
                self.entries.set(i, (sid, data));
            },
            None => {
                self.entries.push((sid, data));
            },
        }
        proof {
            let m0 = *old(self);
            let m1 = *self;
            let at = choose|k: int| 0 <= k < m1.entries@.len() && m1.entries@[k].0 == sid;
            if let Some(i) = r {
                assert(m1.entries@[i as int].0 == sid);
                m1.lemma_key_at_one_index(at, i as int);
            } else {
                assert(m1.entries@[m1.entries@.len() - 1].0 == sid);
                m1.lemma_key_at_one_index(at, m1.entries@.len() - 1);
            }
            assert forall|s: u64| s != sid && m1.spec_contains(s) implies m0.spec_contains(
                s,
            ) by {
                let k = choose|k: int|
                    0 <= k < m1.entries@.len() && m1.entries@[k].0 == s;
                assert(m0.entries@[k].0 == s);
            }
            assert forall|s: u64| s != sid && m0.spec_contains(s) implies m1.spec_contains(s)
                && m1.spec_get(s) == m0.spec_get(s) by {
                let k = choose|k: int|
                    0 <= k < m0.entries@.len() && m0.entries@[k].0 == s;
                assert(m1.entries@[k].0 == s);
                let k0 = choose|k0: int|
                    0 <= k0 < m0.entries@.len() && m0.entries@[k0].0 == s;
                let k1 = choose|k1: int|
                    0 <= k1 < m1.entries@.len() && m1.entries@[k1].0 == s;
                m0.lemma_key_at_one_index(k0, k);
                m1.lemma_key_at_one_index(k1, k);
            }
        }
    }

    /// Remove the entry of a stream identifier, if it has one.
    pub fn remove(&mut self, sid: u64)
        requires
            old(self).wf(),
        ensures
            final(self).wf(),
            !final(self).spec_contains(sid),
            forall|s: u64|
                s != sid ==> final(self).spec_contains(s) == old(self).spec_contains(s),
            forall|s: u64|
                s != sid && old(self).spec_contains(s) ==> final(self).spec_get(s) == old(
                    self,
                ).spec_get(s),
    {
        let r = self.find(sid);
        if let Some(i) = r {
            self.entries.remove(i);
            proof {
                let m0 = *old(self);
                let m1 = *self;
                assert forall|s: u64| s != sid && m1.spec_contains(s) implies m0
                    .spec_contains(s) by {
                    let k = choose|k: int|
                        0 <= k < m1.entries@.len() && m1.entries@[k].0 == s;
                    if k < i as int {
                        assert(m0.entries@[k].0 == s);
                    } else {
                        assert(m0.entries@[k + 1].0 == s);
                    }
                }
                assert forall|s: u64| m1.spec_contains(s) implies s != sid by {
                    if s == sid {
                        let k = choose|k: int|
                            0 <= k < m1.entries@.len() && m1.entries@[k].0 == s;
                        assert(m0.entries@[i as int].0 == sid);
                        if k < i as int {
                            assert(m0.entries@[k].0 == sid);
                            m0.lemma_key_at_one_index(k, i as int);
                        } else {
                            assert(m0.entries@[k + 1].0 == sid);
                            m0.lemma_key_at_one_index(k + 1, i as int);
                        }
                    }
                }
                assert forall|s: u64| s != sid && m0.spec_contains(s) implies m1
                    .spec_contains(s) && m1.spec_get(s) == m0.spec_get(s) by {
                    let k0 = choose|k0: int|
                        0 <= k0 < m0.entries@.len() && m0.entries@[k0].0 == s;
                    m0.lemma_key_at_one_index(
                        k0,
                        choose|k: int| 0 <= k < m0.entries@.len() && m0.entries@[k].0 == s,
                    );
                    if k0 < i as int {
                        assert(m1.entries@[k0].0 == s);
                    } else {
                        assert(m0.entries@[k0].0 == s && k0 != i as int);
                        assert(m1.entries@[k0 - 1].0 == s);
                    }
                    let k1 = choose|k1: int|
                        0 <= k1 < m1.entries@.len() && m1.entries@[k1].0 == s;
                    if k0 < i as int {
                        m1.lemma_key_at_one_index(k1, k0);
                    } else {
                        m1.lemma_key_at_one_index(k1, k0 - 1);
                    }
                }
            }
        }
    }
}

/// One connection's record: the selected application session, the
/// send-flow bookkeeping, the in-flight partial requests and responses, and
/// the last engine-reported terminal state.
#[derive(Clone, Debug)]
pub struct Connection {
    /// The application session running on the connection, once one is
    /// selected.
    pub app: Option<AppProto>,
    /// Whether session selection has succeeded; set at most once.
    pub app_proto_selected: bool,
    /// In-flight partial request bytes, by stream identifier.
    pub partial_requests: StreamMap,
    /// In-flight partial response bytes, by stream identifier.
    pub partial_responses: StreamMap,
    /// Bytes sent in the current burst window.
    pub bytes_sent: usize,
    /// The engine-reported maximum datagram size.
    pub max_datagram_size: usize,
    /// The burst ceiling derived from the maximum datagram size.
    pub max_send_burst: usize,
    /// Whether the engine last reported the connection closed.
    pub closed: bool,
}

/// The record after the engine reports progress: while no session is
/// selected and the handshake has progressed far enough, the negotiated
/// protocol name picks the session variant (an unknown name picks none and
/// leaves selection open), and the send-flow limits are refreshed from the
/// engine's newly reported maximum datagram size. Otherwise nothing
/// changes.
pub open spec fn spec_progress(c: Connection, ready: bool, proto: Seq<u8>, new_mds: int) -> Connection {
    if !c.app_proto_selected && ready {
        Connection {
            app: spec_select(proto),
            app_proto_selected: spec_select(proto) is Some,
            max_datagram_size: new_mds as usize,
            max_send_burst: spec_burst_ceiling(new_mds) as usize,
            ..c
        }
    } else {
        c
    }
}

/// The burst bookkeeping after one socket transmission: the transmitted
/// bytes accumulate, and reaching the ceiling resets the counter and pauses
/// this connection's write phase.
pub open spec fn spec_after_transmission(bytes_sent: int, sent: int, ceiling: int) -> (int, bool) {
    if bytes_sent + sent >= ceiling {
        (0, true)
    } else {
        (bytes_sent + sent, false)
    }
}

/// What a freshly created record looks like: no session, no partial data,
/// an empty burst window, not closed, with the send-flow limits derived
/// from the given maximum datagram size.
pub open spec fn spec_fresh_record(c: Connection, max_datagram_size: int) -> bool {
    &&& c.app is None
    &&& !c.app_proto_selected
    &&& c.partial_requests.entries@.len() == 0
    &&& c.partial_responses.entries@.len() == 0
    &&& c.bytes_sent == 0
    &&& c.max_datagram_size == max_datagram_size
    &&& c.max_send_burst == spec_burst_ceiling(max_datagram_size)
    &&& !c.closed
}

impl Connection {
    /// The record's internal invariant: the burst ceiling matches the
    /// datagram size, the window counter stays under the ceiling, and a
    /// session is present exactly when selection has succeeded.
    pub open spec fn wf(self) -> bool {
        &&& 1 <= self.max_datagram_size
        &&& self.max_send_burst == spec_burst_ceiling(self.max_datagram_size as int)
        &&& self.bytes_sent < MAX_BUF_SIZE
        &&& (self.app_proto_selected <==> self.app is Some)
        &&& self.partial_requests.wf()
        &&& self.partial_responses.wf()
    }

    /// Compute the burst ceiling for a maximum datagram size.
    pub fn burst_ceiling(mds: usize) -> (r: usize)
        ensures
            r == spec_burst_ceiling(mds as int),
    {
        if mds >= 6554 {
            MAX_BUF_SIZE
        } else {
            mds * MAX_SEND_BURST_PACKETS
        }
    }

    /// A fresh record: no session, no partial data, an empty burst window,
    /// not closed.
    pub fn new(max_datagram_size: usize) -> (r: Connection)
        requires
            1 <= max_datagram_size,
        ensures
            r.wf(),
            spec_fresh_record(r, max_datagram_size as int),
    {
        let max_send_burst = Self::burst_ceiling(max_datagram_size);
        Connection {
            app: None,
            app_proto_selected: false,
            partial_requests: StreamMap::new(),
            partial_responses: StreamMap::new(),
            bytes_sent: 0,
            max_datagram_size,
            max_send_burst,
            closed: false,
        }
    }

    /// Drive session selection after the engine consumed a datagram:
    /// `ready` is the engine's report that the connection is established or
    /// carries early data, `proto` its negotiated application-protocol
    /// name, and `new_mds` its refreshed maximum datagram size.
    pub fn on_engine_progress(&mut self, ready: bool, proto: &Vec<u8>, new_mds: usize)
        requires
            old(self).wf(),
            1 <= new_mds,
        ensures
            final(self).wf(),
            *final(self) == spec_progress(*old(self), ready, proto@, new_mds as int),
    {
        if !self.app_proto_selected && ready {
            let selected = select_app_proto(proto);
            self.app = selected;
            self.app_proto_selected = selected.is_some();
            self.max_datagram_size = new_mds;
            self.max_send_burst = Self::burst_ceiling(new_mds);
        }
    }

    /// Account one socket transmission against the burst window. Returns
    /// whether the window is exhausted: then the counter resets and the
    /// caller must pause this connection's write phase and schedule an
    /// immediate next reactor iteration.
    pub fn note_transmission(&mut self, sent: usize) -> (pause: bool)
        requires
            old(self).wf(),
            1 <= sent <= old(self).max_send_burst,
        ensures
            final(self).wf(),
            (final(self).bytes_sent as int, pause) == spec_after_transmission(
                old(self).bytes_sent as int,
                sent as int,
                old(self).max_send_burst as int,
            ),
            *final(self) == (Connection { bytes_sent: final(self).bytes_sent, ..*old(self) }),
            pause == (old(self).bytes_sent + sent >= old(self).max_send_burst),
    {
        if self.bytes_sent >= self.max_send_burst - sent {
            self.bytes_sent = 0;
            true
        } else {
            self.bytes_sent = self.bytes_sent + sent;
            false
        }
    }

    /// Note the engine's report of whether the connection has reached its
    /// terminal state.
    pub fn set_closed(&mut self, closed: bool)
        requires
            old(self).wf(),
        ensures
            final(self).wf(),
            *final(self) == (Connection { closed, ..*old(self) }),
    {
        self.closed = closed;
    }
}

/// Law: once session selection has succeeded for a connection, no further
/// engine progress changes its record: the session variant is created and
/// selection succeeds at most once in the record's lifetime.
pub proof fn lemma_session_selected_once(c: Connection, ready: bool, proto: Seq<u8>, new_mds: int)
    requires
        c.app_proto_selected,
    ensures
        spec_progress(c, ready, proto, new_mds) == c,
{
}

} // verus!
