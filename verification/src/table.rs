//! The connection table: every live connection's record, keyed by the
//! server-chosen connection identifier. No two records share a key, and
//! garbage collection drops exactly the records whose engine reported the
//! terminal state.

use vstd::prelude::*;
use crate::bytes::bytes_eq;
use crate::conn::Connection;
use crate::conn::spec_after_transmission;
use crate::conn::spec_progress;

verus! {

/// One table entry: the identifier the record is keyed by, and the record.
pub struct Entry {
    pub key: Vec<u8>,
    pub conn: Connection,
}

/// The entries of a sequence whose record is not closed, in order.
pub open spec fn open_entries(s: Seq<Entry>) -> Seq<Entry>
    decreases s.len(),
{
    if s.len() == 0 {
        Seq::empty()
    } else if !s[0].conn.closed {
        seq![s[0]] + open_entries(s.skip(1))
    } else {
        open_entries(s.skip(1))
    }
}

/// The entries of a sequence whose record is closed, in order.
pub open spec fn closed_entries(s: Seq<Entry>) -> Seq<Entry>
    decreases s.len(),
{
    if s.len() == 0 {
        Seq::empty()
    } else if s[0].conn.closed {
        seq![s[0]] + closed_entries(s.skip(1))
    } else {
        closed_entries(s.skip(1))
    }
}

/// The connection table.
pub struct ClientMap {
    pub entries: Vec<Entry>,
}

impl ClientMap {
    /// Keys are pairwise distinct and every record satisfies its own
    /// invariant.
    pub open spec fn wf(self) -> bool {
        &&& forall|i: int, j: int|
            0 <= i < j < self.entries@.len() ==> self.entries@[i].key@ != self.entries@[j].key@
        &&& forall|i: int| 0 <= i < self.entries@.len() ==> (#[trigger] self.entries@[i]).conn.wf()
    }

    /// Whether some record is keyed by the identifier.
    pub open spec fn spec_contains_key(self, k: Seq<u8>) -> bool {
        exists|i: int| 0 <= i < self.entries@.len() && (#[trigger] self.entries@[i]).key@ == k
    }

    pub fn new() -> (r: ClientMap)
        ensures
            r.wf(),
            r.entries@.len() == 0,
    {
        ClientMap { entries: Vec::new() }
    }

    pub fn len(&self) -> (r: usize)
        ensures
            r == self.entries@.len(),
    {
        self.entries.len()
    }

    /// The position of the record keyed by the identifier, if any.
    pub fn find(&self, k: &Vec<u8>) -> (r: Option<usize>)
        ensures
            match r {
                Some(i) => i < self.entries@.len() && self.entries@[i as int].key@ == k@,
                None => !self.spec_contains_key(k@),
            },
            r is Some == self.spec_contains_key(k@),
    {
        let mut i: usize = 0;
        while i < self.entries.len()
            invariant
                i <= self.entries@.len(),
                forall|j: int| 0 <= j < i ==> (#[trigger] self.entries@[j]).key@ != k@,
            decreases self.entries@.len() - i,
        {
            if bytes_eq(&self.entries[i].key, k) {
                return Some(i);
            }
            i = i + 1;
        }
        None
    }

    /// Whether the table has a record for the identifier.
    pub fn contains_key(&self, k: &Vec<u8>) -> (r: bool)
        ensures
            r == self.spec_contains_key(k@),
    {
        self.find(k).is_some()
    }

    /// The record at a position.
    pub fn conn_at(&self, i: usize) -> (r: &Connection)
        requires
            i < self.entries@.len(),
        ensures
            *r == self.entries@[i as int].conn,
    {
        &self.entries[i].conn
    }

    /// The key at a position.
    pub fn key_at(&self, i: usize) -> (r: &Vec<u8>)
        requires
            i < self.entries@.len(),
        ensures
            r@ == self.entries@[i as int].key@,
    {
        &self.entries[i].key
    }

    /// Insert a record under a fresh key. A key already present leaves the
    /// table unchanged and reports failure; new connections are always
    /// created under an identifier not yet in the table.
    pub fn insert_new(&mut self, key: Vec<u8>, conn: Connection) -> (r: bool)
        requires
            old(self).wf(),
            conn.wf(),
        ensures
            final(self).wf(),
            r == !old(self).spec_contains_key(key@),
            r ==> final(self).entries@ == old(self).entries@.push(
                Entry { key: key, conn: conn },
            ),
            !r ==> final(self).entries@ == old(self).entries@,
            final(self).spec_contains_key(key@),
    {
        if self.contains_key(&key) {
            return false;
        }
        self.entries.push(Entry { key, conn });
        proof {
            let n = self.entries@.len() - 1;
            assert(self.entries@[n].key@ == key@);
        }
        true
    }

    /// Replace the record at a position, keeping its key.
    pub fn replace_conn(&mut self, i: usize, conn: Connection)
        requires
            old(self).wf(),
            i < old(self).entries@.len(),
            conn.wf(),
        ensures
            final(self).wf(),
            final(self).entries@ == old(self).entries@.update(
                i as int,
                Entry { key: old(self).entries@[i as int].key, conn: conn },
            ),
    {
        let e = &mut self.entries[i];
        e.conn = conn;
        proof {
            assert(final(e).key@ == old(self).entries@[i as int].key@);
        }
    }

    /// Drive session selection for the record at a position (see
    /// `Connection::on_engine_progress`).
    pub fn step_progress(&mut self, i: usize, ready: bool, proto: &Vec<u8>, new_mds: usize)
        requires
            old(self).wf(),
            i < old(self).entries@.len(),
            1 <= new_mds,
        ensures
            final(self).wf(),
            final(self).entries@ == old(self).entries@.update(
                i as int,
                Entry {
                    key: old(self).entries@[i as int].key,
                    conn: spec_progress(
                        old(self).entries@[i as int].conn,
                        ready,
                        proto@,
                        new_mds as int,
                    ),
                },
            ),
    {
        let e = &mut self.entries[i];
        e.conn.on_engine_progress(ready, proto, new_mds);
    }

    /// Account one socket transmission against the record at a position
    /// (see `Connection::note_transmission`).
    pub fn note_transmission(&mut self, i: usize, sent: usize) -> (pause: bool)
        requires
            old(self).wf(),
            i < old(self).entries@.len(),
            1 <= sent <= old(self).entries@[i as int].conn.max_send_burst,
        ensures
            final(self).wf(),
            ({
                let c0 = old(self).entries@[i as int].conn;
                let (b1, p) = spec_after_transmission(
                    c0.bytes_sent as int,
                    sent as int,
                    c0.max_send_burst as int,
                );
                &&& pause == p
                &&& final(self).entries@ == old(self).entries@.update(
                    i as int,
                    Entry {
                        key: old(self).entries@[i as int].key,
                        conn: Connection { bytes_sent: b1 as usize, ..c0 },
                    },
                )
            }),
    {
        let e = &mut self.entries[i];
        e.conn.note_transmission(sent)
    }

    /// Note the engine's terminal-state report for the record at a
    /// position.
    pub fn set_closed(&mut self, i: usize, closed: bool)
        requires
            old(self).wf(),
            i < old(self).entries@.len(),
        ensures
            final(self).wf(),
            final(self).entries@ == old(self).entries@.update(
                i as int,
                Entry {
                    key: old(self).entries@[i as int].key,
                    conn: Connection { closed, ..old(self).entries@[i as int].conn },
                },
            ),
    {
        let e = &mut self.entries[i];
        e.conn.set_closed(closed);
    }

    /// Garbage-collect: drop every record whose engine reported the
    /// terminal state and keep every other, in table order. Returns the
    /// dropped entries so the caller can emit their final statistics.
    ///
    /// Law: in any single collection pass, every closed record is removed
    /// and no open record is, whatever the iteration order.
    pub fn retain_open(&mut self) -> (removed: Vec<Entry>)
        requires
            old(self).wf(),
        ensures
            final(self).wf(),
            final(self).entries@ == open_entries(old(self).entries@),
            removed@ == closed_entries(old(self).entries@),
            forall|i: int|
                0 <= i < final(self).entries@.len()
                    ==> !(#[trigger] final(self).entries@[i]).conn.closed,
            forall|i: int|
                0 <= i < removed@.len() ==> (#[trigger] removed@[i]).conn.closed,
    {
        let mut kept: Vec<Entry> = Vec::new();
        let mut removed: Vec<Entry> = Vec::new();
        while self.entries.len() > 0
            invariant
                kept@ + open_entries(self.entries@) == open_entries(old(self).entries@),
                removed@ + closed_entries(self.entries@) == closed_entries(
                    old(self).entries@,
                ),
                forall|a: int, b: int|
                    0 <= a < b < kept@.len() ==> kept@[a].key@ != kept@[b].key@,
                forall|a: int, b: int|
                    #![trigger kept@[a], self.entries@[b]]
                    0 <= a < kept@.len() && 0 <= b < self.entries@.len() ==> kept@[a].key@
                        != self.entries@[b].key@,
                forall|a: int, b: int|
                    0 <= a < b < self.entries@.len() ==> self.entries@[a].key@
                        != self.entries@[b].key@,
                forall|a: int| 0 <= a < kept@.len() ==> (#[trigger] kept@[a]).conn.wf(),
                forall|a: int|
                    0 <= a < self.entries@.len() ==> (#[trigger] self.entries@[a]).conn.wf(),
                forall|a: int| 0 <= a < kept@.len() ==> !(#[trigger] kept@[a]).conn.closed,
                forall|a: int|
                    0 <= a < removed@.len() ==> (#[trigger] removed@[a]).conn.closed,
            decreases self.entries@.len(),
        {
            let ghost pre = self.entries@;
            let e = self.entries.remove(0);
            let ghost ge = e;
            proof {
                assert(self.entries@ =~= pre.skip(1));
                assert(open_entries(pre) == if !ge.conn.closed {
                    seq![ge] + open_entries(pre.skip(1))
                } else {
                    open_entries(pre.skip(1))
                });
                assert(closed_entries(pre) == if ge.conn.closed {
                    seq![ge] + closed_entries(pre.skip(1))
                } else {
                    closed_entries(pre.skip(1))
                });
            }
            if !e.conn.closed {
                kept.push(e);
                proof {
                    assert(kept@ + open_entries(self.entries@) =~= open_entries(
                        old(self).entries@,
                    ));
                }
            } else {
                removed.push(e);
                proof {
                    assert(removed@ + closed_entries(self.entries@) =~= closed_entries(
                        old(self).entries@,
                    ));
                }
            }
        }
        proof {
            assert(open_entries(self.entries@) =~= Seq::<Entry>::empty());
            assert(closed_entries(self.entries@) =~= Seq::<Entry>::empty());
            assert(kept@ + open_entries(self.entries@) =~= kept@);
            assert(removed@ + closed_entries(self.entries@) =~= removed@);
        }
        self.entries = kept;
        removed
    }
}

} // verus!
