//! A bounded, order-preserving history of accepted buffers.
//!
//! Entries are immutable snapshots of the token buffer at the moment of
//! acceptance.  The index points either at an entry (browsing) or at
//! `entries.len()` (the live, uncommitted buffer).  Pushing past the
//! configured maximum evicts the oldest entry first.

use vstd::prelude::*;
use crate::buffer::clone_tokens;
use crate::buffer::tokens_eq;

verus! {

/// The default bound on how many entries a history keeps.
pub const HISTORY_MAX: usize = 50;

/// Which way a history navigation moves.
#[derive(Clone, Copy, Debug, PartialEq, Eq, Structural)]
pub enum Direction {
    Previous,
    Next,
}

/// A bounded stack of past buffers plus the current browsing position.
pub struct History {
    pub entries: Vec<Vec<String>>,
    pub index: usize,
    pub max: usize,
}

impl History {
    /// The history never outgrows its bound and the index never points
    /// past the live position.
    pub open spec fn wf(&self) -> bool {
        &&& self.index <= self.entries.len()
        &&& self.entries.len() <= self.max
        &&& self.max >= 1
    }

    /// The stored snapshots, as sequences of token character sequences.
    pub open spec fn snapshots(&self) -> Seq<Seq<Seq<char>>> {
        self.entries.deep_view()
    }

    /// An empty history with the default bound.
    pub fn new() -> (r: History)
        ensures
            r.wf(),
            r.entries.len() == 0,
            r.index == 0,
            r.max == HISTORY_MAX,
    {
        History { entries: Vec::new(), index: 0, max: HISTORY_MAX }
    }

    /// An empty history with the given bound.
    pub fn with_max(max: usize) -> (r: History)
        requires
            max >= 1,
        ensures
            r.wf(),
            r.entries.len() == 0,
            r.index == 0,
            r.max == max,
    {
        History { entries: Vec::new(), index: 0, max }
    }

    /// Empty the entries and reset the index to the live position.
    pub fn clear(&mut self)
        requires
            old(self).wf(),
        ensures
            final(self).wf(),
            final(self).entries.len() == 0,
            final(self).index == 0,
            final(self).max == old(self).max,
    {
        self.entries.clear();
        self.index = 0;
    }

    /// Record an accepted buffer.  An empty buffer, or one identical to
    /// the most recently pushed entry, is not recorded and leaves the
    /// history untouched.  Otherwise the snapshot is appended, evicting
    /// the oldest entry first when the history is full, and the index is
    /// reset to the live position.  The bound is never exceeded.
    pub fn push(&mut self, buffer: &Vec<String>)
        requires
            old(self).wf(),
        ensures
            final(self).wf(),
            final(self).max == old(self).max,
            ({
                let dv = buffer.deep_view();
                let before = old(self).snapshots();
                if dv.len() == 0 || (before.len() > 0 && before.last() == dv) {
                    final(self).snapshots() == before && final(self).index == old(self).index
                } else {
                    &&& final(self).index == final(self).entries.len()
                    &&& final(self).snapshots() == (if before.len() == old(self).max {
                        before.drop_first().push(dv)
                    } else {
                        before.push(dv)
                    })
                }
            }),
    {
        if buffer.len() == 0 {
            proof {
                assert(buffer.deep_view().len() == 0);
            }
            return;
        }
        proof {
            assert(buffer.deep_view().len() != 0);
        }
        if self.entries.len() > 0 {
            if tokens_eq(&self.entries[self.entries.len() - 1], buffer) {
                proof {
                    assert(old(self).snapshots().last() == buffer.deep_view());
                }
                return;
            }
            proof {
                assert(old(self).snapshots().last() != buffer.deep_view());
            }
        }
        let ghost before = self.snapshots();
        if self.entries.len() == self.max {
            self.entries.remove(0);
            proof {
                assert(self.entries.deep_view() =~= before.drop_first());
            }
        }
        let snap = clone_tokens(buffer);
        proof {
            assert(snap.deep_view() =~= buffer.deep_view());
        }
        self.entries.push(snap);
        self.index = self.entries.len();
        proof {
            if before.len() == old(self).max {
                assert(self.snapshots() =~= before.drop_first().push(buffer.deep_view()));
            } else {
                assert(self.snapshots() =~= before.push(buffer.deep_view()));
            }
        }
    }

    /// Move the browsing position one step and hand back the buffer to
    /// load, or `None` when there is no movement to make.  `Previous` at
    /// the oldest entry and `Next` at the live position do not move.
    /// Moving past the newest entry lands on the live position and loads
    /// an empty buffer.  The stored entries are never modified.
    pub fn navigate(&mut self, dir: Direction) -> (r: Option<Vec<String>>)
        requires
            old(self).wf(),
        ensures
            final(self).wf(),
            final(self).entries == old(self).entries,
            final(self).max == old(self).max,
            match dir {
                Direction::Previous => {
                    if old(self).index == 0 {
                        r is None && final(self).index == 0
                    } else {
                        &&& final(self).index == old(self).index - 1
                        &&& r matches Some(b) && b.deep_view() == old(self).snapshots()[
                            old(self).index - 1
                        ]
                    }
                },
                Direction::Next => {
                    if old(self).index >= old(self).entries.len() {
                        r is None && final(self).index == old(self).index
                    } else {
                        &&& final(self).index == old(self).index + 1
                        &&& r matches Some(b) && b.deep_view() == (
                            if old(self).index + 1 == old(self).entries.len() {
                                Seq::<Seq<char>>::empty()
                            } else {
                                old(self).snapshots()[old(self).index + 1]
                            })
                    }
                },
            },
    {
        match dir {
            Direction::Previous => {
                if self.index == 0 {
                    return None;
                }
                self.index = self.index - 1;
                let loaded = clone_tokens(&self.entries[self.index]);
                proof {
                    assert(loaded.deep_view() =~= self.entries[self.index as int].deep_view());
                }
                Some(loaded)
            },
            Direction::Next => {
                if self.index >= self.entries.len() {
                    return None;
                }
                self.index = self.index + 1;
                if self.index == self.entries.len() {
                    let empty: Vec<String> = Vec::new();
                    proof {
                        assert(empty.deep_view() =~= Seq::<Seq<char>>::empty());
                    }
                    Some(empty)
                } else {
                    let loaded = clone_tokens(&self.entries[self.index]);
                    proof {
                        assert(loaded.deep_view() =~= self.entries[
                            self.index as int
                        ].deep_view());
                    }
                    Some(loaded)
                }
            },
        }
    }
}

} // verus!
