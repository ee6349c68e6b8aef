//! The store context: an ordered key-value store scoped to one client
//! instance, holding the client state, one consensus state per trusted
//! height, per-height update metadata, and the host's current time and
//! height for the ongoing invocation.

use vstd::prelude::*;
use crate::height::Height;
use crate::client_state::{ClientState, ClientStateView};
use crate::consensus_state::{ConsensusState, ConsensusStateView};
use crate::error::ContractError;

verus! {

/// Mathematical model of [`Entry`].
pub ghost struct EntryView {
    pub height: Height,
    pub consensus_state: Option<ConsensusStateView>,
    pub meta: Option<(u64, u64)>,
}

/// Everything the store records under one height: the consensus state, if
/// still present, and the host time and host height recorded when the
/// height was installed.
#[derive(Clone, Debug)]
pub struct Entry {
    /// The trusted height this entry is keyed by.
    pub height: Height,
    /// The consensus state committed at this height, unless deleted.
    pub consensus_state: Option<ConsensusState>,
    /// Host timestamp and host revision height recorded at the update.
    pub meta: Option<(u64, u64)>,
}

impl View for Entry {
    type V = EntryView;

    open spec fn view(&self) -> EntryView {
        EntryView {
            height: self.height,
            consensus_state: match self.consensus_state {
                Some(ref cs) => Some(cs@),
                None => None,
            },
            meta: self.meta,
        }
    }
}

/// The first entry of `s` keyed by `h`, if any.
pub open spec fn seq_entry_at(s: Seq<EntryView>, h: Height) -> Option<EntryView>
    decreases s.len(),
{
    if s.len() == 0 {
        None
    } else if s[0].height == h {
        Some(s[0])
    } else {
        seq_entry_at(s.subrange(1, s.len() as int), h)
    }
}

/// The per-client store, together with the host clock and height for the
/// current invocation. Each client's store is independently keyed, so one
/// context never reads or writes another client's state.
pub struct Context {
    client_state: Option<ClientState>,
    entries: Vec<Entry>,
    host_timestamp: u64,
    host_height: Height,
}

impl Context {
    /// The entries of the store, as a sequence of models.
    pub closed spec fn entries_view(self) -> Seq<EntryView> {
        self.entries@.map_values(|e: Entry| e@)
    }

    /// Well-formedness: no two entries share a height.
    pub closed spec fn wf(self) -> bool {
        forall|i: int, j: int|
            0 <= i < self.entries_view().len() && 0 <= j < self.entries_view().len() && i != j
                ==> (#[trigger] self.entries_view()[i]).height != (
            #[trigger] self.entries_view()[j]).height
    }

    /// The stored client state, if any.
    pub closed spec fn client_state_view(self) -> Option<ClientStateView> {
        match self.client_state {
            Some(ref cs) => Some(cs@),
            None => None,
        }
    }

    /// The entry stored under height `h`, if any.
    pub closed spec fn entry_at(self, h: Height) -> Option<EntryView> {
        seq_entry_at(self.entries_view(), h)
    }

    /// The consensus state stored under height `h`, if any.
    pub closed spec fn consensus_at(self, h: Height) -> Option<ConsensusStateView> {
        match self.entry_at(h) {
            Some(e) => e.consensus_state,
            None => None,
        }
    }

    /// The update metadata recorded under height `h`, if any.
    pub closed spec fn meta_at(self, h: Height) -> Option<(u64, u64)> {
        match self.entry_at(h) {
            Some(e) => e.meta,
            None => None,
        }
    }

    /// The host timestamp bound to the current invocation.
    pub closed spec fn spec_host_timestamp(self) -> u64 {
        self.host_timestamp
    }

    /// The host height bound to the current invocation.
    pub closed spec fn spec_host_height(self) -> Height {
        self.host_height
    }

    /// A fresh, empty store bound to the host's current time and height.
    pub fn new(host_timestamp: u64, host_height: Height) -> (r: Context)
        ensures
            r.wf(),
            r.client_state_view() is None,
            r.entries_view() =~= Seq::<EntryView>::empty(),
            r.spec_host_timestamp() == host_timestamp,
            r.spec_host_height() == host_height,
    {
        Context { client_state: None, entries: Vec::new(), host_timestamp, host_height }
    }

    /// The host timestamp supplied with the current message, in nanoseconds.
    pub fn host_timestamp(&self) -> (r: u64)
        ensures
            r == self.spec_host_timestamp(),
    {
        self.host_timestamp
    }

    /// The host height supplied with the current message.
    pub fn host_height(&self) -> (r: Height)
        ensures
            r == self.spec_host_height(),
    {
        self.host_height
    }

    /// Reads the client state; fails when none is stored yet.
    pub fn client_state(&self) -> (r: Result<ClientState, ContractError>)
        ensures
            match r {
                Ok(cs) => self.client_state_view() == Some(cs@),
                Err(e) => self.client_state_view() is None && e == ContractError::MissingClientState,
            },
    {
        match &self.client_state {
            Some(cs) => Ok(cs.clone_value()),
            None => Err(ContractError::MissingClientState),
        }
    }

    /// Stores the client state under the client's singleton leaf key.
    pub fn store_client_state(&mut self, client_state: ClientState) -> (r: Result<
        (),
        ContractError,
    >)
        requires
            old(self).wf(),
        ensures
            r is Ok,
            final(self).wf(),
            final(self).client_state_view() == Some(client_state@),
            final(self).entries_view() == old(self).entries_view(),
            forall|h: Height| final(self).consensus_at(h) == old(self).consensus_at(h),
            forall|h: Height| final(self).meta_at(h) == old(self).meta_at(h),
            final(self).spec_host_timestamp() == old(self).spec_host_timestamp(),
            final(self).spec_host_height() == old(self).spec_host_height(),
    {
        self.client_state = Some(client_state);
        Ok(())
    }

    /// The index of the entry keyed by `h`, if one exists.
    fn find_entry(&self, h: Height) -> (r: Option<usize>)
        ensures
            match r {
                Some(i) => i < self.entries_view().len() && self.entries_view()[i as int].height
                    == h && self.entry_at(h) == Some(self.entries_view()[i as int]),
                None => self.entry_at(h) is None,
            },
    {
        let ghost s = self.entries_view();
        proof {
            assert(s.subrange(0, s.len() as int) =~= s);
        }
        let n = self.entries.len();
        let mut i: usize = 0;
        while i < n
            invariant
                n == s.len(),
                i <= n,
                s == self.entries_view(),
                seq_entry_at(s, h) == seq_entry_at(s.subrange(i as int, s.len() as int), h),
            decreases n - i,
        {
            let e = &self.entries[i];
            if e.height.revision_number == h.revision_number && e.height.revision_height
                == h.revision_height {
                proof {
                    assert(s.subrange(i as int, s.len() as int)[0] == s[i as int]);
                }
                return Some(i);
            }
            proof {
                assert(s.subrange(i as int, s.len() as int).subrange(
                    1,
                    s.subrange(i as int, s.len() as int).len() as int,
                ) =~= s.subrange(i + 1, s.len() as int));
            }
            i = i + 1;
        }
        proof {
            assert(s.subrange(n as int, s.len() as int) =~= Seq::<EntryView>::empty());
        }
        None
    }
}

/// Replacing the entry at index `j` by one keyed by the same height changes
/// the lookup result at that height alone.
proof fn lemma_entry_at_update(s: Seq<EntryView>, j: int, e: EntryView, h: Height)
    requires
        0 <= j < s.len(),
        s[j].height == e.height,
        forall|i: int, k: int|
            0 <= i < s.len() && 0 <= k < s.len() && i != k ==> (#[trigger] s[i]).height != (
            #[trigger] s[k]).height,
    ensures
        seq_entry_at(s.update(j, e), h) == if h == e.height {
            Some(e)
        } else {
            seq_entry_at(s, h)
        },
    decreases s.len(),
{
    let s2 = s.update(j, e);
    if s.len() == 0 {
    } else if j == 0 {
        if s[0].height == h {
            assert(s2[0] == e);
        } else {
            assert(s2.subrange(1, s2.len() as int) =~= s.subrange(1, s.len() as int));
        }
    } else {
        if s[0].height == h {
            assert(s2[0] == s[0]);
            if h == e.height {
                assert(s[0].height == s[j].height && 0 != j);
                assert(false);
            }
        } else {
            let st = s.subrange(1, s.len() as int);
            assert(s2.subrange(1, s2.len() as int) =~= st.update(j - 1, e));
            assert(forall|i: int, k: int|
                0 <= i < st.len() && 0 <= k < st.len() && i != k ==> (#[trigger] st[i]).height != (
                #[trigger] st[k]).height);
            lemma_entry_at_update(st, j - 1, e, h);
        }
    }
}

/// Appending an entry keyed by a fresh height changes the lookup result at
/// that height alone.
proof fn lemma_entry_at_push(s: Seq<EntryView>, e: EntryView, h: Height)
    requires
        seq_entry_at(s, e.height) is None,
    ensures
        seq_entry_at(s.push(e), h) == if h == e.height {
            Some(e)
        } else {
            seq_entry_at(s, h)
        },
    decreases s.len(),
{
    let s2 = s.push(e);
    if s.len() == 0 {
        assert(s2[0] == e);
        assert(s2.subrange(1, s2.len() as int) =~= Seq::<EntryView>::empty());
        if h != e.height {
            assert(seq_entry_at(s2.subrange(1, s2.len() as int), h) is None);
        }
    } else {
        assert(s2[0] == s[0]);
        if s[0].height == h {
            assert(h != e.height);
        } else {
            assert(s2.subrange(1, s2.len() as int) =~= s.subrange(1, s.len() as int).push(e));
            lemma_entry_at_push(s.subrange(1, s.len() as int), e, h);
        }
    }
}

impl Context {
    /// Writes `entry` under its height, replacing any entry already keyed
    /// by that height.
    fn put_entry(&mut self, entry: Entry)
        requires
            old(self).wf(),
        ensures
            final(self).wf(),
            forall|h: Height|
                final(self).entry_at(h) == if h == entry.height {
                    Some(entry@)
                } else {
                    old(self).entry_at(h)
                },
            final(self).client_state_view() == old(self).client_state_view(),
            final(self).spec_host_timestamp() == old(self).spec_host_timestamp(),
            final(self).spec_host_height() == old(self).spec_host_height(),
    {
        let ghost s = self.entries_view();
        match self.find_entry(entry.height) {
            Some(i) => {
                let ghost j = i as int;
                self.entries.set(i, entry);
                proof {
                    assert(self.entries_view() =~= s.update(j, entry@));
                    assert forall|h: Height| true implies self.entry_at(h) == if h == entry.height {
                        Some(entry@)
                    } else {
                        seq_entry_at(s, h)
                    } by {
                        lemma_entry_at_update(s, j, entry@, h);
                    }
                    assert forall|i2: int, k: int|
                        0 <= i2 < self.entries_view().len() && 0 <= k
                            < self.entries_view().len() && i2 != k implies (
                    #[trigger] self.entries_view()[i2]).height != (
                    #[trigger] self.entries_view()[k]).height by {
                        assert(self.entries_view()[i2].height == s[i2].height);
                        assert(self.entries_view()[k].height == s[k].height);
                    }
                }
            },
            None => {
                self.entries.push(entry);
                proof {
                    assert(self.entries_view() =~= s.push(entry@));
                    assert forall|h: Height| true implies self.entry_at(h) == if h == entry.height {
                        Some(entry@)
                    } else {
                        seq_entry_at(s, h)
                    } by {
                        lemma_entry_at_push(s, entry@, h);
                    }
                    assert forall|i2: int, k: int|
                        0 <= i2 < self.entries_view().len() && 0 <= k
                            < self.entries_view().len() && i2 != k implies (
                    #[trigger] self.entries_view()[i2]).height != (
                    #[trigger] self.entries_view()[k]).height by {
                        let s2 = self.entries_view();
                        if i2 < s.len() && k < s.len() {
                            assert(s2[i2].height == s[i2].height);
                            assert(s2[k].height == s[k].height);
                        } else if i2 == s.len() {
                            assert(s2[k].height == s[k].height);
                            if s2[k].height == entry.height {
                                lemma_entry_at_some(s, k);
                            }
                        } else {
                            assert(s2[i2].height == s[i2].height);
                            if s2[i2].height == entry.height {
                                lemma_entry_at_some(s, i2);
                            }
                        }
                    }
                }
            },
        }
    }

    /// Stores `consensus_state` under `height`, keeping any update metadata
    /// already recorded there.
    pub fn store_consensus_state(&mut self, height: Height, consensus_state: ConsensusState) -> (r:
        Result<(), ContractError>)
        requires
            old(self).wf(),
        ensures
            r is Ok,
            final(self).wf(),
            forall|h: Height|
                final(self).consensus_at(h) == if h == height {
                    Some(consensus_state@)
                } else {
                    old(self).consensus_at(h)
                },
            forall|h: Height| final(self).meta_at(h) == old(self).meta_at(h),
            final(self).client_state_view() == old(self).client_state_view(),
            final(self).spec_host_timestamp() == old(self).spec_host_timestamp(),
            final(self).spec_host_height() == old(self).spec_host_height(),
    {
        let meta = match self.find_entry(height) {
            Some(i) => self.entries[i].meta,
            None => None,
        };
        let entry = Entry { height, consensus_state: Some(consensus_state), meta };
        self.put_entry(entry);
        Ok(())
    }

    /// Deletes the consensus state under `height`; the update metadata, if
    /// present, stays.
    pub fn delete_consensus_state(&mut self, height: Height) -> (r: Result<(), ContractError>)
        requires
            old(self).wf(),
        ensures
            r is Ok,
            final(self).wf(),
            forall|h: Height|
                final(self).consensus_at(h) == if h == height {
                    None::<ConsensusStateView>
                } else {
                    old(self).consensus_at(h)
                },
            forall|h: Height| final(self).meta_at(h) == old(self).meta_at(h),
            final(self).client_state_view() == old(self).client_state_view(),
            final(self).spec_host_timestamp() == old(self).spec_host_timestamp(),
            final(self).spec_host_height() == old(self).spec_host_height(),
    {
        let meta = match self.find_entry(height) {
            Some(i) => self.entries[i].meta,
            None => None,
        };
        let entry = Entry { height, consensus_state: None, meta };
        self.put_entry(entry);
        Ok(())
    }

    /// Records the host timestamp and host height under `height`, keeping
    /// any consensus state already stored there.
    pub fn store_update_meta(
        &mut self,
        height: Height,
        host_timestamp: u64,
        host_height: Height,
    ) -> (r: Result<(), ContractError>)
        requires
            old(self).wf(),
        ensures
            r is Ok,
            final(self).wf(),
            forall|h: Height|
                final(self).meta_at(h) == if h == height {
                    Some((host_timestamp, host_height.revision_height))
                } else {
                    old(self).meta_at(h)
                },
            forall|h: Height| final(self).consensus_at(h) == old(self).consensus_at(h),
            final(self).client_state_view() == old(self).client_state_view(),
            final(self).spec_host_timestamp() == old(self).spec_host_timestamp(),
            final(self).spec_host_height() == old(self).spec_host_height(),
    {
        let consensus_state = match self.find_entry(height) {
            Some(i) => match &self.entries[i].consensus_state {
                Some(cs) => Some(cs.clone_value()),
                None => None,
            },
            None => None,
        };
        let entry = Entry {
            height,
            consensus_state,
            meta: Some((host_timestamp, host_height.revision_height)),
        };
        self.put_entry(entry);
        Ok(())
    }

    /// Deletes the update metadata under `height`; the consensus state, if
    /// present, stays.
    pub fn delete_update_meta(&mut self, height: Height) -> (r: Result<(), ContractError>)
        requires
            old(self).wf(),
        ensures
            r is Ok,
            final(self).wf(),
            forall|h: Height|
                final(self).meta_at(h) == if h == height {
                    None::<(u64, u64)>
                } else {
                    old(self).meta_at(h)
                },
            forall|h: Height| final(self).consensus_at(h) == old(self).consensus_at(h),
            final(self).client_state_view() == old(self).client_state_view(),
            final(self).spec_host_timestamp() == old(self).spec_host_timestamp(),
            final(self).spec_host_height() == old(self).spec_host_height(),
    {
        let consensus_state = match self.find_entry(height) {
            Some(i) => match &self.entries[i].consensus_state {
                Some(cs) => Some(cs.clone_value()),
                None => None,
            },
            None => None,
        };
        let entry = Entry { height, consensus_state, meta: None };
        self.put_entry(entry);
        Ok(())
    }

    /// Reads the consensus state stored under `height`.
    pub fn consensus_state(&self, height: Height) -> (r: Result<ConsensusState, ContractError>)
        ensures
            match r {
                Ok(cs) => self.consensus_at(height) == Some(cs@),
                Err(e) => self.consensus_at(height) is None && e
                    == ContractError::MissingConsensusState,
            },
    {
        match self.find_entry(height) {
            Some(i) => match &self.entries[i].consensus_state {
                Some(cs) => Ok(cs.clone_value()),
                None => Err(ContractError::MissingConsensusState),
            },
            None => Err(ContractError::MissingConsensusState),
        }
    }

    /// Reads the update metadata recorded under `height`: the host
    /// timestamp and the host height at the time of the update.
    pub fn client_update_meta(&self, height: Height) -> (r: Result<(u64, Height), ContractError>)
        ensures
            match r {
                Ok(m) => self.meta_at(height) == Some((m.0, m.1.revision_height)) && m.1
                    == (Height { revision_number: 0, revision_height: m.1.revision_height }),
                Err(e) => self.meta_at(height) is None && e == ContractError::MissingUpdateMeta,
            },
    {
        match self.find_entry(height) {
            Some(i) => match self.entries[i].meta {
                Some((t, hh)) => Ok((t, Height { revision_number: 0, revision_height: hh })),
                None => Err(ContractError::MissingUpdateMeta),
            },
            None => Err(ContractError::MissingUpdateMeta),
        }
    }
}

impl Context {
    /// The heights at which a consensus state is stored: sound and
    /// complete for the store's contents.
    pub fn consensus_state_heights(&self) -> (r: Vec<Height>)
        requires
            self.wf(),
        ensures
            forall|i: int| 0 <= i < r@.len() ==> self.consensus_at(#[trigger] r@[i]) is Some,
            forall|h: Height| #[trigger] self.consensus_at(h) is Some ==> r@.contains(h),
    {
        let ghost s = self.entries_view();
        let n = self.entries.len();
        let mut r: Vec<Height> = Vec::new();
        let mut i: usize = 0;
        while i < n
            invariant
                self.wf(),
                n == s.len(),
                i <= n,
                s == self.entries_view(),
                forall|k: int| 0 <= k < r@.len() ==> self.consensus_at(#[trigger] r@[k]) is Some,
                forall|k: int|
                    0 <= k < i && (#[trigger] s[k]).consensus_state is Some ==> r@.contains(
                        s[k].height,
                    ),
            decreases n - i,
        {
            if self.entries[i].consensus_state.is_some() {
                let ghost prev = r@;
                r.push(self.entries[i].height);
                proof {
                    lemma_entry_at_index(s, i as int);
                    assert(r@[r@.len() - 1] == s[i as int].height);
                    assert forall|k: int|
                        0 <= k <= i && (#[trigger] s[k]).consensus_state is Some implies
                        r@.contains(s[k].height) by {
                        if k < i {
                            let idx = choose|idx: int|
                                0 <= idx < prev.len() && prev[idx] == s[k].height;
                            assert(r@[idx] == s[k].height);
                        } else {
                            assert(r@[r@.len() - 1] == s[k].height);
                        }
                    }
                }
            }
            i = i + 1;
        }
        proof {
            assert forall|h: Height| #[trigger]
                self.consensus_at(h) is Some implies r@.contains(h) by {
                let j = lemma_entry_at_witness(s, h);
                assert(s[j].consensus_state is Some);
            }
        }
        r
    }

    /// The update metadata recorded in the store, in ascending height
    /// order: for each height holding metadata, the host timestamp and
    /// host height recorded there. Sound, complete and strictly ordered,
    /// so the store's contents fully determine the output.
    #[verifier::rlimit(100)]
    pub fn export_metadata(&self) -> (r: Vec<(Height, u64, u64)>)
        requires
            self.wf(),
        ensures
            forall|a: int, b: int|
                0 <= a < b < r@.len() ==> (#[trigger] r@[a]).0.spec_lt((#[trigger] r@[b]).0),
            forall|i: int|
                0 <= i < r@.len() ==> self.meta_at(#[trigger] r@[i].0) == Some(
                    (r@[i].1, r@[i].2),
                ),
            forall|h: Height| #[trigger] self.meta_at(h) is Some ==> (exists|i: int|
                0 <= i < r@.len() && (#[trigger] r@[i]).0 == h),
    {
        let ghost s = self.entries_view();
        let n = self.entries.len();
        let mut r: Vec<(Height, u64, u64)> = Vec::new();
        let mut i: usize = 0;
        while i < n
            invariant
                self.wf(),
                n == s.len(),
                i <= n,
                s == self.entries_view(),
                forall|a: int, b: int|
                    0 <= a < b < r@.len() ==> (#[trigger] r@[a]).0.spec_lt((#[trigger] r@[b]).0),
                forall|k: int|
                    0 <= k < r@.len() ==> self.meta_at(#[trigger] r@[k].0) == Some(
                        (r@[k].1, r@[k].2),
                    ),
                forall|m: int|
                    0 <= m < r@.len() ==> (exists|j: int|
                        0 <= j < i && (#[trigger] s[j]).height == (#[trigger] r@[m]).0),
                forall|k: int|
                    0 <= k < i && (#[trigger] s[k]).meta is Some ==> (exists|m: int|
                        0 <= m < r@.len() && (#[trigger] r@[m]).0 == s[k].height),
            decreases n - i,
        {
            match self.entries[i].meta {
                Some((t, hh)) => {
                    let height = self.entries[i].height;
                    proof {
                        lemma_entry_at_index(s, i as int);
                        assert forall|m: int| 0 <= m < r@.len() implies (#[trigger] r@[m]).0
                            != height by {
                            let j = choose|j: int|
                                0 <= j < i && (#[trigger] s[j]).height == r@[m].0;
                            assert(s[j].height != s[i as int].height);
                        }
                    }
                    // Scan for the insertion position keeping ascending order.
                    let mut idx: usize = 0;
                    #[verifier::loop_isolation(false)]
                    while idx < r.len() && r[idx].0.lt(&height)
                        invariant
                            idx <= r@.len(),
                            forall|a: int| 0 <= a < idx ==> (#[trigger] r@[a]).0.spec_lt(height),
                        decreases r@.len() - idx,
                    {
                        idx = idx + 1;
                    }
                    proof {
                        assert forall|m: int| idx <= m < r@.len() implies height.spec_lt(
                            (#[trigger] r@[m]).0,
                        ) by {
                            assert(!r@[idx as int].0.spec_lt(height));
                            assert(r@[idx as int].0 != height);
                            if m > idx {
                                assert(r@[idx as int].0.spec_lt(r@[m].0));
                            }
                        }
                    }
                    let ghost prev = r@;
                    r.insert(idx, (height, t, hh));
                    proof {
                        let e = (height, t, hh);
                        let j = idx as int;
                        assert(r@ == prev.insert(j, e));
                        assert forall|a: int, b: int|
                            0 <= a < b < r@.len() implies (#[trigger] r@[a]).0.spec_lt(
                            (#[trigger] r@[b]).0,
                        ) by {
                            if b < j {
                                assert(r@[a] == prev[a] && r@[b] == prev[b]);
                            } else if a < j && b == j {
                                assert(r@[a] == prev[a]);
                            } else if a < j && b > j {
                                assert(r@[a] == prev[a] && r@[b] == prev[b - 1]);
                            } else if a == j {
                                assert(r@[b] == prev[b - 1]);
                            } else {
                                assert(r@[a] == prev[a - 1] && r@[b] == prev[b - 1]);
                            }
                        }
                        assert forall|m: int| 0 <= m < r@.len() implies (exists|k: int|
                            0 <= k <= i && (#[trigger] s[k]).height == (#[trigger] r@[m]).0) by {
                            if m == j {
                                assert(s[i as int].height == r@[m].0);
                            } else {
                                let mo = if m < j { m } else { m - 1 };
                                assert(r@[m] == prev[mo]);
                                let k = choose|k: int|
                                    0 <= k < i && (#[trigger] s[k]).height == prev[mo].0;
                                assert(s[k].height == r@[m].0);
                            }
                        }
                        assert forall|k: int|
                            0 <= k <= i && (#[trigger] s[k]).meta is Some implies (exists|m: int|
                            0 <= m < r@.len() && (#[trigger] r@[m]).0 == s[k].height) by {
                            if k == i {
                                assert(r@[j].0 == s[k].height);
                            } else {
                                let mo = choose|mo: int|
                                    0 <= mo < prev.len() && (#[trigger] prev[mo]).0
                                        == s[k].height;
                                let m = if mo < j { mo } else { mo + 1 };
                                assert(r@[m] == prev[mo]);
                                assert(r@[m].0 == s[k].height);
                            }
                        }
                    }
                },
                None => {},
            }
            i = i + 1;
        }
        proof {
            assert forall|h: Height| #[trigger] self.meta_at(h) is Some implies (exists|m: int|
                0 <= m < r@.len() && (#[trigger] r@[m]).0 == h) by {
                let j = lemma_entry_at_witness(s, h);
                assert(s[j].meta is Some);
            }
        }
        r
    }
}

/// A height found at an index is found by the lookup.
proof fn lemma_entry_at_some(s: Seq<EntryView>, i: int)
    requires
        0 <= i < s.len(),
    ensures
        seq_entry_at(s, s[i].height) is Some,
    decreases s.len(),
{
    if s[0].height == s[i].height {
    } else {
        assert(i != 0);
        assert(s.subrange(1, s.len() as int)[i - 1] == s[i]);
        lemma_entry_at_some(s.subrange(1, s.len() as int), i - 1);
    }
}

/// Under unique heights, the lookup at an indexed height returns exactly
/// that index's entry.
proof fn lemma_entry_at_index(s: Seq<EntryView>, i: int)
    requires
        0 <= i < s.len(),
        forall|a: int, b: int|
            0 <= a < s.len() && 0 <= b < s.len() && a != b ==> (#[trigger] s[a]).height != (
            #[trigger] s[b]).height,
    ensures
        seq_entry_at(s, s[i].height) == Some(s[i]),
    decreases s.len(),
{
    if s[0].height == s[i].height {
        assert(i == 0);
    } else {
        assert(i != 0);
        let st = s.subrange(1, s.len() as int);
        assert(st[i - 1] == s[i]);
        assert(forall|a: int, b: int|
            0 <= a < st.len() && 0 <= b < st.len() && a != b ==> (#[trigger] st[a]).height != (
            #[trigger] st[b]).height);
        lemma_entry_at_index(st, i - 1);
    }
}

/// A successful lookup names an index holding the found entry.
proof fn lemma_entry_at_witness(s: Seq<EntryView>, h: Height) -> (i: int)
    requires
        seq_entry_at(s, h) is Some,
    ensures
        0 <= i < s.len(),
        s[i].height == h,
        seq_entry_at(s, h) == Some(s[i]),
    decreases s.len(),
{
    if s[0].height == h {
        0
    } else {
        let st = s.subrange(1, s.len() as int);
        let j = lemma_entry_at_witness(st, h);
        assert(st[j] == s[j + 1]);
        j + 1
    }
}

impl Context {
    /// The stored consensus state at the smallest trusted height strictly
    /// above `height`, if one exists.
    pub fn next_consensus_state(&self, height: Height) -> (r: Option<ConsensusState>)
        requires
            self.wf(),
        ensures
            match r {
                Some(cs) => exists|hh: Height|
                    {
                        &&& #[trigger] self.consensus_at(hh) == Some(cs@)
                        &&& height.spec_lt(hh)
                        &&& forall|h2: Height|
                            #[trigger] self.consensus_at(h2) is Some && height.spec_lt(h2)
                                ==> hh.spec_le(h2)
                    },
                None => forall|h2: Height|
                    #[trigger] self.consensus_at(h2) is Some ==> !height.spec_lt(h2),
            },
    {
        let ghost s = self.entries_view();
        let n = self.entries.len();
        let mut best: Option<usize> = None;
        let mut i: usize = 0;
        while i < n
            invariant
                self.wf(),
                n == s.len(),
                i <= n,
                s == self.entries_view(),
                match best {
                    Some(b) => {
                        &&& b < i
                        &&& s[b as int].consensus_state is Some
                        &&& height.spec_lt(s[b as int].height)
                        &&& forall|k: int|
                            0 <= k < i && (#[trigger] s[k]).consensus_state is Some
                                && height.spec_lt(s[k].height) ==> s[b as int].height.spec_le(
                                s[k].height,
                            )
                    },
                    None => forall|k: int|
                        0 <= k < i ==> !((#[trigger] s[k]).consensus_state is Some
                            && height.spec_lt(s[k].height)),
                },
            decreases n - i,
        {
            let e = &self.entries[i];
            if e.consensus_state.is_some() && height.lt(&e.height) {
                match best {
                    Some(b) => {
                        if e.height.lt(&self.entries[b].height) {
                            best = Some(i);
                        }
                    },
                    None => {
                        best = Some(i);
                    },
                }
            }
            i = i + 1;
        }
        match best {
            Some(b) => {
                let e = &self.entries[b];
                let cs = match &e.consensus_state {
                    Some(cs) => cs.clone_value(),
                    None => {
                        proof {
                            assert(false);
                        }
                        ConsensusState { timestamp: 0, root: Vec::new(), next_validators_hash: Vec::new() }
                    },
                };
                proof {
                    let hh = s[b as int].height;
                    lemma_entry_at_index(s, b as int);
                    assert(self.consensus_at(hh) == Some(cs@));
                    assert forall|h2: Height|
                        #[trigger] self.consensus_at(h2) is Some && height.spec_lt(h2) implies
                        hh.spec_le(h2) by {
                        let j = lemma_entry_at_witness(s, h2);
                        assert(s[j].consensus_state is Some);
                    }
                }
                Some(cs)
            },
            None => {
                proof {
                    assert forall|h2: Height| #[trigger]
                        self.consensus_at(h2) is Some implies !height.spec_lt(h2) by {
                        let j = lemma_entry_at_witness(s, h2);
                        assert(s[j].consensus_state is Some);
                    }
                }
                None
            },
        }
    }

    /// The stored consensus state at the greatest trusted height strictly
    /// below `height`, if one exists.
    pub fn prev_consensus_state(&self, height: Height) -> (r: Option<ConsensusState>)
        requires
            self.wf(),
        ensures
            match r {
                Some(cs) => exists|hh: Height|
                    {
                        &&& #[trigger] self.consensus_at(hh) == Some(cs@)
                        &&& hh.spec_lt(height)
                        &&& forall|h2: Height|
                            #[trigger] self.consensus_at(h2) is Some && h2.spec_lt(height)
                                ==> h2.spec_le(hh)
                    },
                None => forall|h2: Height|
                    #[trigger] self.consensus_at(h2) is Some ==> !h2.spec_lt(height),
            },
    {
        let ghost s = self.entries_view();
        let n = self.entries.len();
        let mut best: Option<usize> = None;
        let mut i: usize = 0;
        while i < n
            invariant
                self.wf(),
                n == s.len(),
                i <= n,
                s == self.entries_view(),
                match best {
                    Some(b) => {
                        &&& b < i
                        &&& s[b as int].consensus_state is Some
                        &&& s[b as int].height.spec_lt(height)
                        &&& forall|k: int|
                            0 <= k < i && (#[trigger] s[k]).consensus_state is Some
                                && s[k].height.spec_lt(height) ==> s[k].height.spec_le(
                                s[b as int].height,
                            )
                    },
                    None => forall|k: int|
                        0 <= k < i ==> !((#[trigger] s[k]).consensus_state is Some
                            && s[k].height.spec_lt(height)),
                },
            decreases n - i,
        {
            let e = &self.entries[i];
            if e.consensus_state.is_some() && e.height.lt(&height) {
                match best {
                    Some(b) => {
                        if self.entries[b].height.lt(&e.height) {
                            best = Some(i);
                        }
                    },
                    None => {
                        best = Some(i);
                    },
                }
            }
            i = i + 1;
        }
        match best {
            Some(b) => {
                let e = &self.entries[b];
                let cs = match &e.consensus_state {
                    Some(cs) => cs.clone_value(),
                    None => {
                        proof {
                            assert(false);
                        }
                        ConsensusState { timestamp: 0, root: Vec::new(), next_validators_hash: Vec::new() }
                    },
                };
                proof {
                    let hh = s[b as int].height;
                    lemma_entry_at_index(s, b as int);
                    assert(self.consensus_at(hh) == Some(cs@));
                    assert forall|h2: Height|
                        #[trigger] self.consensus_at(h2) is Some && h2.spec_lt(height) implies
                        h2.spec_le(hh) by {
                        let j = lemma_entry_at_witness(s, h2);
                        assert(s[j].consensus_state is Some);
                    }
                }
                Some(cs)
            },
            None => {
                proof {
                    assert forall|h2: Height| #[trigger]
                        self.consensus_at(h2) is Some implies !h2.spec_lt(height) by {
                        let j = lemma_entry_at_witness(s, h2);
                        assert(s[j].consensus_state is Some);
                    }
                }
                None
            },
        }
    }
}

} // verus!
