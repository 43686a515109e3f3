//! The peers that an engine knows, each with its session.
use vstd::prelude::*;

verus! {

/// What an engine keeps about one peer.
pub struct PeerSession {
    pub pending_kem_sk: Option<Vec<u8>>,
    pub session_key: Option<[u8; 32]>,
    pub is_authenticated: bool,
}

/// The contents of a `PeerSession`.
#[verifier::ext_equal]
pub struct PeerView {
    pub pending_kem_sk: Option<Seq<u8>>,
    pub session_key: Option<Seq<u8>>,
    pub is_authenticated: bool,
}

impl View for PeerSession {
    type V = PeerView;

    open spec fn view(&self) -> PeerView {
        PeerView {
            pending_kem_sk: bytes_view(self.pending_kem_sk),
            session_key: key_view(self.session_key),
            is_authenticated: self.is_authenticated,
        }
    }
}

/// The contents of an optional byte vector.
pub open spec fn bytes_view(bytes: Option<Vec<u8>>) -> Option<Seq<u8>> {
    match bytes {
        Some(bytes) => Some(bytes@),
        None => None,
    }
}

/// The contents of an optional key.
pub open spec fn key_view(key: Option<[u8; 32]>) -> Option<Seq<u8>> {
    match key {
        Some(key) => Some(key@),
        None => None,
    }
}

impl PeerView {
    /// A peer with whom nothing was exchanged yet.
    pub open spec fn fresh() -> PeerView {
        PeerView { pending_kem_sk: None, session_key: None, is_authenticated: false }
    }
}

impl PeerSession {
    /// A peer with whom nothing was exchanged yet.
    pub fn new() -> (res: Self)
        ensures
            res@ == PeerView::fresh(),
    {
        Self { pending_kem_sk: None, session_key: None, is_authenticated: false }
    }
}

impl Default for PeerSession {
    fn default() -> (res: Self)
        ensures
            res@ == PeerView::fresh(),
    {
        Self::new()
    }
}

/// Sessions by the id of the peer. No id occurs twice.
pub struct PeerTable {
    entries: Vec<(String, PeerSession)>,
}

/// Whether no two of these entries have the same id.
spec fn ids_are_distinct(entries: Seq<(String, PeerSession)>) -> bool {
    forall|i: int, j: int|
        #![trigger entries[i], entries[j]]
        0 <= i < j < entries.len() ==> entries[i].0@ != entries[j].0@
}

/// Whether the entry at `i` is the one of `id`.
spec fn is_entry_of(entries: Seq<(String, PeerSession)>, id: Seq<char>, i: int) -> bool {
    0 <= i < entries.len() && entries[i].0@ == id
}

spec fn table_of(entries: Seq<(String, PeerSession)>) -> Map<Seq<char>, PeerView> {
    Map::new(
        |id: Seq<char>| exists|i: int| is_entry_of(entries, id, i),
        |id: Seq<char>| entries[choose|i: int| is_entry_of(entries, id, i)].1@,
    )
}

proof fn entry_is_in_table(entries: Seq<(String, PeerSession)>, i: int)
    requires
        ids_are_distinct(entries),
        0 <= i < entries.len(),
    ensures
        table_of(entries).contains_pair(entries[i].0@, entries[i].1@),
{
    let id = entries[i].0@;
    assert(is_entry_of(entries, id, i));
    let j = choose|j: int| is_entry_of(entries, id, j);
    assert(is_entry_of(entries, id, j));
    assert(i == j);
}

/// Entries that hold exactly what `table` maps have it as their table.
proof fn table_is_determined(
    entries: Seq<(String, PeerSession)>,
    table: Map<Seq<char>, PeerView>,
)
    requires
        ids_are_distinct(entries),
        forall|i: int|
            0 <= i < entries.len() ==> table.contains_pair(
                (#[trigger] entries[i]).0@,
                entries[i].1@,
            ),
        forall|id: Seq<char>| #[trigger]
            table.contains_key(id) ==> exists|i: int| is_entry_of(entries, id, i),
    ensures
        table_of(entries) == table,
{
    assert forall|id: Seq<char>| #[trigger] table_of(entries).contains_key(id) implies {
        &&& table.contains_key(id)
        &&& table_of(entries)[id] == table[id]
    } by {
        let i = choose|i: int| is_entry_of(entries, id, i);
        assert(is_entry_of(entries, id, i));
        entry_is_in_table(entries, i);
        assert(table.contains_pair(entries[i].0@, entries[i].1@));
    }
    assert(table_of(entries) =~= table);
}

impl View for PeerTable {
    type V = Map<Seq<char>, PeerView>;

    closed spec fn view(&self) -> Map<Seq<char>, PeerView> {
        table_of(self.entries@)
    }
}

impl PeerTable {
    #[verifier::type_invariant]
    spec fn wf(self) -> bool {
        ids_are_distinct(self.entries@)
    }

    /// A table without peers.
    pub fn new() -> (res: Self)
        ensures
            res@ == Map::<Seq<char>, PeerView>::empty(),
    {
        let res = PeerTable { entries: Vec::new() };
        assert(res@ =~= Map::<Seq<char>, PeerView>::empty());
        res
    }

    fn position(&self, id: &str) -> (res: Option<usize>)
        ensures
            match res {
                Some(i) => is_entry_of(self.entries@, id@, i as int),
                None => forall|i: int| !is_entry_of(self.entries@, id@, i),
            },
    {
        let wanted: String = id.to_owned();
        let mut i: usize = 0;
        while i < self.entries.len()
            invariant
                i <= self.entries@.len(),
                wanted@ == id@,
                forall|j: int| 0 <= j < i ==> !is_entry_of(self.entries@, id@, j),
            decreases self.entries@.len() - i,
        {
            if self.entries[i].0 == wanted {
                return Some(i);
            }
            i = i + 1;
        }
        None
    }

    /// The session of the peer with this id.
    pub fn get(&self, id: &str) -> (res: Option<&PeerSession>)
        ensures
            match res {
                Some(session) => self@.contains_pair(id@, session@),
                None => !self@.contains_key(id@),
            },
    {
        match self.position(id) {
            Some(i) => {
                proof {
                    use_type_invariant(self);
                    entry_is_in_table(self.entries@, i as int);
                }
                Some(&self.entries[i].1)
            },
            None => None,
        }
    }

    /// Takes the session of the peer with this id out of the table.
    pub fn remove(&mut self, id: &str) -> (res: Option<PeerSession>)
        ensures
            final(self)@ == old(self)@.remove(id@),
            match res {
                Some(session) => old(self)@.contains_pair(id@, session@),
                None => !old(self)@.contains_key(id@),
            },
    {
        match self.position(id) {
            Some(i) => {
                proof {
                    use_type_invariant(&*self);
                }
                let mut table = PeerTable::new();
                core::mem::swap(self, &mut table);
                let PeerTable { mut entries } = table;
                let ghost before: Seq<(String, PeerSession)> = entries@;
                let (_, session) = entries.remove(i);
                proof {
                    entry_is_in_table(before, i as int);
                    assert forall|j: int| 0 <= j < entries@.len() implies table_of(before).remove(
                        id@,
                    ).contains_pair((#[trigger] entries@[j]).0@, entries@[j].1@) by {
                        let k = if j < i { j } else { j + 1 };
                        assert(entries@[j] == before[k]);
                        entry_is_in_table(before, k);
                    }
                    assert forall|other: Seq<char>| #[trigger]
                        table_of(before).remove(id@).contains_key(other) implies exists|j: int|
                        is_entry_of(entries@, other, j) by {
                        let k = choose|k: int| is_entry_of(before, other, k);
                        assert(is_entry_of(before, other, k));
                        let j = if k < i { k } else { k - 1 };
                        assert(is_entry_of(entries@, other, j));
                    }
                    table_is_determined(entries@, table_of(before).remove(id@));
                }
                *self = PeerTable { entries };
                Some(session)
            },
            None => {
                assert(self@.remove(id@) =~= self@);
                None
            },
        }
    }

    /// Puts a session under this id, in place of the one that was there.
    pub fn insert(&mut self, id: String, session: PeerSession)
        ensures
            final(self)@ == old(self)@.insert(id@, session@),
    {
        let place: Option<usize> = self.position(id.as_str());
        proof {
            use_type_invariant(&*self);
        }
        let mut table = PeerTable::new();
        core::mem::swap(self, &mut table);
        let PeerTable { mut entries } = table;
        let ghost before: Seq<(String, PeerSession)> = entries@;
        let ghost after: Map<Seq<char>, PeerView> = table_of(before).insert(id@, session@);
        let ghost new_id: Seq<char> = id@;
        match place {
            Some(i) => {
                entries[i] = (id, session);
            },
            None => {
                entries.push((id, session));
            },
        }
        proof {
            assert forall|a: int, b: int|
                #![trigger entries@[a], entries@[b]]
                0 <= a < b < entries@.len() implies entries@[a].0@ != entries@[b].0@ by {
                assert(!is_entry_of(before, new_id, a) || place is Some);
                assert(before[a].0@ == entries@[a].0@);
                assert(b < before.len() ==> before[b].0@ == entries@[b].0@);
            }
            assert forall|j: int| 0 <= j < entries@.len() implies after.contains_pair(
                (#[trigger] entries@[j]).0@,
                entries@[j].1@,
            ) by {
                if entries@[j].0@ != new_id {
                    assert(entries@[j] == before[j]);
                    entry_is_in_table(before, j);
                } else if j < before.len() {
                    assert(is_entry_of(before, new_id, j));
                }
            }
            assert forall|other: Seq<char>| #[trigger] after.contains_key(other) implies exists|
                j: int,
            | is_entry_of(entries@, other, j) by {
                if other == new_id {
                    let j = match place {
                        Some(i) => i as int,
                        None => before.len() as int,
                    };
                    assert(is_entry_of(entries@, other, j));
                } else {
                    let k = choose|k: int| is_entry_of(before, other, k);
                    assert(is_entry_of(before, other, k));
                    assert(is_entry_of(entries@, other, k));
                }
            }
            table_is_determined(entries@, after);
        }
        *self = PeerTable { entries };
    }
}

} // verus!
