//! The notes attached to minutes: a store from note keys to notes, in which
//! no key stands twice.

use vstd::prelude::*;

verus! {

/// What a store holds: for each key that has a note, the note's text and
/// whether it is locked.
pub type NoteMap = Map<Seq<char>, (Seq<char>, bool)>;

/// The store with `content` saved under `key`, unlocked, in place of whatever
/// stood there.
pub open spec fn saved(notes: NoteMap, key: Seq<char>, content: Seq<char>) -> NoteMap {
    notes.insert(key, (content, false))
}

/// The text under `key`, if the store has a note there.
pub open spec fn looked_up(notes: NoteMap, key: Seq<char>) -> Option<Seq<char>> {
    if notes.dom().contains(key) {
        Some(notes[key].0)
    } else {
        None
    }
}

/// The text of an optional string.
pub open spec fn text_of(found: Option<String>) -> Option<Seq<char>> {
    match found {
        Some(s) => Some(s@),
        None => None,
    }
}

/// A note: its text and whether it is locked.
#[derive(Clone, Debug)]
pub struct TimeNote {
    pub content: String,
    pub is_locked: bool,
}

impl View for TimeNote {
    type V = (Seq<char>, bool);

    open spec fn view(&self) -> (Seq<char>, bool) {
        (self.content@, self.is_locked)
    }
}

/// The notes by key. Entries stay in the order in which their keys first came.
pub struct NoteStore {
    entries: Vec<(String, TimeNote)>,
}

impl View for NoteStore {
    type V = NoteMap;

    closed spec fn view(&self) -> NoteMap {
        Map::new(
            |k: Seq<char>| exists|i: int| 0 <= i < self.spec_len() && #[trigger] self.key_at(i) == k,
            |k: Seq<char>|
                self.note_at(choose|i: int| 0 <= i < self.spec_len() && #[trigger] self.key_at(i) == k),
        )
    }
}

impl NoteStore {
    /// The number of entries.
    pub closed spec fn spec_len(&self) -> nat {
        self.entries@.len()
    }

    /// The key of the entry at `i`.
    pub closed spec fn key_at(&self, i: int) -> Seq<char> {
        self.entries@[i].0@
    }

    /// The note of the entry at `i`.
    pub closed spec fn note_at(&self, i: int) -> (Seq<char>, bool) {
        self.entries@[i].1@
    }

    /// No key stands twice.
    pub closed spec fn wf(&self) -> bool {
        forall|i: int, j: int|
            0 <= i < j < self.spec_len() ==> #[trigger] self.key_at(i) != #[trigger] self.key_at(j)
    }

    /// Each entry is in the view, under its key.
    pub proof fn lemma_entry_in_view(&self, i: int)
        requires
            self.wf(),
            0 <= i < self.spec_len(),
        ensures
            self@.dom().contains(self.key_at(i)),
            self@[self.key_at(i)] == self.note_at(i),
    {
        let k = self.key_at(i);
        let j = choose|j: int| 0 <= j < self.spec_len() && #[trigger] self.key_at(j) == k;
        assert(j == i);
    }

    /// Each key of the view is the key of an entry.
    pub proof fn lemma_view_has_entry(&self, k: Seq<char>)
        requires
            self@.dom().contains(k),
        ensures
            exists|i: int| 0 <= i < self.spec_len() && #[trigger] self.key_at(i) == k,
    {
    }

    /// A key that no entry has is not in the view.
    proof fn lemma_absent(&self, k: Seq<char>)
        requires
            forall|i: int| 0 <= i < self.spec_len() ==> #[trigger] self.key_at(i) != k,
        ensures
            !self@.dom().contains(k),
    {
    }

    /// A store without notes.
    pub fn new() -> (store: NoteStore)
        ensures
            store.wf(),
            store@ == NoteMap::empty(),
            store.spec_len() == 0,
    {
        let store = NoteStore { entries: Vec::new() };
        assert(store@ =~= NoteMap::empty());
        store
    }

    /// The number of entries.
    pub fn len(&self) -> (n: usize)
        ensures
            n == self.spec_len(),
    {
        self.entries.len()
    }

    /// The key of the entry at `i`.
    pub fn key(&self, i: usize) -> (key: &String)
        requires
            i < self.spec_len(),
        ensures
            key@ == self.key_at(i as int),
    {
        &self.entries[i].0
    }

    /// The note of the entry at `i`.
    pub fn note(&self, i: usize) -> (note: &TimeNote)
        requires
            i < self.spec_len(),
        ensures
            note@ == self.note_at(i as int),
    {
        &self.entries[i].1
    }

    /// Where `key` stands among the entries.
    fn position(&self, key: &String) -> (at: Option<usize>)
        ensures
            match at {
                Some(i) => i < self.spec_len() && self.key_at(i as int) == key@,
                None => forall|i: int| 0 <= i < self.spec_len() ==> #[trigger] self.key_at(i) != key@,
            },
    {
        let mut i: usize = 0;
        while i < self.entries.len()
            invariant
                i <= self.entries.len(),
                forall|j: int| 0 <= j < i ==> #[trigger] self.key_at(j) != key@,
            decreases self.entries.len() - i,
        {
            if self.entries[i].0 == *key {
                return Some(i);
            }
            i = i + 1;
        }
        None
    }

    /// The text of the note under `key`, or nothing where the store has none.
    pub fn lookup(&self, key: &String) -> (found: Option<String>)
        requires
            self.wf(),
        ensures
            text_of(found) == looked_up(self@, key@),
    {
        match self.position(key) {
            Some(i) => {
                proof {
                    self.lemma_entry_in_view(i as int);
                }
                Some(self.entries[i].1.content.clone())
            },
            None => {
                proof {
                    self.lemma_absent(key@);
                }
                None
            },
        }
    }

    /// Whether the note under `key` is locked; nothing where the store has none.
    pub fn is_locked(&self, key: &String) -> (locked: Option<bool>)
        requires
            self.wf(),
        ensures
            locked == if self@.dom().contains(key@) {
                Some(self@[key@].1)
            } else {
                None
            },
    {
        match self.position(key) {
            Some(i) => {
                proof {
                    self.lemma_entry_in_view(i as int);
                }
                Some(self.entries[i].1.is_locked)
            },
            None => {
                proof {
                    self.lemma_absent(key@);
                }
                None
            },
        }
    }

    /// Puts `note` under `key`, in place of the note that stood there, if any.
    pub fn insert(&mut self, key: String, note: TimeNote)
        requires
            old(self).wf(),
        ensures
            final(self).wf(),
            final(self)@ == old(self)@.insert(key@, note@),
            final(self).spec_len() == if old(self)@.dom().contains(key@) {
                old(self).spec_len()
            } else {
                old(self).spec_len() + 1
            },
            forall|i: int|
                0 <= i < old(self).spec_len() ==> #[trigger] final(self).key_at(i) == old(self).key_at(i),
    {
        let ghost before = *self;
        let ghost k = key@;
        let ghost v = note@;
        let at = self.position(&key);
        proof {
            match at {
                Some(i) => {
                    before.lemma_entry_in_view(i as int);
                },
                None => {
                    before.lemma_absent(k);
                },
            }
        }
        match at {
            Some(i) => {
                self.entries.set(i, (key, note));
                assert(forall|j: int| 0 <= j < before.spec_len() ==> self.key_at(j) == before.key_at(j));
                assert(forall|j: int|
                    0 <= j < before.spec_len() && j != i ==> self.note_at(j) == before.note_at(j));
                assert(self.note_at(i as int) == v);
                assert(self.spec_len() == before.spec_len());
                assert forall|a: int, b: int| 0 <= a < b < self.spec_len() implies #[trigger] self.key_at(
                    a,
                ) != #[trigger] self.key_at(b) by {
                    assert(before.key_at(a) != before.key_at(b));
                }
            },
            None => {
                self.entries.push((key, note));
                assert(forall|j: int| 0 <= j < before.spec_len() ==> self.key_at(j) == before.key_at(j));
                assert(forall|j: int|
                    0 <= j < before.spec_len() ==> self.note_at(j) == before.note_at(j));
                assert(self.key_at(before.spec_len() as int) == k);
                assert(self.note_at(before.spec_len() as int) == v);
                assert(self.spec_len() == before.spec_len() + 1);
                assert forall|a: int, b: int| 0 <= a < b < self.spec_len() implies #[trigger] self.key_at(
                    a,
                ) != #[trigger] self.key_at(b) by {
                    if b < before.spec_len() {
                        assert(before.key_at(a) != before.key_at(b));
                    } else {
                        assert(before.key_at(a) != k);
                    }
                }
            },
        }
        proof {
            assert(self.wf());
            let target = before@.insert(k, v);
            assert forall|q: Seq<char>| self@.dom().contains(q) <==> target.dom().contains(q) by {
                if self@.dom().contains(q) {
                    self.lemma_view_has_entry(q);
                    let j = choose|j: int| 0 <= j < self.spec_len() && #[trigger] self.key_at(j) == q;
                    if q != k {
                        assert(before.key_at(j) == q);
                    }
                }
                if target.dom().contains(q) {
                    if q != k {
                        before.lemma_view_has_entry(q);
                        let j = choose|j: int|
                            0 <= j < before.spec_len() && #[trigger] before.key_at(j) == q;
                        assert(self.key_at(j) == q);
                    } else {
                        match at {
                            Some(i) => {
                                assert(self.key_at(i as int) == q);
                            },
                            None => {
                                assert(self.key_at(before.spec_len() as int) == q);
                            },
                        }
                    }
                }
            }
            assert forall|q: Seq<char>| self@.dom().contains(q) implies self@[q] == target[q] by {
                self.lemma_view_has_entry(q);
                let j = choose|j: int| 0 <= j < self.spec_len() && #[trigger] self.key_at(j) == q;
                self.lemma_entry_in_view(j);
                if q != k {
                    assert(before.key_at(j) == q);
                    before.lemma_entry_in_view(j);
                } else {
                    match at {
                        Some(i) => {
                            assert(j == i);
                        },
                        None => {
                            assert(j == before.spec_len());
                        },
                    }
                }
            }
            assert(self@ =~= target);
        }
    }

    /// Saves `content` under `key` as an unlocked note, over whatever stood there.
    pub fn save(&mut self, key: String, content: String)
        requires
            old(self).wf(),
        ensures
            final(self).wf(),
            final(self)@ == saved(old(self)@, key@, content@),
            final(self).spec_len() == if old(self)@.dom().contains(key@) {
                old(self).spec_len()
            } else {
                old(self).spec_len() + 1
            },
            forall|i: int|
                0 <= i < old(self).spec_len() ==> #[trigger] final(self).key_at(i) == old(self).key_at(i),
    {
        self.insert(key, TimeNote { content, is_locked: false });
    }
}

/// What was saved under a key is what a lookup of that key gives back, and the
/// notes under the other keys are as they were.
pub proof fn lemma_save_then_lookup(
    notes: NoteMap,
    key: Seq<char>,
    content: Seq<char>,
    other: Seq<char>,
)
    ensures
        looked_up(saved(notes, key, content), key) == Some(content),
        other != key ==> looked_up(saved(notes, key, content), other) == looked_up(notes, other),
{
}

/// A lookup in a store without notes finds nothing.
pub proof fn lemma_lookup_in_empty(key: Seq<char>)
    ensures
        looked_up(NoteMap::empty(), key) == None::<Seq<char>>,
{
}

} // verus!
