use vstd::prelude::*;

verus! {

/// A set of favorites after the entry `key` was toggled: taken out if it
/// was in, put in if it was not.
pub open spec fn toggled(favorites: Set<(u32, u32)>, key: (u32, u32)) -> Set<(u32, u32)> {
    if favorites.contains(key) {
        favorites.remove(key)
    } else {
        favorites.insert(key)
    }
}

/// Toggling the same entry twice gives back the set of favorites that was
/// there before.
pub proof fn lemma_toggle_twice(favorites: Set<(u32, u32)>, key: (u32, u32))
    ensures
        toggled(toggled(favorites, key), key) == favorites,
{
    assert(toggled(toggled(favorites, key), key) =~= favorites);
}

/// Toggling an entry changes the membership of that entry and of no other.
pub proof fn lemma_toggle_membership(
    favorites: Set<(u32, u32)>,
    key: (u32, u32),
    other: (u32, u32),
)
    ensures
        toggled(favorites, key).contains(key) == !favorites.contains(key),
        other != key ==> toggled(favorites, key).contains(other) == favorites.contains(other),
{
}

/// The favorites registry of a session: the starred cards, each as a pair
/// of stage and card id.
#[derive(Debug)]
pub struct FavoritesContext {
    entries: Vec<(u32, u32)>,
}

impl View for FavoritesContext {
    type V = Set<(u32, u32)>;

    closed spec fn view(&self) -> Set<(u32, u32)> {
        self.entries@.to_set()
    }
}

impl Clone for FavoritesContext {
    /// A registry of its own with the same starred cards.
    fn clone(&self) -> (copy: Self)
        ensures
            copy@ == self@,
    {
        proof {
            use_type_invariant(self);
        }
        FavoritesContext { entries: self.copy_entries() }
    }
}

impl FavoritesContext {
    #[verifier::type_invariant]
    spec fn distinct(self) -> bool {
        self.entries@.no_duplicates()
    }

    /// The registry of a fresh session, with nothing starred.
    pub fn new() -> (registry: Self)
        ensures
            registry@ == Set::<(u32, u32)>::empty(),
    {
        let registry = FavoritesContext { entries: Vec::new() };
        assert(registry.entries@.to_set() =~= Set::<(u32, u32)>::empty());
        registry
    }

    /// Where the entry stands in the list, if it is starred.
    fn position(&self, stage: u32, card_id: u32) -> (found: Option<usize>)
        ensures
            (match found {
                Some(i) => i < self.entries@.len() && self.entries@[i as int] == (stage, card_id),
                None => !self.entries@.contains((stage, card_id)),
            }),
    {
        let mut i: usize = 0;
        while i < self.entries.len()
            invariant
                i <= self.entries@.len(),
                forall|k: int| 0 <= k < i ==> self.entries@[k] != (stage, card_id),
            decreases self.entries@.len() - i,
        {
            let entry = self.entries[i];
            if entry.0 == stage && entry.1 == card_id {
                return Some(i);
            }
            i += 1;
        }
        None
    }

    /// Stars the card if it is not starred, and takes the star away if it is.
    pub fn toggle(&mut self, stage: u32, card_id: u32)
        ensures
            final(self)@ == toggled(old(self)@, (stage, card_id)),
    {
        proof {
            use_type_invariant(&*self);
        }
        let ghost before = self.entries@;
        let mut entries = self.copy_entries();
        match self.position(stage, card_id) {
            Some(i) => {
                entries.remove(i);
                proof {
                    lemma_remove_entry(before, i as int);
                }
            },
            None => {
                entries.push((stage, card_id));
                proof {
                    lemma_push_entry(before, (stage, card_id));
                }
            },
        }
        *self = FavoritesContext { entries };
    }

    /// Whether the card is starred.
    pub fn is_favorite(&self, stage: u32, card_id: u32) -> (starred: bool)
        ensures
            starred == self@.contains((stage, card_id)),
    {
        self.position(stage, card_id).is_some()
    }

    /// A snapshot of the starred cards, each once, in no particular order.
    pub fn get_all(&self) -> (snapshot: Vec<(u32, u32)>)
        ensures
            snapshot@.no_duplicates(),
            snapshot@.to_set() == self@,
    {
        proof {
            use_type_invariant(self);
        }
        self.copy_entries()
    }

    /// The list of entries, copied.
    fn copy_entries(&self) -> (snapshot: Vec<(u32, u32)>)
        ensures
            snapshot@ == self.entries@,
    {
        let mut snapshot: Vec<(u32, u32)> = Vec::new();
        let mut i: usize = 0;
        while i < self.entries.len()
            invariant
                i <= self.entries@.len(),
                snapshot@ == self.entries@.subrange(0, i as int),
            decreases self.entries@.len() - i,
        {
            snapshot.push(self.entries[i]);
            assert(snapshot@ =~= self.entries@.subrange(0, i + 1));
            i += 1;
        }
        assert(snapshot@ =~= self.entries@);
        snapshot
    }

    /// Takes the star away from the card; nothing changes if it had none.
    pub fn remove(&mut self, stage: u32, card_id: u32)
        ensures
            final(self)@ == old(self)@.remove((stage, card_id)),
    {
        proof {
            use_type_invariant(&*self);
        }
        let ghost before = self.entries@;
        match self.position(stage, card_id) {
            Some(i) => {
                let mut entries = self.copy_entries();
                entries.remove(i);
                proof {
                    lemma_remove_entry(before, i as int);
                }
                *self = FavoritesContext { entries };
            },
            None => {
                assert(before.to_set().remove((stage, card_id)) =~= before.to_set());
            },
        }
    }

    /// The number of starred cards.
    pub fn count(&self) -> (count: usize)
        ensures
            self@.finite(),
            count == self@.len(),
    {
        proof {
            use_type_invariant(self);
            self.entries@.unique_seq_to_set();
            vstd::seq_lib::seq_to_set_is_finite(self.entries@);
        }
        self.entries.len()
    }
}

/// Taking position `i` out of a list without duplicates takes its entry out
/// of the set of the list, and leaves a list without duplicates.
pub proof fn lemma_remove_entry(entries: Seq<(u32, u32)>, i: int)
    requires
        entries.no_duplicates(),
        0 <= i < entries.len(),
    ensures
        entries.remove(i).no_duplicates(),
        entries.remove(i).to_set() == entries.to_set().remove(entries[i]),
{
    let shorter = entries.remove(i);
    assert forall|a: int, b: int| 0 <= a < shorter.len() && 0 <= b < shorter.len() && a != b implies shorter[a] != shorter[b] by {
        let a0 = if a < i { a } else { a + 1 };
        let b0 = if b < i { b } else { b + 1 };
        assert(shorter[a] == entries[a0]);
        assert(shorter[b] == entries[b0]);
    }
    assert forall|key: (u32, u32)| shorter.to_set().contains(key) <==> entries.to_set().remove(
        entries[i],
    ).contains(key) by {
        if shorter.to_set().contains(key) {
            let a = choose|a: int| 0 <= a < shorter.len() && shorter[a] == key;
            let a0 = if a < i { a } else { a + 1 };
            assert(entries[a0] == key);
        }
        if entries.to_set().remove(entries[i]).contains(key) {
            let a0 = choose|a0: int| 0 <= a0 < entries.len() && entries[a0] == key;
            let a = if a0 < i { a0 } else { a0 - 1 };
            assert(shorter[a] == key);
        }
    }
    assert(shorter.to_set() =~= entries.to_set().remove(entries[i]));
}

/// Adding an entry that a list without duplicates does not hold adds it to
/// the set of the list, and leaves a list without duplicates.
proof fn lemma_push_entry(entries: Seq<(u32, u32)>, key: (u32, u32))
    requires
        entries.no_duplicates(),
        !entries.contains(key),
    ensures
        entries.push(key).no_duplicates(),
        entries.push(key).to_set() == entries.to_set().insert(key),
{
    let longer = entries.push(key);
    assert forall|entry: (u32, u32)| longer.to_set().contains(entry) <==> entries.to_set().insert(
        key,
    ).contains(entry) by {
        if longer.to_set().contains(entry) {
            let a = choose|a: int| 0 <= a < longer.len() && longer[a] == entry;
            if a < entries.len() {
                assert(entries[a] == entry);
            }
        }
        if entries.to_set().insert(key).contains(entry) {
            if entry == key {
                assert(longer[entries.len() as int] == key);
            } else {
                let a = choose|a: int| 0 <= a < entries.len() && entries[a] == entry;
                assert(longer[a] == entry);
            }
        }
    }
    assert(longer.to_set() =~= entries.to_set().insert(key));
}

} // verus!
