use crate::keys::{convert_key, logical_key, HostKey, Key};
use vstd::prelude::*;

verus! {

/// The keys of `keys` in order, each kept at its first occurrence only.
pub open spec fn first_occurrences(keys: Seq<Key>) -> Seq<Key>
    decreases keys.len(),
{
    if keys.len() == 0 {
        Seq::empty()
    } else if keys.drop_last().contains(keys.last()) {
        first_occurrences(keys.drop_last())
    } else {
        first_occurrences(keys.drop_last()).push(keys.last())
    }
}

/// The emulated keys that the host keys of one poll stand for, in order.
pub open spec fn logical_keys(host: Seq<HostKey>) -> Seq<Key> {
    host.map_values(|k: HostKey| logical_key(k))
}

/// Dropping repeated keys leaves every key that occurred, exactly once.
pub proof fn lemma_first_occurrences(keys: Seq<Key>)
    ensures
        first_occurrences(keys).no_duplicates(),
        first_occurrences(keys).to_set() == keys.to_set(),
    decreases keys.len(),
{
    if keys.len() > 0 {
        let earlier = keys.drop_last();
        let last = keys.last();
        lemma_first_occurrences(earlier);
        let kept = first_occurrences(earlier);
        let result = first_occurrences(keys);
        assert forall|k: Key| kept.contains(k) <==> earlier.contains(k) by {
            assert(kept.to_set().contains(k) <==> earlier.to_set().contains(k));
        }
        assert forall|k: Key| keys.contains(k) <==> (earlier.contains(k) || k == last) by {
            if keys.contains(k) {
                let i = choose|i: int| 0 <= i < keys.len() && keys[i] == k;
                if i < keys.len() - 1 {
                    assert(earlier[i] == k);
                }
            }
        }
        if !earlier.contains(last) {
            assert forall|k: Key| result.contains(k) <==> (kept.contains(k) || k == last) by {
                if kept.contains(k) {
                    let i = choose|i: int| 0 <= i < kept.len() && kept[i] == k;
                    assert(result[i] == k);
                }
                if k == last {
                    assert(result[result.len() - 1] == k);
                }
            }
        }
    }
}

/// Whether `key` occurs in `keys`.
fn holds(keys: &Vec<Key>, key: Key) -> (found: bool)
    ensures
        found == keys@.contains(key),
{
    let mut i: usize = 0;
    while i < keys.len()
        invariant
            i <= keys.len(),
            forall|j: int| 0 <= j < i ==> keys@[j] != key,
        decreases keys.len() - i,
    {
        if keys[i] == key {
            return true;
        }
        i += 1;
    }
    false
}

/// The set of keys held down at one poll of the keyboard.
///
/// The keys are kept in the order in which the poll listed them, each once.
#[derive(Debug)]
pub struct KeySnapshot {
    keys: Vec<Key>,
}

impl View for KeySnapshot {
    type V = Set<Key>;

    /// The keys that are held.
    open spec fn view(&self) -> Set<Key> {
        self.order().to_set()
    }
}

impl KeySnapshot {
    #[verifier::type_invariant]
    spec fn each_key_once(self) -> bool {
        self.keys@.no_duplicates()
    }

    /// The held keys in polling order.
    pub closed spec fn order(&self) -> Seq<Key> {
        self.keys@
    }

    /// The snapshot in which no key is held.
    pub fn empty() -> (snapshot: KeySnapshot)
        ensures
            snapshot.order() == Seq::<Key>::empty(),
            snapshot@ == Set::<Key>::empty(),
    {
        KeySnapshot { keys: Vec::new() }
    }

    /// The snapshot of a poll that listed `keys`; a key listed more than once
    /// is held once.
    pub fn from_keys(keys: &Vec<Key>) -> (snapshot: KeySnapshot)
        ensures
            snapshot.order() == first_occurrences(keys@),
            snapshot.order().no_duplicates(),
            snapshot@ == keys@.to_set(),
    {
        let mut held: Vec<Key> = Vec::new();
        let mut i: usize = 0;
        while i < keys.len()
            invariant
                i <= keys.len(),
                held@ == first_occurrences(keys@.take(i as int)),
            decreases keys.len() - i,
        {
            let key = keys[i];
            proof {
                let seen = keys@.take(i as int);
                assert(keys@.take(i + 1).drop_last() == seen);
                lemma_first_occurrences(seen);
                assert(held@.contains(key) <==> seen.contains(key)) by {
                    assert(held@.to_set().contains(key) <==> seen.to_set().contains(key));
                }
            }
            if !holds(&held, key) {
                held.push(key);
            }
            i += 1;
        }
        proof {
            assert(keys@.take(keys.len() as int) == keys@);
            lemma_first_occurrences(keys@);
        }
        KeySnapshot { keys: held }
    }

    /// The snapshot of a poll in which the host listed `keys`: each host key
    /// is held as the emulated key it stands for.
    pub fn from_host_keys(keys: &Vec<HostKey>) -> (snapshot: KeySnapshot)
        ensures
            snapshot.order() == first_occurrences(logical_keys(keys@)),
            snapshot.order().no_duplicates(),
            snapshot@ == logical_keys(keys@).to_set(),
    {
        let mut converted: Vec<Key> = Vec::new();
        let mut i: usize = 0;
        while i < keys.len()
            invariant
                i <= keys.len(),
                converted@ == logical_keys(keys@.take(i as int)),
            decreases keys.len() - i,
        {
            converted.push(convert_key(keys[i]));
            i += 1;
        }
        assert(keys@.take(keys.len() as int) == keys@);
        KeySnapshot::from_keys(&converted)
    }

    /// Whether `key` is held.
    pub fn contains(&self, key: Key) -> (held: bool)
        ensures
            held == self@.contains(key),
    {
        holds(&self.keys, key)
    }

    /// How many keys are held.
    pub fn len(&self) -> (count: usize)
        ensures
            count == self.order().len(),
            count == self@.len(),
    {
        proof {
            use_type_invariant(self);
            self.keys@.unique_seq_to_set();
        }
        self.keys.len()
    }

    /// The held keys in polling order.
    pub fn keys(&self) -> (keys: &Vec<Key>)
        ensures
            keys@ == self.order(),
            keys@.no_duplicates(),
    {
        proof {
            use_type_invariant(self);
        }
        &self.keys
    }
}

} // verus!
