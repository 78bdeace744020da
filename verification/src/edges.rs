use crate::keys::Key;
use crate::snapshot::KeySnapshot;
use vstd::prelude::*;

verus! {

/// One transition of a key, as the input device is told of it.
#[derive(Clone, Copy, Debug, PartialEq, Eq, Structural)]
pub enum KeyEvent {
    /// The key went from released to held.
    Down(Key),
    /// The key went from held to released.
    Up(Key),
}

/// The keys that went down between two polls: held now, not held before.
pub open spec fn newly_down(current: Set<Key>, previous: Set<Key>) -> Set<Key> {
    current.difference(previous)
}

/// The keys that went up between two polls: held before, not held now.
pub open spec fn newly_up(current: Set<Key>, previous: Set<Key>) -> Set<Key> {
    previous.difference(current)
}

/// The test "is not among `keys`".
pub open spec fn absent_from(keys: Seq<Key>) -> spec_fn(Key) -> bool {
    |k: Key| !keys.contains(k)
}

/// The keys of `held` that `other` lacks, in the order of `held`.
pub open spec fn held_only_in(held: Seq<Key>, other: Seq<Key>) -> Seq<Key> {
    held.filter(absent_from(other))
}

/// The events that report `down` and `up`: every press, then every release.
pub open spec fn edge_events(down: Seq<Key>, up: Seq<Key>) -> Seq<KeyEvent> {
    down.map_values(|k: Key| KeyEvent::Down(k)) + up.map_values(|k: Key| KeyEvent::Up(k))
}

/// Keeping the keys that another poll lacks keeps each of them once and
/// nothing else.
pub proof fn lemma_held_only_in(held: Seq<Key>, other: Seq<Key>)
    requires
        held.no_duplicates(),
    ensures
        held_only_in(held, other).no_duplicates(),
        forall|k: Key|
            held_only_in(held, other).contains(k) <==> (held.contains(k) && !other.contains(k)),
        held_only_in(held, other).to_set() == held.to_set().difference(other.to_set()),
    decreases held.len(),
{
    reveal(Seq::filter);
    if held.len() > 0 {
        let earlier = held.drop_last();
        let last = held.last();
        let kept = held_only_in(earlier, other);
        lemma_held_only_in(earlier, other);
        assert(!earlier.contains(last)) by {
            if earlier.contains(last) {
                let i = choose|i: int| 0 <= i < earlier.len() && earlier[i] == last;
                assert(held[i] == held[held.len() - 1]);
            }
        }
        assert forall|k: Key| held.contains(k) <==> (earlier.contains(k) || k == last) by {
            if held.contains(k) {
                let i = choose|i: int| 0 <= i < held.len() && held[i] == k;
                if i < held.len() - 1 {
                    assert(earlier[i] == k);
                }
            }
        }
        if !other.contains(last) {
            let result = kept.push(last);
            assert forall|k: Key| result.contains(k) <==> (kept.contains(k) || k == last) by {
                if kept.contains(k) {
                    let i = choose|i: int| 0 <= i < kept.len() && kept[i] == k;
                    assert(result[i] == k);
                }
                if k == last {
                    assert(result[result.len() - 1] == k);
                }
            }
        }
    }
}

/// The keys of `held` that `other` lacks, in the order of `held`.
fn only_in(held: &Vec<Key>, other: &KeySnapshot) -> (kept: Vec<Key>)
    ensures
        kept@ == held_only_in(held@, other.order()),
{
    let mut kept: Vec<Key> = Vec::new();
    let mut i: usize = 0;
    proof {
        reveal(Seq::filter);
    }
    while i < held.len()
        invariant
            i <= held.len(),
            kept@ == held_only_in(held@.take(i as int), other.order()),
        decreases held.len() - i,
    {
        let key = held[i];
        proof {
            let seen = held@.take(i as int);
            assert(held@.take(i + 1) == seen.push(key));
            seen.lemma_filter_push(key, absent_from(other.order()));
        }
        if !other.contains(key) {
            kept.push(key);
        }
        i += 1;
    }
    assert(held@.take(held.len() as int) == held@);
    kept
}

/// The outcome of comparing one poll of the keyboard with the poll before it.
#[derive(Debug)]
pub struct KeyEdges {
    /// The keys that went down, in the order of the current poll.
    pub newly_down: Vec<Key>,
    /// The keys that went up, in the order of the previous poll.
    pub newly_up: Vec<Key>,
}

impl KeyEdges {
    /// The events to hand to the input device, in the order in which it is
    /// to receive them.
    pub fn events(&self) -> (events: Vec<KeyEvent>)
        ensures
            events@ == edge_events(self.newly_down@, self.newly_up@),
    {
        let mut events: Vec<KeyEvent> = Vec::new();
        let mut i: usize = 0;
        while i < self.newly_down.len()
            invariant
                i <= self.newly_down.len(),
                events@ == self.newly_down@.take(i as int).map_values(|k: Key| KeyEvent::Down(k)),
            decreases self.newly_down.len() - i,
        {
            events.push(KeyEvent::Down(self.newly_down[i]));
            i += 1;
        }
        assert(self.newly_down@.take(self.newly_down.len() as int) == self.newly_down@);
        let ghost downs = events@;
        let mut j: usize = 0;
        while j < self.newly_up.len()
            invariant
                j <= self.newly_up.len(),
                events@ == downs + self.newly_up@.take(j as int).map_values(|k: Key| KeyEvent::Up(k)),
            decreases self.newly_up.len() - j,
        {
            events.push(KeyEvent::Up(self.newly_up[j]));
            j += 1;
        }
        assert(self.newly_up@.take(self.newly_up.len() as int) == self.newly_up@);
        events
    }
}

/// Compares the current poll with the previous one.
///
/// Reports each key that is held now and was not before as newly down, and
/// each key that was held before and is not now as newly up, every such key
/// exactly once. No key is reported both ways.
pub fn diff(current: &KeySnapshot, previous: &KeySnapshot) -> (edges: KeyEdges)
    ensures
        edges.newly_down@ == held_only_in(current.order(), previous.order()),
        edges.newly_up@ == held_only_in(previous.order(), current.order()),
        edges.newly_down@.no_duplicates(),
        edges.newly_up@.no_duplicates(),
        edges.newly_down@.to_set() == newly_down(current@, previous@),
        edges.newly_up@.to_set() == newly_up(current@, previous@),
        edges.newly_down@.to_set().disjoint(edges.newly_up@.to_set()),
{
    let now = current.keys();
    let before = previous.keys();
    let newly_down = only_in(now, previous);
    let newly_up = only_in(before, current);
    proof {
        lemma_held_only_in(current.order(), previous.order());
        lemma_held_only_in(previous.order(), current.order());
    }
    KeyEdges { newly_down, newly_up }
}

/// Turns the level of each key, as successive polls show it, into the edges
/// between them. It keeps the last poll it was shown; before the first poll no
/// key counts as held.
#[derive(Debug)]
pub struct EdgeDetector {
    previous: KeySnapshot,
}

impl EdgeDetector {
    /// The keys of the last poll shown, in its order.
    pub closed spec fn held_order(&self) -> Seq<Key> {
        self.previous.order()
    }

    /// The keys of the last poll shown.
    pub open spec fn held(&self) -> Set<Key> {
        self.held_order().to_set()
    }

    /// A detector that has been shown no poll yet.
    pub fn new() -> (detector: EdgeDetector)
        ensures
            detector.held_order() == Seq::<Key>::empty(),
            detector.held() == Set::<Key>::empty(),
    {
        EdgeDetector { previous: KeySnapshot::empty() }
    }

    /// The last poll shown.
    pub fn previous(&self) -> (snapshot: &KeySnapshot)
        ensures
            snapshot.order() == self.held_order(),
            snapshot@ == self.held(),
    {
        &self.previous
    }

    /// Shows the detector the outcome of one poll.
    ///
    /// Where the poll brought a snapshot, the edges against the last poll
    /// shown are reported and the snapshot takes its place. Where the poll
    /// brought nothing, nothing is reported and the last poll stays.
    pub fn observe(&mut self, polled: Option<KeySnapshot>) -> (edges: KeyEdges)
        ensures
            match polled {
                Some(current) => {
                    &&& final(self).held_order() == current.order()
                    &&& edges.newly_down@ == held_only_in(current.order(), old(self).held_order())
                    &&& edges.newly_up@ == held_only_in(old(self).held_order(), current.order())
                    &&& edges.newly_down@.to_set() == newly_down(current@, old(self).held())
                    &&& edges.newly_up@.to_set() == newly_up(current@, old(self).held())
                },
                None => {
                    &&& final(self).held_order() == old(self).held_order()
                    &&& edges.newly_down@ == Seq::<Key>::empty()
                    &&& edges.newly_up@ == Seq::<Key>::empty()
                },
            },
            edges.newly_down@.no_duplicates(),
            edges.newly_up@.no_duplicates(),
            edges.newly_down@.to_set().disjoint(edges.newly_up@.to_set()),
    {
        match polled {
            Some(current) => {
                let edges = diff(&current, &self.previous);
                self.previous = current;
                edges
            },
            None => KeyEdges { newly_down: Vec::new(), newly_up: Vec::new() },
        }
    }
}

/// No key goes both down and up between two polls.
pub proof fn lemma_edges_disjoint(current: Set<Key>, previous: Set<Key>)
    ensures
        newly_down(current, previous).disjoint(newly_up(current, previous)),
        newly_down(current, previous).intersect(newly_up(current, previous)) == Set::<Key>::empty(),
{
    assert(newly_down(current, previous).intersect(newly_up(current, previous))
        =~= Set::<Key>::empty());
}

/// Against a poll in which nothing was held, every held key is newly down and
/// none is newly up.
pub proof fn lemma_first_poll(current: Set<Key>)
    ensures
        newly_down(current, Set::<Key>::empty()) == current,
        newly_up(current, Set::<Key>::empty()) == Set::<Key>::empty(),
{
    assert(newly_down(current, Set::<Key>::empty()) =~= current);
    assert(newly_up(current, Set::<Key>::empty()) =~= Set::<Key>::empty());
}

/// Applying the edges between two polls to the earlier poll gives the later
/// one: pressing what went down and releasing what went up.
pub proof fn lemma_edges_rebuild(current: Set<Key>, previous: Set<Key>)
    ensures
        previous.union(newly_down(current, previous)).difference(newly_up(current, previous))
            == current,
{
    assert(previous.union(newly_down(current, previous)).difference(newly_up(current, previous))
        =~= current);
}

/// The keys held after a run of polls: those of the last poll, or none before
/// the first.
pub open spec fn held_after(polls: Seq<Set<Key>>) -> Set<Key> {
    if polls.len() == 0 {
        Set::empty()
    } else {
        polls.last()
    }
}

/// How many down events `key` gets over a run of polls, each compared with
/// the one before it and the first with the empty poll.
pub open spec fn down_count(polls: Seq<Set<Key>>, key: Key) -> nat
    decreases polls.len(),
{
    if polls.len() == 0 {
        0
    } else {
        let earlier = polls.drop_last();
        let here: nat = if newly_down(polls.last(), held_after(earlier)).contains(key) {
            1
        } else {
            0
        };
        down_count(earlier, key) + here
    }
}

/// How many up events `key` gets over a run of polls, each compared with the
/// one before it and the first with the empty poll.
pub open spec fn up_count(polls: Seq<Set<Key>>, key: Key) -> nat
    decreases polls.len(),
{
    if polls.len() == 0 {
        0
    } else {
        let earlier = polls.drop_last();
        let here: nat = if newly_up(polls.last(), held_after(earlier)).contains(key) {
            1
        } else {
            0
        };
        up_count(earlier, key) + here
    }
}

/// Over any run of polls the events of a key alternate, starting with a
/// press: it has one more down than up while it is held and as many of each
/// while it is not. So a key is held exactly when the number of its events is
/// odd.
pub proof fn lemma_edge_history(polls: Seq<Set<Key>>, key: Key)
    ensures
        held_after(polls).contains(key) ==> down_count(polls, key) == up_count(polls, key) + 1,
        !held_after(polls).contains(key) ==> down_count(polls, key) == up_count(polls, key),
        held_after(polls).contains(key) <==> (down_count(polls, key) + up_count(polls, key)) % 2
            == 1,
    decreases polls.len(),
{
    if polls.len() > 0 {
        lemma_edge_history(polls.drop_last(), key);
    }
}

} // verus!
