//! The mix queue of notes being sounded. A press enqueues a key's note
//! unless it is already queued; a release dequeues it. The queue never
//! holds a key twice, and keeps the order in which keys were pressed.

use vstd::prelude::*;
use crate::input::{KeyEvent, key_id_spec};
use crate::keys::NUM_KEYS;

verus! {

/// The notes currently being mixed, as the indices of the keys that sound
/// them, oldest press first.
pub struct Sound {
    pub mix_trucks: Vec<usize>,
}

/// What the queue holds after a press of key `id`: nothing changes when the
/// key is already queued, else the key joins at the back.
pub open spec fn queue_after_press(q: Seq<usize>, id: usize) -> Seq<usize> {
    if q.contains(id) {
        q
    } else {
        q.push(id)
    }
}

/// What the queue holds after a release of key `id`: every entry of that
/// key leaves, and the others keep their order.
pub open spec fn queue_after_release(q: Seq<usize>, id: usize) -> Seq<usize> {
    q.filter(|x: usize| x != id)
}

/// What the queue holds after one key event.
pub open spec fn queue_after_event(q: Seq<usize>, e: KeyEvent) -> Seq<usize> {
    if e.pressed {
        queue_after_press(q, key_id_spec(e.key) as usize)
    } else {
        queue_after_release(q, key_id_spec(e.key) as usize)
    }
}

/// What the queue holds after a run of key events, applied oldest first.
pub open spec fn queue_after_events(q: Seq<usize>, es: Seq<KeyEvent>) -> Seq<usize>
    decreases es.len(),
{
    if es.len() == 0 {
        q
    } else {
        queue_after_events(queue_after_event(q, es[0]), es.drop_first())
    }
}

impl Sound {
    /// The queue is sound: no key is queued twice, and every entry names
    /// one of the piano's keys.
    pub open spec fn inv(self) -> bool {
        &&& self.mix_trucks@.no_duplicates()
        &&& forall|i: int|
            0 <= i < self.mix_trucks@.len() ==> #[trigger] self.mix_trucks@[i] < NUM_KEYS
    }

    /// An empty mix queue.
    pub fn new() -> (s: Sound)
        ensures
            s.mix_trucks@ == Seq::<usize>::empty(),
            s.inv(),
    {
        Sound { mix_trucks: Vec::new() }
    }

    /// Whether key `id`'s note is queued.
    pub fn contains_key(&self, id: usize) -> (r: bool)
        ensures
            r == self.mix_trucks@.contains(id),
    {
        let mut i: usize = 0;
        while i < self.mix_trucks.len()
            invariant
                i <= self.mix_trucks@.len(),
                forall|j: int| 0 <= j < i ==> self.mix_trucks@[j] != id,
            decreases self.mix_trucks@.len() - i,
        {
            if self.mix_trucks[i] == id {
                assert(self.mix_trucks@.contains(id));
                return true;
            }
            i = i + 1;
        }
        assert(!self.mix_trucks@.contains(id));
        false
    }

    /// Queue key `id`'s note; a key already queued is not queued twice.
    pub fn press(&mut self, id: usize)
        requires
            old(self).inv(),
            id < NUM_KEYS,
        ensures
            final(self).inv(),
            final(self).mix_trucks@ == queue_after_press(old(self).mix_trucks@, id),
            final(self).mix_trucks@.contains(id),
    {
        if !self.contains_key(id) {
            self.mix_trucks.push(id);
        }
        assert(self.mix_trucks@.contains(id)) by {
            if !old(self).mix_trucks@.contains(id) {
                assert(self.mix_trucks@.last() == id);
            }
        }
    }

    /// Dequeue key `id`'s note, keeping the order of the others.
    pub fn release(&mut self, id: usize)
        requires
            old(self).inv(),
        ensures
            final(self).inv(),
            final(self).mix_trucks@ == queue_after_release(old(self).mix_trucks@, id),
            !final(self).mix_trucks@.contains(id),
    {
        let ghost orig = self.mix_trucks@;
        let mut kept: Vec<usize> = Vec::new();
        let mut i: usize = 0;
        while i < self.mix_trucks.len()
            invariant
                self.mix_trucks@ == orig,
                orig.no_duplicates(),
                forall|j: int| 0 <= j < orig.len() ==> #[trigger] orig[j] < NUM_KEYS,
                i <= orig.len(),
                kept@ == queue_after_release(orig.take(i as int), id),
                kept@.no_duplicates(),
                forall|j: int| 0 <= j < kept@.len() ==> #[trigger] kept@[j] != id,
                forall|j: int| 0 <= j < kept@.len() ==> #[trigger] kept@[j] < NUM_KEYS,
                forall|e: usize|
                    #[trigger] kept@.contains(e) ==> orig.take(i as int).contains(e),
            decreases orig.len() - i,
        {
            let ghost i0 = i as int;
            let ghost kept0 = kept@;
            proof {
                reveal_with_fuel(Seq::filter, 2);
                assert(orig.take(i0 + 1).drop_last() =~= orig.take(i0));
                assert(orig.take(i0 + 1).last() == orig[i0]);
            }
            let x = self.mix_trucks[i];
            if x != id {
                proof {
                    if kept0.contains(x) {
                        let v = choose|v: int| 0 <= v < i0 && orig.take(i0)[v] == x;
                        assert(orig[v] == orig[i0]);
                    }
                }
                kept.push(x);
            }
            i = i + 1;
            proof {
                assert forall|e: usize| #[trigger] kept@.contains(e) implies orig.take(
                    i0 + 1,
                ).contains(e) by {
                    let w = choose|w: int| 0 <= w < kept@.len() && kept@[w] == e;
                    if w < kept0.len() {
                        assert(kept0[w] == e);
                        assert(kept0.contains(e));
                        let v = choose|v: int| 0 <= v < i0 && orig.take(i0)[v] == e;
                        assert(orig.take(i0 + 1)[v] == e);
                    } else {
                        assert(e == orig[i0]);
                        assert(orig.take(i0 + 1)[i0] == e);
                    }
                }
            }
        }
        proof {
            assert(orig.take(orig.len() as int) =~= orig);
        }
        self.mix_trucks = kept;
    }

    /// Apply one key event: queue on a press, dequeue on a release.
    pub fn apply_key_event(&mut self, e: &KeyEvent)
        requires
            old(self).inv(),
        ensures
            final(self).inv(),
            final(self).mix_trucks@ == queue_after_event(old(self).mix_trucks@, *e),
    {
        let id = crate::input::key_id_of(e.key);
        if e.pressed {
            self.press(id);
        } else {
            self.release(id);
        }
    }

    /// Apply a frame's key events, oldest first.
    pub fn process_events(&mut self, events: &Vec<KeyEvent>)
        requires
            old(self).inv(),
        ensures
            final(self).inv(),
            final(self).mix_trucks@ == queue_after_events(old(self).mix_trucks@, events@),
    {
        let ghost q0 = self.mix_trucks@;
        proof {
            assert(events@.skip(0) =~= events@);
        }
        let mut i: usize = 0;
        while i < events.len()
            invariant
                self.inv(),
                i <= events@.len(),
                queue_after_events(q0, events@) == queue_after_events(
                    self.mix_trucks@,
                    events@.skip(i as int),
                ),
            decreases events@.len() - i,
        {
            proof {
                assert(events@.skip(i as int)[0] == events@[i as int]);
                assert(events@.skip(i as int).drop_first() == events@.skip(i + 1));
            }
            let e = events[i];
            self.apply_key_event(&e);
            i = i + 1;
        }
        proof {
            assert(events@.skip(events@.len() as int) == Seq::<KeyEvent>::empty());
        }
    }
}

/// A second press of the same key changes nothing: one press queues a key
/// at most once.
pub proof fn lemma_press_idempotent(q: Seq<usize>, id: usize)
    ensures
        queue_after_press(queue_after_press(q, id), id) == queue_after_press(q, id),
{
    let q1 = queue_after_press(q, id);
    if !q.contains(id) {
        assert(q1[q1.len() - 1] == id);
        assert(q1.contains(id));
    }
}

/// Releasing a key that is not queued changes nothing.
pub proof fn lemma_release_absent(q: Seq<usize>, id: usize)
    requires
        !q.contains(id),
    ensures
        queue_after_release(q, id) == q,
    decreases q.len(),
{
    reveal_with_fuel(Seq::filter, 2);
    if q.len() == 0 {
    } else {
        let rest = q.drop_last();
        assert(q[q.len() - 1] != id);
        if rest.contains(id) {
            let w = choose|w: int| 0 <= w < rest.len() && rest[w] == id;
            assert(q[w] == id);
        }
        lemma_release_absent(rest, id);
        assert(rest.push(q.last()) =~= q);
    }
}

/// After a release of a key, no entry of that key is queued.
pub proof fn lemma_release_removes(q: Seq<usize>, id: usize)
    ensures
        !queue_after_release(q, id).contains(id),
    decreases q.len(),
{
    reveal_with_fuel(Seq::filter, 2);
    if q.len() == 0 {
    } else {
        lemma_release_removes(q.drop_last(), id);
        let r = queue_after_release(q, id);
        let rr = queue_after_release(q.drop_last(), id);
        if q.last() != id && r.contains(id) {
            let w = choose|w: int| 0 <= w < r.len() && r[w] == id;
            assert(rr[w] == id);
            assert(rr.contains(id));
        }
    }
}

/// A key event always lands on the key its typing key is mapped to: after
/// a press that key's note is queued, and after a release it is not.
pub proof fn lemma_event_effect(q: Seq<usize>, e: KeyEvent)
    ensures
        e.pressed ==> queue_after_event(q, e).contains(key_id_spec(e.key) as usize),
        !e.pressed ==> !queue_after_event(q, e).contains(key_id_spec(e.key) as usize),
{
    let id = key_id_spec(e.key) as usize;
    if e.pressed {
        if !q.contains(id) {
            assert(queue_after_press(q, id)[q.len() as int] == id);
        }
    } else {
        lemma_release_removes(q, id);
    }
}

/// Pressing and then releasing a key that was not queued leaves the queue
/// as it was.
pub proof fn lemma_press_release_round_trip(q: Seq<usize>, id: usize)
    requires
        !q.contains(id),
    ensures
        queue_after_release(queue_after_press(q, id), id) == q,
{
    reveal_with_fuel(Seq::filter, 2);
    let q1 = queue_after_press(q, id);
    assert(q1.drop_last() =~= q);
    assert(q1.last() == id);
    lemma_release_absent(q, id);
}

impl Default for Sound {
    /// An empty mix queue.
    fn default() -> (s: Sound)
        ensures
            s.mix_trucks@ == Seq::<usize>::empty(),
            s.inv(),
    {
        Sound::new()
    }
}

} // verus!
