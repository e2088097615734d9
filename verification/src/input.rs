use std::collections::HashMap;
use vstd::prelude::*;

verus! {

/// A logical key identifier.
///
/// The keys that the renderer reacts to are named; every other key of the
/// keyboard is carried by the code that the event source gives it.
#[derive(Clone, Copy, Debug, PartialEq, Eq, Structural)]
pub enum Key {
    W,
    A,
    S,
    D,
    Space,
    F11,
    Other(u32),
}

impl Key {
    /// The integer under which a key is stored; distinct keys have distinct slots.
    pub open spec fn slot(self) -> u64 {
        match self {
            Key::W => 0,
            Key::A => 1,
            Key::S => 2,
            Key::D => 3,
            Key::Space => 4,
            Key::F11 => 5,
            Key::Other(code) => (6 + code) as u64,
        }
    }

    /// The key stored under a slot, if any.
    pub open spec fn of_slot(slot: u64) -> Option<Key> {
        if slot == 0 {
            Some(Key::W)
        } else if slot == 1 {
            Some(Key::A)
        } else if slot == 2 {
            Some(Key::S)
        } else if slot == 3 {
            Some(Key::D)
        } else if slot == 4 {
            Some(Key::Space)
        } else if slot == 5 {
            Some(Key::F11)
        } else if slot - 6 <= u32::MAX {
            Some(Key::Other((slot - 6) as u32))
        } else {
            None
        }
    }

    /// `of_slot` undoes `slot`, so `slot` is injective.
    pub proof fn lemma_slot_injective(a: Key, b: Key)
        ensures
            Key::of_slot(a.slot()) == Some(a),
            a.slot() == b.slot() <==> a == b,
    {
        assert(Key::of_slot(b.slot()) == Some(b));
    }

    fn to_slot(self) -> (r: u64)
        ensures
            r == self.slot(),
    {
        match self {
            Key::W => 0,
            Key::A => 1,
            Key::S => 2,
            Key::D => 3,
            Key::Space => 4,
            Key::F11 => 5,
            Key::Other(code) => 6 + code as u64,
        }
    }
}

/// The pressed/released state of every key that an event has reported.
pub struct InputManager {
    keys: HashMap<u64, bool>,
}

impl View for InputManager {
    type V = Map<Key, bool>;

    /// The recorded states, by key. A key that was never set is absent.
    closed spec fn view(&self) -> Map<Key, bool> {
        Map::new(
            |key: Key| self.keys@.contains_key(key.slot()),
            |key: Key| self.keys@[key.slot()],
        )
    }
}

/// Whether `key` counts as held down in the recorded states `states`.
pub open spec fn pressed_in(states: Map<Key, bool>, key: Key) -> bool {
    states.contains_key(key) && states[key]
}

impl InputManager {
    /// A table in which no key has been set.
    pub fn new() -> (r: Self)
        ensures
            r@ == Map::<Key, bool>::empty(),
    {
        let r = InputManager { keys: HashMap::new() };
        assert(r@ =~= Map::<Key, bool>::empty());
        r
    }

    /// Whether `key` is held down; `false` for a key that was never set.
    pub fn key_pressed(&self, key: Key) -> (r: bool)
        ensures
            r == pressed_in(self@, key),
    {
        let slot = key.to_slot();
        match self.keys.get(&slot) {
            Some(state) => *state,
            None => false,
        }
    }

    /// Records `state` for `key` and leaves every other key as it was.
    pub fn set_key_state(&mut self, key: Key, state: bool)
        ensures
            final(self)@ == old(self)@.insert(key, state),
    {
        let slot = key.to_slot();
        self.keys.insert(slot, state);
        proof {
            assert forall|other: Key| other.slot() == key.slot() implies other == key by {
                Key::lemma_slot_injective(other, key);
            }
            assert(self@ =~= old(self)@.insert(key, state));
        }
    }

    /// Releases `key`: the edge-triggered reset that ends a frame.
    pub fn clear(&mut self, key: Key)
        ensures
            final(self)@ == old(self)@.insert(key, false),
    {
        self.set_key_state(key, false);
    }
}

/// The states recorded after the calls `calls` of `set_key_state`, made in
/// order on the table `states`.
pub open spec fn after_sets(states: Map<Key, bool>, calls: Seq<(Key, bool)>) -> Map<Key, bool>
    decreases calls.len(),
{
    if calls.len() == 0 {
        states
    } else {
        after_sets(states, calls.drop_last()).insert(calls.last().0, calls.last().1)
    }
}

/// A key that no call of `set_key_state` has named is not pressed, whatever
/// was set for other keys since the table was made.
pub proof fn lemma_unset_key_not_pressed(calls: Seq<(Key, bool)>, key: Key)
    requires
        forall|i: int| 0 <= i < calls.len() ==> (#[trigger] calls[i]).0 != key,
    ensures
        !after_sets(Map::<Key, bool>::empty(), calls).contains_key(key),
        !pressed_in(after_sets(Map::<Key, bool>::empty(), calls), key),
    decreases calls.len(),
{
    if calls.len() > 0 {
        let earlier = calls.drop_last();
        assert forall|i: int| 0 <= i < earlier.len() implies (#[trigger] earlier[i]).0 != key by {
            assert(earlier[i] == calls[i]);
        }
        lemma_unset_key_not_pressed(earlier, key);
        assert(calls.last() == calls[calls.len() - 1]);
    }
}

/// Setting a key decides what is read back for it, and changes what is read
/// back for no other key.
pub proof fn lemma_set_then_read(states: Map<Key, bool>, key: Key, state: bool, other: Key)
    ensures
        pressed_in(states.insert(key, state), key) == state,
        other != key ==> pressed_in(states.insert(key, state), other) == pressed_in(states, other),
{
}

} // verus!
