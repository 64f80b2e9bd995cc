//! Keyboard state as read from Bevy's input resource.
use bevy_input::keyboard::{KeyCode, NativeKeyCode};
use bevy_input::ButtonInput;
use vstd::prelude::*;

verus! {

#[verifier::external_type_specification]
pub struct ExNativeKeyCode(NativeKeyCode);

#[verifier::external_type_specification]
pub struct ExKeyCode(KeyCode);

#[verifier::external_type_specification]
#[verifier::external_body]
#[verifier::reject_recursive_types(T)]
pub struct ExButtonInput<T: Copy + Eq + core::hash::Hash + Send + Sync + 'static>(ButtonInput<T>);

/// The keys that a keyboard input resource holds as currently pressed.
pub uninterp spec fn pressed_keys(input: ButtonInput<KeyCode>) -> Set<KeyCode>;

/// The keys that a keyboard input resource holds as pressed during the current frame.
pub uninterp spec fn just_pressed_keys(input: ButtonInput<KeyCode>) -> Set<KeyCode>;

/// `ButtonInput::pressed`: whether `key` is in the resource's set of pressed keys.
#[verifier::external_body]
pub(crate) fn key_pressed(input: &ButtonInput<KeyCode>, key: KeyCode) -> (r: bool)
    ensures
        r == pressed_keys(*input).contains(key),
{
    input.pressed(key)
}

/// `ButtonInput::just_pressed`: whether `key` is in the resource's set of keys pressed this frame.
#[verifier::external_body]
pub(crate) fn key_just_pressed(input: &ButtonInput<KeyCode>, key: KeyCode) -> (r: bool)
    ensures
        r == just_pressed_keys(*input).contains(key),
{
    input.just_pressed(key)
}

/// `KeyCode == KeyCode`: `KeyCode` derives `PartialEq`, so the comparison is
/// equality of the two values.
#[verifier::external_body]
pub(crate) fn same_key(a: KeyCode, b: KeyCode) -> (r: bool)
    ensures
        r == (a == b),
{
    a == b
}

/// A set of keys that are meant to be held down together.
pub struct KeyChord {
    keys: Vec<KeyCode>,
}

impl View for KeyChord {
    type V = Set<KeyCode>;

    closed spec fn view(&self) -> Set<KeyCode> {
        self.keys@.to_set()
    }
}

impl KeyChord {
    /// No key is listed twice.
    pub closed spec fn wf(&self) -> bool {
        self.keys@.no_duplicates()
    }

    /// The chord of no keys.
    pub fn new() -> (c: Self)
        ensures
            c.wf(),
            c@ == Set::<KeyCode>::empty(),
    {
        let c = KeyChord { keys: Vec::new() };
        assert(c@ =~= Set::<KeyCode>::empty());
        c
    }

    /// Whether `key` belongs to the chord.
    pub fn contains(&self, key: KeyCode) -> (r: bool)
        ensures
            r == self@.contains(key),
    {
        let mut i: usize = 0;
        while i < self.keys.len()
            invariant
                i <= self.keys.len(),
                forall|j: int| 0 <= j < i ==> self.keys@[j] != key,
            decreases self.keys.len() - i,
        {
            if same_key(self.keys[i], key) {
                assert(self.keys@[i as int] == key);
                return true;
            }
            i += 1;
        }
        false
    }

    /// Adds `key` to the chord.
    pub fn insert(&mut self, key: KeyCode)
        requires
            old(self).wf(),
        ensures
            final(self).wf(),
            final(self)@ == old(self)@.insert(key),
    {
        if !self.contains(key) {
            let ghost before = self.keys@;
            self.keys.push(key);
            proof {
                assert forall|a: int, b: int|
                    0 <= a < self.keys@.len() && 0 <= b < self.keys@.len() && a != b
                    implies self.keys@[a] != self.keys@[b] by {
                    if a == before.len() {
                        assert(before.contains(self.keys@[b]));
                    } else if b == before.len() {
                        assert(before.contains(self.keys@[a]));
                    }
                }
                assert forall|x: KeyCode| self.keys@.contains(x) <==> (before.contains(x) || x == key) by {
                    if self.keys@.contains(x) {
                        let j = choose|j: int| 0 <= j < self.keys@.len() && self.keys@[j] == x;
                        if j < before.len() {
                            assert(before[j] == x);
                        }
                    }
                    if before.contains(x) {
                        let j = choose|j: int| 0 <= j < before.len() && before[j] == x;
                        assert(self.keys@[j] == x);
                    }
                    if x == key {
                        assert(self.keys@[before.len() as int] == x);
                    }
                }
                assert(self.keys@.to_set() =~= before.to_set().insert(key));
            }
        } else {
            assert(self@ =~= old(self)@.insert(key));
        }
    }

    /// The keys of the chord, each once.
    pub fn keys(&self) -> (r: &Vec<KeyCode>)
        ensures
            self.wf() ==> r@.no_duplicates(),
            r@.to_set() == self@,
    {
        &self.keys
    }
}

/// `ButtonInput::all_pressed`: whether every key of the chord is in the
/// resource's set of pressed keys.
#[verifier::external_body]
pub(crate) fn keys_all_pressed(input: &ButtonInput<KeyCode>, chord: &KeyChord) -> (r: bool)
    ensures
        r == chord@.subset_of(pressed_keys(*input)),
{
    input.all_pressed(chord.keys.iter().copied())
}

} // verus!
