//! Keyboard state management.

use crate::event::{Key, KeyMod};
use vstd::prelude::*;

verus! {

/// Keyboard state: the key entered and the text typed this frame, the keys held down and the
/// modifiers last reported.
#[derive(Debug)]
pub struct KeyState {
    pub entered: Option<Key>,
    pub typed: Option<String>,
    pub pressed: Vec<Key>,
    pub keymod: KeyMod,
}

/// The abstract keyboard state.
pub struct KeyStateView {
    pub entered: Option<Key>,
    pub typed: Option<Seq<char>>,
    pub pressed: Set<Key>,
    pub keymod: u16,
}

/// The view of an optional string.
pub open spec fn opt_text(t: Option<String>) -> Option<Seq<char>> {
    match t {
        Some(s) => Some(s@),
        None => None,
    }
}

impl View for KeyState {
    type V = KeyStateView;

    open spec fn view(&self) -> KeyStateView {
        KeyStateView {
            entered: self.entered,
            typed: opt_text(self.typed),
            pressed: self.pressed@.to_set(),
            keymod: self.keymod@,
        }
    }
}

/// The position of `key` in `keys`, if it is there.
fn key_position(keys: &Vec<Key>, key: Key) -> (r: Option<usize>)
    ensures
        match r {
            Some(i) => i < keys@.len() && keys@[i as int] == key,
            None => !keys@.contains(key),
        },
{
    let mut i: usize = 0;
    while i < keys.len()
        invariant
            i <= keys@.len(),
            forall|j: int| 0 <= j < i ==> keys@[j] != key,
        decreases keys@.len() - i,
    {
        if keys[i] == key {
            return Some(i);
        }
        i += 1;
    }
    None
}

impl KeyState {
    /// Whether the held keys are recorded once each.
    pub open spec fn wf(&self) -> bool {
        self.pressed@.no_duplicates()
    }

    /// A keyboard with nothing entered, typed or held, and no modifier.
    pub fn new() -> (k: Self)
        ensures
            k.wf(),
            k@.entered is None,
            k@.typed is None,
            k@.pressed == Set::<Key>::empty(),
            k@.keymod == 0,
    {
        let k = KeyState { entered: None, typed: None, pressed: Vec::new(), keymod: KeyMod::none() };
        assert(k.pressed@.to_set() =~= Set::<Key>::empty());
        k
    }

    /// Returns if any key is held down.
    pub fn is_pressed(&self) -> (b: bool)
        requires
            self.wf(),
        ensures
            b == !self@.pressed.is_empty(),
    {
        proof {
            if self.pressed@.len() > 0 {
                assert(self.pressed@.to_set().contains(self.pressed@[0]));
            } else {
                assert(self.pressed@.to_set() =~= Set::<Key>::empty());
            }
        }
        self.pressed.len() != 0
    }

    /// Returns if a specific [Key] is held down.
    pub fn is_down(&self, key: Key) -> (b: bool)
        ensures
            b == self@.pressed.contains(key),
    {
        key_position(&self.pressed, key).is_some()
    }

    /// Returns if a specific [Key] was entered this frame.
    pub fn was_entered(&self, key: Key) -> (b: bool)
        ensures
            b == (self@.entered == Some(key)),
    {
        match self.entered {
            Some(k) => k == key,
            None => false,
        }
    }

    /// Returns if any of the given [`KeyMod`] modifiers is held.
    pub fn mod_down(&self, keymod: KeyMod) -> (b: bool)
        ensures
            b == (self@.keymod & keymod@ != 0),
    {
        self.keymod.intersects(keymod)
    }

    /// Records `key` as entered this frame and held down, with the modifiers `keymod`.
    pub fn press(&mut self, key: Key, keymod: KeyMod)
        requires
            old(self).wf(),
        ensures
            final(self).wf(),
            final(self)@.entered == Some(key),
            final(self)@.typed == old(self)@.typed,
            final(self)@.pressed == old(self)@.pressed.insert(key),
            final(self)@.keymod == keymod@,
    {
        self.entered = Some(key);
        let ghost before = self.pressed@;
        if key_position(&self.pressed, key).is_none() {
            self.pressed.push(key);
            proof {
                let after = self.pressed@;
                assert(after =~= before.push(key));
                assert forall|k: Key| after.contains(k) <==> before.to_set().insert(key).contains(k) by {
                    if after.contains(k) {
                        let j = choose|j: int| 0 <= j < after.len() && after[j] == k;
                        if j < before.len() {
                            assert(before[j] == k);
                        }
                    }
                    if before.contains(k) {
                        let j = choose|j: int| 0 <= j < before.len() && before[j] == k;
                        assert(after[j] == k);
                    }
                    if k == key {
                        assert(after[before.len() as int] == k);
                    }
                }
                assert(after.to_set() =~= before.to_set().insert(key));
            }
        } else {
            assert(before.to_set() =~= before.to_set().insert(key));
        }
        self.keymod = keymod;
    }

    /// Records `key` as no longer held, with the modifiers `keymod`.
    pub fn release(&mut self, key: Key, keymod: KeyMod)
        requires
            old(self).wf(),
        ensures
            final(self).wf(),
            final(self)@.entered == old(self)@.entered,
            final(self)@.typed == old(self)@.typed,
            final(self)@.pressed == old(self)@.pressed.remove(key),
            final(self)@.keymod == keymod@,
    {
        let ghost before = self.pressed@;
        if let Some(i) = key_position(&self.pressed, key) {
            self.pressed.remove(i);
            proof {
                let after = self.pressed@;
                assert(after =~= before.remove(i as int));
                assert forall|k: Key| after.contains(k) <==> before.to_set().remove(key).contains(k) by {
                    if after.contains(k) {
                        let j = choose|j: int| 0 <= j < after.len() && after[j] == k;
                        if j < i {
                            assert(before[j] == k);
                        } else {
                            assert(before[j + 1] == k);
                            assert(j + 1 != i);
                        }
                    }
                    if before.contains(k) && k != key {
                        let j = choose|j: int| 0 <= j < before.len() && before[j] == k;
                        assert(j != i);
                        if j < i {
                            assert(after[j] == k);
                        } else {
                            assert(after[j - 1] == k);
                        }
                    }
                }
                assert(after.to_set() =~= before.to_set().remove(key));
            }
        } else {
            assert(self.pressed@.to_set() =~= before.to_set().remove(key));
        }
        self.keymod = keymod;
    }

    /// Records `text` as typed this frame.
    pub fn typed(&mut self, text: String)
        requires
            old(self).wf(),
        ensures
            final(self).wf(),
            final(self)@.entered == old(self)@.entered,
            final(self)@.typed == Some(text@),
            final(self)@.pressed == old(self)@.pressed,
            final(self)@.keymod == old(self)@.keymod,
    {
        self.typed = Some(text);
    }
}

/// A key held down is reported down until it is released, and released keys are not.
pub proof fn lemma_press_release(k: KeyState, pressed: KeyState, released: KeyState, key: Key, other: Key)
    requires
        pressed@.pressed == k@.pressed.insert(key),
        released@.pressed == pressed@.pressed.remove(key),
        other != key,
    ensures
        pressed@.pressed.contains(key),
        !released@.pressed.contains(key),
        released@.pressed.contains(other) == k@.pressed.contains(other),
{
}

} // verus!
