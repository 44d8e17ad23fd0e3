//! Key input for shapes that react to the keyboard: a key code enumeration
//! and the set of currently-held keys.
//!
//! Holding is tracked exactly as host events arrive: a key-down inserts
//! the key only if it is absent (repeated down events leave the set
//! unchanged), a key-up removes the first occurrence and is a no-op if the
//! key is not held.

use vstd::prelude::*;

verus! {

/// A platform key code. The directional keys drive movement; any other key a
/// host forwards is carried as `Other` with its platform-defined number.
#[derive(Clone, Copy, PartialEq, Eq, Structural, Debug)]
pub enum KeyCode {
    Up,
    Down,
    Left,
    Right,
    Other { code: u32 },
}

/// What a key-down event does to the held-key sequence: insert the key at
/// the end, unless it is already held.
pub open spec fn pressed(keys: Seq<KeyCode>, key: KeyCode) -> Seq<KeyCode> {
    if keys.contains(key) {
        keys
    } else {
        keys.push(key)
    }
}

/// What a key-up event does to the held-key sequence: remove the first
/// occurrence of the key, if any.
pub open spec fn released(keys: Seq<KeyCode>, key: KeyCode) -> Seq<KeyCode> {
    keys.remove_value(key)
}

/// The set of currently-held keys, in the order they were first pressed.
/// Its view is that sequence; it never holds a key twice unless constructed
/// oddly, and the update functions below never duplicate an entry.
#[derive(Debug)]
pub struct InputModel {
    keys_down: Vec<KeyCode>,
}

impl View for InputModel {
    type V = Seq<KeyCode>;

    closed spec fn view(&self) -> Seq<KeyCode> {
        self.keys_down@
    }
}

impl InputModel {
    /// No keys held.
    pub fn new() -> (m: InputModel)
        ensures
            m@ == Seq::<KeyCode>::empty(),
    {
        InputModel { keys_down: Vec::new() }
    }

    /// How many keys are currently held.
    pub fn len(&self) -> (n: usize)
        ensures
            n == self@.len(),
    {
        self.keys_down.len()
    }

    /// Whether the given key is currently held.
    pub fn holds(&self, key: KeyCode) -> (r: bool)
        ensures
            r == self@.contains(key),
    {
        let n: usize = self.keys_down.len();
        let mut i: usize = 0;
        while i < n
            invariant
                n == self@.len(),
                i <= n,
                forall|j: int| 0 <= j < i ==> self@[j] != key,
            decreases n - i,
        {
            if self.keys_down[i] == key {
                return true;
            }
            i = i + 1;
        }
        false
    }

    /// Record a key-down event: idempotent insertion.
    pub fn key_down(&mut self, key: KeyCode)
        ensures
            final(self)@ == pressed(old(self)@, key),
    {
        if !self.holds(key) {
            self.keys_down.push(key);
        }
    }

    /// The position of the first occurrence of the given key, if it is held.
    fn position(&self, key: KeyCode) -> (r: Option<usize>)
        ensures
            match r {
                Some(i) => self@.index_of_first(key) == Some(i as int),
                None => !self@.contains(key),
            },
    {
        let ghost keys = self@;
        let n: usize = self.keys_down.len();
        let mut i: usize = 0;
        while i < n
            invariant
                self@ == keys,
                n == keys.len(),
                i <= n,
                forall|j: int| 0 <= j < i ==> keys[j] != key,
            decreases n - i,
        {
            if self.keys_down[i] == key {
                proof {
                    keys.index_of_first_ensures(key);
                    assert(keys.contains(key));
                    let idx = keys.index_of_first(key).unwrap();
                    assert(keys[idx] == key);
                    assert(idx == i) by {
                        if idx < i {
                            assert(keys[idx] != key);
                        }
                        if i < idx {
                            assert(keys[i as int] != key);
                        }
                    }
                }
                return Some(i);
            }
            i = i + 1;
        }
        proof {
            assert(!keys.contains(key)) by {
                if keys.contains(key) {
                    let w = choose|w: int| 0 <= w < keys.len() && keys[w] == key;
                    assert(keys[w] != key);
                }
            }
        }
        None
    }

    /// Record a key-up event: removes the first occurrence, no-op if absent.
    pub fn key_up(&mut self, key: KeyCode)
        ensures
            final(self)@ == released(old(self)@, key),
    {
        let found: Option<usize> = self.position(key);
        match found {
            Some(i) => {
                proof {
                    old(self)@.index_of_first_ensures(key);
                }
                self.keys_down.remove(i);
            },
            None => {
                proof {
                    old(self)@.index_of_first_ensures(key);
                }
            },
        }
    }
}

/// Key-down is idempotent: pressing a key that is already held — in
/// particular, pressing the same key twice without an intervening release —
/// leaves the held-key sequence exactly as it was.
pub proof fn lemma_key_down_idempotent(keys: Seq<KeyCode>, key: KeyCode)
    ensures
        pressed(pressed(keys, key), key) == pressed(keys, key),
{
    if !keys.contains(key) {
        assert(keys.push(key)[keys.len() as int] == key);
        assert(keys.push(key).contains(key));
    }
}

/// Releasing a key that is not currently held leaves the held-key sequence
/// unchanged.
pub proof fn lemma_key_up_absent(keys: Seq<KeyCode>, key: KeyCode)
    requires
        !keys.contains(key),
    ensures
        released(keys, key) == keys,
{
    keys.index_of_first_ensures(key);
}

} // verus!
