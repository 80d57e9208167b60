//! The keyboard as an input element: the latched pressed state of every
//! key that was ever reported, viewed as a map from key to state.

use vstd::prelude::*;
use crate::event::{Event, KeyCode};

verus! {

/// The latched key states as a map: later entries win.
pub open spec fn key_map_of(s: Seq<(KeyCode, bool)>) -> Map<KeyCode, bool>
    decreases s.len(),
{
    if s.len() == 0 {
        Map::empty()
    } else {
        key_map_of(s.drop_last()).insert(s.last().0, s.last().1)
    }
}

/// No key occurs twice among the entries.
pub open spec fn unique_keys(s: Seq<(KeyCode, bool)>) -> bool {
    forall|a: int, b: int| 0 <= a < b < s.len() ==> (#[trigger] s[a]).0 != (#[trigger] s[b]).0
}

/// An entry of a unique-keys sequence is exactly what the map holds.
proof fn lemma_key_map_index(s: Seq<(KeyCode, bool)>, i: int)
    requires
        unique_keys(s),
        0 <= i < s.len(),
    ensures
        key_map_of(s).contains_key(s[i].0),
        key_map_of(s)[s[i].0] == s[i].1,
    decreases s.len(),
{
    if i < s.len() - 1 {
        lemma_key_map_index(s.drop_last(), i);
    }
}

/// A key that occurs in no entry is not in the map.
proof fn lemma_key_map_absent(s: Seq<(KeyCode, bool)>, key: KeyCode)
    requires
        forall|j: int| 0 <= j < s.len() ==> (#[trigger] s[j]).0 != key,
    ensures
        !key_map_of(s).contains_key(key),
    decreases s.len(),
{
    if s.len() > 0 {
        lemma_key_map_absent(s.drop_last(), key);
    }
}

/// Overwriting the entry that holds `key` inserts into the map.
proof fn lemma_key_map_update(s: Seq<(KeyCode, bool)>, i: int, key: KeyCode, v: bool)
    requires
        unique_keys(s),
        0 <= i < s.len(),
        s[i].0 == key,
    ensures
        key_map_of(s.update(i, (key, v))) == key_map_of(s).insert(key, v),
    decreases s.len(),
{
    let t = s.update(i, (key, v));
    if i == s.len() - 1 {
        assert(t.drop_last() =~= s.drop_last());
        assert(key_map_of(s.drop_last()).insert(key, s.last().1).insert(key, v)
            =~= key_map_of(s.drop_last()).insert(key, v));
    } else {
        assert(t.last() == s.last());
        assert(t.drop_last() =~= s.drop_last().update(i, (key, v)));
        lemma_key_map_update(s.drop_last(), i, key, v);
        assert(s.last().0 != key);
        assert(key_map_of(s.drop_last()).insert(key, v).insert(s.last().0, s.last().1)
            =~= key_map_of(s.drop_last()).insert(s.last().0, s.last().1).insert(key, v));
    }
}

/// Contains all the necessary data to interact with the keyboard as an
/// input element.
pub struct Keyboard {
    keys: Vec<(KeyCode, bool)>,
}

impl Keyboard {
    /// Every key owns at most one entry.
    pub closed spec fn wf(&self) -> bool {
        unique_keys(self.keys@)
    }

    /// The latched state of every reported key.
    pub closed spec fn key_map(&self) -> Map<KeyCode, bool> {
        key_map_of(self.keys@)
    }

    pub fn new() -> (k: Keyboard)
        ensures
            k.wf(),
            k.key_map() == Map::<KeyCode, bool>::empty(),
    {
        let keys: Vec<(KeyCode, bool)> = Vec::new();
        Self { keys }
    }

    /// Set a key and its state.
    pub fn set_key(&mut self, keycode: KeyCode, is_pressed: bool)
        requires
            old(self).wf(),
        ensures
            final(self).wf(),
            final(self).key_map() == old(self).key_map().insert(keycode, is_pressed),
    {
        let n: usize = self.keys.len();
        let mut i: usize = 0;
        while i < n
            invariant
                unique_keys(self.keys@),
                *self == *old(self),
                n == self.keys@.len(),
                i <= n,
                forall|j: int| 0 <= j < i ==> (#[trigger] self.keys@[j]).0 != keycode,
            decreases n - i,
        {
            let (k, _) = self.keys[i];
            if k == keycode {
                self.keys[i] = (keycode, is_pressed);
                proof {
                    lemma_key_map_update(old(self).keys@, i as int, keycode, is_pressed);
                    assert forall|a: int, b: int|
                        0 <= a < b < self.keys@.len() implies (#[trigger] self.keys@[a]).0 != (
                    #[trigger] self.keys@[b]).0 by {
                        assert(self.keys@[a].0 == old(self).keys@[a].0);
                        assert(self.keys@[b].0 == old(self).keys@[b].0);
                    }
                }
                return ;
            }
            i = i + 1;
        }
        self.keys.push((keycode, is_pressed));
        proof {
            assert(self.keys@.drop_last() =~= old(self).keys@);
        }
    }

    /// Check the state of a key: its latched state, or released if it was
    /// never reported.
    pub fn is_pressed(&self, keycode: KeyCode) -> (r: bool)
        requires
            self.wf(),
        ensures
            r == if self.key_map().contains_key(keycode) {
                self.key_map()[keycode]
            } else {
                false
            },
    {
        let n: usize = self.keys.len();
        let mut i: usize = 0;
        while i < n
            invariant
                self.wf(),
                n == self.keys@.len(),
                i <= n,
                forall|j: int| 0 <= j < i ==> (#[trigger] self.keys@[j]).0 != keycode,
            decreases n - i,
        {
            let (k, pressed) = self.keys[i];
            if k == keycode {
                proof {
                    lemma_key_map_index(self.keys@, i as int);
                }
                return pressed;
            }
            i = i + 1;
        }
        proof {
            lemma_key_map_absent(self.keys@, keycode);
        }
        false
    }

    /// Preparation before events get passed.
    pub fn prepare(&mut self)
        ensures
            *final(self) == *old(self),
    {
    }

    /// Latch the state carried by a keyboard event; ignore the rest.
    pub fn process_events(&mut self, event: Event)
        requires
            old(self).wf(),
        ensures
            final(self).wf(),
            final(self).key_map() == match event {
                Event::KeyboardInput { key, is_pressed } => old(self).key_map().insert(
                    key,
                    is_pressed,
                ),
                _ => old(self).key_map(),
            },
    {
        match event {
            Event::KeyboardInput { key, is_pressed } => {
                self.set_key(key, is_pressed);
            },
            _ => {},
        }
    }
}

impl Default for Keyboard {
    fn default() -> (k: Keyboard)
        ensures
            k.wf(),
            k.key_map() == Map::<KeyCode, bool>::empty(),
    {
        Self::new()
    }
}

} // verus!
