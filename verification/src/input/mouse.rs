//! The mouse as an input element: the latched pressed state of every
//! button that was ever reported, viewed as a map from button to state.

use vstd::prelude::*;
use crate::event::{Event, MouseButton};

verus! {

/// The latched button states as a map: later entries win.
pub open spec fn button_map_of(s: Seq<(MouseButton, bool)>) -> Map<MouseButton, bool>
    decreases s.len(),
{
    if s.len() == 0 {
        Map::empty()
    } else {
        button_map_of(s.drop_last()).insert(s.last().0, s.last().1)
    }
}

/// No button occurs twice among the entries.
pub open spec fn unique_buttons(s: Seq<(MouseButton, bool)>) -> bool {
    forall|a: int, b: int| 0 <= a < b < s.len() ==> (#[trigger] s[a]).0 != (#[trigger] s[b]).0
}

/// An entry of a unique-keys sequence is exactly what the map holds.
proof fn lemma_button_map_index(s: Seq<(MouseButton, bool)>, i: int)
    requires
        unique_buttons(s),
        0 <= i < s.len(),
    ensures
        button_map_of(s).contains_key(s[i].0),
        button_map_of(s)[s[i].0] == s[i].1,
    decreases s.len(),
{
    if i < s.len() - 1 {
        lemma_button_map_index(s.drop_last(), i);
    }
}

/// A key that occurs in no entry is not in the map.
proof fn lemma_button_map_absent(s: Seq<(MouseButton, bool)>, key: MouseButton)
    requires
        forall|j: int| 0 <= j < s.len() ==> (#[trigger] s[j]).0 != key,
    ensures
        !button_map_of(s).contains_key(key),
    decreases s.len(),
{
    if s.len() > 0 {
        lemma_button_map_absent(s.drop_last(), key);
    }
}

/// Overwriting the entry that holds `key` inserts into the map.
proof fn lemma_button_map_update(s: Seq<(MouseButton, bool)>, i: int, key: MouseButton, v: bool)
    requires
        unique_buttons(s),
        0 <= i < s.len(),
        s[i].0 == key,
    ensures
        button_map_of(s.update(i, (key, v))) == button_map_of(s).insert(key, v),
    decreases s.len(),
{
    let t = s.update(i, (key, v));
    if i == s.len() - 1 {
        assert(t.drop_last() =~= s.drop_last());
        assert(button_map_of(s.drop_last()).insert(key, s.last().1).insert(key, v)
            =~= button_map_of(s.drop_last()).insert(key, v));
    } else {
        assert(t.last() == s.last());
        assert(t.drop_last() =~= s.drop_last().update(i, (key, v)));
        lemma_button_map_update(s.drop_last(), i, key, v);
        assert(s.last().0 != key);
        assert(button_map_of(s.drop_last()).insert(key, v).insert(s.last().0, s.last().1)
            =~= button_map_of(s.drop_last()).insert(s.last().0, s.last().1).insert(key, v));
    }
}

/// Contains all the necessary data to interact with the mouse as an
/// input element.
pub struct Mouse {
    buttons: Vec<(MouseButton, bool)>,
}

impl Mouse {
    /// Every button owns at most one entry.
    pub closed spec fn wf(&self) -> bool {
        unique_buttons(self.buttons@)
    }

    /// The latched state of every reported button.
    pub closed spec fn button_map(&self) -> Map<MouseButton, bool> {
        button_map_of(self.buttons@)
    }

    pub fn new() -> (m: Mouse)
        ensures
            m.wf(),
            m.button_map() == Map::<MouseButton, bool>::empty(),
    {
        let buttons: Vec<(MouseButton, bool)> = Vec::new();
        Self { buttons }
    }

    /// Set a button an its state.
    pub fn set_button(&mut self, button: MouseButton, is_pressed: bool)
        requires
            old(self).wf(),
        ensures
            final(self).wf(),
            final(self).button_map() == old(self).button_map().insert(button, is_pressed),
    {
        let n: usize = self.buttons.len();
        let mut i: usize = 0;
        while i < n
            invariant
                unique_buttons(self.buttons@),
                *self == *old(self),
                n == self.buttons@.len(),
                i <= n,
                forall|j: int| 0 <= j < i ==> (#[trigger] self.buttons@[j]).0 != button,
            decreases n - i,
        {
            let (k, _) = self.buttons[i];
            if k == button {
                self.buttons[i] = (button, is_pressed);
                proof {
                    lemma_button_map_update(old(self).buttons@, i as int, button, is_pressed);
                    assert forall|a: int, b: int|
                        0 <= a < b < self.buttons@.len() implies (#[trigger] self.buttons@[a]).0 != (
                    #[trigger] self.buttons@[b]).0 by {
                        assert(self.buttons@[a].0 == old(self).buttons@[a].0);
                        assert(self.buttons@[b].0 == old(self).buttons@[b].0);
                    }
                }
                return ;
            }
            i = i + 1;
        }
        self.buttons.push((button, is_pressed));
        proof {
            assert(self.buttons@.drop_last() =~= old(self).buttons@);
        }
    }

    /// Check the state of a button: its latched state, or released if it
    /// was never reported.
    pub fn is_pressed(&self, button: MouseButton) -> (r: bool)
        requires
            self.wf(),
        ensures
            r == if self.button_map().contains_key(button) {
                self.button_map()[button]
            } else {
                false
            },
    {
        let n: usize = self.buttons.len();
        let mut i: usize = 0;
        while i < n
            invariant
                self.wf(),
                n == self.buttons@.len(),
                i <= n,
                forall|j: int| 0 <= j < i ==> (#[trigger] self.buttons@[j]).0 != button,
            decreases n - i,
        {
            let (k, pressed) = self.buttons[i];
            if k == button {
                proof {
                    lemma_button_map_index(self.buttons@, i as int);
                }
                return pressed;
            }
            i = i + 1;
        }
        proof {
            lemma_button_map_absent(self.buttons@, button);
        }
        false
    }

    /// Latch the state carried by a mouse button event; ignore the rest.
    pub fn process_events(&mut self, event: Event)
        requires
            old(self).wf(),
        ensures
            final(self).wf(),
            final(self).button_map() == match event {
                Event::MouseInput { button, is_pressed } => old(self).button_map().insert(
                    button,
                    is_pressed,
                ),
                _ => old(self).button_map(),
            },
    {
        match event {
            Event::MouseInput { button, is_pressed } => {
                self.set_button(button, is_pressed);
            },
            _ => {},
        }
    }
}

impl Default for Mouse {
    fn default() -> (m: Mouse)
        ensures
            m.wf(),
            m.button_map() == Map::<MouseButton, bool>::empty(),
    {
        Self::new()
    }
}

} // verus!
