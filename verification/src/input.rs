//! The 16-key keypad as the core sees it: a pressed/released flag per
//! logical key. Mapping physical keyboard events onto these indices is the
//! platform layer's concern; it reports the result here.

use vstd::prelude::*;

verus! {

/// The pressed state of the sixteen logical keys 0x0..=0xF.
pub struct Input {
    keys: Vec<bool>,
}

impl View for Input {
    type V = Seq<bool>;

    closed spec fn view(&self) -> Seq<bool> {
        self.keys@
    }
}

impl Input {
    /// There is exactly one flag per key.
    pub open spec fn wf(self) -> bool {
        self@.len() == 16
    }

    /// A keypad with every key released.
    pub fn new() -> (r: Input)
        ensures
            r.wf(),
            forall|k: int| 0 <= k < 16 ==> !r@[k],
    {
        let mut keys: Vec<bool> = Vec::new();
        let mut i: usize = 0;
        while i < 16
            invariant
                i <= 16,
                keys@.len() == i,
                forall|j: int| 0 <= j < i ==> !keys@[j],
            decreases 16 - i,
        {
            keys.push(false);
            i = i + 1;
        }
        Input { keys }
    }

    /// Record that key `key` is now pressed or released.
    pub fn set_key(&mut self, key: usize, pressed: bool)
        requires
            old(self).wf(),
            key < 16,
        ensures
            final(self).wf(),
            final(self)@ == old(self)@.update(key as int, pressed),
    {
        self.keys[key] = pressed;
    }

    /// Whether key `key` is currently pressed.
    pub fn is_pressed(&self, key: usize) -> (r: bool)
        requires
            self.wf(),
            key < 16,
        ensures
            r == self@[key as int],
    {
        self.keys[key]
    }

    /// The lowest-numbered key currently pressed, if any: the key that
    /// resolves a pending key-wait.
    pub fn get_first_pressed_key(&self) -> (r: Option<usize>)
        requires
            self.wf(),
        ensures
            match r {
                Some(k) => k < 16 && self@[k as int] && forall|j: int| 0 <= j < k ==> !self@[j],
                None => forall|j: int| 0 <= j < 16 ==> !self@[j],
            },
    {
        let mut i: usize = 0;
        while i < 16
            invariant
                self.wf(),
                i <= 16,
                forall|j: int| 0 <= j < i ==> !self@[j],
            decreases 16 - i,
        {
            if self.keys[i] {
                return Some(i);
            }
            i = i + 1;
        }
        None
    }
}

} // verus!
