//! The input-state snapshot handed to components each tick.
//!
//! The core does not track the windowing system's own key and button types;
//! the outside event loop translates them to plain integer codes and feeds
//! them in. Key and button states are kept as first-match association
//! lists, exactly as the lookups below read them.

use vstd::prelude::*;
use crate::math::{Vec2i, Vec2u};

verus! {

/// The per-frame state of one mouse button.
#[derive(Clone, Copy, Debug, PartialEq, Eq, Structural)]
pub struct MouseButtonInfo {
    pub state: bool,
    pub clicked: bool,
    pub released: bool,
}

impl Default for MouseButtonInfo {
    fn default() -> (r: Self)
        ensures
            r.state == false,
            r.clicked == false,
            r.released == false,
    {
        MouseButtonInfo { state: false, clicked: false, released: false }
    }
}


/// `r` is what a first-match scan of `entries` reads for `code`: the state
/// of the first entry with that code, or `false` when there is none.
pub open spec fn entry_lookup(entries: Seq<(u32, bool)>, code: u32, r: bool) -> bool {
    ||| (exists|i: int|
        0 <= i < entries.len() && entries[i].0 == code && r == entries[i].1
            && (forall|j: int| 0 <= j < i ==> (#[trigger] entries[j]).0 != code))
    ||| ((forall|i: int| 0 <= i < entries.len() ==> (#[trigger] entries[i]).0 != code)
        && r == false)
}

/// `after` is `before` with `state` stored for `code`: the first entry with
/// that code overwritten, or a fresh entry appended when there is none.
pub open spec fn entry_store(
    before: Seq<(u32, bool)>,
    after: Seq<(u32, bool)>,
    code: u32,
    state: bool,
) -> bool {
    ||| (exists|i: int|
        0 <= i < before.len() && before[i].0 == code
            && (forall|j: int| 0 <= j < i ==> (#[trigger] before[j]).0 != code)
            && after == before.update(i, (code, state)))
    ||| ((forall|i: int| 0 <= i < before.len() ==> (#[trigger] before[i]).0 != code)
        && after == before.push((code, state)))
}

/// Reads the state stored for `code`, or `false` when no entry exists.
fn lookup_entry(entries: &Vec<(u32, bool)>, code: u32) -> (r: bool)
    ensures
        entry_lookup(entries@, code, r),
{
    let mut i: usize = 0;
    while i < entries.len()
        invariant
            i <= entries@.len(),
            forall|j: int| 0 <= j < i ==> (#[trigger] entries@[j]).0 != code,
        decreases entries@.len() - i,
    {
        let (k, v): (u32, bool) = entries[i];
        if k == code {
            return v;
        }
        i = i + 1;
    }
    false
}

/// Stores `state` for `code`: overwrites the first entry with that code, or
/// appends a fresh entry when none exists.
fn store_entry(entries: &mut Vec<(u32, bool)>, code: u32, state: bool)
    ensures
        entry_store(old(entries)@, final(entries)@, code, state),
{
    let mut i: usize = 0;
    while i < entries.len()
        invariant
            i <= entries@.len(),
            entries@ == old(entries)@,
            forall|j: int| 0 <= j < i ==> (#[trigger] entries@[j]).0 != code,
        decreases entries@.len() - i,
    {
        if entries[i].0 == code {
            entries[i] = (code, state);
            return ;
        }
        i = i + 1;
    }
    entries.push((code, state));
}

/// The input snapshot: boolean key and mouse-button states by integer code,
/// plus the mouse position in frame-buffer pixels.
pub struct InputInfo {
    keymap: Vec<(u32, bool)>,
    mousemap: Vec<(u32, bool)>,
    current_mouse_pixel_pos: Vec2u,
    last_mouse_pixel_pos: Vec2u,
    left_mouse_state: MouseButtonInfo,
}

impl InputInfo {
    pub closed spec fn spec_keymap(&self) -> Seq<(u32, bool)> {
        self.keymap@
    }

    pub closed spec fn spec_mousemap(&self) -> Seq<(u32, bool)> {
        self.mousemap@
    }

    pub closed spec fn spec_mouse_pixel_pos(&self) -> Vec2u {
        self.current_mouse_pixel_pos
    }

    pub closed spec fn spec_last_mouse_pixel_pos(&self) -> Vec2u {
        self.last_mouse_pixel_pos
    }

    pub closed spec fn spec_left_mouse(&self) -> MouseButtonInfo {
        self.left_mouse_state
    }

    pub fn new() -> (r: InputInfo)
        ensures
            r.spec_keymap() == Seq::<(u32, bool)>::empty(),
            r.spec_mousemap() == Seq::<(u32, bool)>::empty(),
            r.spec_mouse_pixel_pos() == (Vec2u { x: 0, y: 0 }),
            r.spec_last_mouse_pixel_pos() == (Vec2u { x: 0, y: 0 }),
            r.spec_left_mouse() == (MouseButtonInfo { state: false, clicked: false, released: false }),
    {
        InputInfo {
            keymap: Vec::new(),
            mousemap: Vec::new(),
            current_mouse_pixel_pos: Vec2u::zero(),
            last_mouse_pixel_pos: Vec2u::zero(),
            left_mouse_state: MouseButtonInfo::default(),
        }
    }

    /// End-of-tick housekeeping: the one-shot click and release flags fall
    /// back to false and the last mouse position catches up.
    pub fn update(&mut self)
        ensures
            final(self).spec_keymap() == old(self).spec_keymap(),
            final(self).spec_mousemap() == old(self).spec_mousemap(),
            final(self).spec_mouse_pixel_pos() == old(self).spec_mouse_pixel_pos(),
            final(self).spec_last_mouse_pixel_pos() == old(self).spec_mouse_pixel_pos(),
            final(self).spec_left_mouse() == (MouseButtonInfo {
                clicked: false,
                released: false,
                ..old(self).spec_left_mouse()
            }),
    {
        self.left_mouse_state.clicked = false;
        self.left_mouse_state.released = false;
        let pos: Vec2u = self.current_mouse_pixel_pos;
        self.last_mouse_pixel_pos.set_from(&pos);
    }

    pub fn update_mouse_pixel_pos(&mut self, x: u32, y: u32)
        ensures
            final(self).spec_keymap() == old(self).spec_keymap(),
            final(self).spec_mousemap() == old(self).spec_mousemap(),
            final(self).spec_left_mouse() == old(self).spec_left_mouse(),
            final(self).spec_last_mouse_pixel_pos() == old(self).spec_mouse_pixel_pos(),
            final(self).spec_mouse_pixel_pos() == (Vec2u { x, y }),
    {
        let pos: Vec2u = self.current_mouse_pixel_pos;
        self.last_mouse_pixel_pos.set_from(&pos);
        self.current_mouse_pixel_pos.set_xy(x, y);
    }

    pub fn get_mouse_pixel_pos(&self) -> (r: &Vec2u)
        ensures
            *r == self.spec_mouse_pixel_pos(),
    {
        &self.current_mouse_pixel_pos
    }

    /// How far the mouse moved, in pixels, since the last recorded position.
    pub fn get_mouse_pixel_delta(&self) -> (r: Vec2i)
        requires
            self.spec_mouse_pixel_pos().x <= i32::MAX,
            self.spec_mouse_pixel_pos().y <= i32::MAX,
            self.spec_last_mouse_pixel_pos().x <= i32::MAX,
            self.spec_last_mouse_pixel_pos().y <= i32::MAX,
        ensures
            r.x == self.spec_mouse_pixel_pos().x - self.spec_last_mouse_pixel_pos().x,
            r.y == self.spec_mouse_pixel_pos().y - self.spec_last_mouse_pixel_pos().y,
    {
        let (cx, cy): (u32, u32) = self.current_mouse_pixel_pos.get_xy();
        let (lx, ly): (u32, u32) = self.last_mouse_pixel_pos.get_xy();
        Vec2i::new((cx as i32) - (lx as i32), (cy as i32) - (ly as i32))
    }

    /// Whether the key with `code` is currently held; an unseen key reads
    /// as released.
    pub fn get_key(&self, code: u32) -> (r: bool)
        ensures
            entry_lookup(self.spec_keymap(), code, r),
    {
        lookup_entry(&self.keymap, code)
    }

    /// Records a key transition reported by the event loop.
    pub fn set_key(&mut self, key: u32, pressed: bool)
        ensures
            final(self).spec_mousemap() == old(self).spec_mousemap(),
            final(self).spec_mouse_pixel_pos() == old(self).spec_mouse_pixel_pos(),
            final(self).spec_last_mouse_pixel_pos() == old(self).spec_last_mouse_pixel_pos(),
            final(self).spec_left_mouse() == old(self).spec_left_mouse(),
            entry_store(old(self).spec_keymap(), final(self).spec_keymap(), key, pressed),
    {
        store_entry(&mut self.keymap, key, pressed);
    }

    /// Whether the mouse button with `code` is currently held.
    pub fn get_mouse_button(&self, mb: u32) -> (r: bool)
        ensures
            entry_lookup(self.spec_mousemap(), mb, r),
    {
        lookup_entry(&self.mousemap, mb)
    }

    /// A click edge-detector that was never wired up: it reports no clicks.
    pub fn get_mouse_clicked(&self, mb: u32) -> (r: bool)
        ensures
            r == false,
    {
        let _ = mb;
        false
    }

    /// Records a mouse-button transition reported by the event loop.
    pub fn set_mouse_button(&mut self, mb: u32, pressed: bool)
        ensures
            final(self).spec_keymap() == old(self).spec_keymap(),
            final(self).spec_mouse_pixel_pos() == old(self).spec_mouse_pixel_pos(),
            final(self).spec_last_mouse_pixel_pos() == old(self).spec_last_mouse_pixel_pos(),
            final(self).spec_left_mouse() == old(self).spec_left_mouse(),
            entry_store(old(self).spec_mousemap(), final(self).spec_mousemap(), mb, pressed),
    {
        store_entry(&mut self.mousemap, mb, pressed);
    }
}

} // verus!
