//! The scene registry: a name-keyed collection of game objects and the
//! per-frame fan-out of update, render and debug calls.

use vstd::prelude::*;
use crate::color::Color;
use crate::frame::FrameInfo;
use crate::image_buffer::CamBuffer;
use crate::input::InputInfo;
use crate::object::{
    DebugLine, GameObject, object_debug_lines, object_rendered, object_updated_to,
};

verus! {

/// The camera store after every object of a scene has rendered into it, in
/// storage order.
pub open spec fn render_objects(
    s: Seq<GameObject>,
    dest: Seq<Color>,
    dw: int,
    dh: int,
    ox: int,
    oy: int,
) -> Seq<Color>
    decreases s.len(),
{
    if s.len() == 0 {
        dest
    } else {
        object_rendered(s.last(), render_objects(s.drop_last(), dest, dw, dh, ox, oy), dw, dh, ox, oy)
    }
}

/// The debug lines of every object of a scene, concatenated in storage
/// order.
pub open spec fn debug_all(s: Seq<GameObject>) -> Seq<DebugLine>
    decreases s.len(),
{
    if s.len() == 0 {
        Seq::empty()
    } else {
        debug_all(s.drop_last()) + object_debug_lines(s.last())
    }
}

/// The scene registry: owns the game objects, keyed by their unique names.
pub struct GameState {
    gameobjects: Vec<GameObject>,
}

impl GameState {
    pub closed spec fn spec_objects(&self) -> Seq<GameObject> {
        self.gameobjects@
    }

    /// Every object is well-formed and names are unique identities.
    pub open spec fn wf(&self) -> bool {
        &&& forall|i: int|
            0 <= i < self.spec_objects().len() ==> (#[trigger] self.spec_objects()[i]).wf()
        &&& forall|i: int, j: int|
            0 <= i < j < self.spec_objects().len() ==> (#[trigger] self.spec_objects()[i].spec_name())
                != (#[trigger] self.spec_objects()[j].spec_name())
    }

    pub fn new() -> (g: GameState)
        ensures
            g.wf(),
            g.spec_objects() == Seq::<GameObject>::empty(),
    {
        GameState { gameobjects: Vec::new() }
    }

    /// How many objects the scene holds.
    pub fn len(&self) -> (n: usize)
        ensures
            n == self.spec_objects().len(),
    {
        self.gameobjects.len()
    }

    /// The object at a storage index.
    pub fn get_object(&self, index: usize) -> (r: &GameObject)
        requires
            index < self.spec_objects().len(),
        ensures
            *r == self.spec_objects()[index as int],
    {
        &self.gameobjects[index]
    }

    /// Stores `gb` under its name: an object already stored under the same
    /// name is replaced, any other name gets a fresh slot.
    pub fn add_gameobject(&mut self, gb: GameObject)
        requires
            old(self).wf(),
            gb.wf(),
        ensures
            final(self).wf(),
            ({
                ||| (exists|i: int|
                    0 <= i < old(self).spec_objects().len()
                        && (#[trigger] old(self).spec_objects()[i]).spec_name() == gb.spec_name()
                        && final(self).spec_objects() == old(self).spec_objects().update(i, gb))
                ||| ((forall|i: int|
                    0 <= i < old(self).spec_objects().len()
                        ==> (#[trigger] old(self).spec_objects()[i]).spec_name() != gb.spec_name())
                    && final(self).spec_objects() == old(self).spec_objects().push(gb))
            }),
    {
        let mut i: usize = 0;
        while i < self.gameobjects.len()
            invariant
                self == old(self),
                self.wf(),
                gb.wf(),
                i <= self.spec_objects().len(),
                forall|j: int|
                    0 <= j < i ==> (#[trigger] self.spec_objects()[j]).spec_name()
                        != gb.spec_name(),
            decreases self.spec_objects().len() - i,
        {
            if self.gameobjects[i].get_name().eq(gb.get_name()) {
                self.gameobjects[i] = gb;
                proof {
                    assert forall|a: int, b: int|
                        0 <= a < b < self.spec_objects().len() implies (
                    #[trigger] self.spec_objects()[a].spec_name()) != (
                    #[trigger] self.spec_objects()[b].spec_name()) by {
                        assert(old(self).spec_objects()[a].spec_name() != old(
                            self,
                        ).spec_objects()[b].spec_name());
                    }
                }
                return ;
            }
            i = i + 1;
        }
        self.gameobjects.push(gb);
    }

    /// One tick: every object updates; iteration order carries no meaning.
    pub fn update(&mut self, frame_info: &FrameInfo, input_info: &InputInfo)
        requires
            old(self).wf(),
        ensures
            final(self).wf(),
            final(self).spec_objects().len() == old(self).spec_objects().len(),
            forall|i: int|
                0 <= i < old(self).spec_objects().len() ==> object_updated_to(
                    old(self).spec_objects()[i],
                    #[trigger] final(self).spec_objects()[i],
                    frame_info.update_delta,
                ),
    {
        let n: usize = self.gameobjects.len();
        let mut i: usize = 0;
        while i < n
            invariant
                n == self.spec_objects().len(),
                n == old(self).spec_objects().len(),
                i <= n,
                forall|k: int|
                    0 <= k < n ==> (#[trigger] self.spec_objects()[k]).wf(),
                forall|k: int| 0 <= k < i ==> object_updated_to(
                    old(self).spec_objects()[k],
                    #[trigger] self.spec_objects()[k],
                    frame_info.update_delta,
                ),
                forall|k: int| i <= k < n ==> #[trigger] self.spec_objects()[k] == old(
                    self,
                ).spec_objects()[k],
            decreases n - i,
        {
            self.gameobjects[i].update(frame_info, input_info);
            i = i + 1;
        }
        proof {
            assert forall|a: int, b: int|
                0 <= a < b < self.spec_objects().len() implies (
            #[trigger] self.spec_objects()[a].spec_name()) != (
            #[trigger] self.spec_objects()[b].spec_name()) by {
                assert(object_updated_to(
                    old(self).spec_objects()[a],
                    self.spec_objects()[a],
                    frame_info.update_delta,
                ));
                assert(object_updated_to(
                    old(self).spec_objects()[b],
                    self.spec_objects()[b],
                    frame_info.update_delta,
                ));
            }
        }
    }

    /// Renders every active object into the camera, in storage order.
    pub fn render(&self, main_buffer: &mut CamBuffer)
        requires
            self.wf(),
            old(main_buffer).wf(),
        ensures
            final(main_buffer).wf(),
            final(main_buffer).spec_width() == old(main_buffer).spec_width(),
            final(main_buffer).spec_height() == old(main_buffer).spec_height(),
            final(main_buffer).spec_offset() == old(main_buffer).spec_offset(),
            final(main_buffer)@ == render_objects(
                self.spec_objects(),
                old(main_buffer)@,
                old(main_buffer).spec_width() as int,
                old(main_buffer).spec_height() as int,
                old(main_buffer).spec_offset().x as int,
                old(main_buffer).spec_offset().y as int,
            ),
    {
        let ghost dest0: Seq<Color> = main_buffer@;
        let ghost dw: int = main_buffer.spec_width() as int;
        let ghost dh: int = main_buffer.spec_height() as int;
        let ghost ox: int = main_buffer.spec_offset().x as int;
        let ghost oy: int = main_buffer.spec_offset().y as int;
        let n: usize = self.gameobjects.len();
        let mut i: usize = 0;
        proof {
            assert(self.spec_objects().take(0) =~= Seq::<GameObject>::empty());
        }
        while i < n
            invariant
                self.wf(),
                main_buffer.wf(),
                n == self.spec_objects().len(),
                i <= n,
                dw == main_buffer.spec_width() as int,
                dh == main_buffer.spec_height() as int,
                ox == main_buffer.spec_offset().x as int,
                oy == main_buffer.spec_offset().y as int,
                main_buffer@ == render_objects(
                    self.spec_objects().take(i as int), dest0, dw, dh, ox, oy),
            decreases n - i,
        {
            self.gameobjects[i].render(main_buffer);
            proof {
                let s = self.spec_objects();
                assert(s.take(i + 1).drop_last() =~= s.take(i as int));
                assert(s.take(i + 1).last() == s[i as int]);
            }
            i = i + 1;
        }
        proof {
            assert(self.spec_objects().take(n as int) =~= self.spec_objects());
        }
    }

    /// The debug lines of every object, active or not, in storage order.
    pub fn debug(&self) -> (r: Vec<DebugLine>)
        requires
            self.wf(),
        ensures
            r@ == debug_all(self.spec_objects()),
    {
        let mut r: Vec<DebugLine> = Vec::new();
        let n: usize = self.gameobjects.len();
        let mut i: usize = 0;
        proof {
            assert(self.spec_objects().take(0) =~= Seq::<GameObject>::empty());
            assert(r@ =~= debug_all(self.spec_objects().take(0)));
        }
        while i < n
            invariant
                self.wf(),
                n == self.spec_objects().len(),
                i <= n,
                r@ == debug_all(self.spec_objects().take(i as int)),
            decreases n - i,
        {
            let mut lines: Vec<DebugLine> = self.gameobjects[i].debug_objects();
            r.append(&mut lines);
            proof {
                let s = self.spec_objects();
                assert(s.take(i + 1).drop_last() =~= s.take(i as int));
                assert(s.take(i + 1).last() == s[i as int]);
            }
            i = i + 1;
        }
        proof {
            assert(self.spec_objects().take(n as int) =~= self.spec_objects());
        }
        r
    }
}

} // verus!
