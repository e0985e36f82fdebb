//! The component container: a closed set of component kinds, the named
//! game object that owns an insertion-ordered list of them, and the
//! per-frame update/render/debug dispatch.
//!
//! Component storage is a tagged sum of the known kinds rather than a
//! dynamically typed box, so kind-directed lookup is a plain first-match
//! scan. A kind can reject duplicates at attach time: the component is then
//! silently discarded, never stored — that is the singleton-enforcement
//! mechanism, and [`lemma_singleton_enforcement`] proves it leaves exactly
//! one instance behind.

use vstd::prelude::*;
use crate::animation::Animation;
use crate::color::Color;
use crate::frame::FrameInfo;
use crate::image_buffer::{CamBuffer, SingleImageBuffer, blit_spec};
use crate::input::InputInfo;
use crate::math::Transform;

verus! {

/// The closed set of component kinds; runtime lookup goes by this tag.
#[derive(Clone, Copy, Debug, PartialEq, Eq, Structural)]
pub enum ComponentKind {
    Transform,
    Animation,
    ImageBufferRender,
    Render,
}

/// A position carried by an object, possibly relative to a parent.
pub struct TransformComponent {
    pub transform: Transform,
}

impl TransformComponent {
    pub fn new() -> (t: TransformComponent)
        ensures
            t.transform.x == 0,
            t.transform.y == 0,
            t.transform.parent is None,
            t.transform.fits(),
    {
        TransformComponent { transform: Transform::from(0, 0) }
    }

    pub fn get_transform(&self) -> (r: &Transform)
        ensures
            *r == self.transform,
    {
        &self.transform
    }
}

/// An animation playing at a position.
pub struct AnimationComponent {
    pub animation: Animation,
    pub transform: Transform,
}

impl AnimationComponent {
    pub fn new(animation: Animation) -> (c: AnimationComponent)
        ensures
            c.animation == animation,
            c.transform.x == 0,
            c.transform.y == 0,
            c.transform.parent is None,
            c.transform.fits(),
    {
        AnimationComponent { animation, transform: Transform::from(0, 0) }
    }
}

/// A still sprite drawn at a position each frame.
pub struct ImageBufferRenderComponent {
    pub buffer: SingleImageBuffer,
    pub transform: Option<Box<TransformComponent>>,
}

impl ImageBufferRenderComponent {
    pub fn new(buffer: SingleImageBuffer) -> (c: ImageBufferRenderComponent)
        ensures
            c.buffer == buffer,
            c.transform is None,
    {
        ImageBufferRenderComponent { buffer, transform: Option::None }
    }
}

/// A bare marker component with a frame counter.
pub struct RenderComp {
    pub frames: i32,
}

/// The one-line description a component exposes for an external debug UI.
#[derive(Clone, Copy, Debug, PartialEq, Eq, Structural)]
pub enum DebugLine {
    /// The frame index an animation currently shows.
    Frame(u32),
    /// An absolute position.
    Position(i32, i32),
    /// Nothing to report.
    Plain,
}

/// One attached unit of behavior: the tagged sum of the known kinds.
pub enum GameComponent {
    Transform(TransformComponent),
    Animation(AnimationComponent),
    ImageBufferRender(ImageBufferRenderComponent),
    Render(RenderComp),
}

/// Whether a kind refuses a second instance on the same object at attach
/// time: only the transform kind does.
pub open spec fn rejects_duplicates(k: ComponentKind) -> bool {
    k is Transform
}

/// Whether some component of kind `k` is attached.
pub open spec fn has_kind(s: Seq<GameComponent>, k: ComponentKind) -> bool {
    exists|i: int| 0 <= i < s.len() && (#[trigger] s[i]).kind() == k
}

/// How many components of kind `k` are attached.
pub open spec fn count_kind(s: Seq<GameComponent>, k: ComponentKind) -> nat
    decreases s.len(),
{
    if s.len() == 0 {
        0
    } else {
        count_kind(s.drop_last(), k) + (if s.last().kind() == k {
            1nat
        } else {
            0nat
        })
    }
}

/// The component list after an attach attempt: a component whose kind
/// rejects duplicates is discarded when its kind is already present,
/// otherwise it is appended.
pub open spec fn attach_spec(s: Seq<GameComponent>, c: GameComponent) -> Seq<GameComponent> {
    if rejects_duplicates(c.kind()) && has_kind(s, c.kind()) {
        s
    } else {
        s.push(c)
    }
}

/// What one tick does to a component: an animation advances by the frame
/// delta, every other kind is inert.
pub open spec fn updated_component(c: GameComponent, delta: u64) -> GameComponent {
    match c {
        GameComponent::Animation(ac) => GameComponent::Animation(
            AnimationComponent { animation: ac.animation.spec_step(delta), ..ac },
        ),
        _ => c,
    }
}

/// The horizontal position a sprite-render component draws at.
pub open spec fn render_pos_x(c: ImageBufferRenderComponent) -> int {
    match c.transform {
        Option::None => 0,
        Option::Some(t) => t.transform.abs_x(),
    }
}

/// The vertical position a sprite-render component draws at.
pub open spec fn render_pos_y(c: ImageBufferRenderComponent) -> int {
    match c.transform {
        Option::None => 0,
        Option::Some(t) => t.transform.abs_y(),
    }
}

/// The camera store after one component has rendered into it: an animation
/// blits its current frame at its position, a sprite-render component blits
/// its buffer at its position, every other kind draws nothing. `ox`/`oy` is
/// the camera's scroll offset.
pub open spec fn rendered_component(
    c: GameComponent,
    dest: Seq<Color>,
    dw: int,
    dh: int,
    ox: int,
    oy: int,
) -> Seq<Color> {
    match c {
        GameComponent::Animation(ac) => {
            let frame = ac.animation.spec_atlas().spec_buffers()[ac.animation.spec_current() as int];
            blit_spec(
                dest,
                dw,
                dh,
                frame@,
                frame.spec_width() as int,
                frame.spec_height() as int,
                ac.transform.abs_x() + ox,
                ac.transform.abs_y() + oy,
            )
        },
        GameComponent::ImageBufferRender(ic) => blit_spec(
            dest,
            dw,
            dh,
            ic.buffer@,
            ic.buffer.spec_width() as int,
            ic.buffer.spec_height() as int,
            render_pos_x(ic) + ox,
            render_pos_y(ic) + oy,
        ),
        _ => dest,
    }
}

/// What a component reports to the debug surface.
pub open spec fn debug_of(c: GameComponent) -> DebugLine {
    match c {
        GameComponent::Transform(tc) => DebugLine::Position(
            tc.transform.abs_x() as i32,
            tc.transform.abs_y() as i32,
        ),
        GameComponent::Animation(ac) => DebugLine::Frame(ac.animation.spec_current()),
        _ => DebugLine::Plain,
    }
}

/// The well-formedness every stored component keeps: animations are valid
/// and positions can be resolved without wrapping.
pub open spec fn component_wf(c: GameComponent) -> bool {
    match c {
        GameComponent::Transform(tc) => tc.transform.fits(),
        GameComponent::Animation(ac) => ac.animation.wf() && ac.transform.fits(),
        GameComponent::ImageBufferRender(ic) => ic.buffer.wf() && (match ic.transform {
            Option::None => true,
            Option::Some(t) => t.transform.fits(),
        }),
        GameComponent::Render(_) => true,
    }
}

impl GameComponent {
    /// The tag of this component.
    pub open spec fn kind(&self) -> ComponentKind {
        match self {
            GameComponent::Transform(_) => ComponentKind::Transform,
            GameComponent::Animation(_) => ComponentKind::Animation,
            GameComponent::ImageBufferRender(_) => ComponentKind::ImageBufferRender,
            GameComponent::Render(_) => ComponentKind::Render,
        }
    }

    pub fn get_kind(&self) -> (k: ComponentKind)
        ensures
            k == self.kind(),
    {
        match self {
            GameComponent::Transform(_) => ComponentKind::Transform,
            GameComponent::Animation(_) => ComponentKind::Animation,
            GameComponent::ImageBufferRender(_) => ComponentKind::ImageBufferRender,
            GameComponent::Render(_) => ComponentKind::Render,
        }
    }

    /// The attach-time gate: false discards the component. A kind that
    /// rejects duplicates refuses when its kind is already attached.
    pub fn on_attach(&self, obj: &GameObject) -> (r: bool)
        ensures
            r == !(rejects_duplicates(self.kind()) && has_kind(obj.spec_components(), self.kind())),
    {
        match self {
            GameComponent::Transform(_) => !obj.has_comp(ComponentKind::Transform),
            _ => true,
        }
    }

    /// One tick: an animation advances, every other kind is inert.
    pub fn update(&mut self, frame_info: &FrameInfo, input_info: &InputInfo)
        requires
            component_wf(*old(self)),
        ensures
            component_wf(*final(self)),
            *final(self) == updated_component(*old(self), frame_info.update_delta),
    {
        let _ = input_info;
        match self {
            GameComponent::Animation(ac) => ac.animation.update(frame_info.update_delta),
            _ => (),
        }
    }

    /// Draws this component into the camera buffer.
    pub fn render(&self, main_buffer: &mut CamBuffer)
        requires
            component_wf(*self),
            old(main_buffer).wf(),
        ensures
            final(main_buffer).wf(),
            final(main_buffer).spec_width() == old(main_buffer).spec_width(),
            final(main_buffer).spec_height() == old(main_buffer).spec_height(),
            final(main_buffer).spec_offset() == old(main_buffer).spec_offset(),
            final(main_buffer)@ == rendered_component(
                *self,
                old(main_buffer)@,
                old(main_buffer).spec_width() as int,
                old(main_buffer).spec_height() as int,
                old(main_buffer).spec_offset().x as int,
                old(main_buffer).spec_offset().y as int,
            ),
    {
        match self {
            GameComponent::Animation(ac) => {
                let (x, y): (i32, i32) = ac.transform.get_xy();
                ac.animation.get_frame().blit(main_buffer, x, y);
            },
            GameComponent::ImageBufferRender(ic) => {
                let (x, y): (i32, i32) = match &ic.transform {
                    Option::None => (0, 0),
                    Option::Some(t) => t.transform.get_xy(),
                };
                ic.buffer.blend(main_buffer, x, y);
            },
            _ => (),
        }
    }

    /// The one-line description for the external debug UI.
    pub fn object_debug(&self) -> (r: DebugLine)
        requires
            component_wf(*self),
        ensures
            r == debug_of(*self),
    {
        match self {
            GameComponent::Transform(tc) => {
                let (x, y): (i32, i32) = tc.transform.get_xy();
                DebugLine::Position(x, y)
            },
            GameComponent::Animation(ac) => DebugLine::Frame(ac.animation.get_current_frame()),
            _ => DebugLine::Plain,
        }
    }
}

/// The components of an object after one tick.
pub open spec fn object_updated_to(before: GameObject, after: GameObject, delta: u64) -> bool {
    &&& after.spec_name() == before.spec_name()
    &&& after.spec_active() == before.spec_active()
    &&& after.spec_components().len() == before.spec_components().len()
    &&& forall|i: int|
        0 <= i < before.spec_components().len() ==> #[trigger] after.spec_components()[i] == (
        if before.spec_active() {
            updated_component(before.spec_components()[i], delta)
        } else {
            before.spec_components()[i]
        })
}

/// The camera store after a component list has rendered into it in
/// insertion order: later components draw over earlier ones.
pub open spec fn render_seq(
    s: Seq<GameComponent>,
    dest: Seq<Color>,
    dw: int,
    dh: int,
    ox: int,
    oy: int,
) -> Seq<Color>
    decreases s.len(),
{
    if s.len() == 0 {
        dest
    } else {
        rendered_component(s.last(), render_seq(s.drop_last(), dest, dw, dh, ox, oy), dw, dh, ox, oy)
    }
}

/// The camera store after a whole object has rendered: nothing when the
/// object is inactive.
pub open spec fn object_rendered(
    o: GameObject,
    dest: Seq<Color>,
    dw: int,
    dh: int,
    ox: int,
    oy: int,
) -> Seq<Color> {
    if o.spec_active() {
        render_seq(o.spec_components(), dest, dw, dh, ox, oy)
    } else {
        dest
    }
}

/// The debug lines of every attached component, in insertion order.
pub open spec fn object_debug_lines(o: GameObject) -> Seq<DebugLine> {
    Seq::new(o.spec_components().len(), |i: int| debug_of(o.spec_components()[i]))
}

/// A named object: an active flag gating update and render dispatch, and
/// an insertion-ordered list of owned components.
pub struct GameObject {
    pub name: String,
    pub active: bool,
    components: Vec<GameComponent>,
}

impl GameObject {
    pub closed spec fn spec_components(&self) -> Seq<GameComponent> {
        self.components@
    }

    pub closed spec fn spec_name(&self) -> Seq<char> {
        self.name@
    }

    pub closed spec fn spec_active(&self) -> bool {
        self.active
    }

    pub open spec fn wf(&self) -> bool {
        forall|i: int|
            0 <= i < self.spec_components().len() ==> component_wf(
                #[trigger] self.spec_components()[i],
            )
    }

    pub fn new(name: &str) -> (o: GameObject)
        ensures
            o.spec_name() == name@,
            o.spec_active() == true,
            o.spec_components() == Seq::<GameComponent>::empty(),
            o.wf(),
    {
        GameObject { name: String::from_str(name), active: true, components: Vec::new() }
    }

    /// The unique name this object is keyed by.
    pub fn get_name(&self) -> (r: &String)
        ensures
            r@ == self.spec_name(),
    {
        &self.name
    }

    /// Whether a component of `kind` is attached.
    pub fn has_comp(&self, kind: ComponentKind) -> (r: bool)
        ensures
            r == has_kind(self.spec_components(), kind),
    {
        let mut i: usize = 0;
        while i < self.components.len()
            invariant
                i <= self.spec_components().len(),
                forall|j: int| 0 <= j < i ==> (#[trigger] self.spec_components()[j]).kind() != kind,
            decreases self.spec_components().len() - i,
        {
            if self.components[i].get_kind() == kind {
                return true;
            }
            i = i + 1;
        }
        false
    }

    /// The first attached component of `kind`, if any.
    pub fn get_comp(&self, kind: ComponentKind) -> (r: Option<&GameComponent>)
        ensures
            (r is Some) == has_kind(self.spec_components(), kind),
            r is Some ==> (exists|i: int|
                0 <= i < self.spec_components().len() && *r->0 == self.spec_components()[i]
                    && (#[trigger] self.spec_components()[i]).kind() == kind && (forall|j: int|
                    0 <= j < i ==> (#[trigger] self.spec_components()[j]).kind() != kind)),
    {
        let mut i: usize = 0;
        while i < self.components.len()
            invariant
                i <= self.spec_components().len(),
                forall|j: int| 0 <= j < i ==> (#[trigger] self.spec_components()[j]).kind() != kind,
            decreases self.spec_components().len() - i,
        {
            if self.components[i].get_kind() == kind {
                return Option::Some(&self.components[i]);
            }
            i = i + 1;
        }
        Option::None
    }

    /// The first attached component of `kind`; the kind must be attached —
    /// a missing kind is a fatal lookup error here.
    pub fn get_comp_or_panic(&self, kind: ComponentKind) -> (r: &GameComponent)
        requires
            has_kind(self.spec_components(), kind),
        ensures
            exists|i: int|
                0 <= i < self.spec_components().len() && *r == self.spec_components()[i]
                    && (#[trigger] self.spec_components()[i]).kind() == kind && (forall|j: int|
                    0 <= j < i ==> (#[trigger] self.spec_components()[j]).kind() != kind),
    {
        let r: Option<&GameComponent> = self.get_comp(kind);
        r.unwrap()
    }

    /// Attaches `gc` unless its attach gate refuses: a refused component is
    /// dropped, never stored.
    pub fn add_comp(&mut self, gc: GameComponent)
        requires
            old(self).wf(),
            component_wf(gc),
        ensures
            final(self).wf(),
            final(self).spec_name() == old(self).spec_name(),
            final(self).spec_active() == old(self).spec_active(),
            final(self).spec_components() == attach_spec(old(self).spec_components(), gc),
    {
        let ok: bool = gc.on_attach(self);
        if ok {
            self.components.push(gc);
        }
    }

    /// One tick: dispatches to every component in insertion order; inactive
    /// objects do nothing.
    pub fn update(&mut self, frame_info: &FrameInfo, input_info: &InputInfo)
        requires
            old(self).wf(),
        ensures
            final(self).wf(),
            object_updated_to(*old(self), *final(self), frame_info.update_delta),
    {
        if !self.active {
            return ;
        }
        let n: usize = self.components.len();
        let mut i: usize = 0;
        while i < n
            invariant
                self.wf(),
                self.active == old(self).active,
                self.name@ == old(self).name@,
                old(self).active,
                n == self.spec_components().len(),
                n == old(self).spec_components().len(),
                i <= n,
                forall|k: int| 0 <= k < i ==> #[trigger] self.spec_components()[k]
                    == updated_component(
                    old(self).spec_components()[k],
                    frame_info.update_delta,
                ),
                forall|k: int| i <= k < n ==> #[trigger] self.spec_components()[k] == old(
                    self,
                ).spec_components()[k],
            decreases n - i,
        {
            self.components[i].update(frame_info, input_info);
            i = i + 1;
        }
    }

    /// Renders every component into the camera in insertion order, so later
    /// components draw over earlier ones; inactive objects draw nothing.
    pub fn render(&self, main_buffer: &mut CamBuffer)
        requires
            self.wf(),
            old(main_buffer).wf(),
        ensures
            final(main_buffer).wf(),
            final(main_buffer).spec_width() == old(main_buffer).spec_width(),
            final(main_buffer).spec_height() == old(main_buffer).spec_height(),
            final(main_buffer).spec_offset() == old(main_buffer).spec_offset(),
            final(main_buffer)@ == object_rendered(
                *self,
                old(main_buffer)@,
                old(main_buffer).spec_width() as int,
                old(main_buffer).spec_height() as int,
                old(main_buffer).spec_offset().x as int,
                old(main_buffer).spec_offset().y as int,
            ),
    {
        if !self.active {
            return ;
        }
        let ghost dest0: Seq<Color> = main_buffer@;
        let ghost dw: int = main_buffer.spec_width() as int;
        let ghost dh: int = main_buffer.spec_height() as int;
        let ghost ox: int = main_buffer.spec_offset().x as int;
        let ghost oy: int = main_buffer.spec_offset().y as int;
        let n: usize = self.components.len();
        let mut i: usize = 0;
        proof {
            assert(self.spec_components().take(0) =~= Seq::<GameComponent>::empty());
        }
        while i < n
            invariant
                self.wf(),
                main_buffer.wf(),
                n == self.spec_components().len(),
                i <= n,
                dw == main_buffer.spec_width() as int,
                dh == main_buffer.spec_height() as int,
                ox == main_buffer.spec_offset().x as int,
                oy == main_buffer.spec_offset().y as int,
                main_buffer@ == render_seq(self.spec_components().take(i as int), dest0, dw, dh, ox, oy),
            decreases n - i,
        {
            self.components[i].render(main_buffer);
            proof {
                let s = self.spec_components();
                assert(s.take(i + 1).drop_last() =~= s.take(i as int));
                assert(s.take(i + 1).last() == s[i as int]);
            }
            i = i + 1;
        }
        proof {
            assert(self.spec_components().take(n as int) =~= self.spec_components());
        }
    }

    /// The debug lines of every component, active or not.
    pub fn debug_objects(&self) -> (r: Vec<DebugLine>)
        requires
            self.wf(),
        ensures
            r@ == object_debug_lines(*self),
    {
        let mut r: Vec<DebugLine> = Vec::new();
        let mut i: usize = 0;
        while i < self.components.len()
            invariant
                self.wf(),
                i <= self.spec_components().len(),
                r@.len() == i,
                forall|k: int| 0 <= k < i ==> r@[k] == debug_of(
                    #[trigger] self.spec_components()[k],
                ),
            decreases self.spec_components().len() - i,
        {
            let line: DebugLine = self.components[i].object_debug();
            r.push(line);
            i = i + 1;
        }
        proof {
            assert(r@ =~= object_debug_lines(*self));
        }
        r
    }
}

/// A component list holds none of kind `k` exactly when its count of `k`
/// is zero.
proof fn lemma_count_kind_zero(s: Seq<GameComponent>, k: ComponentKind)
    ensures
        has_kind(s, k) <==> count_kind(s, k) > 0,
    decreases s.len(),
{
    if s.len() > 0 {
        lemma_count_kind_zero(s.drop_last(), k);
        if has_kind(s, k) && s.last().kind() != k {
            let i = choose|i: int| 0 <= i < s.len() && (#[trigger] s[i]).kind() == k;
            assert(s.drop_last()[i] == s[i]);
        }
        if has_kind(s.drop_last(), k) {
            let i = choose|i: int|
                0 <= i < s.drop_last().len() && (#[trigger] s.drop_last()[i]).kind() == k;
            assert(s[i] == s.drop_last()[i]);
        }
    }
}

/// Singleton enforcement: attaching two components of a kind that rejects
/// duplicates to an object that had none leaves exactly one stored
/// instance — the first-attached one, which a kind-directed first-match
/// lookup returns.
pub proof fn lemma_singleton_enforcement(
    s: Seq<GameComponent>,
    c1: GameComponent,
    c2: GameComponent,
)
    requires
        c1.kind() == c2.kind(),
        rejects_duplicates(c1.kind()),
        !has_kind(s, c1.kind()),
    ensures
        attach_spec(s, c1) == s.push(c1),
        attach_spec(attach_spec(s, c1), c2) == s.push(c1),
        count_kind(attach_spec(attach_spec(s, c1), c2), c1.kind()) == 1,
        ({
            let t = attach_spec(attach_spec(s, c1), c2);
            exists|i: int|
                0 <= i < t.len() && t[i] == c1 && (#[trigger] t[i]).kind() == c1.kind() && (
                forall|j: int| 0 <= j < i ==> (#[trigger] t[j]).kind() != c1.kind())
        }),
{
    let t = s.push(c1);
    assert(t[s.len() as int] == c1);
    assert(has_kind(t, c1.kind()));
    assert(attach_spec(t, c2) == t);
    lemma_count_kind_zero(s, c1.kind());
    assert(t.drop_last() =~= s);
    assert(count_kind(t, c1.kind()) == 1);
    assert forall|j: int| 0 <= j < s.len() implies (#[trigger] t[j]).kind() != c1.kind() by {
        assert(t[j] == s[j]);
    }
}

} // verus!
