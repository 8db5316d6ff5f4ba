use vstd::prelude::*;

use crate::handles::BindGroupHandle;
use crate::main_pass::{
    draw_command, object_commands, pass_commands, FrameData, MainRenderPass, PassCommand,
    COMMANDS_PER_OBJECT,
};
use crate::render_object::{
    in_pass, in_pass_keeps_fit, index_ranges_fit, PassType, RenderObject,
};
use crate::resources::index_range_fits;

verus! {

/// The size the surface is configured with, and whether it is configured.
#[derive(Clone, Copy, Debug, PartialEq, Eq, Structural)]
pub struct SurfaceState {
    pub width: u32,
    pub height: u32,
    pub configured: bool,
}

/// The camera's aspect ratio, `width / height`, kept as the two sizes it
/// was taken from.
#[derive(Clone, Copy, Debug, PartialEq, Eq, Structural)]
pub struct AspectRatio {
    pub width: u32,
    pub height: u32,
}

/// A frame can be recorded only on a configured surface of non-zero area.
pub open spec fn can_present(surface: SurfaceState) -> bool {
    surface.configured && surface.width != 0 && surface.height != 0
}

/// What a renderer holds: its surface, its camera's aspect ratio and the
/// objects pushed since the last recorded frame, in push order.
pub struct RendererView {
    pub surface: SurfaceState,
    pub aspect: AspectRatio,
    pub queue: Seq<RenderObject>,
}

/// The state after resizing to `width` x `height`. A zero-area size leaves
/// the surface unconfigured and the aspect ratio as it was; any other size
/// configures the surface and sets the aspect ratio from it.
pub open spec fn resized(v: RendererView, width: u32, height: u32) -> RendererView {
    let valid = width != 0 && height != 0;
    RendererView {
        surface: SurfaceState { width, height, configured: valid },
        aspect: if valid { AspectRatio { width, height } } else { v.aspect },
        queue: v.queue,
    }
}

/// Orders how a frame is produced: the surface state, the camera's aspect
/// ratio, and the queue of objects to draw in the next frame.
pub struct Renderer {
    surface: SurfaceState,
    aspect: AspectRatio,
    main_pass: MainRenderPass,
    render_objects: Vec<RenderObject>,
}

impl View for Renderer {
    type V = RendererView;

    closed spec fn view(&self) -> RendererView {
        RendererView { surface: self.surface, aspect: self.aspect, queue: self.render_objects@ }
    }
}

/// The objects of `objects` that belong to `pass`, in their order.
pub fn objects_in_pass(objects: &[RenderObject], pass: PassType) -> (r: Vec<RenderObject>)
    ensures
        r@ == in_pass(objects@, pass),
{
    let mut selected: Vec<RenderObject> = Vec::new();
    let mut i: usize = 0;
    while i < objects.len()
        invariant
            i <= objects@.len(),
            selected@ == in_pass(objects@.take(i as int), pass),
        decreases objects@.len() - i,
    {
        let object = objects[i];
        proof {
            assert(objects@.take(i + 1).drop_last() =~= objects@.take(i as int));
        }
        if object.pass == pass {
            selected.push(object);
        }
        i += 1;
    }
    assert(objects@.take(objects@.len() as int) =~= objects@);
    selected
}


/// A resize to a zero-area size leaves the surface unconfigured, so the next
/// render records and presents nothing; the queued objects stay as they were.
pub proof fn zero_area_resize_disables_rendering(v: RendererView, width: u32, height: u32)
    requires
        width == 0 || height == 0,
    ensures
        !resized(v, width, height).surface.configured,
        !can_present(resized(v, width, height).surface),
        resized(v, width, height).queue == v.queue,
{
}

/// Resizing to a valid size, then to a zero-area one, then back to the valid
/// size leaves the surface configured at that size and the aspect ratio
/// taken from it.
pub proof fn resize_through_zero_area_restores(
    v: RendererView,
    width: u32,
    height: u32,
    zero_width: u32,
    zero_height: u32,
)
    requires
        width != 0 && height != 0,
        zero_width == 0 || zero_height == 0,
    ensures
        !can_present(resized(resized(v, width, height), zero_width, zero_height).surface),
        resized(resized(resized(v, width, height), zero_width, zero_height), width, height).surface
            == (SurfaceState { width, height, configured: true }),
        resized(resized(resized(v, width, height), zero_width, zero_height), width, height).aspect
            == (AspectRatio { width, height }),
{
}

/// Each pushed object of the main pass's classification adds its commands
/// after those of every object pushed before it in the frame; an object of
/// another classification adds none.
pub proof fn push_appends_to_frame(queue: Seq<RenderObject>, object: RenderObject, global: BindGroupHandle)
    ensures
        pass_commands(in_pass(queue.push(object), PassType::Opaque), global) == if object.pass
            == PassType::Opaque {
            pass_commands(in_pass(queue, PassType::Opaque), global) + object_commands(object, global)
        } else {
            pass_commands(in_pass(queue, PassType::Opaque), global)
        },
{
    assert(queue.push(object).drop_last() =~= queue);
    assert(queue.push(object).last() == object);
    let selected = in_pass(queue, PassType::Opaque);
    if object.pass == PassType::Opaque {
        assert(selected.push(object).drop_last() =~= selected);
    }
}

/// Draws follow push order: for a frame whose objects were pushed as
/// `earlier` and then `later`, every command for `earlier` precedes every
/// command for `later`, each part in its own push order.
pub proof fn frame_commands_follow_push_order(
    earlier: Seq<RenderObject>,
    later: Seq<RenderObject>,
    global: BindGroupHandle,
)
    ensures
        pass_commands(in_pass(earlier + later, PassType::Opaque), global) == pass_commands(
            in_pass(earlier, PassType::Opaque),
            global,
        ) + pass_commands(in_pass(later, PassType::Opaque), global),
    decreases later.len(),
{
    let pass = PassType::Opaque;
    if later.len() == 0 {
        assert(earlier + later =~= earlier);
        assert(pass_commands(in_pass(later, pass), global) =~= Seq::<PassCommand>::empty());
        assert(pass_commands(in_pass(earlier, pass), global) + Seq::<PassCommand>::empty()
            =~= pass_commands(in_pass(earlier, pass), global));
    } else {
        let front = later.drop_last();
        let object = later.last();
        frame_commands_follow_push_order(earlier, front, global);
        assert(earlier + later =~= (earlier + front).push(object));
        assert(later =~= front.push(object));
        push_appends_to_frame(earlier + front, object, global);
        push_appends_to_frame(front, object, global);
        let a = pass_commands(in_pass(earlier, pass), global);
        let b = pass_commands(in_pass(front, pass), global);
        if object.pass == pass {
            assert(a + b + object_commands(object, global) =~= a + (b + object_commands(object, global)));
        }
    }
}

/// The commands of a pass come in blocks of the same size, one per object in
/// list order: the k-th block, and so the k-th draw, is the k-th object's.
pub proof fn draws_follow_list_order(objects: Seq<RenderObject>, global: BindGroupHandle, k: int)
    requires
        0 <= k < objects.len(),
    ensures
        pass_commands(objects, global).len() == COMMANDS_PER_OBJECT * objects.len(),
        pass_commands(objects, global).subrange(
            COMMANDS_PER_OBJECT * k,
            COMMANDS_PER_OBJECT * k + COMMANDS_PER_OBJECT,
        ) == object_commands(objects[k], global),
        pass_commands(objects, global)[COMMANDS_PER_OBJECT * k + 6] == draw_command(objects[k]),
    decreases objects.len(),
{
    commands_length(objects, global);
    let earlier = objects.drop_last();
    let head = pass_commands(earlier, global);
    let block = object_commands(objects.last(), global);
    commands_length(earlier, global);
    assert(pass_commands(objects, global) == head + block);
    if k == objects.len() - 1 {
        assert((head + block).subrange(head.len() as int, head.len() as int + 7) =~= block);
    } else {
        draws_follow_list_order(earlier, global, k);
        assert(COMMANDS_PER_OBJECT * k + COMMANDS_PER_OBJECT <= head.len()) by (nonlinear_arith)
            requires
                k < earlier.len(),
                head.len() == COMMANDS_PER_OBJECT * earlier.len(),
        ;
        assert((head + block).subrange(COMMANDS_PER_OBJECT * k, COMMANDS_PER_OBJECT * k + 7)
            =~= head.subrange(COMMANDS_PER_OBJECT * k, COMMANDS_PER_OBJECT * k + 7));
    }
}

proof fn commands_length(objects: Seq<RenderObject>, global: BindGroupHandle)
    ensures
        pass_commands(objects, global).len() == COMMANDS_PER_OBJECT * objects.len(),
    decreases objects.len(),
{
    if objects.len() > 0 {
        commands_length(objects.drop_last(), global);
    }
}

impl Renderer {
    /// Every queued object's index range ends within 32 bits.
    pub closed spec fn wf(&self) -> bool {
        index_ranges_fit(self.render_objects@)
    }

    /// A renderer for a window of the given size. The surface is configured
    /// at once unless the size has zero area.
    pub fn new(width: u32, height: u32) -> (r: Renderer)
        ensures
            r.wf(),
            r@.surface == (SurfaceState { width, height, configured: width != 0 && height != 0 }),
            r@.aspect == (AspectRatio { width, height }),
            r@.queue == Seq::<RenderObject>::empty(),
    {
        Renderer {
            surface: SurfaceState { width, height, configured: width != 0 && height != 0 },
            aspect: AspectRatio { width, height },
            main_pass: MainRenderPass::new(),
            render_objects: Vec::new(),
        }
    }

    pub fn surface(&self) -> (r: SurfaceState)
        ensures
            r == self@.surface,
    {
        self.surface
    }

    pub fn aspect(&self) -> (r: AspectRatio)
        ensures
            r == self@.aspect,
    {
        self.aspect
    }

    /// The objects waiting for the next frame, in push order.
    pub fn queued(&self) -> (r: &[RenderObject])
        ensures
            r@ == self@.queue,
    {
        self.render_objects.as_slice()
    }

    /// Stores the new size. Returns whether the GPU surface must be
    /// configured again with it: not for a zero-area size, which leaves the
    /// surface unconfigured until a valid size arrives.
    pub fn resize(&mut self, width: u32, height: u32) -> (reconfigure: bool)
        requires
            old(self).wf(),
        ensures
            final(self).wf(),
            final(self)@ == resized(old(self)@, width, height),
            reconfigure == (width != 0 && height != 0),
    {
        self.surface.width = width;
        self.surface.height = height;
        if width == 0 || height == 0 {
            self.surface.configured = false;
            return false;
        }
        self.aspect = AspectRatio { width, height };
        self.surface.configured = true;
        true
    }

    /// Whether `render` records a frame; when it does not, rendering is a no-op.
    pub fn is_ready(&self) -> (r: bool)
        ensures
            r == can_present(self@.surface),
    {
        self.surface.configured && self.surface.width != 0 && self.surface.height != 0
    }

    /// Queues an object for the next frame.
    pub fn push_object(&mut self, object: &RenderObject)
        requires
            old(self).wf(),
            index_range_fits(object.mesh),
        ensures
            final(self).wf(),
            final(self)@ == (RendererView { queue: old(self)@.queue.push(*object), ..old(self)@ }),
    {
        self.render_objects.push(*object);
        assert(index_ranges_fit(self.render_objects@)) by {
            assert forall|i: int| 0 <= i < self.render_objects@.len() implies index_range_fits(
                #[trigger] self.render_objects@[i].mesh,
            ) by {
                if i < self.render_objects@.len() - 1 {
                    assert(self.render_objects@[i] == old(self).render_objects@[i]);
                }
            }
        }
    }

    /// Records the frame: the main pass's commands over the queued objects of
    /// its classification, in push order, after which the queue is empty. On
    /// a surface that cannot present this is a no-op: nothing is recorded and
    /// the queue is kept.
    pub fn render(&mut self, frame: &FrameData) -> (r: Vec<PassCommand>)
        requires
            old(self).wf(),
        ensures
            final(self).wf(),
            can_present(old(self)@.surface) ==> {
                &&& r@ == pass_commands(
                    in_pass(old(self)@.queue, PassType::Opaque),
                    frame.global_bind_group,
                )
                &&& final(self)@ == (RendererView {
                    queue: Seq::<RenderObject>::empty(),
                    ..old(self)@
                })
            },
            !can_present(old(self)@.surface) ==> r@.len() == 0 && final(self)@ == old(self)@,
    {
        if !self.is_ready() {
            return Vec::new();
        }
        let pass = self.main_pass.pass_type();
        let selected = objects_in_pass(self.render_objects.as_slice(), pass);
        proof {
            in_pass_keeps_fit(self.render_objects@, pass);
        }
        let commands = self.main_pass.record(frame, selected.as_slice());
        self.render_objects.clear();
        commands
    }
}

} // verus!
