use vstd::prelude::*;

use crate::input::{host_events, HostInput, InputEvent};
use crate::mesh::{paint, paint_mesh, is_mesh_paint, is_primitive_paint, Mesh, MeshPaint, PointBits, Primitive};
use crate::registry::{after_delta, after_deltas, creates_of, is_command_for, order_batch, patches_of, TextureCommand, TextureIdMap};
use crate::texture::{TextureDelta, TextureId};

verus! {

/// The binary32 encoding of 1.0.
pub const ONE_BITS: u32 = 0x3f80_0000;

/// What the GUI layer receives at the start of a frame: the renderer's
/// viewport in pixels and the device pixel ratio (both binary32 bit
/// patterns; the screen size in points is the viewport divided by the
/// ratio), and the input events queued since the previous frame.
pub struct InputSnapshot {
    pub viewport: PointBits,
    pub pixels_per_point: u32,
    pub events: Vec<InputEvent>,
}

/// What one frame of the GUI layer produced: shapes to tessellate and paint,
/// and texture deltas, in the order they must be applied.
pub struct FrameOutput<S> {
    pub shapes: Vec<S>,
    pub textures_delta: Vec<TextureDelta>,
}

/// `perform` returned `r[k]` when handed the command for `deltas[k]`
/// against the texture map left by the deltas before it.
#[verifier::opaque]
pub open spec fn handed_command<F: Fn(&TextureCommand) -> u16>(
    m: Map<u64, u16>,
    deltas: Seq<TextureDelta>,
    r: Seq<u16>,
    perform: F,
    k: int,
) -> bool {
    exists|c: TextureCommand|
        is_command_for(after_deltas(m, deltas.take(k), r.take(k)), &deltas[k], &c)
            && #[trigger] perform.ensures((&c,), r[k])
}

/// The bridge's state as the contracts see it.
pub struct BridgeState<S> {
    pub textures: Map<u64, u16>,
    pub shapes: Seq<S>,
    pub textures_delta: Seq<TextureDelta>,
    pub effect_id: u16,
    pub layer_id: u8,
    pub viewport: PointBits,
    pub pixels_per_point: u32,
    pub events: Seq<InputEvent>,
    pub input_disabled: bool,
    pub color: [u32; 4],
}

/// The long-lived state of the bridge: texture map, the captured frame
/// waiting to be painted, renderer selectors, scale, input queue and tint.
/// `S` is the GUI layer's shape type, which the bridge only carries.
pub struct EguiWrapperInner<S> {
    textures: TextureIdMap,
    shapes: Vec<S>,
    textures_delta: Vec<TextureDelta>,
    effect_id: u16,
    layer_id: u8,
    size: PointBits,
    pixels_per_point: u32,
    events: Vec<InputEvent>,
    input_disabled: bool,
    color: [u32; 4],
}

impl<S> View for EguiWrapperInner<S> {
    type V = BridgeState<S>;

    closed spec fn view(&self) -> BridgeState<S> {
        BridgeState {
            textures: self.textures@,
            shapes: self.shapes@,
            textures_delta: self.textures_delta@,
            effect_id: self.effect_id,
            layer_id: self.layer_id,
            viewport: self.size,
            pixels_per_point: self.pixels_per_point,
            events: self.events@,
            input_disabled: self.input_disabled,
            color: self.color,
        }
    }
}

impl<S> EguiWrapperInner<S> {
    /// A bridge with no textures, no captured frame, input enabled, white
    /// tint, effect 0 and layer 0, and zero viewport and scale until
    /// [`Self::setup`] and the first [`Self::render`].
    pub fn new() -> (r: Self)
        ensures
            r@.textures == Map::<u64, u16>::empty(),
            r@.shapes.len() == 0,
            r@.textures_delta.len() == 0,
            r@.effect_id == 0,
            r@.layer_id == 0,
            r@.viewport == (PointBits { x: 0, y: 0 }),
            r@.pixels_per_point == 0,
            r@.events.len() == 0,
            !r@.input_disabled,
            r@.color == [ONE_BITS, ONE_BITS, ONE_BITS, ONE_BITS],
    {
        EguiWrapperInner {
            textures: TextureIdMap::new(),
            shapes: Vec::new(),
            textures_delta: Vec::new(),
            effect_id: 0,
            layer_id: 0,
            size: PointBits { x: 0, y: 0 },
            pixels_per_point: 0,
            events: Vec::new(),
            input_disabled: false,
            color: [ONE_BITS, ONE_BITS, ONE_BITS, ONE_BITS],
        }
    }

    /// Sets the device pixel ratio (binary32 bits).
    pub fn setup(&mut self, pixels_per_point: u32)
        ensures
            final(self)@ == (BridgeState { pixels_per_point, ..old(self)@ }),
    {
        self.pixels_per_point = pixels_per_point;
    }

    /// Sets the tint that multiplies every emitted vertex color (RGBA,
    /// binary32 bits).
    pub fn set_color(&mut self, color: [u32; 4])
        ensures
            final(self)@ == (BridgeState { color, ..old(self)@ }),
    {
        self.color = color;
    }

    pub fn color(&self) -> (r: [u32; 4])
        ensures
            r == self@.color,
    {
        self.color
    }

    /// Flips whether input is disabled and returns the new setting.
    pub fn toggle_input(&mut self) -> (r: bool)
        ensures
            r == !old(self)@.input_disabled,
            final(self)@ == (BridgeState { input_disabled: r, ..old(self)@ }),
    {
        self.input_disabled = !self.input_disabled;
        self.input_disabled
    }

    pub fn enable_input(&mut self)
        ensures
            final(self)@ == (BridgeState { input_disabled: false, ..old(self)@ }),
    {
        self.input_disabled = false;
    }

    pub fn disable_input(&mut self)
        ensures
            final(self)@ == (BridgeState { input_disabled: true, ..old(self)@ }),
    {
        self.input_disabled = true;
    }

    pub fn set_input_disabled(&mut self, input_disabled: bool)
        ensures
            final(self)@ == (BridgeState { input_disabled, ..old(self)@ }),
    {
        self.input_disabled = input_disabled;
    }

    pub fn input_disabled(&self) -> (r: bool)
        ensures
            r == self@.input_disabled,
    {
        self.input_disabled
    }

    pub fn set_effect_id(&mut self, effect_id: u16)
        ensures
            final(self)@ == (BridgeState { effect_id, ..old(self)@ }),
    {
        self.effect_id = effect_id;
    }

    pub fn effect_id(&self) -> (r: u16)
        ensures
            r == self@.effect_id,
    {
        self.effect_id
    }

    pub fn set_layer_id(&mut self, layer_id: u8)
        ensures
            final(self)@ == (BridgeState { layer_id, ..old(self)@ }),
    {
        self.layer_id = layer_id;
    }

    pub fn layer_id(&self) -> (r: u8)
        ensures
            r == self@.layer_id,
    {
        self.layer_id
    }

    /// Turns one host update into GUI input events, unless input is
    /// disabled: a pointer move, then a press if the host reports one,
    /// otherwise a release if it reports one. Returns whether the host must
    /// consume its "was pressed" latch, so that a press is reported once.
    pub fn update(&mut self, input: HostInput) -> (consume_press: bool)
        ensures
            consume_press == (!old(self)@.input_disabled && input.pressed),
            final(self)@ == (BridgeState {
                events: if old(self)@.input_disabled {
                    old(self)@.events
                } else {
                    old(self)@.events + host_events(input)
                },
                ..old(self)@
            }),
    {
        if self.input_disabled {
            return false;
        }
        let pos = input.pointer;
        self.events.push(InputEvent::PointerMoved(pos));
        let consume_press = if input.pressed {
            self.events.push(InputEvent::PointerButton { pos, pressed: true });
            true
        } else {
            if input.released {
                self.events.push(InputEvent::PointerButton { pos, pressed: false });
            }
            false
        };
        assert(self.events@ =~= old(self)@.events + host_events(input));
        consume_press
    }

    /// Builds the frame's input snapshot, draining the event queue: each
    /// queued event is handed out once, in order.
    pub fn gather_input(&mut self) -> (r: InputSnapshot)
        ensures
            r.viewport == old(self)@.viewport,
            r.pixels_per_point == old(self)@.pixels_per_point,
            r.events@ == old(self)@.events,
            final(self)@ == (BridgeState { events: Seq::empty(), ..old(self)@ }),
    {
        let mut events: Vec<InputEvent> = Vec::new();
        std::mem::swap(&mut events, &mut self.events);
        InputSnapshot { viewport: self.size, pixels_per_point: self.pixels_per_point, events }
    }

    /// Runs one GUI frame: gathers the input snapshot and hands it to
    /// `frame`, which drives the GUI layer. On success the frame's shapes
    /// and texture deltas replace any output that was not painted. On
    /// failure the error is returned and nothing of the frame is kept.
    /// Either way the input queue is drained.
    pub fn run<F, E>(&mut self, frame: F) -> (r: Result<(), E>) where
        F: FnOnce(InputSnapshot) -> Result<FrameOutput<S>, E>,

        requires
            forall|snap: InputSnapshot| #[trigger] frame.requires((snap,)),
        ensures
            exists|snap: InputSnapshot, out: Result<FrameOutput<S>, E>|
                #[trigger] frame.ensures((snap,), out) && snap.viewport == old(self)@.viewport
                    && snap.pixels_per_point == old(self)@.pixels_per_point && snap.events@
                    == old(self)@.events && match out {
                    Ok(o) => r is Ok && final(self)@ == (BridgeState {
                        events: Seq::empty(),
                        shapes: o.shapes@,
                        textures_delta: o.textures_delta@,
                        ..old(self)@
                    }),
                    Err(e) => r == Err::<(), E>(e) && final(self)@ == (BridgeState {
                        events: Seq::empty(),
                        ..old(self)@
                    }),
                },
    {
        let snap = self.gather_input();
        let out = frame(snap);
        match out {
            Ok(o) => {
                self.shapes = o.shapes;
                self.textures_delta = o.textures_delta;
                Ok(())
            },
            Err(e) => Err(e),
        }
    }

    /// Records the renderer's viewport (binary32 bits) and hands out the
    /// captured frame for painting, leaving nothing behind: painting again
    /// before the next [`Self::run`] finds nothing to draw. The texture
    /// deltas come with every create before any patch (see
    /// [`order_batch`]); the caller applies them in that order (see
    /// [`Self::texture_command`]) before it paints the shapes.
    pub fn render(&mut self, viewport: PointBits) -> (r: FrameOutput<S>)
        ensures
            r.shapes@ == old(self)@.shapes,
            r.textures_delta@ == creates_of(old(self)@.textures_delta) + patches_of(
                old(self)@.textures_delta,
            ),
            final(self)@ == (BridgeState {
                viewport,
                shapes: Seq::empty(),
                textures_delta: Seq::empty(),
                ..old(self)@
            }),
    {
        self.size = viewport;
        let mut shapes: Vec<S> = Vec::new();
        let mut textures_delta: Vec<TextureDelta> = Vec::new();
        std::mem::swap(&mut shapes, &mut self.shapes);
        std::mem::swap(&mut textures_delta, &mut self.textures_delta);
        FrameOutput { shapes, textures_delta: order_batch(textures_delta) }
    }

    /// What the renderer must do for one texture delta (see
    /// [`TextureIdMap::command`]).
    pub fn texture_command(&self, delta: &TextureDelta) -> (r: TextureCommand)
        ensures
            is_command_for(self@.textures, delta, &r),
    {
        self.textures.command(delta)
    }

    /// Applies a batch of texture deltas in order. For each delta, the
    /// command against the texture map as it stands (see
    /// [`TextureIdMap::command`]) is handed to `perform`, which carries it
    /// out on the renderer and returns the handle under which a created
    /// texture was registered (ignored for other commands). Returns what
    /// `perform` returned, delta by delta; the texture map ends as
    /// [`after_deltas`] says for those handles: creates register their ids,
    /// patches and skipped deltas leave it as it was.
    pub fn apply_textures<F>(&mut self, deltas: &Vec<TextureDelta>, perform: F) -> (r: Vec<u16>) where
        F: Fn(&TextureCommand) -> u16,

        requires
            forall|c: &TextureCommand| #[trigger] perform.requires((c,)),
        ensures
            r@.len() == deltas@.len(),
            final(self)@ == (BridgeState {
                textures: after_deltas(old(self)@.textures, deltas@, r@),
                ..old(self)@
            }),
            forall|i: int|
                0 <= i < deltas@.len() ==> #[trigger] handed_command(
                    old(self)@.textures,
                    deltas@,
                    r@,
                    perform,
                    i,
                ),
    {
        let ghost m0 = self@.textures;
        let mut r: Vec<u16> = Vec::new();
        let mut i: usize = 0;
        while i < deltas.len()
            invariant
                i <= deltas@.len(),
                r@.len() == i,
                self@ == (BridgeState {
                    textures: after_deltas(m0, deltas@.take(i as int), r@),
                    ..old(self)@
                }),
                forall|c: &TextureCommand| #[trigger] perform.requires((c,)),
                forall|k: int|
                    0 <= k < i ==> #[trigger] handed_command(m0, deltas@, r@, perform, k),
            decreases deltas@.len() - i,
        {
            let d = &deltas[i];
            let ghost before = self@.textures;
            let ghost r_old = r@;
            let c = self.textures.command(d);
            let h = perform(&c);
            if d.pos.is_none() {
                if let TextureId::Managed(k) = d.id {
                    self.textures.insert(k, h);
                }
            }
            r.push(h);
            proof {
                let s = deltas@.take(i + 1);
                assert(s.drop_last() =~= deltas@.take(i as int));
                assert(s.last() == deltas@[i as int]);
                assert(r@.drop_last() =~= r_old);
                assert(self@.textures == after_delta(before, &deltas@[i as int], h));
                assert(r_old =~= r@.take(i as int));
                assert(is_command_for(
                    after_deltas(m0, deltas@.take(i as int), r@.take(i as int)),
                    &deltas@[i as int],
                    &c,
                ) && perform.ensures((&c,), r@[i as int]));
                reveal(handed_command);
                assert(handed_command(m0, deltas@, r@, perform, i as int));
                assert forall|k: int| 0 <= k < i implies #[trigger] handed_command(
                    m0,
                    deltas@,
                    r@,
                    perform,
                    k,
                ) by {
                    assert(handed_command(m0, deltas@, r_old, perform, k));
                    assert(r@.take(k) =~= r_old.take(k));
                    assert(r@[k] == r_old[k]);
                }
            }
            i = i + 1;
        }
        assert(deltas@.take(deltas@.len() as int) =~= deltas@);
        r
    }

    /// Records the handle under which the renderer registered the texture
    /// created for `Managed(id)`.
    pub fn texture_created(&mut self, id: u64, handle: u16)
        ensures
            final(self)@ == (BridgeState {
                textures: old(self)@.textures.insert(id, handle),
                ..old(self)@
            }),
    {
        self.textures.insert(id, handle);
    }

    /// Converts the frame's tessellated primitives for the renderer.
    pub fn paint(&self, primitives: &Vec<Primitive>) -> (r: Vec<MeshPaint>)
        ensures
            r@.len() == primitives@.len(),
            forall|i: int|
                0 <= i < r@.len() ==> is_primitive_paint(
                    self@.textures,
                    &primitives@[i],
                    &#[trigger] r@[i],
                ),
    {
        paint(&self.textures, primitives)
    }

    /// Converts one mesh for the renderer.
    pub fn paint_mesh(&self, mesh: &Mesh) -> (r: MeshPaint)
        ensures
            is_mesh_paint(self@.textures, mesh, &r),
    {
        paint_mesh(&self.textures, mesh)
    }
}

/// The bridge as the host application owns it: one object, borrowed
/// exclusively for every state change, passed through the frame loop.
pub struct EguiWrapper<S> {
    inner: EguiWrapperInner<S>,
}

impl<S> View for EguiWrapper<S> {
    type V = BridgeState<S>;

    closed spec fn view(&self) -> BridgeState<S> {
        self.inner@
    }
}

impl<S> EguiWrapper<S> {
    pub fn new() -> (r: Self)
        ensures
            r@.textures == Map::<u64, u16>::empty(),
            r@.shapes.len() == 0,
            r@.textures_delta.len() == 0,
            r@.effect_id == 0,
            r@.layer_id == 0,
            r@.viewport == (PointBits { x: 0, y: 0 }),
            r@.pixels_per_point == 0,
            r@.events.len() == 0,
            !r@.input_disabled,
            r@.color == [ONE_BITS, ONE_BITS, ONE_BITS, ONE_BITS],
    {
        EguiWrapper { inner: EguiWrapperInner::new() }
    }

    pub fn inner(&self) -> (r: &EguiWrapperInner<S>)
        ensures
            r@ == self@,
    {
        &self.inner
    }

    pub fn setup(&mut self, pixels_per_point: u32)
        ensures
            final(self)@ == (BridgeState { pixels_per_point, ..old(self)@ }),
    {
        self.inner.setup(pixels_per_point);
    }

    pub fn set_color(&mut self, color: [u32; 4])
        ensures
            final(self)@ == (BridgeState { color, ..old(self)@ }),
    {
        self.inner.set_color(color);
    }

    pub fn toggle_input(&mut self) -> (r: bool)
        ensures
            r == !old(self)@.input_disabled,
            final(self)@ == (BridgeState { input_disabled: r, ..old(self)@ }),
    {
        self.inner.toggle_input()
    }

    pub fn enable_input(&mut self)
        ensures
            final(self)@ == (BridgeState { input_disabled: false, ..old(self)@ }),
    {
        self.inner.enable_input();
    }

    pub fn disable_input(&mut self)
        ensures
            final(self)@ == (BridgeState { input_disabled: true, ..old(self)@ }),
    {
        self.inner.disable_input();
    }

    pub fn set_input_disabled(&mut self, input_disabled: bool)
        ensures
            final(self)@ == (BridgeState { input_disabled, ..old(self)@ }),
    {
        self.inner.set_input_disabled(input_disabled);
    }

    pub fn input_disabled(&self) -> (r: bool)
        ensures
            r == self@.input_disabled,
    {
        self.inner.input_disabled()
    }

    pub fn set_effect_id(&mut self, effect_id: u16)
        ensures
            final(self)@ == (BridgeState { effect_id, ..old(self)@ }),
    {
        self.inner.set_effect_id(effect_id);
    }

    pub fn set_layer_id(&mut self, layer_id: u8)
        ensures
            final(self)@ == (BridgeState { layer_id, ..old(self)@ }),
    {
        self.inner.set_layer_id(layer_id);
    }

    /// See [`EguiWrapperInner::update`].
    pub fn update(&mut self, input: HostInput) -> (consume_press: bool)
        ensures
            consume_press == (!old(self)@.input_disabled && input.pressed),
            final(self)@ == (BridgeState {
                events: if old(self)@.input_disabled {
                    old(self)@.events
                } else {
                    old(self)@.events + host_events(input)
                },
                ..old(self)@
            }),
    {
        self.inner.update(input)
    }

    /// See [`EguiWrapperInner::run`].
    pub fn run<F, E>(&mut self, frame: F) -> (r: Result<(), E>) where
        F: FnOnce(InputSnapshot) -> Result<FrameOutput<S>, E>,

        requires
            forall|snap: InputSnapshot| #[trigger] frame.requires((snap,)),
        ensures
            exists|snap: InputSnapshot, out: Result<FrameOutput<S>, E>|
                #[trigger] frame.ensures((snap,), out) && snap.viewport == old(self)@.viewport
                    && snap.pixels_per_point == old(self)@.pixels_per_point && snap.events@
                    == old(self)@.events && match out {
                    Ok(o) => r is Ok && final(self)@ == (BridgeState {
                        events: Seq::empty(),
                        shapes: o.shapes@,
                        textures_delta: o.textures_delta@,
                        ..old(self)@
                    }),
                    Err(e) => r == Err::<(), E>(e) && final(self)@ == (BridgeState {
                        events: Seq::empty(),
                        ..old(self)@
                    }),
                },
    {
        self.inner.run(frame)
    }

    /// See [`EguiWrapperInner::render`].
    pub fn render(&mut self, viewport: PointBits) -> (r: FrameOutput<S>)
        ensures
            r.shapes@ == old(self)@.shapes,
            r.textures_delta@ == creates_of(old(self)@.textures_delta) + patches_of(
                old(self)@.textures_delta,
            ),
            final(self)@ == (BridgeState {
                viewport,
                shapes: Seq::empty(),
                textures_delta: Seq::empty(),
                ..old(self)@
            }),
    {
        self.inner.render(viewport)
    }

    /// See [`EguiWrapperInner::apply_textures`].
    pub fn apply_textures<F>(&mut self, deltas: &Vec<TextureDelta>, perform: F) -> (r: Vec<u16>) where
        F: Fn(&TextureCommand) -> u16,

        requires
            forall|c: &TextureCommand| #[trigger] perform.requires((c,)),
        ensures
            r@.len() == deltas@.len(),
            final(self)@ == (BridgeState {
                textures: after_deltas(old(self)@.textures, deltas@, r@),
                ..old(self)@
            }),
            forall|i: int|
                0 <= i < deltas@.len() ==> #[trigger] handed_command(
                    old(self)@.textures,
                    deltas@,
                    r@,
                    perform,
                    i,
                ),
    {
        self.inner.apply_textures(deltas, perform)
    }

    /// See [`EguiWrapperInner::texture_created`].
    pub fn texture_created(&mut self, id: u64, handle: u16)
        ensures
            final(self)@ == (BridgeState {
                textures: old(self)@.textures.insert(id, handle),
                ..old(self)@
            }),
    {
        self.inner.texture_created(id, handle);
    }
}

} // verus!
