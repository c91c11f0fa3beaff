use vstd::prelude::*;

use crate::audio::AudioFrame;
use crate::commands::GlCmd;
use crate::commands::TextureRef;

verus! {

/// Pluggable scene logic behind a fixed per-tick contract: consume one
/// audio frame per tick, then render a self-contained scene into an
/// offscreen color target the implementation owns.
pub trait Visualizer: Sized {
    /// Setup has completed: GPU resources exist and a tick may run.
    spec fn ready(&self) -> bool;

    /// The frames this scene can read (it may need a minimum number of
    /// frequency bands).
    spec fn accepts_frame(&self, frame: &AudioFrame) -> bool;

    /// `self` is exactly the state that updating `pre` with `frame`
    /// produces.
    spec fn updated_from(&self, pre: Self, frame: &AudioFrame) -> bool;

    /// The graphics calls one render of the current state issues.
    spec fn render_cmds(&self) -> Seq<GlCmd>;

    /// The color texture of the offscreen target the render draws into.
    spec fn texture(&self) -> TextureRef;

    /// Pure state update from one audio frame; no graphics calls.
    fn update(&mut self, frame: &AudioFrame)
        requires
            old(self).ready(),
            old(self).accepts_frame(frame),
        ensures
            final(self).ready(),
            final(self).updated_from(*old(self), frame),
    ;

    /// Draw the current state into the owned offscreen target and hand
    /// back its color texture for whoever draws next.
    fn render_to_texture(&self) -> (r: (Vec<GlCmd>, TextureRef))
        requires
            self.ready(),
        ensures
            r.0@ == self.render_cmds(),
            r.1 == self.texture(),
    ;
}

/// The composition stage: takes the color texture the visualizer
/// produced this tick, borrowed and read-only, and draws it onto the
/// pipeline's final output surface.  It must not retain the reference
/// beyond the call.
pub trait Screen: Sized {
    /// Setup has completed.
    spec fn ready(&self) -> bool;

    /// Whether this screen needs an interactive display surface; the
    /// driver selects the windowed or the headless loop by it.
    spec fn uses_window_spec(&self) -> bool;

    /// The graphics calls setup issues.
    spec fn setup_cmds(&self) -> Seq<GlCmd>;

    /// The graphics calls one composition of `texture` at target size
    /// `size` issues.
    spec fn compose_cmds(&self, texture: TextureRef, size: i32) -> Seq<GlCmd>;

    fn uses_window(&self) -> (w: bool)
        ensures
            w == self.uses_window_spec(),
    ;

    /// One-time setup, before the first tick.
    fn setup(&mut self) -> (cmds: Vec<GlCmd>)
        ensures
            final(self).ready(),
            cmds@ == old(self).setup_cmds(),
            final(self).uses_window_spec() == old(self).uses_window_spec(),
    ;

    /// Composite `texture` onto the final output surface.
    fn render_from_texture(&self, texture: &TextureRef, size: i32) -> (cmds: Vec<GlCmd>)
        requires
            self.ready(),
        ensures
            cmds@ == self.compose_cmds(*texture, size),
    ;
}

/// Largest supported edge length of the internal render target, so
/// that the final output's doubled viewport still fits an `i32`.
pub const MAX_TARGET_SIZE: i32 = 0x3FFF_FFFF;

/// The calls every tick opens with: clear the final output surface to
/// opaque black, then set the viewport to the internal resolution for
/// the visualizer stage.
pub open spec fn tick_prefix(size: i32) -> Seq<GlCmd> {
    seq![
        GlCmd::ClearColorBlack,
        GlCmd::Clear,
        GlCmd::Viewport { width: size, height: size },
    ]
}

/// Owns one visualizer, one screen and the target size, and runs the
/// strict per-tick sequence: update the visualizer from the audio
/// frame, render it to its offscreen target at the internal size, then
/// have the screen composite that target at twice the internal size.
///
/// The size is fixed at construction; window resizes never touch the
/// internal target.
pub struct GfxPipeline<V: Visualizer, S: Screen> {
    pub visualizer: V,
    pub screen: S,
    pub size: i32,
}

impl<V: Visualizer, S: Screen> GfxPipeline<V, S> {
    pub open spec fn wf(&self) -> bool {
        &&& self.visualizer.ready()
        &&& self.screen.ready()
        &&& 0 <= self.size <= MAX_TARGET_SIZE
    }

    /// Construction is only for components whose one-time setup has
    /// already run to completion (the embedder drives the visualizer's
    /// setup session first, then the screen's, since setup talks to
    /// the GPU); a failed setup is fatal and never reaches this point.
    pub fn new(visualizer: V, screen: S, size: i32) -> (pipeline: GfxPipeline<V, S>)
        requires
            visualizer.ready(),
            screen.ready(),
            0 <= size <= MAX_TARGET_SIZE,
        ensures
            pipeline.visualizer == visualizer,
            pipeline.screen == screen,
            pipeline.size == size,
            pipeline.wf(),
    {
        GfxPipeline { visualizer, screen, size }
    }

    /// One tick.  The returned command sequence is the whole tick's
    /// GPU work, in order: the fixed prefix, then the visualizer's
    /// render of its freshly updated state, then the viewport enlarged
    /// to twice the internal size, then the screen's one composition
    /// of the texture the visualizer just produced.
    pub fn update(&mut self, frame: AudioFrame) -> (cmds: Vec<GlCmd>)
        requires
            old(self).wf(),
            old(self).visualizer.accepts_frame(&frame),
        ensures
            final(self).wf(),
            final(self).size == old(self).size,
            final(self).screen == old(self).screen,
            final(self).visualizer.updated_from(old(self).visualizer, &frame),
            cmds@ == tick_prefix(old(self).size)
                + final(self).visualizer.render_cmds()
                + seq![
                    GlCmd::Viewport {
                        width: (2 * old(self).size) as i32,
                        height: (2 * old(self).size) as i32,
                    },
                ]
                + old(self).screen.compose_cmds(
                    final(self).visualizer.texture(),
                    old(self).size,
                ),
    {
        self.visualizer.update(&frame);

        let mut cmds: Vec<GlCmd> = Vec::new();
        cmds.push(GlCmd::ClearColorBlack);
        cmds.push(GlCmd::Clear);
        cmds.push(GlCmd::Viewport { width: self.size, height: self.size });

        let (mut scene_cmds, texture) = self.visualizer.render_to_texture();
        cmds.append(&mut scene_cmds);

        let doubled: i32 = 2 * self.size;
        cmds.push(GlCmd::Viewport { width: doubled, height: doubled });

        let mut compose = self.screen.render_from_texture(&texture, self.size);
        cmds.append(&mut compose);

        proof {
            assert(cmds@ =~= tick_prefix(self.size)
                + self.visualizer.render_cmds()
                + seq![GlCmd::Viewport { width: doubled, height: doubled }]
                + self.screen.compose_cmds(self.visualizer.texture(), self.size));
        }
        cmds
    }
}

/// A screen that composites onto a visible window surface; choosing
/// it makes the driver run the interactive windowed loop, with vsync
/// and an event pump.
pub struct WindowedScreen {}

/// A screen that composites onto a hidden, off-window surface;
/// choosing it makes the driver run the headless continuous loop,
/// which has no event pump and never stops on its own.
pub struct OffscreenScreen {}

impl Screen for WindowedScreen {
    open spec fn ready(&self) -> bool {
        true
    }

    open spec fn uses_window_spec(&self) -> bool {
        true
    }

    open spec fn setup_cmds(&self) -> Seq<GlCmd> {
        Seq::empty()
    }

    open spec fn compose_cmds(&self, texture: TextureRef, size: i32) -> Seq<GlCmd> {
        seq![GlCmd::CompositeTexture { framebuffer_id: texture.framebuffer_id, size }]
    }

    fn uses_window(&self) -> (w: bool) {
        true
    }

    fn setup(&mut self) -> (cmds: Vec<GlCmd>) {
        let cmds: Vec<GlCmd> = Vec::new();
        proof {
            assert(cmds@ =~= Seq::<GlCmd>::empty());
        }
        cmds
    }

    fn render_from_texture(&self, texture: &TextureRef, size: i32) -> (cmds: Vec<GlCmd>) {
        let mut cmds: Vec<GlCmd> = Vec::new();
        cmds.push(GlCmd::CompositeTexture { framebuffer_id: texture.framebuffer_id, size });
        proof {
            assert(cmds@ =~= self.compose_cmds(*texture, size));
        }
        cmds
    }
}

impl Screen for OffscreenScreen {
    open spec fn ready(&self) -> bool {
        true
    }

    open spec fn uses_window_spec(&self) -> bool {
        false
    }

    open spec fn setup_cmds(&self) -> Seq<GlCmd> {
        Seq::empty()
    }

    open spec fn compose_cmds(&self, texture: TextureRef, size: i32) -> Seq<GlCmd> {
        seq![GlCmd::CompositeTexture { framebuffer_id: texture.framebuffer_id, size }]
    }

    fn uses_window(&self) -> (w: bool) {
        false
    }

    fn setup(&mut self) -> (cmds: Vec<GlCmd>) {
        let cmds: Vec<GlCmd> = Vec::new();
        proof {
            assert(cmds@ =~= Seq::<GlCmd>::empty());
        }
        cmds
    }

    fn render_from_texture(&self, texture: &TextureRef, size: i32) -> (cmds: Vec<GlCmd>) {
        let mut cmds: Vec<GlCmd> = Vec::new();
        cmds.push(GlCmd::CompositeTexture { framebuffer_id: texture.framebuffer_id, size });
        proof {
            assert(cmds@ =~= self.compose_cmds(*texture, size));
        }
        cmds
    }
}

} // verus!
