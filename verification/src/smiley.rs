use vstd::prelude::*;

use crate::audio::AudioFrame;
use crate::commands::GlCmd;
use crate::commands::TextureRef;
use crate::pipeline::Visualizer;

verus! {

// Scalars are carried in thousandths, so `1000` stands for `1.0`.

/// Phase advance per tick: one tenth of a radian.
pub const PHASE_STEP_MILLI: u32 = 100;

/// Where the phase wraps: twice the scene's (deliberately rough)
/// approximation of pi, `3.14`.
pub const TWO_PI_MILLI: u32 = 6280;

/// The amplitude clamp ceiling, full scale `1.0`.
pub const AMPLITUDE_FULL_MILLI: u32 = 1000;

/// First band of the amplitude sum (inclusive).
pub const AMPLITUDE_BAND_START: usize = 4;

/// Last band of the amplitude sum (exclusive); with the start above,
/// the scene listens to the bands around one to two kilohertz.
pub const AMPLITUDE_BAND_END: usize = 20;

/// Half the edge length of the full-screen quad, `1.0` in normalized
/// device coordinates.
pub const QUAD_EXTENT_MILLI: i32 = 1000;

/// Two triangles, six vertices.
pub const QUAD_VERTEX_COUNT: i32 = 6;

/// Sum of the band values of `bands` with indices in `[from, to)`.
pub open spec fn band_sum(bands: Seq<u32>, from: int, to: int) -> int
    decreases to - from,
{
    if from >= to {
        0
    } else {
        band_sum(bands, from, to - 1) + bands[to - 1]
    }
}

/// The amplitude scalar a frame drives: the summed energy of the bands
/// in `[AMPLITUDE_BAND_START, AMPLITUDE_BAND_END)`, clamped to full
/// scale.
pub open spec fn amplitude_of(bands: Seq<u32>) -> u32 {
    let sum = band_sum(bands, AMPLITUDE_BAND_START as int, AMPLITUDE_BAND_END as int);
    if sum >= AMPLITUDE_FULL_MILLI {
        AMPLITUDE_FULL_MILLI
    } else {
        sum as u32
    }
}

/// One tick of the phase scalar: advance by the fixed step, wrapping
/// to `phase - two pi` the moment it reaches or passes two pi.
pub open spec fn phase_after(phase: u32) -> u32 {
    if phase + PHASE_STEP_MILLI >= TWO_PI_MILLI {
        (phase + PHASE_STEP_MILLI - TWO_PI_MILLI) as u32
    } else {
        (phase + PHASE_STEP_MILLI) as u32
    }
}

/// The phase after `ticks` ticks from a fresh scene.
pub open spec fn phase_iterate(ticks: nat) -> u32
    decreases ticks,
{
    if ticks == 0 {
        0u32
    } else {
        phase_after(phase_iterate((ticks - 1) as nat))
    }
}

/// The unit quad as two triangles: the same twelve coordinates on
/// every call, scaled by [`QUAD_EXTENT_MILLI`].
pub open spec fn quad_vertices() -> Seq<i32> {
    let lo = (-QUAD_EXTENT_MILLI) as i32;
    let hi = QUAD_EXTENT_MILLI;
    seq![lo, lo, lo, hi, hi, hi, lo, lo, hi, lo, hi, hi]
}

/// Per-tick geometry, recomputed every tick rather than mutated in
/// place even though its value never changes: a pure function of no
/// inputs.
pub fn generate_vertex_data() -> (data: Vec<i32>)
    ensures
        data@ == quad_vertices(),
{
    let mut data: Vec<i32> = Vec::new();
    data.push(-QUAD_EXTENT_MILLI);
    data.push(-QUAD_EXTENT_MILLI);
    data.push(-QUAD_EXTENT_MILLI);
    data.push(QUAD_EXTENT_MILLI);
    data.push(QUAD_EXTENT_MILLI);
    data.push(QUAD_EXTENT_MILLI);
    data.push(-QUAD_EXTENT_MILLI);
    data.push(-QUAD_EXTENT_MILLI);
    data.push(QUAD_EXTENT_MILLI);
    data.push(-QUAD_EXTENT_MILLI);
    data.push(QUAD_EXTENT_MILLI);
    data.push(QUAD_EXTENT_MILLI);
    proof {
        assert(data@ =~= quad_vertices());
    }
    data
}

/// The amplitude computation on its own: sum the listened bands into a
/// wide accumulator (sixteen band values always fit), then clamp.
pub fn compute_amplitude(bands: &Vec<u32>) -> (amplitude: u32)
    requires
        bands@.len() >= AMPLITUDE_BAND_END,
    ensures
        amplitude == amplitude_of(bands@),
{
    let mut sum: u64 = 0;
    let mut i: usize = AMPLITUDE_BAND_START;
    while i < AMPLITUDE_BAND_END
        invariant
            AMPLITUDE_BAND_START <= i <= AMPLITUDE_BAND_END,
            bands@.len() >= AMPLITUDE_BAND_END,
            sum == band_sum(bands@, AMPLITUDE_BAND_START as int, i as int),
            sum <= (i - AMPLITUDE_BAND_START) * 0x1_0000_0000u64,
        decreases AMPLITUDE_BAND_END - i,
    {
        sum = sum + bands[i] as u64;
        i = i + 1;
    }
    if sum >= AMPLITUDE_FULL_MILLI as u64 {
        AMPLITUDE_FULL_MILLI
    } else {
        sum as u32
    }
}

/// The amplitude is clamped to full scale for every frame, even when
/// the summed sub-range exceeds it; below the ceiling it is the sum
/// itself, undistorted.
pub proof fn lemma_amplitude_clamped(bands: Seq<u32>)
    ensures
        amplitude_of(bands) <= AMPLITUDE_FULL_MILLI,
        band_sum(bands, AMPLITUDE_BAND_START as int, AMPLITUDE_BAND_END as int)
            <= AMPLITUDE_FULL_MILLI ==> amplitude_of(bands) == band_sum(
            bands,
            AMPLITUDE_BAND_START as int,
            AMPLITUDE_BAND_END as int,
        ),
{
    lemma_band_sum_nonneg(bands, AMPLITUDE_BAND_START as int, AMPLITUDE_BAND_END as int);
}

pub proof fn lemma_band_sum_nonneg(bands: Seq<u32>, from: int, to: int)
    ensures
        band_sum(bands, from, to) >= 0,
    decreases to - from,
{
    if from < to {
        lemma_band_sum_nonneg(bands, from, to - 1);
    }
}

/// One phase tick, spelled out: the step is exact, the wrap is exactly
/// a subtraction of two pi, and the result never leaves `[0, two pi)`.
pub proof fn lemma_phase_step(phase: u32)
    requires
        phase < TWO_PI_MILLI,
    ensures
        phase_after(phase) >= 0,
        phase_after(phase) < TWO_PI_MILLI,
        phase + PHASE_STEP_MILLI >= TWO_PI_MILLI ==> phase_after(phase) == phase
            + PHASE_STEP_MILLI - TWO_PI_MILLI,
        phase + PHASE_STEP_MILLI < TWO_PI_MILLI ==> phase_after(phase) == phase
            + PHASE_STEP_MILLI,
{
}

/// Before the first wrap the phase grows linearly: after `ticks`
/// updates from a fresh scene it is exactly one step per tick.
pub proof fn lemma_phase_linear(ticks: nat)
    requires
        PHASE_STEP_MILLI * ticks < TWO_PI_MILLI,
    ensures
        phase_iterate(ticks) == PHASE_STEP_MILLI * ticks,
    decreases ticks,
{
    if ticks > 0 {
        lemma_phase_linear((ticks - 1) as nat);
    }
}

/// Each tick moves the phase along the one canonical orbit: a scene
/// standing at tick `ticks` of the orbit from a fresh start is put at
/// tick `ticks + 1` by an update, whatever the frame carried.
pub proof fn lemma_phase_orbit(
    pre: SmileyVisualizer,
    post: SmileyVisualizer,
    frame: &AudioFrame,
    ticks: nat,
)
    requires
        pre.phase_milli == phase_iterate(ticks),
        post.updated_from(pre, frame),
    ensures
        post.phase_milli == phase_iterate(ticks + 1),
{
}

/// One successful setup is for the instance's whole lifetime: a tick
/// (an update, with its render) leaves the setup outcome untouched -
/// the scene stays ready, keeps its one compiled program, and is not
/// back in the session, so no step of it, and in particular no shader
/// compilation, can ever be asked of it again.
pub proof fn lemma_ready_is_terminal(
    pre: SmileyVisualizer,
    post: SmileyVisualizer,
    frame: &AudioFrame,
)
    requires
        pre.setup_phase is Ready,
        post.updated_from(pre, frame),
    ensures
        post.setup_phase is Ready,
        !post.in_setup(),
        post.program_id == pre.program_id,
        post.framebuffer_id == pre.framebuffer_id,
        post.render_cmds()[0] == (GlCmd::UseProgram { program_id: pre.program_id }),
{
}

/// Where a scene instance stands in its single setup per lifetime:
/// compile a vertex shader, compile a fragment shader, link the two,
/// and then stay ready for good.  There is no way back from `Ready`,
/// and none out of `Failed`.
#[derive(PartialEq, Eq, Structural, Clone, Copy, Debug)]
pub enum SetupPhase {
    /// No setup begun.
    Idle,
    /// The vertex shader's compilation is on the GPU.
    AwaitingVertexCompile,
    /// The fragment shader's compilation is on the GPU; the vertex
    /// shader compiled to this handle.
    AwaitingFragmentCompile { vertex_shader_id: u32 },
    /// The program link is on the GPU.
    AwaitingLink,
    /// Setup succeeded; ticks may run.  Terminal.
    Ready,
    /// A compile or link failed; the process is to terminate.  Terminal.
    Failed,
}

/// What the GPU answered to the setup step last asked of it.
#[derive(Debug)]
pub enum SetupEvent {
    /// A shader compiled to this handle.
    Compiled { shader_id: u32 },
    /// A shader failed to compile; the compiler's diagnostic log.
    CompileFailed { compile_log: Vec<u8> },
    /// The program linked to this handle.
    Linked { program_id: u32 },
    /// The link failed; the linker's diagnostic log.
    LinkFailed { link_log: Vec<u8> },
}

/// What the embedder is to do next in the setup session.
#[derive(Debug)]
pub enum SetupAction {
    /// Compile the scene's vertex shader and report the outcome.
    CompileVertexShader,
    /// Compile the scene's fragment shader and report the outcome.
    CompileFragmentShader,
    /// Link the two compiled shaders into one program and report the
    /// outcome.
    LinkProgram { vertex_shader_id: u32, fragment_shader_id: u32 },
    /// Setup is complete; construct the pipeline and start ticking.
    Complete,
    /// Fatal: print the diagnostic log character by character to
    /// standard output, then terminate the process.  A broken shader
    /// is a build-time-equivalent defect, never retried.
    Abort { diagnostic_log: Vec<u8> },
}

/// The reference scene: a smiley whose mouth opens with the audio's
/// mid-band energy and whose eyes pulse with a free-running phase.
///
/// At most one GPU program, one offscreen render target and one vertex
/// buffer are in flight per instance; the program and framebuffer
/// handles are created once during setup and never recreated.
pub struct SmileyVisualizer {
    pub setup_phase: SetupPhase,
    pub program_id: u32,
    pub framebuffer_id: u32,
    pub vertex_data: Vec<i32>,
    pub amplitude_milli: u32,
    pub phase_milli: u32,
}

/// The whole transition relation of the setup session: one step of the
/// state machine, given the GPU's answer to the previous action.
/// Everything outside the setup state is untouched by every step.
pub open spec fn setup_transition(
    pre: SmileyVisualizer,
    event: SetupEvent,
    post: SmileyVisualizer,
    action: SetupAction,
) -> bool {
    &&& post.framebuffer_id == pre.framebuffer_id
    &&& post.vertex_data == pre.vertex_data
    &&& post.amplitude_milli == pre.amplitude_milli
    &&& post.phase_milli == pre.phase_milli
    &&& match (pre.setup_phase, event) {
        (SetupPhase::AwaitingVertexCompile, SetupEvent::Compiled { shader_id }) => {
            &&& post.setup_phase == (SetupPhase::AwaitingFragmentCompile {
                vertex_shader_id: shader_id,
            })
            &&& post.program_id == pre.program_id
            &&& action is CompileFragmentShader
        },
        (SetupPhase::AwaitingVertexCompile, SetupEvent::CompileFailed { compile_log }) => {
            &&& post.setup_phase is Failed
            &&& post.program_id == pre.program_id
            &&& action matches SetupAction::Abort { diagnostic_log } && diagnostic_log
                == compile_log
        },
        (
            SetupPhase::AwaitingFragmentCompile { vertex_shader_id },
            SetupEvent::Compiled { shader_id },
        ) => {
            &&& post.setup_phase is AwaitingLink
            &&& post.program_id == pre.program_id
            &&& action == (SetupAction::LinkProgram {
                vertex_shader_id,
                fragment_shader_id: shader_id,
            })
        },
        (
            SetupPhase::AwaitingFragmentCompile { .. },
            SetupEvent::CompileFailed { compile_log },
        ) => {
            &&& post.setup_phase is Failed
            &&& post.program_id == pre.program_id
            &&& action matches SetupAction::Abort { diagnostic_log } && diagnostic_log
                == compile_log
        },
        (SetupPhase::AwaitingLink, SetupEvent::Linked { program_id }) => {
            &&& post.setup_phase is Ready
            &&& post.program_id == program_id
            &&& action is Complete
        },
        (SetupPhase::AwaitingLink, SetupEvent::LinkFailed { link_log }) => {
            &&& post.setup_phase is Failed
            &&& post.program_id == pre.program_id
            &&& action matches SetupAction::Abort { diagnostic_log } && diagnostic_log
                == link_log
        },
        _ => false,
    }
}

/// The events a phase can be answered with; an answer of any other
/// shape would be a protocol break by the embedder.
pub open spec fn setup_event_fits(phase: SetupPhase, event: &SetupEvent) -> bool {
    match phase {
        SetupPhase::AwaitingVertexCompile => event is Compiled || event is CompileFailed,
        SetupPhase::AwaitingFragmentCompile { .. } => event is Compiled
            || event is CompileFailed,
        SetupPhase::AwaitingLink => event is Linked || event is LinkFailed,
        _ => false,
    }
}

impl SmileyVisualizer {
    pub open spec fn wf(&self) -> bool {
        self.phase_milli < TWO_PI_MILLI
    }

    /// Setup is underway: an answer from the GPU is owed.
    pub open spec fn in_setup(&self) -> bool {
        ||| self.setup_phase is AwaitingVertexCompile
        ||| self.setup_phase is AwaitingFragmentCompile
        ||| self.setup_phase is AwaitingLink
    }

    /// A fresh, uninitialized scene: no handles, silence, phase zero.
    pub fn new() -> (scene: SmileyVisualizer)
        ensures
            scene.setup_phase is Idle,
            scene.program_id == 0,
            scene.framebuffer_id == 0,
            scene.vertex_data@ == Seq::<i32>::empty(),
            scene.amplitude_milli == 0,
            scene.phase_milli == 0,
            scene.wf(),
    {
        SmileyVisualizer {
            setup_phase: SetupPhase::Idle,
            program_id: 0,
            framebuffer_id: 0,
            vertex_data: Vec::new(),
            amplitude_milli: 0,
            phase_milli: 0,
        }
    }

    /// Begin the single setup session of this instance's lifetime:
    /// accept the handle of the framebuffer to render into, and ask
    /// for the vertex shader's compilation.  A second setup on the
    /// same instance is unsupported and ruled out here.
    pub fn setup(&mut self, framebuffer_id: u32) -> (action: SetupAction)
        requires
            old(self).setup_phase is Idle,
        ensures
            final(self).setup_phase is AwaitingVertexCompile,
            final(self).framebuffer_id == framebuffer_id,
            final(self).program_id == old(self).program_id,
            final(self).vertex_data == old(self).vertex_data,
            final(self).amplitude_milli == old(self).amplitude_milli,
            final(self).phase_milli == old(self).phase_milli,
            action is CompileVertexShader,
    {
        self.framebuffer_id = framebuffer_id;
        self.setup_phase = SetupPhase::AwaitingVertexCompile;
        SetupAction::CompileVertexShader
    }

    /// One step of the setup session: take the GPU's answer to the
    /// previous action, move the state machine, and say what to do
    /// next.  A failed compile or link moves to `Failed` and demands
    /// the fatal abort with exactly the diagnostic log that came back.
    pub fn setup_advance(&mut self, event: SetupEvent) -> (action: SetupAction)
        requires
            old(self).in_setup(),
            setup_event_fits(old(self).setup_phase, &event),
        ensures
            setup_transition(*old(self), event, *final(self), action),
    {
        let phase = self.setup_phase;
        match (phase, event) {
            (SetupPhase::AwaitingVertexCompile, SetupEvent::Compiled { shader_id }) => {
                self.setup_phase = SetupPhase::AwaitingFragmentCompile {
                    vertex_shader_id: shader_id,
                };
                SetupAction::CompileFragmentShader
            },
            (
                SetupPhase::AwaitingFragmentCompile { vertex_shader_id },
                SetupEvent::Compiled { shader_id },
            ) => {
                self.setup_phase = SetupPhase::AwaitingLink;
                SetupAction::LinkProgram { vertex_shader_id, fragment_shader_id: shader_id }
            },
            (SetupPhase::AwaitingLink, SetupEvent::Linked { program_id }) => {
                self.setup_phase = SetupPhase::Ready;
                self.program_id = program_id;
                SetupAction::Complete
            },
            (_, SetupEvent::CompileFailed { compile_log }) => {
                self.setup_phase = SetupPhase::Failed;
                SetupAction::Abort { diagnostic_log: compile_log }
            },
            (_, SetupEvent::LinkFailed { link_log }) => {
                self.setup_phase = SetupPhase::Failed;
                SetupAction::Abort { diagnostic_log: link_log }
            },
            (_, SetupEvent::Compiled { .. }) => unreached(),
            (_, SetupEvent::Linked { .. }) => unreached(),
        }
    }
}

impl Visualizer for SmileyVisualizer {
    open spec fn ready(&self) -> bool {
        &&& self.setup_phase is Ready
        &&& self.wf()
    }

    open spec fn accepts_frame(&self, frame: &AudioFrame) -> bool {
        frame.hundred_hz_buckets@.len() >= AMPLITUDE_BAND_END
    }

    open spec fn updated_from(&self, pre: SmileyVisualizer, frame: &AudioFrame) -> bool {
        &&& self.vertex_data@ == quad_vertices()
        &&& self.amplitude_milli == amplitude_of(frame.hundred_hz_buckets@)
        &&& self.phase_milli == phase_after(pre.phase_milli)
        &&& self.setup_phase == pre.setup_phase
        &&& self.program_id == pre.program_id
        &&& self.framebuffer_id == pre.framebuffer_id
    }

    open spec fn render_cmds(&self) -> Seq<GlCmd> {
        seq![
            GlCmd::UseProgram { program_id: self.program_id },
            GlCmd::UploadVertexData,
            GlCmd::BindFreshVertexArrayIfSupported,
            GlCmd::EnablePositionAttribute,
            GlCmd::SetAmplitudeUniform { milli: self.amplitude_milli },
            GlCmd::SetPhaseUniform { milli: self.phase_milli },
            GlCmd::BindFramebuffer { framebuffer_id: self.framebuffer_id },
            GlCmd::ClearColorBlack,
            GlCmd::Clear,
            GlCmd::SelectColorAttachmentZero,
            GlCmd::DrawTriangles { vertex_count: QUAD_VERTEX_COUNT },
        ]
    }

    open spec fn texture(&self) -> TextureRef {
        TextureRef { framebuffer_id: self.framebuffer_id }
    }

    /// Recompute the quad, recompute the clamped amplitude from the
    /// frame, advance the wrapping phase.  No graphics calls; nothing
    /// of the setup's outcome is touched, so a tick can never
    /// re-trigger shader compilation.
    fn update(&mut self, frame: &AudioFrame) {
        self.vertex_data = generate_vertex_data();
        self.amplitude_milli = compute_amplitude(&frame.hundred_hz_buckets);
        let stepped: u32 = self.phase_milli + PHASE_STEP_MILLI;
        if stepped >= TWO_PI_MILLI {
            self.phase_milli = stepped - TWO_PI_MILLI;
        } else {
            self.phase_milli = stepped;
        }
    }

    /// The one render of a tick: bind the program compiled at setup,
    /// upload this tick's vertex data into a fresh buffer, upload the
    /// two scalars, draw the quad into the owned framebuffer, and hand
    /// its color texture out, read-only, for the screen stage.
    fn render_to_texture(&self) -> (r: (Vec<GlCmd>, TextureRef)) {
        let mut cmds: Vec<GlCmd> = Vec::new();
        cmds.push(GlCmd::UseProgram { program_id: self.program_id });
        cmds.push(GlCmd::UploadVertexData);
        cmds.push(GlCmd::BindFreshVertexArrayIfSupported);
        cmds.push(GlCmd::EnablePositionAttribute);
        cmds.push(GlCmd::SetAmplitudeUniform { milli: self.amplitude_milli });
        cmds.push(GlCmd::SetPhaseUniform { milli: self.phase_milli });
        cmds.push(GlCmd::BindFramebuffer { framebuffer_id: self.framebuffer_id });
        cmds.push(GlCmd::ClearColorBlack);
        cmds.push(GlCmd::Clear);
        cmds.push(GlCmd::SelectColorAttachmentZero);
        cmds.push(GlCmd::DrawTriangles { vertex_count: QUAD_VERTEX_COUNT });
        proof {
            assert(cmds@ =~= self.render_cmds());
        }
        (cmds, TextureRef { framebuffer_id: self.framebuffer_id })
    }
}

} // verus!
