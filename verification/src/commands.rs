use vstd::prelude::*;

verus! {

/// The graphics api's "no error" code, as its error query returns it.
pub const GL_NO_ERROR: u32 = 0;

/// A borrowed, read-only reference to the color texture backing an
/// offscreen render target, named by the framebuffer that owns it.
/// The screen stage reads through it for one tick and must not retain
/// it beyond that tick.
#[derive(PartialEq, Eq, Structural, Clone, Copy, Debug)]
pub struct TextureRef {
    pub framebuffer_id: u32,
}

/// One graphics call of a tick, to be executed by the embedder on the
/// single thread that holds the graphics context.  Commands mutate
/// context-global state (bound program, bound buffers, bound
/// framebuffer, viewport); nothing restores that state afterwards.
#[derive(PartialEq, Eq, Structural, Clone, Copy, Debug)]
pub enum GlCmd {
    /// Set the clear color to opaque black.
    ClearColorBlack,
    /// Clear the color buffer of the currently bound render target.
    Clear,
    /// Set the viewport to `width` by `height` pixels at the origin.
    Viewport { width: i32, height: i32 },
    /// Bind the compiled program.
    UseProgram { program_id: u32 },
    /// Create a fresh vertex buffer and upload the caller's current
    /// vertex data into it (one-shot per tick, never mutated in place).
    UploadVertexData,
    /// If the context exposes vertex-array-object binding (probed at
    /// call time), create one and bind it.
    BindFreshVertexArrayIfSupported,
    /// Bind and enable the position vertex attribute: two components
    /// per vertex, tightly packed.
    EnablePositionAttribute,
    /// Upload the amplitude scalar, in thousandths, as a uniform.
    SetAmplitudeUniform { milli: u32 },
    /// Upload the phase scalar, in thousandths of a radian, as a uniform.
    SetPhaseUniform { milli: u32 },
    /// Bind the given framebuffer as the active render target.
    BindFramebuffer { framebuffer_id: u32 },
    /// Declare color attachment zero the active draw buffer.
    SelectColorAttachmentZero,
    /// Draw the given number of vertices as triangle primitives.
    DrawTriangles { vertex_count: i32 },
    /// Composite the named texture onto the final output surface at the
    /// current viewport (the screen stage's one duty).
    CompositeTexture { framebuffer_id: u32, size: i32 },
}

/// The fail-loud policy on the error query: any code other than
/// [`GL_NO_ERROR`] is immediately fatal, because GPU errors otherwise
/// surface as silent visual corruption far from their cause.
pub fn gl_error_is_fatal(error_code: u32) -> (fatal: bool)
    ensures
        fatal <==> error_code != GL_NO_ERROR,
{
    error_code != GL_NO_ERROR
}

} // verus!
