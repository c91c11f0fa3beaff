//! An audio-reactive render pipeline: a stream of audio analysis frames
//! drives a two-stage GPU render (a visualizer draws a scene into an
//! offscreen target, a screen composites that target onto the final
//! output), paced by a blocking receive on the audio channel.
//!
//! The graphics context itself lives outside this library.  Everything a
//! tick asks of the GPU is expressed as a sequence of [`commands::GlCmd`]
//! values that the embedder executes on the one thread holding the
//! context; GPU replies (shader handles, compile and link status) come
//! back as events.  That keeps the per-tick policy - what is computed,
//! in which order the stages run, and what is fatal - in verified code.

pub mod audio;
pub mod commands;
pub mod driver;
pub mod pipeline;
pub mod smiley;
