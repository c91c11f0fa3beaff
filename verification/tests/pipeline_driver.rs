use music_visualizer::audio::AudioFrame;
use music_visualizer::commands::gl_error_is_fatal;
use music_visualizer::commands::GlCmd;
use music_visualizer::driver::iteration_plan;
use music_visualizer::driver::process_surface_events;
use music_visualizer::driver::select_mode;
use music_visualizer::driver::Mode;
use music_visualizer::driver::SurfaceEvent;
use music_visualizer::driver::SurfaceResize;
use music_visualizer::pipeline::GfxPipeline;
use music_visualizer::pipeline::OffscreenScreen;
use music_visualizer::pipeline::Screen;
use music_visualizer::pipeline::WindowedScreen;
use music_visualizer::smiley::SetupEvent;
use music_visualizer::smiley::SmileyVisualizer;

fn ready_scene(framebuffer_id: u32, program_id: u32) -> SmileyVisualizer {
    let mut scene = SmileyVisualizer::new();
    scene.setup(framebuffer_id);
    scene.setup_advance(SetupEvent::Compiled { shader_id: 1 });
    scene.setup_advance(SetupEvent::Compiled { shader_id: 2 });
    scene.setup_advance(SetupEvent::Linked { program_id });
    scene
}

fn silent_frame() -> AudioFrame {
    AudioFrame { hundred_hz_buckets: vec![0; 20] }
}

#[test]
fn a_tick_runs_update_then_render_then_composite_in_order() {
    let scene = ready_scene(7, 40);
    let mut pipeline = GfxPipeline::new(scene, WindowedScreen {}, 512);

    let mut bands = vec![0; 20];
    bands[5] = 250;
    let cmds = pipeline.update(AudioFrame { hundred_hz_buckets: bands });

    let expected = vec![
        // The tick's fixed opening: clear the final output, then the
        // viewport at the internal resolution for the visualizer stage.
        GlCmd::ClearColorBlack,
        GlCmd::Clear,
        GlCmd::Viewport { width: 512, height: 512 },
        // The visualizer's render of its freshly updated state: the
        // uniforms carry this frame's amplitude and the stepped phase.
        GlCmd::UseProgram { program_id: 40 },
        GlCmd::UploadVertexData,
        GlCmd::BindFreshVertexArrayIfSupported,
        GlCmd::EnablePositionAttribute,
        GlCmd::SetAmplitudeUniform { milli: 250 },
        GlCmd::SetPhaseUniform { milli: 100 },
        GlCmd::BindFramebuffer { framebuffer_id: 7 },
        GlCmd::ClearColorBlack,
        GlCmd::Clear,
        GlCmd::SelectColorAttachmentZero,
        GlCmd::DrawTriangles { vertex_count: 6 },
        // The screen stage: doubled viewport, one composition.
        GlCmd::Viewport { width: 1024, height: 1024 },
        GlCmd::CompositeTexture { framebuffer_id: 7, size: 512 },
    ];
    assert_eq!(cmds, expected);
}

#[test]
fn every_tick_composites_exactly_once() {
    let scene = ready_scene(7, 40);
    let mut pipeline = GfxPipeline::new(scene, OffscreenScreen {}, 256);
    for _ in 0..5 {
        let cmds = pipeline.update(silent_frame());
        let composites = cmds
            .iter()
            .filter(|c| matches!(c, GlCmd::CompositeTexture { .. }))
            .count();
        assert_eq!(composites, 1);
        let draw_position = cmds
            .iter()
            .position(|c| matches!(c, GlCmd::DrawTriangles { .. }))
            .unwrap();
        let composite_position = cmds
            .iter()
            .position(|c| matches!(c, GlCmd::CompositeTexture { .. }))
            .unwrap();
        assert!(draw_position < composite_position);
    }
}

#[test]
fn ten_silent_headless_ticks_leave_amplitude_at_zero_and_phase_at_one() {
    let scene = ready_scene(9, 40);
    let mut screen = OffscreenScreen {};
    assert_eq!(select_mode(&screen), Mode::Headless);
    assert!(screen.setup().is_empty());

    let mut pipeline = GfxPipeline::new(scene, screen, 512);
    let mut renders = 0usize;
    for _ in 0..10 {
        let plan = iteration_plan(Mode::Headless, true);
        assert!(!plan.drain_events);
        assert!(plan.render_and_present);
        let cmds = pipeline.update(silent_frame());
        renders += cmds
            .iter()
            .filter(|c| matches!(c, GlCmd::DrawTriangles { .. }))
            .count();
        assert_eq!(pipeline.visualizer.amplitude_milli, 0);
    }
    assert_eq!(renders, 10);
    assert_eq!(pipeline.visualizer.amplitude_milli, 0);
    // Ten steps of a tenth each: the phase stands at 1.0.
    assert_eq!(pipeline.visualizer.phase_milli, 1000);
}

#[test]
fn the_screen_choice_selects_the_loop_variant() {
    assert_eq!(select_mode(&WindowedScreen {}), Mode::Windowed);
    assert_eq!(select_mode(&OffscreenScreen {}), Mode::Headless);
}

#[test]
fn a_disconnected_channel_skips_the_iteration_but_keeps_looping() {
    let plan = iteration_plan(Mode::Windowed, false);
    assert!(!plan.drain_events);
    assert!(!plan.render_and_present);
    let plan = iteration_plan(Mode::Headless, false);
    assert!(!plan.drain_events);
    assert!(!plan.render_and_present);
}

#[test]
fn the_windowed_loop_drains_events_when_a_frame_arrived() {
    let plan = iteration_plan(Mode::Windowed, true);
    assert!(plan.drain_events);
    assert!(plan.render_and_present);
}

#[test]
fn draining_events_applies_resizes_in_order_and_honours_close() {
    let events = vec![
        SurfaceEvent::Other,
        SurfaceEvent::SurfaceResized { width: 800, height: 600 },
        SurfaceEvent::CloseRequested,
        SurfaceEvent::SurfaceResized { width: 10, height: 20 },
    ];
    let outcome = process_surface_events(&events);
    assert!(!outcome.keep_running);
    assert_eq!(
        outcome.resizes,
        vec![
            SurfaceResize { width: 800, height: 600 },
            SurfaceResize { width: 10, height: 20 },
        ]
    );

    let outcome = process_surface_events(&vec![SurfaceEvent::Other, SurfaceEvent::Other]);
    assert!(outcome.keep_running);
    assert!(outcome.resizes.is_empty());

    let outcome = process_surface_events(&Vec::new());
    assert!(outcome.keep_running);
    assert!(outcome.resizes.is_empty());
}

#[test]
fn only_a_clean_error_query_is_not_fatal() {
    assert!(!gl_error_is_fatal(0));
    assert!(gl_error_is_fatal(1282));
    assert!(gl_error_is_fatal(1285));
}
