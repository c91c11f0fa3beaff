use music_visualizer::audio::AudioFrame;
use music_visualizer::pipeline::Visualizer;
use music_visualizer::smiley::compute_amplitude;
use music_visualizer::smiley::generate_vertex_data;
use music_visualizer::smiley::SetupEvent;
use music_visualizer::smiley::SmileyVisualizer;

fn ready_scene(framebuffer_id: u32) -> SmileyVisualizer {
    let mut scene = SmileyVisualizer::new();
    scene.setup(framebuffer_id);
    scene.setup_advance(SetupEvent::Compiled { shader_id: 11 });
    scene.setup_advance(SetupEvent::Compiled { shader_id: 12 });
    scene.setup_advance(SetupEvent::Linked { program_id: 33 });
    scene
}

fn silent_frame() -> AudioFrame {
    AudioFrame { hundred_hz_buckets: vec![0; 20] }
}

#[test]
fn amplitude_of_silence_is_zero() {
    let bands: Vec<u32> = vec![0; 20];
    assert_eq!(compute_amplitude(&bands), 0);
}

#[test]
fn amplitude_sums_the_mid_bands_only() {
    // Bands outside [4, 20) carry energy that must not count.
    let mut bands: Vec<u32> = vec![1000; 4];
    bands.extend(vec![10; 16]);
    assert_eq!(compute_amplitude(&bands), 160);
}

#[test]
fn amplitude_below_the_ceiling_is_the_exact_sum() {
    let mut bands: Vec<u32> = vec![0; 20];
    bands[4] = 500;
    bands[19] = 499;
    assert_eq!(compute_amplitude(&bands), 999);
}

#[test]
fn amplitude_clamps_a_sum_of_five_to_exactly_one() {
    // The listened bands sum to 5.0: eight bands of 0.625 each.
    let mut bands: Vec<u32> = vec![0; 20];
    for i in 4..12 {
        bands[i] = 625;
    }
    assert_eq!(
        bands[4..20].iter().map(|b| *b as u64).sum::<u64>(),
        5000
    );
    assert_eq!(compute_amplitude(&bands), 1000);
}

#[test]
fn amplitude_clamps_even_huge_band_values() {
    let bands: Vec<u32> = vec![u32::MAX; 32];
    assert_eq!(compute_amplitude(&bands), 1000);
}

#[test]
fn update_stores_the_clamped_amplitude() {
    let mut scene = ready_scene(5);
    let mut bands = vec![0; 20];
    bands[10] = 4000;
    bands[11] = 1000;
    scene.update(&AudioFrame { hundred_hz_buckets: bands });
    assert_eq!(scene.amplitude_milli, 1000);
}

#[test]
fn phase_advances_a_tenth_per_update() {
    let mut scene = ready_scene(5);
    for tick in 1..=10u32 {
        scene.update(&silent_frame());
        assert_eq!(scene.phase_milli, 100 * tick);
    }
}

#[test]
fn phase_wraps_to_phase_minus_two_pi_exactly() {
    let mut scene = ready_scene(5);
    // 62 ticks reach 6.2; the 63rd would reach 6.3, past 6.28,
    // and must come out at exactly 6.3 - 6.28 = 0.02.
    for _ in 0..62 {
        scene.update(&silent_frame());
    }
    assert_eq!(scene.phase_milli, 6200);
    scene.update(&silent_frame());
    assert_eq!(scene.phase_milli, 20);
}

#[test]
fn phase_never_leaves_its_range() {
    let mut scene = ready_scene(5);
    for _ in 0..500 {
        scene.update(&silent_frame());
        assert!(scene.phase_milli < 6280);
    }
}

#[test]
fn quad_geometry_is_the_same_twelve_literals_every_call() {
    let expected: Vec<i32> = vec![
        -1000, -1000, -1000, 1000, 1000, 1000, -1000, -1000, 1000, -1000, 1000, 1000,
    ];
    assert_eq!(generate_vertex_data(), expected);
    assert_eq!(generate_vertex_data(), expected);
}

#[test]
fn update_regenerates_the_quad_every_tick() {
    let mut scene = ready_scene(5);
    assert!(scene.vertex_data.is_empty());
    scene.update(&silent_frame());
    assert_eq!(scene.vertex_data.len(), 12);
    scene.update(&silent_frame());
    assert_eq!(
        scene.vertex_data,
        vec![-1000, -1000, -1000, 1000, 1000, 1000, -1000, -1000, 1000, -1000, 1000, 1000]
    );
}
