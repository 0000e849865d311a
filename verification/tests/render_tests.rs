use blackhole::render::{
    chunk_ranges, pixel_coords, sched_step, FrameBuffer, SchedAction, SchedEvent, SchedState,
};
use blackhole::camera::{canvas_x, canvas_y};
use blackhole::color::{black, blue, grid_color, magenta, red, scale_channel, Color};

#[test]
fn chunks_partition_evenly_with_remainder() {
    let r = chunk_ranges(10, 3);
    assert_eq!(r, vec![(0, 4), (4, 7), (7, 10)]);
}

#[test]
fn chunks_cover_with_more_workers_than_pixels() {
    let r = chunk_ranges(5, 8);
    assert_eq!(r.len(), 8);
    assert_eq!(r[0].0, 0);
    assert_eq!(r[7].1, 5);
    for k in 0..7 {
        assert_eq!(r[k].1, r[k + 1].0);
    }
    // Every index of [0, 5) is inside exactly one chunk.
    for i in 0..5usize {
        let holders = r.iter().filter(|(s, e)| *s <= i && i < *e).count();
        assert_eq!(holders, 1, "index {} held {} times", i, holders);
    }
}

#[test]
fn chunks_cover_every_pixel_once() {
    let r = chunk_ranges(12_345, 7);
    let mut seen = vec![0u32; 12_345];
    for (s, e) in &r {
        for i in *s..*e {
            seen[i] += 1;
        }
    }
    assert!(seen.iter().all(|&c| c == 1));
}

#[test]
fn pixel_coords_invert_the_flat_index() {
    let (i, j) = pixel_coords(7, 3);
    assert_eq!((i, j), (2, 1));
    for ii in 0..100usize {
        let (i, j) = pixel_coords(ii, 7);
        assert!(j < 7);
        assert_eq!(i * 7 + j, ii);
    }
}

#[test]
fn framebuffer_writes_and_snapshots() {
    let mut fb = FrameBuffer::new(4, 3, black());
    assert_eq!(fb.pixels.len(), 12);
    assert!(fb.pixels.iter().all(|&c| c == black()));
    fb.set_pixel(1, 2, red());
    assert_eq!(fb.get_pixel(1, 2), red());
    assert_eq!(fb.get_pixel(1, 1), black());
    assert_eq!(fb.get_pixel(2, 2), black());
    let snap = fb.snapshot();
    assert_eq!(snap.len(), 12);
    assert_eq!(snap[1 * 4 + 2], red());
    assert_eq!(snap.iter().filter(|&&c| c == red()).count(), 1);
}

#[test]
fn scheduler_joins_before_relaunching() {
    let idle = SchedState { running: false, generation: 0 };
    let (running, act) = sched_step(&idle, SchedEvent::Start);
    assert_eq!(act, SchedAction::Launch);
    assert!(running.running);
    assert_eq!(running.generation, 1);

    // A second start while running must join the first pass before
    // launching: no two passes ever write concurrently.
    let (restarted, act2) = sched_step(&running, SchedEvent::Start);
    assert_eq!(act2, SchedAction::JoinThenLaunch);
    assert!(restarted.running);
    assert_eq!(restarted.generation, 2);

    let (done, act3) = sched_step(&restarted, SchedEvent::Finish);
    assert_eq!(act3, SchedAction::Record);
    assert!(!done.running);
    assert_eq!(done.generation, 2);

    // Idle again: the next start launches directly.
    let (_, act4) = sched_step(&done, SchedEvent::Start);
    assert_eq!(act4, SchedAction::Launch);
}

#[test]
fn canvas_mapping_is_exact() {
    // Left edge, right edge and center column of a 400-wide screen.
    assert_eq!(canvas_x(0, 400), -997_500);
    assert_eq!(canvas_x(399, 400), 997_500);
    assert_eq!(canvas_x(200, 400), 2_500);
    // Row zero is the top: positive canvas y.
    assert_eq!(canvas_y(0, 400), 997_500);
    assert_eq!(canvas_y(399, 400), -997_500);
    // A one-pixel screen maps to the exact center.
    assert_eq!(canvas_x(0, 1), 0);
    assert_eq!(canvas_y(0, 1), 0);
}

#[test]
fn grid_is_red_on_low_fractions_blue_elsewhere() {
    assert_eq!(grid_color(0, 900_000), red());
    assert_eq!(grid_color(900_000, 100_000), red());
    assert_eq!(grid_color(249_999, 900_000), red());
    assert_eq!(grid_color(250_000, 900_000), blue());
    assert_eq!(grid_color(300_000, 300_000), blue());
}

#[test]
fn intensity_scaling_clamps_twice() {
    // Full channel at unit intensity stays 255.
    assert_eq!(scale_channel(255_000_000, 1_000_000), 255);
    // Half intensity halves the channel.
    assert_eq!(scale_channel(100_000_000, 500_000), 50);
    // A huge intensity saturates at 255 even when the product overflows.
    assert_eq!(scale_channel(255_000_000, i64::MAX), 255);
    // Zero intensity darkens fully.
    assert_eq!(scale_channel(255_000_000, 0), 0);
    // Truncation, not rounding: 0.9 intensity on channel 1 gives 0.
    assert_eq!(scale_channel(1_000_000, 900_000), 0);
}

#[test]
fn sentinel_colors_are_distinct() {
    let all = [black(), red(), blue(), magenta()];
    for a in 0..4 {
        for b in 0..4 {
            if a != b {
                assert_ne!(all[a], all[b]);
            }
        }
    }
    assert_eq!(magenta(), Color { r: 0xff, g: 0, b: 0xff });
}
