use vtracer::color::{color_diff, Color};
use vtracer::image::ColorImage;
use vtracer::keying::KeyingAction;
use vtracer::rules::is_hollow;
use vtracer::runner::{Runner, RunnerConfig, HIERARCHICAL_MAX};
use vtracer::segmentation::Segmentation;

/// An image whose pixel in column `x` of row `y` has the colour `paint(x, y)`.
fn image(width: usize, height: usize, paint: fn(usize, usize) -> Color) -> ColorImage {
    let mut pixels = Vec::new();
    for y in 0..height {
        for x in 0..width {
            let c = paint(x, y);
            pixels.extend_from_slice(&[c.r, c.g, c.b, c.a]);
        }
    }
    ColorImage { pixels, width, height }
}

fn red() -> Color {
    Color::new(200, 30, 30)
}

fn blue() -> Color {
    Color::new(20, 40, 220)
}

fn two_halves(x: usize, _y: usize) -> Color {
    if x < 5 {
        red()
    } else {
        blue()
    }
}

#[test]
fn default_config_has_the_standard_settings() {
    let config = RunnerConfig::default();
    assert!(!config.diagonal);
    assert_eq!(config.hierarchical, HIERARCHICAL_MAX);
    assert_eq!(config.hierarchical, u32::MAX);
    assert_eq!(config.batch_size, 25600);
    assert_eq!(config.good_min_area, 16);
    assert_eq!(config.good_max_area, 65536);
    assert_eq!(config.is_same_color_a, 4);
    assert_eq!(config.is_same_color_b, 1);
    assert_eq!(config.deepen_diff, 64);
    assert_eq!(config.hollow_neighbours, 1);
    assert_eq!(config.key_color, Color::new_rgba(0, 0, 0, 0));
    assert_eq!(config.keying_action, KeyingAction::Keep);
}

#[test]
fn uniform_image_is_one_cluster() {
    let clusters = Runner::new(RunnerConfig::default(), image(4, 4, |_, _| red())).run();
    assert_eq!(clusters.output_len(), 1);
    let view = clusters.view();
    let cluster = view.get_cluster(view.clusters_output[0]);
    assert_eq!(cluster.area(), 16);
    assert_eq!(cluster.neighbours(&view).len(), 0);
    assert_eq!(cluster.num_holes, 0);
    assert!(cluster.holes.is_empty());
    assert_eq!(cluster.depth, 0);
    assert_eq!(cluster.color(), visioncortex::Color::new(200, 30, 30));
}

#[test]
fn first_pass_leaves_the_corner_pixel_on_its_own() {
    let layer = Runner::new(RunnerConfig::default(), image(4, 4, |_, _| red())).base_layer().unwrap();
    assert_eq!((layer.width, layer.height), (4, 4));
    assert_eq!(layer.output, vec![1, 2]);
    assert_eq!(layer.owners[0], 1);
    assert_eq!(layer.owners[1..], vec![2; 15]);
    assert!(layer.clusters[0].indices.is_empty());
    assert_eq!(layer.clusters[1].indices, vec![0]);
    let mut rest = layer.clusters[2].indices.clone();
    rest.sort();
    assert_eq!(rest, (1..16).collect::<Vec<u32>>());
    assert_eq!(layer.clusters[2].num_holes, 0);
    assert_eq!(layer.clusters[2].depth, 0);
    assert_eq!(layer.clusters[2].merged_into, 0);
    let rect = layer.clusters[2].rect;
    assert_eq!((rect.left, rect.top, rect.right, rect.bottom), (0, 0, 4, 4));
    assert!(layer.check_partition());
}

#[test]
fn two_halves_are_two_clusters_that_touch_each_other_only() {
    let config = RunnerConfig::default();
    assert!(color_diff(red(), blue()) > config.deepen_diff);
    let mut handle = Runner::new(config, image(10, 10, two_halves)).start();
    // the first step clusters the pixels, the second merges the two corner pixels into their halves
    assert!(!handle.tick());
    assert!(!handle.tick());
    let view = handle.view();
    let halves: Vec<usize> = (0..view.clusters.len()).filter(|k| view.clusters[*k].area() > 0).collect();
    assert_eq!(halves.len(), 2);
    for (this, other) in [(halves[0], halves[1]), (halves[1], halves[0])] {
        let cluster = &view.clusters[this];
        assert_eq!(cluster.area(), 50);
        assert!(config.good_min_area < cluster.area() && cluster.area() < config.good_max_area);
        let neighbours = cluster.neighbours(&view);
        assert_eq!(neighbours.len(), 1);
        assert_eq!(neighbours[0].0 as usize, other);
        assert!(is_hollow(neighbours.len(), config.hollow_neighbours));
    }
}

#[test]
fn two_halves_make_two_layers() {
    let clusters = Runner::new(RunnerConfig::default(), image(10, 10, two_halves)).run();
    assert_eq!(clusters.output_len(), 2);
    let layers = Segmentation::of(&clusters);
    assert_eq!(layers.output, vec![2, 7]);
    // the left half was deepened: it keeps its pixels, and lies in the other as a hole
    assert_eq!(layers.clusters[2].indices.len(), 50);
    assert_eq!(layers.clusters[2].merged_into, 7);
    assert_eq!(layers.clusters[7].indices.len(), 100);
    assert_eq!(layers.clusters[7].num_holes, 1);
    assert_eq!(layers.clusters[7].holes.len(), 50);
    assert_eq!(layers.clusters[7].depth, 1);
    assert_eq!(layers.owners, vec![7; 100]);
    // the layers overlap, so they are no partition
    assert!(!layers.check_partition());
}

#[test]
fn two_halves_that_are_near_in_colour_make_one_layer() {
    let config = RunnerConfig { deepen_diff: 1020, ..RunnerConfig::default() };
    let clusters = Runner::new(config, image(10, 10, two_halves)).run();
    let layers = Segmentation::of(&clusters);
    assert_eq!(layers.output, vec![7]);
    assert_eq!(layers.clusters[2].indices.len(), 0);
    assert_eq!(layers.clusters[7].indices.len(), 100);
    assert_eq!(layers.clusters[7].num_holes, 0);
    assert_eq!(layers.clusters[7].depth, 0);
}

#[test]
fn base_layer_is_a_partition() {
    let layer = Runner::new(RunnerConfig::default(), image(10, 10, two_halves)).base_layer().unwrap();
    assert!(layer.check_partition());
    // each half, and the top left pixel of each
    assert_eq!(layer.output.len(), 4);
    for y in 0..10 {
        for x in 0..10 {
            let pixel = (y * 10 + x) as u32;
            let owner = layer.owners[y * 10 + x] as usize;
            assert!(owner >= 1);
            assert_eq!(owner == layer.owners[0] as usize, pixel == 0);
            assert_eq!(owner == layer.owners[5] as usize, pixel == 5);
            assert_eq!(owner == layer.owners[1] as usize, x < 5 && pixel != 0);
            assert_eq!(owner == layer.owners[6] as usize, x >= 5 && pixel != 5);
            for (k, cluster) in layer.clusters.iter().enumerate().skip(1) {
                let listed = cluster.indices.iter().filter(|i| **i == pixel).count();
                assert_eq!(listed, if k == owner { 1 } else { 0 });
            }
        }
    }
}

#[test]
fn keyed_pixels_belong_to_no_cluster() {
    let config = RunnerConfig {
        key_color: blue(),
        keying_action: KeyingAction::Discard,
        ..RunnerConfig::default()
    };
    let layer = Runner::new(config, image(10, 10, two_halves)).base_layer().unwrap();
    assert_eq!(layer.output, vec![1, 2]);
    for y in 0..10 {
        for x in 0..10 {
            let owner = if x >= 5 {
                0
            } else if x == 0 && y == 0 {
                1
            } else {
                2
            };
            assert_eq!(layer.owners[y * 10 + x], owner);
        }
    }
    assert_eq!(layer.clusters[1].indices.len(), 1);
    assert_eq!(layer.clusters[2].indices.len(), 49);
    assert!(layer.clusters[0].indices.is_empty());
}

#[test]
fn kept_keyed_pixels_are_gathered_in_the_reserved_cluster() {
    let config = RunnerConfig {
        key_color: blue(),
        keying_action: KeyingAction::Keep,
        ..RunnerConfig::default()
    };
    let layer = Runner::new(config, image(10, 10, two_halves)).base_layer().unwrap();
    assert_eq!(layer.output, vec![1, 2, 0]);
    assert_eq!(layer.clusters[0].indices.len(), 50);
    assert!(layer.clusters[0].indices.iter().all(|i| i % 10 >= 5));
    assert_eq!(layer.clusters[1].indices.len(), 1);
    assert_eq!(layer.clusters[2].indices.len(), 49);
    assert!(layer.owners.iter().filter(|o| **o == 0).count() == 50);
}

#[test]
fn running_twice_gives_the_same_clusters() {
    let paint: fn(usize, usize) -> Color = |x, y| Color::new((x * 40) as u8, (y * 50) as u8, ((x + y) * 20) as u8);
    let first = Segmentation::of(&Runner::new(RunnerConfig::default(), image(7, 5, paint)).run());
    let second = Segmentation::of(&Runner::new(RunnerConfig::default(), image(7, 5, paint)).run());
    assert_eq!(first.owners, second.owners);
    assert_eq!(first.output, second.output);
    assert_eq!(first.clusters.len(), second.clusters.len());
    for (a, b) in first.clusters.iter().zip(second.clusters.iter()) {
        assert_eq!(a.indices, b.indices);
        assert_eq!(a.holes, b.holes);
        assert_eq!(a.num_holes, b.num_holes);
        assert_eq!(a.depth, b.depth);
        assert_eq!(a.rect, b.rect);
        assert_eq!(a.merged_into, b.merged_into);
    }
}

#[test]
fn started_job_comes_to_the_same_end_step_by_step() {
    let config = RunnerConfig { batch_size: 7, ..RunnerConfig::default() };
    let mut handle = Runner::new(config, image(10, 10, two_halves)).start();
    let mut steps = 0;
    while !handle.tick() {
        steps += 1;
    }
    assert!(steps > 100 / 7);
    let stepped = Segmentation::of(&handle.result());
    let whole = Segmentation::of(&Runner::new(RunnerConfig::default(), image(10, 10, two_halves)).run());
    assert_eq!(stepped.owners, whole.owners);
    assert_eq!(stepped.output, whole.output);
}

#[test]
fn builder_can_be_run_by_hand() {
    let clusters = Runner::new(RunnerConfig::default(), image(4, 4, |_, _| red())).builder().run();
    assert_eq!(clusters.output_len(), 1);
}

#[test]
fn init_replaces_the_image() {
    let mut runner = Runner::default();
    runner.init(image(10, 10, two_halves));
    assert_eq!(runner.run().output_len(), 2);
}

#[test]
fn job_without_pixels_has_no_clusters() {
    assert_eq!(Runner::default().run().output_len(), 0);
    let layer = Runner::new(RunnerConfig::default(), ColorImage::new()).base_layer().unwrap();
    assert!(layer.owners.is_empty());
    assert!(layer.output.is_empty());
}

#[test]
fn similar_colours_are_merged_by_the_shift() {
    // the two colours differ by one step of 16 in one channel
    let paint: fn(usize, usize) -> Color = |x, _| if x < 2 { Color::new(16, 16, 16) } else { Color::new(47, 16, 16) };
    let merged = Runner::new(RunnerConfig::default(), image(4, 4, paint)).base_layer().unwrap();
    assert_eq!(merged.owners[4 + 1], merged.owners[4 + 2]);
    let apart = Runner::new(RunnerConfig { is_same_color_b: 0, ..RunnerConfig::default() }, image(4, 4, paint))
        .base_layer()
        .unwrap();
    assert!(apart.owners[4 + 1] != apart.owners[4 + 2]);
    assert_eq!(apart.owners[4 + 2], apart.owners[4 + 3]);
    // with all bits kept the colours are 31 apart
    let exact = RunnerConfig { is_same_color_a: 0, is_same_color_b: 30, ..RunnerConfig::default() };
    let apart = Runner::new(exact, image(4, 4, paint)).base_layer().unwrap();
    assert!(apart.owners[4 + 1] != apart.owners[4 + 2]);
    let exact = RunnerConfig { is_same_color_a: 0, is_same_color_b: 31, ..RunnerConfig::default() };
    let merged = Runner::new(exact, image(4, 4, paint)).base_layer().unwrap();
    assert_eq!(merged.owners[4 + 1], merged.owners[4 + 2]);
}


#[test]
fn diagonal_adjacency_joins_pixels_that_touch_at_a_corner() {
    let checks: fn(usize, usize) -> Color = |x, y| if (x + y) % 2 == 0 { red() } else { blue() };
    for (diagonal, clusters) in [(false, 4), (true, 2)] {
        let config = RunnerConfig { diagonal, hierarchical: 0, ..RunnerConfig::default() };
        let mut handle = Runner::new(config, image(2, 2, checks)).start();
        while !handle.tick() {}
        let result = Segmentation::of(&handle.result());
        assert_eq!(result.output.len(), clusters);
        assert_eq!(result.owners[0] == result.owners[3], diagonal);
        assert_eq!(result.owners[1] == result.owners[2], diagonal);
        assert!(result.owners[0] != result.owners[1]);
    }
}

#[test]
fn cluster_with_more_neighbours_than_the_limit_is_no_hole() {
    let config = RunnerConfig { hollow_neighbours: 0, ..RunnerConfig::default() };
    let layers = Segmentation::of(&Runner::new(config, image(10, 10, two_halves)).run());
    assert_eq!(layers.output, vec![2, 7]);
    assert_eq!(layers.clusters[7].num_holes, 0);
    assert!(layers.clusters[7].holes.is_empty());
    assert_eq!(layers.clusters[7].depth, 1);
}

#[test]
fn job_tells_whether_it_can_be_run() {
    let runnable = |config: RunnerConfig, image: ColorImage| {
        let runner = Runner::new(config, image);
        (runner.is_valid(), runner.is_runnable())
    };
    let default = RunnerConfig::default();
    assert_eq!(runnable(default, image(4, 4, |_, _| red())), (true, true));
    assert_eq!(runnable(RunnerConfig { is_same_color_a: 8, ..default }, image(4, 4, |_, _| red())), (false, false));
    assert_eq!(runnable(RunnerConfig { is_same_color_a: -1, ..default }, image(4, 4, |_, _| red())), (false, false));
    assert_eq!(runnable(RunnerConfig { is_same_color_a: 0, ..default }, image(4, 4, |_, _| red())), (true, true));
    assert_eq!(runnable(RunnerConfig { is_same_color_a: 7, ..default }, image(4, 4, |_, _| red())), (true, true));
    assert_eq!(runnable(RunnerConfig { batch_size: 0, ..default }, image(4, 4, |_, _| red())), (true, false));
    assert_eq!(runnable(RunnerConfig { batch_size: -5, ..default }, image(4, 4, |_, _| red())), (true, true));
    assert_eq!(runnable(RunnerConfig { diagonal: true, ..default }, image(4, 4, |_, _| red())), (true, false));
    let short = ColorImage { pixels: vec![0; 63], width: 4, height: 4 };
    assert_eq!(runnable(default, short), (true, false));
    let long = ColorImage { pixels: vec![0; 68], width: 4, height: 4 };
    assert_eq!(runnable(default, long), (true, false));
}

#[test]
fn image_counts_its_pixels() {
    assert_eq!(image(4, 3, |_, _| red()).pixel_count(), Some(12));
    assert_eq!(ColorImage::new().pixel_count(), Some(0));
    assert_eq!(ColorImage { pixels: Vec::new(), width: 0, height: 9 }.pixel_count(), Some(0));
    assert_eq!(ColorImage { pixels: Vec::new(), width: 9, height: 0 }.pixel_count(), Some(0));
    assert_eq!(ColorImage { pixels: vec![0; 4], width: 0, height: 1 }.pixel_count(), None);
    assert_eq!(ColorImage { pixels: vec![0; 47], width: 4, height: 3 }.pixel_count(), None);
    assert_eq!(ColorImage { pixels: vec![0; 48], width: 3, height: 4 }.pixel_count(), Some(12));
    assert_eq!(ColorImage { pixels: vec![0; 48], width: 5, height: 2 }.pixel_count(), None);
    assert_eq!(ColorImage { pixels: vec![0; 48], width: 6, height: 3 }.pixel_count(), None);
    assert_eq!(ColorImage { pixels: vec![0; 40], width: usize::MAX, height: usize::MAX }.pixel_count(), None);
    let picture = image(3, 2, |x, y| Color::new(x as u8, y as u8, 7));
    assert_eq!(picture.get_pixel(2, 1), Color::new(2, 1, 7));
    assert_eq!(picture.get_pixel(0, 1), Color::new(0, 1, 7));
}
