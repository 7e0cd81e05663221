use rustyflame::color::{generate_random_rgb, mix_rgb, Color};
use rustyflame::histogram::{downsample, downsample_cell};
use rustyflame::random::RandomSource;
use rustyflame::render::{first_request, next_request, Dimensions, RenderConfig, SurfaceRequest};
use rustyflame::simulator::{
    ConfigError, FunctionElement, FunctionSet, Sample, Simulator, State, SuperSamplingFactor,
};
use rustyflame::tone::{max_density, tone_map, ChannelOrder};
use rustyflame::utils::zip;

type Matrix = [[f64; 3]; 2];
type Point = (f64, f64);

fn apply(m: &Matrix, p: &Point) -> Point {
    (m[0][0] * p.0 + m[0][1] * p.1 + m[0][2], m[1][0] * p.0 + m[1][1] * p.1 + m[1][2])
}

fn locate(p: &Point, plot: Dimensions) -> (usize, usize) {
    let height = plot.height as f64;
    let width = plot.width as f64;
    (((p.0 + 1.) * height / 2.) as usize, ((p.1 + 1.) * width / 2.) as usize)
}

fn curve(channel: u8, hits: usize, most: usize) -> u8 {
    let factor = ((hits as f64).log10() / (most as f64).log10()).powf(1. / 2.2);
    (channel as f64 * factor).round().clamp(0., 255.) as u8
}

fn triangle() -> Vec<Matrix> {
    vec![
        [[0.5, 0., 0.], [0., 0.5, 0.]],
        [[0.5, 0., 0.5], [0., 0.5, 0.]],
        [[0.5, 0., 0.], [0., 0.5, 0.5]],
    ]
}

fn simulator(seed: u64, preparation_rounds: usize) -> Simulator<Point, Matrix> {
    Simulator::new(
        Dimensions { width: 16, height: 12 },
        preparation_rounds,
        SuperSamplingFactor::X2,
        (0.1, 0.2),
        triangle(),
        RandomSource::from_seed(seed),
    )
    .unwrap()
}

fn state(width: u32, height: u32, preparation_rounds: usize) -> State<Point> {
    let mut rng = RandomSource::from_seed(3);
    State::new(
        Dimensions { width, height },
        SuperSamplingFactor::X1,
        preparation_rounds,
        (0., 0.),
        &mut rng,
    )
    .unwrap()
}

#[test]
fn mix_is_the_midpoint_rounded_down() {
    let a = Color { r: 10, g: 0, b: 255 };
    let b = Color { r: 20, g: 255, b: 0 };
    assert_eq!(mix_rgb(a, b), Color { r: 15, g: 127, b: 127 });
    assert_eq!(mix_rgb(b, a), Color { r: 15, g: 127, b: 127 });
    assert_eq!(mix_rgb(a, a), a);
    assert_eq!(
        mix_rgb(Color::rgb(255, 254, 1), Color::rgb(255, 255, 2)),
        Color { r: 255, g: 254, b: 1 }
    );
}

#[test]
fn random_colors_follow_the_seed() {
    let mut first = RandomSource::from_seed(11);
    let mut second = RandomSource::from_seed(11);
    let mut other = RandomSource::from_seed(12);
    let mut same = true;
    let mut differs = false;
    for _ in 0..200 {
        let a = generate_random_rgb(&mut first);
        let b = generate_random_rgb(&mut second);
        let c = generate_random_rgb(&mut other);
        assert!(a.r < 255 && a.g < 255 && a.b < 255);
        same = same && a == b;
        differs = differs || a != c;
    }
    assert!(same);
    assert!(differs);
}

#[test]
fn random_indices_stay_below_the_bound() {
    let mut rng = RandomSource::from_seed(5);
    let mut seen = [false; 3];
    for _ in 0..300 {
        let i = rng.index_below(3);
        assert!(i < 3);
        seen[i] = true;
    }
    assert_eq!(seen, [true, true, true]);
    for _ in 0..10 {
        assert_eq!(rng.index_below(1), 0);
    }
    for _ in 0..300 {
        assert!(rng.channel() < 255);
    }
}

#[test]
fn downsampling_by_one_changes_nothing() {
    let dims = Dimensions { width: 3, height: 2 };
    let density: Vec<usize> = vec![0, 1, 2, 3, 4, 5];
    let color: Vec<Color> =
        (0..6u8).map(|i| Color { r: i, g: 2 * i, b: 255 - i }).collect();
    let (d, c) = downsample(&density, &color, dims, SuperSamplingFactor::X1);
    assert_eq!(d, density);
    assert_eq!(c, color);
}

#[test]
fn downsampling_sums_each_block_and_averages_its_colors() {
    let dims = Dimensions { width: 4, height: 4 };
    let density: Vec<usize> = (0..16).collect();
    let color: Vec<Color> =
        (0..16u8).map(|i| Color { r: i, g: 10 * i, b: 255 - i }).collect();
    let (d, c) = downsample(&density, &color, dims, SuperSamplingFactor::X2);
    // blocks: {0,1,4,5} {2,3,6,7} {8,9,12,13} {10,11,14,15}
    assert_eq!(d, vec![10, 18, 42, 50]);
    assert_eq!(
        c,
        vec![
            Color { r: 2, g: 25, b: 252 },
            Color { r: 4, g: 45, b: 250 },
            Color { r: 10, g: 105, b: 244 },
            Color { r: 12, g: 125, b: 242 },
        ]
    );
    let (d, c) = downsample(&density, &color, dims, SuperSamplingFactor::X4);
    assert_eq!(d, vec![120]);
    assert_eq!(c, vec![Color { r: 7, g: 75, b: 247 }]);
    let (d, c) = downsample(&density, &color, dims, SuperSamplingFactor::X8);
    assert_eq!(d, Vec::<usize>::new());
    assert_eq!(c, Vec::<Color>::new());
}

#[test]
fn downsampling_leaves_out_what_fills_no_block() {
    let dims = Dimensions { width: 3, height: 5 };
    let density: Vec<usize> = (1..=15).collect();
    let color: Vec<Color> = vec![Color { r: 9, g: 9, b: 9 }; 15];
    let (d, c) = downsample(&density, &color, dims, SuperSamplingFactor::X2);
    // one column of blocks, two rows: {1,2,4,5} and {7,8,10,11}
    assert_eq!(d, vec![12, 36]);
    assert_eq!(c, vec![Color { r: 9, g: 9, b: 9 }; 2]);
}

#[test]
fn a_block_is_cut_off_at_the_edge_and_black_beyond_it() {
    let dims = Dimensions { width: 3, height: 3 };
    let density: Vec<usize> = (1..=9).collect();
    let color: Vec<Color> =
        (1..=9u8).map(|i| Color { r: 10 * i, g: i, b: 0 }).collect();
    // the block at (2, 2) has one cell in the grid: the last
    assert_eq!(
        downsample_cell(&density, &color, dims, 2, 2, SuperSamplingFactor::X2),
        (9, Color { r: 90, g: 9, b: 0 })
    );
    // the block at (1, 2) has two: cells 6 and 9
    assert_eq!(
        downsample_cell(&density, &color, dims, 1, 2, SuperSamplingFactor::X2),
        (15, Color { r: 75, g: 7, b: 0 })
    );
    // blocks that start beyond the grid have none
    let black = Color { r: 0, g: 0, b: 0 };
    assert_eq!(downsample_cell(&density, &color, dims, 3, 0, SuperSamplingFactor::X2), (0, black));
    assert_eq!(downsample_cell(&density, &color, dims, 0, 3, SuperSamplingFactor::X4), (0, black));
    assert_eq!(
        downsample_cell(&density, &color, dims, usize::MAX, usize::MAX, SuperSamplingFactor::X8),
        (0, black)
    );
    // and one that covers the whole grid sums all of it
    assert_eq!(
        downsample_cell(&density, &color, dims, 0, 0, SuperSamplingFactor::X8),
        (45, Color { r: 50, g: 5, b: 0 })
    );
}

#[test]
fn the_fullest_cell_is_the_largest_count() {
    assert_eq!(max_density(&vec![]), 0);
    assert_eq!(max_density(&vec![0, 0]), 0);
    assert_eq!(max_density(&vec![3, 9, 2, 9, 1]), 9);
}

#[test]
fn tone_mapping_shows_the_fullest_cells_in_full_and_skips_empty_ones() {
    let density: Vec<usize> = vec![100, 0, 10, 100];
    let color = vec![
        Color { r: 200, g: 100, b: 50 },
        Color { r: 1, g: 2, b: 3 },
        Color { r: 200, g: 100, b: 50 },
        Color { r: 255, g: 0, b: 7 },
    ];
    let mut buffer = vec![77u8; 18];
    tone_map(&density, &color, &mut buffer[..], ChannelOrder::Rgba, curve);
    assert_eq!(&buffer[0..4], &[200, 100, 50, 0]);
    assert_eq!(&buffer[4..8], &[77, 77, 77, 77]);
    // log10(10) / log10(100) = 0.5, and 0.5 ^ (1 / 2.2) = 0.72974...
    assert_eq!(&buffer[8..12], &[146, 73, 36, 0]);
    assert_eq!(&buffer[12..16], &[255, 0, 7, 0]);
    assert_eq!(&buffer[16..18], &[77, 77]);
}

#[test]
fn tone_mapping_passes_colors_through_while_no_cell_has_two_hits() {
    let density: Vec<usize> = vec![1, 0, 1];
    let color = vec![
        Color { r: 9, g: 8, b: 7 },
        Color { r: 1, g: 2, b: 3 },
        Color { r: 6, g: 5, b: 4 },
    ];
    let mut buffer = vec![0u8; 12];
    tone_map(&density, &color, &mut buffer[..], ChannelOrder::Rgba, |_, _, _| 99);
    assert_eq!(buffer, vec![9, 8, 7, 0, 0, 0, 0, 0, 6, 5, 4, 0]);
}

#[test]
fn tone_mapping_writes_the_channels_in_the_order_asked_for() {
    let density: Vec<usize> = vec![5];
    let color = vec![Color { r: 1, g: 2, b: 3 }];
    for (order, bytes) in [
        (ChannelOrder::Rgba, [1, 2, 3, 0]),
        (ChannelOrder::Argb, [0, 1, 2, 3]),
        (ChannelOrder::Bgra, [3, 2, 1, 0]),
        (ChannelOrder::Abgr, [0, 3, 2, 1]),
    ] {
        let mut buffer = vec![9u8; 4];
        tone_map(&density, &color, &mut buffer[..], order, curve);
        assert_eq!(buffer, bytes);
    }
}

#[test]
fn tone_mapping_hands_the_counts_to_the_curve() {
    let density: Vec<usize> = vec![2, 7, 4];
    let color = vec![Color { r: 1, g: 2, b: 3 }; 3];
    let mut buffer = vec![0u8; 12];
    tone_map(&density, &color, &mut buffer[..], ChannelOrder::Rgba, |c, hits, most| {
        assert_eq!(most, 7);
        c + 10 * hits as u8
    });
    assert_eq!(buffer, vec![21, 22, 23, 0, 1, 2, 3, 0, 41, 42, 43, 0]);
}

#[test]
fn a_state_starts_blank_on_the_supersampled_grid() {
    let mut rng = RandomSource::from_seed(1);
    let state: State<Point> = State::new(
        Dimensions { width: 5, height: 3 },
        SuperSamplingFactor::X4,
        20,
        (0.25, -0.5),
        &mut rng,
    )
    .unwrap();
    assert_eq!(state.plot_dimensions(), Dimensions { width: 20, height: 12 });
    assert_eq!(state.density_histogram(), &vec![0usize; 240]);
    assert_eq!(state.color_histogram(), &vec![Color { r: 0, g: 0, b: 0 }; 240]);
    assert_eq!(state.iter_count(), 0);
    assert_eq!(state.preparation_rounds(), 20);
    assert_eq!(*state.current_coordinates(), (0.25, -0.5));
    let c = state.current_color();
    assert!(c.r < 255 && c.g < 255 && c.b < 255);
}

#[test]
fn a_state_needs_pixels_and_a_grid_that_can_be_addressed() {
    let mut rng = RandomSource::from_seed(1);
    let made: Result<State<Point>, ConfigError> = State::new(
        Dimensions { width: 0, height: 3 },
        SuperSamplingFactor::X1,
        0,
        (0., 0.),
        &mut rng,
    );
    assert_eq!(made.err(), Some(ConfigError::ZeroDimensions));
    let made: Result<State<Point>, ConfigError> = State::new(
        Dimensions { width: 3, height: 0 },
        SuperSamplingFactor::X8,
        0,
        (0., 0.),
        &mut rng,
    );
    assert_eq!(made.err(), Some(ConfigError::ZeroDimensions));
    let made: Result<State<Point>, ConfigError> = State::new(
        Dimensions { width: u32::MAX, height: 1 },
        SuperSamplingFactor::X2,
        0,
        (0., 0.),
        &mut rng,
    );
    assert_eq!(made.err(), Some(ConfigError::DimensionsTooLarge));
    let made: Result<State<Point>, ConfigError> = State::new(
        Dimensions { width: 1, height: 0x2000_0000 },
        SuperSamplingFactor::X8,
        0,
        (0., 0.),
        &mut rng,
    );
    assert_eq!(made.err(), Some(ConfigError::DimensionsTooLarge));
}

#[test]
fn errors_say_what_is_wrong() {
    assert_eq!(ConfigError::EmptyFunctionSet.message(), "the function set is empty");
    assert_eq!(ConfigError::ZeroDimensions.message(), "the output dimensions are zero");
    assert_eq!(ConfigError::DimensionsTooLarge.message(), "the accumulation grid is too large");
}

#[test]
fn a_step_blends_the_color_and_plots_once_the_preparation_is_over() {
    let mut state = state(4, 3, 2);
    let start = state.current_color();
    let tint = Color { r: 200, g: 100, b: 0 };
    assert_eq!(state.step_with(tint, (0.5, 0.5), 1, 1), Sample::Preparing);
    assert_eq!(state.step_with(tint, (0.5, 0.5), 1, 1), Sample::Preparing);
    assert_eq!(state.iter_count(), 2);
    assert_eq!(state.density_histogram(), &vec![0usize; 12]);
    let second = mix_rgb(mix_rgb(start, tint), tint);
    assert_eq!(state.current_color(), second);
    assert_eq!(state.step_with(tint, (0.25, 0.75), 1, 1), Sample::Plotted(5));
    assert_eq!(*state.current_coordinates(), (0.25, 0.75));
    let third = mix_rgb(second, tint);
    assert_eq!(state.current_color(), third);
    assert_eq!(state.density_histogram()[5], 1);
    assert_eq!(state.color_histogram()[5], third);
    assert_eq!(state.step_with(tint, (0.25, 0.75), 1, 1), Sample::Plotted(5));
    assert_eq!(state.density_histogram()[5], 2);
    assert_eq!(state.color_histogram()[5], mix_rgb(third, tint));
    assert_eq!(state.iter_count(), 4);
}

#[test]
fn cell_zero_and_what_lies_outside_are_never_plotted() {
    let mut state = state(4, 3, 0);
    let tint = Color { r: 1, g: 2, b: 3 };
    assert_eq!(state.step_with(tint, (0., 0.), 0, 0), Sample::Discarded);
    assert_eq!(state.step_with(tint, (0., 0.), 3, 0), Sample::Discarded);
    assert_eq!(state.step_with(tint, (0., 0.), 0, 4), Sample::Discarded);
    assert_eq!(state.step_with(tint, (0., 0.), usize::MAX, usize::MAX), Sample::Discarded);
    assert_eq!(state.density_histogram(), &vec![0usize; 12]);
    assert_eq!(state.color_histogram(), &vec![Color { r: 0, g: 0, b: 0 }; 12]);
    assert_eq!(state.iter_count(), 4);
    assert_eq!(state.step_with(tint, (0., 0.), 0, 1), Sample::Plotted(1));
    assert_eq!(state.step_with(tint, (0., 0.), 2, 3), Sample::Plotted(11));
    assert_eq!(state.density_histogram()[0], 0);
    assert_eq!(state.density_histogram().iter().sum::<usize>(), 2);
}

#[test]
fn a_state_steps_with_a_function_of_the_set() {
    let mut state = state(8, 8, 0);
    let mut rng = RandomSource::from_seed(21);
    let blue = Color { r: 0, g: 0, b: 254 };
    let set = FunctionSet::new(vec![FunctionElement {
        application: [[0., 0., 0.5], [0., 0., -0.5]],
        associated_color: blue,
    }])
    .unwrap();
    let start = state.current_color();
    // the one map takes every point to (0.5, -0.5), which lies in row 6 and column 2
    assert_eq!(state.step(&set, &mut rng, apply, locate), Sample::Plotted(50));
    assert_eq!(*state.current_coordinates(), (0.5, -0.5));
    assert_eq!(state.current_color(), mix_rgb(start, blue));
    assert_eq!(state.density_histogram()[50], 1);
    assert_eq!(state.color_histogram()[50], mix_rgb(start, blue));
    assert_eq!(state.step(&set, &mut rng, apply, locate), Sample::Plotted(50));
    assert_eq!(state.density_histogram()[50], 2);
    assert_eq!(state.iter_count(), 2);
}

#[test]
fn a_function_set_keeps_its_order_and_is_never_empty() {
    let none: Vec<FunctionElement<Matrix>> = vec![];
    assert_eq!(FunctionSet::new(none).err(), Some(ConfigError::EmptyFunctionSet));
    let mut rng = RandomSource::from_seed(9);
    let no_maps: Vec<Matrix> = vec![];
    assert_eq!(
        FunctionSet::with_random_colors(no_maps, &mut rng).err(),
        Some(ConfigError::EmptyFunctionSet)
    );
    let set = FunctionSet::with_random_colors(triangle(), &mut rng).unwrap();
    assert_eq!(set.len(), 3);
    for (i, m) in triangle().iter().enumerate() {
        assert_eq!(&set.get(i).application, m);
        let c = set.get(i).associated_color;
        assert!(c.r < 255 && c.g < 255 && c.b < 255);
    }
    let mut seen = [false; 3];
    for _ in 0..300 {
        let picked = set.pick_random(&mut rng);
        let at = triangle().iter().position(|m| *m == picked.application).unwrap();
        assert_eq!(picked.associated_color, set.get(at).associated_color);
        seen[at] = true;
    }
    assert_eq!(seen, [true, true, true]);
    let one = FunctionSet::new(vec![FunctionElement {
        application: 5u8,
        associated_color: Color { r: 1, g: 2, b: 3 },
    }])
    .unwrap();
    assert_eq!(one.pick_random(&mut rng).application, 5);
}

#[test]
fn a_simulator_is_refused_without_functions_or_pixels() {
    let made: Result<Simulator<Point, Matrix>, ConfigError> = Simulator::new(
        Dimensions { width: 4, height: 4 },
        0,
        SuperSamplingFactor::X1,
        (0., 0.),
        vec![],
        RandomSource::from_seed(1),
    );
    assert_eq!(made.err(), Some(ConfigError::EmptyFunctionSet));
    let made: Result<Simulator<Point, Matrix>, ConfigError> = Simulator::new(
        Dimensions { width: 0, height: 4 },
        0,
        SuperSamplingFactor::X1,
        (0., 0.),
        triangle(),
        RandomSource::from_seed(1),
    );
    assert_eq!(made.err(), Some(ConfigError::ZeroDimensions));
    let made: Result<Simulator<Point, Matrix>, ConfigError> = Simulator::new(
        Dimensions { width: u32::MAX, height: u32::MAX },
        0,
        SuperSamplingFactor::X8,
        (0., 0.),
        triangle(),
        RandomSource::from_seed(1),
    );
    assert_eq!(made.err(), Some(ConfigError::DimensionsTooLarge));
}

#[test]
fn every_sample_past_the_preparation_is_plotted_or_discarded() {
    let mut sim = simulator(42, 20);
    let mut preparing = 0;
    let mut plotted = 0;
    let mut discarded = 0;
    let mut before = sim.state().density_histogram().clone();
    for n in 0..100_000usize {
        match sim.step(apply, locate) {
            Sample::Preparing => preparing += 1,
            Sample::Plotted(idx) => {
                assert!(0 < idx && idx < before.len());
                plotted += 1;
            },
            Sample::Discarded => discarded += 1,
        }
        if n % 1000 == 0 {
            let now = sim.state().density_histogram();
            assert!(now.iter().zip(before.iter()).all(|(a, b)| a >= b));
            before = now.clone();
        }
    }
    assert_eq!(preparing, 20);
    assert_eq!(sim.state().iter_count(), 100_000);
    let sum: usize = sim.state().density_histogram().iter().sum();
    assert_eq!(sum, 100_000 - 20 - discarded);
    assert_eq!(sum, plotted);
    assert!(plotted > 90_000);
    assert_eq!(sim.state().density_histogram()[0], 0);

    let mut again = simulator(42, 20);
    for _ in 0..100_000 {
        again.step(apply, locate);
    }
    assert_eq!(again.state().density_histogram(), sim.state().density_histogram());
    assert_eq!(again.state().color_histogram(), sim.state().color_histogram());
}

#[test]
fn a_reset_blanks_the_histograms_and_takes_the_new_functions() {
    let mut sim = simulator(8, 0);
    for _ in 0..500 {
        sim.step(apply, locate);
    }
    assert!(sim.state().density_histogram().iter().sum::<usize>() > 0);
    let before: Vec<Color> =
        (0..3).map(|i| sim.function_set().get(i).associated_color).collect();
    let fresh: Vec<Matrix> = vec![[[0.25, 0., 0.], [0., 0.25, 0.]], [[0.5, 0., 0.], [0., 0.5, 0.5]]];
    assert_eq!(sim.reset((0.5, 0.5), fresh.clone()), Ok(()));
    assert_eq!(sim.state().iter_count(), 0);
    assert_eq!(sim.state().preparation_rounds(), 0);
    assert_eq!(*sim.state().current_coordinates(), (0.5, 0.5));
    assert_eq!(sim.state().plot_dimensions(), Dimensions { width: 32, height: 24 });
    assert_eq!(sim.window_dimensions(), Dimensions { width: 16, height: 12 });
    assert_eq!(sim.state().density_histogram(), &vec![0usize; 32 * 24]);
    assert_eq!(sim.state().color_histogram(), &vec![Color { r: 0, g: 0, b: 0 }; 32 * 24]);
    assert_eq!(sim.function_set().len(), 2);
    assert_eq!(sim.function_set().get(0).application, fresh[0]);
    assert_eq!(sim.function_set().get(1).application, fresh[1]);
    let after: Vec<Color> = (0..2).map(|i| sim.function_set().get(i).associated_color).collect();
    assert_ne!(&before[..2], &after[..]);
}

#[test]
fn a_reset_without_functions_changes_nothing() {
    let mut sim = simulator(8, 0);
    for _ in 0..500 {
        sim.step(apply, locate);
    }
    let density = sim.state().density_histogram().clone();
    let colors = sim.state().color_histogram().clone();
    assert_eq!(sim.reset((0.5, 0.5), vec![]), Err(ConfigError::EmptyFunctionSet));
    assert_eq!(sim.state().iter_count(), 500);
    assert_eq!(sim.state().density_histogram(), &density);
    assert_eq!(sim.state().color_histogram(), &colors);
    assert_eq!(sim.function_set().len(), 3);
}

#[test]
fn a_reset_with_another_seed_gives_other_functions() {
    let colors = |s: &Simulator<Point, Matrix>| -> Vec<Color> {
        (0..3).map(|i| s.function_set().get(i).associated_color).collect()
    };
    let reset_with_seed = |seed: u64| -> Simulator<Point, Matrix> {
        let mut sim = simulator(77, 0);
        for _ in 0..100 {
            sim.step(apply, locate);
        }
        let density = sim.state().density_histogram().clone();
        sim.reseed(RandomSource::from_seed(seed));
        assert_eq!(sim.state().density_histogram(), &density);
        assert_eq!(sim.state().iter_count(), 100);
        assert_eq!(sim.reset((0., 0.), triangle()), Ok(()));
        sim
    };
    let a = reset_with_seed(1);
    let b = reset_with_seed(2);
    let same = reset_with_seed(1);
    assert_ne!(colors(&a), colors(&b));
    assert_ne!(a.state().current_color(), b.state().current_color());
    assert_eq!(colors(&a), colors(&same));
    assert_eq!(a.state().current_color(), same.state().current_color());
}

#[test]
fn another_seed_gives_other_functions() {
    let a = simulator(1, 0);
    let b = simulator(2, 0);
    let same = simulator(1, 0);
    let colors = |s: &Simulator<Point, Matrix>| -> Vec<Color> {
        (0..3).map(|i| s.function_set().get(i).associated_color).collect()
    };
    assert_ne!(colors(&a), colors(&b));
    assert_eq!(colors(&a), colors(&same));
    assert_eq!(a.state().current_color(), same.state().current_color());
}

#[test]
fn rendering_reduces_and_tone_maps_without_touching_the_state() {
    let mut sim = simulator(4, 20);
    for _ in 0..20_000 {
        sim.step(apply, locate);
    }
    let density = sim.state().density_histogram().clone();
    let (hist, colors) = sim.state().compute_subsampled_histogram();
    assert_eq!(hist.len(), 16 * 12);
    assert_eq!(hist.iter().sum::<usize>(), density.iter().sum::<usize>());
    let most = max_density(&hist);
    let mut buffer = vec![0u8; 16 * 12 * 4 + 3];
    sim.render(&mut buffer[..], ChannelOrder::Rgba, curve);
    assert_eq!(sim.state().density_histogram(), &density);
    assert_eq!(&buffer[16 * 12 * 4..], &[0, 0, 0]);
    let mut full = 0;
    for (i, (hits, c)) in zip((&hist[..], &colors[..])).into_iter().enumerate() {
        let pixel = &buffer[4 * i..4 * i + 4];
        if *hits == 0 {
            assert_eq!(pixel, &[0, 0, 0, 0]);
        } else if *hits == most {
            assert_eq!(pixel, &[c.r, c.g, c.b, 0]);
            full += 1;
        } else {
            assert_eq!(
                pixel,
                &[curve(c.r, *hits, most), curve(c.g, *hits, most), curve(c.b, *hits, most), 0]
            );
        }
    }
    assert!(full >= 1);
}

#[test]
fn a_window_is_configured_with_a_title_and_dimensions() {
    let config = RenderConfig {
        window_title: String::from("Flame renderer"),
        window_dimensions: Dimensions { width: 1200, height: 960 },
    };
    assert_eq!(config.window_title, "Flame renderer");
    assert_eq!(config.window_dimensions, Dimensions { width: 1200, height: 960 });
}

#[test]
fn zip_pairs_items_for_as_long_as_both_lists_last() {
    let a = [1, 2, 3];
    let b = ["x", "y"];
    assert_eq!(zip((&a[..], &b[..])), vec![(&1, &"x"), (&2, &"y")]);
    assert_eq!(zip((&b[..], &a[..])), vec![(&"x", &1), (&"y", &2)]);
    let none: [u8; 0] = [];
    assert_eq!(zip((&a[..], &none[..])), vec![]);
}

#[test]
fn factor_values() {
    assert_eq!(SuperSamplingFactor::X1.value(), 1);
    assert_eq!(SuperSamplingFactor::X2.value(), 2);
    assert_eq!(SuperSamplingFactor::X4.value(), 4);
    assert_eq!(SuperSamplingFactor::X8.value(), 8);
}

#[test]
fn a_frame_asks_the_surface_in_a_fixed_order() {
    let mut asked = vec![first_request()];
    while let Some(next) = next_request(*asked.last().unwrap()) {
        asked.push(next);
    }
    assert_eq!(
        asked,
        vec![
            SurfaceRequest::CreateTarget,
            SurfaceRequest::WritePixels,
            SurfaceRequest::Clear,
            SurfaceRequest::Submit,
            SurfaceRequest::Present,
        ]
    );
}
