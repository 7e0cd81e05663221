use vstd::prelude::*;
use crate::color::{generate_random_rgb, mix, mix_rgb, Color};
use crate::histogram::{
    downsample, downsampled_color, downsampled_density, lemma_cell_index, lemma_cell_within_total,
    lemma_total_of_zeros, lemma_total_update, total,
};
use crate::random::RandomSource;
use crate::render::Dimensions;
use crate::tone::{peak, pixel_mapped, tone_map, ChannelOrder};

verus! {

/// How many accumulation cells stand behind one output pixel, along each axis.
#[derive(Clone, Copy, Debug, PartialEq, Eq, Structural)]
pub enum SuperSamplingFactor {
    X1,
    X2,
    X4,
    X8,
}

impl SuperSamplingFactor {
    pub open spec fn scale(self) -> int {
        match self {
            SuperSamplingFactor::X1 => 1,
            SuperSamplingFactor::X2 => 2,
            SuperSamplingFactor::X4 => 4,
            SuperSamplingFactor::X8 => 8,
        }
    }

    pub fn value(self) -> (v: u32)
        ensures
            v == self.scale(),
    {
        match self {
            SuperSamplingFactor::X1 => 1,
            SuperSamplingFactor::X2 => 2,
            SuperSamplingFactor::X4 => 4,
            SuperSamplingFactor::X8 => 8,
        }
    }
}

/// Why a simulation cannot be set up as asked.
#[derive(Clone, Copy, Debug, PartialEq, Eq, Structural)]
pub enum ConfigError {
    /// There is no function to choose from.
    EmptyFunctionSet,
    /// The output has no pixel.
    ZeroDimensions,
    /// The accumulation grid would have more cells than can be addressed.
    DimensionsTooLarge,
}

impl ConfigError {
    pub fn message(&self) -> (text: &'static str)
        ensures
            text@ == match *self {
                ConfigError::EmptyFunctionSet => "the function set is empty"@,
                ConfigError::ZeroDimensions => "the output dimensions are zero"@,
                ConfigError::DimensionsTooLarge => "the accumulation grid is too large"@,
            },
    {
        match self {
            ConfigError::EmptyFunctionSet => "the function set is empty",
            ConfigError::ZeroDimensions => "the output dimensions are zero",
            ConfigError::DimensionsTooLarge => "the accumulation grid is too large",
        }
    }
}

/// What became of the sample of one iteration.
#[derive(Clone, Copy, Debug, PartialEq, Eq, Structural)]
pub enum Sample {
    /// The iteration was one of the first, whose samples are not plotted.
    Preparing,
    /// The sample was counted in the cell of this index.
    Plotted(usize),
    /// The sample fell outside the grid or on cell zero, and left no trace.
    Discarded,
}

/// The grid that an output of `dims` pixels accumulates on.
pub open spec fn plot_grid(dims: Dimensions, factor: SuperSamplingFactor) -> Dimensions {
    Dimensions {
        width: (dims.width * factor.scale()) as u32,
        height: (dims.height * factor.scale()) as u32,
    }
}

/// Why no state can be made for an output of `dims` pixels, if anything.
pub open spec fn grid_error(dims: Dimensions, factor: SuperSamplingFactor) -> Option<ConfigError> {
    let s = factor.scale();
    if dims.is_empty() {
        Some(ConfigError::ZeroDimensions)
    } else if dims.width * s > u32::MAX || dims.height * s > u32::MAX || (dims.width * s) * (
    dims.height * s) > usize::MAX {
        Some(ConfigError::DimensionsTooLarge)
    } else {
        None
    }
}

/// The cell that a sample at `(row, col)` is counted in. A sample outside the
/// grid is counted nowhere, and neither is one that falls on cell zero.
pub open spec fn plot_target(plot: Dimensions, row: int, col: int) -> Option<int> {
    if 0 <= row < plot.height && 0 <= col < plot.width && row * plot.width + col > 0 {
        Some(row * plot.width + col)
    } else {
        None
    }
}

/// The state of a chaos game as the contracts see it.
#[verifier::ext_equal]
pub struct StateView<P> {
    pub point: P,
    pub color: Color,
    pub density: Seq<usize>,
    pub colors: Seq<Color>,
    pub plot_dimensions: Dimensions,
    pub iterations: nat,
    pub preparation_rounds: nat,
    pub factor: SuperSamplingFactor,
}

impl<P> StateView<P> {
    /// The histograms fit the grid, and no more hits are held than iterations
    /// past the preparation were made.
    pub open spec fn wf(self) -> bool {
        &&& !self.plot_dimensions.is_empty()
        &&& self.plot_dimensions.area() <= usize::MAX
        &&& self.density.len() == self.plot_dimensions.area()
        &&& self.colors.len() == self.plot_dimensions.area()
        &&& self.iterations <= usize::MAX
        &&& self.preparation_rounds <= usize::MAX
        &&& if self.iterations > self.preparation_rounds {
            total(self.density) <= self.iterations - self.preparation_rounds
        } else {
            total(self.density) == 0
        }
    }

    /// The state after the current colour was plotted at `(row, col)`.
    pub open spec fn plotted(self, row: int, col: int) -> StateView<P> {
        match plot_target(self.plot_dimensions, row, col) {
            Some(idx) => StateView {
                density: self.density.update(idx, (self.density[idx] + 1) as usize),
                colors: self.colors.update(idx, self.color),
                ..self
            },
            None => self,
        }
    }

    /// The state after one iteration that moved the point to `moved`, which
    /// lies at `(row, col)` of the grid, by a function of colour `tint`.
    pub open spec fn stepped(self, tint: Color, moved: P, row: int, col: int) -> StateView<P> {
        let next = StateView {
            point: moved,
            color: mix(self.color, tint),
            iterations: self.iterations + 1,
            ..self
        };
        if next.iterations > next.preparation_rounds {
            next.plotted(row, col)
        } else {
            next
        }
    }

    /// What becomes of the sample of the next iteration, if it lies at `(row, col)`.
    pub open spec fn next_sample(self, row: int, col: int) -> Sample {
        if self.iterations + 1 > self.preparation_rounds {
            match plot_target(self.plot_dimensions, row, col) {
                Some(idx) => Sample::Plotted(idx as usize),
                None => Sample::Discarded,
            }
        } else {
            Sample::Preparing
        }
    }
}

/// The running state of a chaos game: where the point is, the colour it
/// carries, and what has been accumulated so far.
pub struct State<P> {
    current_coordinates: P,
    current_color: Color,
    density_histogram: Vec<usize>,
    color_histogram: Vec<Color>,
    plot_dimensions: Dimensions,
    iter_count: usize,
    super_sampling_factor: SuperSamplingFactor,
    preparation_rounds: usize,
}

impl<P> View for State<P> {
    type V = StateView<P>;

    closed spec fn view(&self) -> StateView<P> {
        StateView {
            point: self.current_coordinates,
            color: self.current_color,
            density: self.density_histogram@,
            colors: self.color_histogram@,
            plot_dimensions: self.plot_dimensions,
            iterations: self.iter_count as nat,
            preparation_rounds: self.preparation_rounds as nat,
            factor: self.super_sampling_factor,
        }
    }
}

impl<P> State<P> {
    pub open spec fn wf(&self) -> bool {
        self@.wf()
    }

    /// A fresh state for an output of `render_target_dimensions` pixels: the
    /// point at `start`, a random colour, no iteration made and both
    /// histograms blank. An output without pixels is refused, and so is one
    /// whose accumulation grid cannot be addressed.
    pub fn new(
        render_target_dimensions: Dimensions,
        super_sampling_factor: SuperSamplingFactor,
        preparation_rounds: usize,
        start: P,
        rng: &mut RandomSource,
    ) -> (made: Result<State<P>, ConfigError>)
        ensures
            match made {
                Ok(state) => {
                    &&& grid_error(render_target_dimensions, super_sampling_factor) is None
                    &&& state.wf()
                    &&& state@.point == start
                    &&& state@.color.r < 255 && state@.color.g < 255 && state@.color.b < 255
                    &&& state@.plot_dimensions == plot_grid(
                        render_target_dimensions,
                        super_sampling_factor,
                    )
                    &&& state@.iterations == 0
                    &&& state@.preparation_rounds == preparation_rounds
                    &&& state@.factor == super_sampling_factor
                    &&& forall|i: int| 0 <= i < state@.density.len() ==> state@.density[i] == 0
                    &&& forall|i: int|
                        0 <= i < state@.colors.len() ==> state@.colors[i] == Color::black()
                },
                Err(e) => grid_error(render_target_dimensions, super_sampling_factor) == Some(e),
            },
    {
        if render_target_dimensions.width == 0 || render_target_dimensions.height == 0 {
            return Err(ConfigError::ZeroDimensions);
        }
        let factor: u64 = super_sampling_factor.value() as u64;
        assert(render_target_dimensions.width * factor <= 0x7_ffff_fff8
            && render_target_dimensions.height * factor <= 0x7_ffff_fff8) by (nonlinear_arith)
            requires
                render_target_dimensions.width <= 0xffff_ffff,
                render_target_dimensions.height <= 0xffff_ffff,
                1 <= factor <= 8,
        ;
        let width: u64 = render_target_dimensions.width as u64 * factor;
        let height: u64 = render_target_dimensions.height as u64 * factor;
        if width > u32::MAX as u64 || height > u32::MAX as u64 {
            return Err(ConfigError::DimensionsTooLarge);
        }
        assert(width * height <= u64::MAX) by (nonlinear_arith)
            requires
                width <= 0xffff_ffff,
                height <= 0xffff_ffff,
        ;
        let cells: u64 = width * height;
        if cells > usize::MAX as u64 {
            return Err(ConfigError::DimensionsTooLarge);
        }
        let plot_dimensions = Dimensions { width: width as u32, height: height as u32 };
        let density_histogram: Vec<usize> = vec![0usize; cells as usize];
        let color_histogram: Vec<Color> = vec![Color { r: 0, g: 0, b: 0 }; cells as usize];
        let current_color = generate_random_rgb(rng);
        proof {
            lemma_total_of_zeros(density_histogram@);
            assert(width > 0 && height > 0) by (nonlinear_arith)
                requires
                    width == render_target_dimensions.width * factor,
                    height == render_target_dimensions.height * factor,
                    render_target_dimensions.width > 0,
                    render_target_dimensions.height > 0,
                    factor >= 1,
            ;
        }
        Ok(
            State {
                current_coordinates: start,
                current_color,
                density_histogram,
                color_histogram,
                plot_dimensions,
                iter_count: 0,
                super_sampling_factor,
                preparation_rounds,
            },
        )
    }

    /// Counts the current colour in the cell at `(row, col)`, unless that
    /// lies outside the grid or is cell zero.
    fn plot(&mut self, row: usize, col: usize) -> (outcome: Sample)
        requires
            old(self)@.plot_dimensions.area() == old(self)@.density.len(),
            old(self)@.density.len() == old(self)@.colors.len(),
            total(old(self)@.density) < usize::MAX,
        ensures
            final(self)@ == old(self)@.plotted(row as int, col as int),
            final(self)@.density.len() == old(self)@.density.len(),
            final(self)@.colors.len() == old(self)@.colors.len(),
            outcome == match plot_target(old(self)@.plot_dimensions, row as int, col as int) {
                Some(idx) => Sample::Plotted(idx as usize),
                None => Sample::Discarded,
            },
            match outcome {
                Sample::Plotted(idx) => 0 < idx < old(self)@.density.len() && total(
                    final(self)@.density,
                ) == total(old(self)@.density) + 1,
                _ => final(self)@ == old(self)@,
            },
    {
        let height: usize = self.plot_dimensions.height as usize;
        let width: usize = self.plot_dimensions.width as usize;
        let cells: usize = self.density_histogram.len();
        if row < height && col < width {
            proof {
                lemma_cell_index(row as int, col as int, height as int, width as int);
                assert(height * width == width * height) by (nonlinear_arith);
            }
            let idx: usize = row * width + col;
            if idx > 0 && idx < cells {
                proof {
                    lemma_cell_within_total(self.density_histogram@, idx as int);
                    lemma_total_update(
                        self.density_histogram@,
                        idx as int,
                        (self.density_histogram@[idx as int] + 1) as usize,
                    );
                }
                let hits: usize = self.density_histogram[idx];
                self.density_histogram[idx] = hits + 1;
                self.color_histogram[idx] = self.current_color;
                return Sample::Plotted(idx);
            }
        }
        Sample::Discarded
    }

    /// One iteration, for a caller that has chosen the function and worked
    /// out where it takes the point: `tint` is the colour of the function,
    /// `moved` the new point, and `(row, col)` the cell of the grid that the
    /// new point lies in. The colour moves halfway towards `tint`, and once
    /// the preparation is over the sample is plotted.
    pub fn step_with(&mut self, tint: Color, moved: P, row: usize, col: usize) -> (outcome: Sample)
        requires
            old(self).wf(),
            old(self)@.iterations < usize::MAX,
        ensures
            final(self).wf(),
            final(self)@ == old(self)@.stepped(tint, moved, row as int, col as int),
            outcome == old(self)@.next_sample(row as int, col as int),
    {
        self.iter_count = self.iter_count + 1;
        self.current_coordinates = moved;
        self.current_color = mix_rgb(self.current_color, tint);
        if self.iter_count > self.preparation_rounds {
            self.plot(row, col)
        } else {
            Sample::Preparing
        }
    }

    /// One iteration: a function of the set is chosen at random, `apply`
    /// takes the point where that function's map takes it, `locate` says in
    /// which cell of the grid the new point lies, and the state steps there.
    pub fn step<T, F: Fn(&T, &P) -> P, G: Fn(&P, Dimensions) -> (usize, usize)>(
        &mut self,
        function_set: &FunctionSet<T>,
        rng: &mut RandomSource,
        apply: F,
        locate: G,
    ) -> (outcome: Sample)
        requires
            old(self).wf(),
            old(self)@.iterations < usize::MAX,
            function_set.wf(),
            forall|t: &T, p: &P| call_requires(apply, (t, p)),
            forall|p: &P, d: Dimensions| call_requires(locate, (p, d)),
        ensures
            final(self).wf(),
            exists|choice: int, moved: P, cell: (usize, usize)|
                #[trigger] step_taken(
                    old(self)@,
                    function_set@,
                    apply,
                    locate,
                    choice,
                    moved,
                    cell,
                    final(self)@,
                    outcome,
                ),
    {
        let element = function_set.pick_random(rng);
        let ghost choice = choose|i: int|
            0 <= i < function_set@.len() && *element == #[trigger] function_set@[i];
        let ghost before = self@;
        let tint: Color = element.associated_color;
        let moved: P = apply(&element.application, &self.current_coordinates);
        let cell: (usize, usize) = locate(&moved, self.plot_dimensions);
        let ghost landed = moved;
        let outcome = self.step_with(tint, moved, cell.0, cell.1);
        assert(step_taken(
            before,
            function_set@,
            apply,
            locate,
            choice,
            landed,
            cell,
            self@,
            outcome,
        ));
        outcome
    }

    /// Both histograms at the size of the output.
    pub fn compute_subsampled_histogram(&self) -> (out: (Vec<usize>, Vec<Color>))
        requires
            self.wf(),
        ensures
            out.0@ == downsampled_density(self@.density, self@.plot_dimensions, self@.factor),
            out.1@ == downsampled_color(self@.colors, self@.plot_dimensions, self@.factor),
    {
        downsample(
            &self.density_histogram,
            &self.color_histogram,
            self.plot_dimensions,
            self.super_sampling_factor,
        )
    }

    pub fn current_coordinates(&self) -> (point: &P)
        ensures
            *point == self@.point,
    {
        &self.current_coordinates
    }

    pub fn current_color(&self) -> (color: Color)
        ensures
            color == self@.color,
    {
        self.current_color
    }

    pub fn density_histogram(&self) -> (density: &Vec<usize>)
        ensures
            density@ == self@.density,
    {
        &self.density_histogram
    }

    pub fn color_histogram(&self) -> (colors: &Vec<Color>)
        ensures
            colors@ == self@.colors,
    {
        &self.color_histogram
    }

    pub fn plot_dimensions(&self) -> (dims: Dimensions)
        ensures
            dims == self@.plot_dimensions,
    {
        self.plot_dimensions
    }

    pub fn iter_count(&self) -> (n: usize)
        ensures
            n == self@.iterations,
    {
        self.iter_count
    }

    pub fn preparation_rounds(&self) -> (n: usize)
        ensures
            n == self@.preparation_rounds,
    {
        self.preparation_rounds
    }
}

/// One function of the system: a map of the plane, which this library
/// carries without looking into it, and the colour that goes with it.
pub struct FunctionElement<T> {
    pub application: T,
    pub associated_color: Color,
}

/// The functions that the chaos game chooses from, in a fixed order.
pub struct FunctionSet<T> {
    elements: Vec<FunctionElement<T>>,
}

impl<T> View for FunctionSet<T> {
    type V = Seq<FunctionElement<T>>;

    closed spec fn view(&self) -> Seq<FunctionElement<T>> {
        self.elements@
    }
}

impl<T> FunctionSet<T> {
    /// A set always has a function to choose.
    pub open spec fn wf(&self) -> bool {
        self@.len() > 0
    }

    /// A set of the given functions, in their order. An empty list is refused.
    pub fn new(elements: Vec<FunctionElement<T>>) -> (made: Result<FunctionSet<T>, ConfigError>)
        ensures
            match made {
                Ok(set) => set.wf() && set@ == elements@,
                Err(e) => e == ConfigError::EmptyFunctionSet && elements@.len() == 0,
            },
    {
        if elements.len() == 0 {
            Err(ConfigError::EmptyFunctionSet)
        } else {
            Ok(FunctionSet { elements })
        }
    }

    /// A set of the given maps, in their order, each with a random colour.
    /// An empty list is refused.
    pub fn with_random_colors(transforms: Vec<T>, rng: &mut RandomSource) -> (made: Result<
        FunctionSet<T>,
        ConfigError,
    >)
        ensures
            match made {
                Ok(set) => {
                    &&& set.wf()
                    &&& set@.len() == transforms@.len()
                    &&& forall|i: int|
                        0 <= i < set@.len() ==> (#[trigger] set@[i]).application == transforms@[i]
                    &&& forall|i: int|
                        0 <= i < set@.len() ==> {
                            let c = (#[trigger] set@[i]).associated_color;
                            c.r < 255 && c.g < 255 && c.b < 255
                        }
                },
                Err(e) => e == ConfigError::EmptyFunctionSet && transforms@.len() == 0,
            },
    {
        if transforms.len() == 0 {
            return Err(ConfigError::EmptyFunctionSet);
        }
        let ghost wanted = transforms@;
        let mut rest = transforms;
        let mut reversed: Vec<FunctionElement<T>> = Vec::new();
        while rest.len() > 0
            invariant
                rest@.len() + reversed@.len() == wanted.len(),
                forall|i: int| 0 <= i < rest@.len() ==> rest@[i] == wanted[i],
                forall|i: int|
                    0 <= i < reversed@.len() ==> (#[trigger] reversed@[i]).application
                        == wanted[wanted.len() - 1 - i],
                forall|i: int|
                    0 <= i < reversed@.len() ==> {
                        let c = (#[trigger] reversed@[i]).associated_color;
                        c.r < 255 && c.g < 255 && c.b < 255
                    },
            decreases rest@.len(),
        {
            let application = rest.pop().unwrap();
            let associated_color = generate_random_rgb(rng);
            reversed.push(FunctionElement { application, associated_color });
        }
        let mut elements: Vec<FunctionElement<T>> = Vec::new();
        while reversed.len() > 0
            invariant
                reversed@.len() + elements@.len() == wanted.len(),
                forall|i: int|
                    0 <= i < reversed@.len() ==> (#[trigger] reversed@[i]).application
                        == wanted[wanted.len() - 1 - i],
                forall|i: int|
                    0 <= i < reversed@.len() ==> {
                        let c = (#[trigger] reversed@[i]).associated_color;
                        c.r < 255 && c.g < 255 && c.b < 255
                    },
                forall|i: int|
                    0 <= i < elements@.len() ==> (#[trigger] elements@[i]).application == wanted[i],
                forall|i: int|
                    0 <= i < elements@.len() ==> {
                        let c = (#[trigger] elements@[i]).associated_color;
                        c.r < 255 && c.g < 255 && c.b < 255
                    },
            decreases reversed@.len(),
        {
            let element = reversed.pop().unwrap();
            elements.push(element);
        }
        Ok(FunctionSet { elements })
    }

    pub fn len(&self) -> (n: usize)
        ensures
            n == self@.len(),
    {
        self.elements.len()
    }

    pub fn get(&self, i: usize) -> (element: &FunctionElement<T>)
        requires
            i < self@.len(),
        ensures
            *element == self@[i as int],
    {
        &self.elements[i]
    }

    /// One function of the set, each as likely as the other.
    pub fn pick_random(&self, rng: &mut RandomSource) -> (picked: &FunctionElement<T>)
        requires
            self.wf(),
        ensures
            exists|i: int| 0 <= i < self@.len() && *picked == #[trigger] self@[i],
    {
        let choice: usize = rng.index_below(self.elements.len());
        &self.elements[choice]
    }
}

/// Why no simulation can be set up with `functions` functions for an output
/// of `dims` pixels, if anything.
pub open spec fn setup_error(dims: Dimensions, factor: SuperSamplingFactor, functions: nat) -> Option<
    ConfigError,
> {
    if functions == 0 {
        Some(ConfigError::EmptyFunctionSet)
    } else {
        grid_error(dims, factor)
    }
}

/// One iteration as `State::step` makes it: function `choice` of the set
/// was applied to the point and gave `moved`, which lies in `cell` of the grid.
pub open spec fn step_taken<P, T, F: Fn(&T, &P) -> P, G: Fn(&P, Dimensions) -> (usize, usize)>(
    before: StateView<P>,
    functions: Seq<FunctionElement<T>>,
    apply: F,
    locate: G,
    choice: int,
    moved: P,
    cell: (usize, usize),
    after: StateView<P>,
    outcome: Sample,
) -> bool {
    &&& 0 <= choice < functions.len()
    &&& call_ensures(apply, (&functions[choice].application, &before.point), moved)
    &&& call_ensures(locate, (&moved, before.plot_dimensions), cell)
    &&& after == before.stepped(
        functions[choice].associated_color,
        moved,
        cell.0 as int,
        cell.1 as int,
    )
    &&& outcome == before.next_sample(cell.0 as int, cell.1 as int)
}

/// A chaos game on a set of functions: it steps, and on demand shows what it
/// has accumulated.
pub struct Simulator<P, T> {
    state: State<P>,
    ifs: FunctionSet<T>,
    dimensions: Dimensions,
    preparation_rounds: usize,
    super_sampling_factor: SuperSamplingFactor,
    rng: RandomSource,
}

impl<P, T> Simulator<P, T> {
    pub closed spec fn state_view(&self) -> StateView<P> {
        self.state@
    }

    pub closed spec fn functions(&self) -> Seq<FunctionElement<T>> {
        self.ifs@
    }

    pub closed spec fn dimensions(&self) -> Dimensions {
        self.dimensions
    }

    pub open spec fn wf(&self) -> bool {
        &&& self.state_view().wf()
        &&& self.functions().len() > 0
        &&& grid_error(self.dimensions(), self.state_view().factor) is None
        &&& self.state_view().plot_dimensions == plot_grid(
            self.dimensions(),
            self.state_view().factor,
        )
        &&& self.consistent()
    }

    pub closed spec fn consistent(&self) -> bool {
        &&& self.preparation_rounds == self.state@.preparation_rounds
        &&& self.super_sampling_factor == self.state@.factor
    }

    /// A simulation for an output of `dimensions` pixels that starts at
    /// `start` and plays on the maps `transforms`, each of which gets a random
    /// colour. It is refused without a map, without a pixel, and where the
    /// accumulation grid cannot be addressed.
    pub fn new(
        dimensions: Dimensions,
        preparation_rounds: usize,
        super_sampling_factor: SuperSamplingFactor,
        start: P,
        transforms: Vec<T>,
        rng: RandomSource,
    ) -> (made: Result<Simulator<P, T>, ConfigError>)
        ensures
            match made {
                Ok(sim) => {
                    &&& setup_error(dimensions, super_sampling_factor, transforms@.len()) is None
                    &&& sim.wf()
                    &&& sim.dimensions() == dimensions
                    &&& sim.state_view().point == start
                    &&& sim.state_view().iterations == 0
                    &&& sim.state_view().preparation_rounds == preparation_rounds
                    &&& sim.state_view().factor == super_sampling_factor
                    &&& sim.state_view().plot_dimensions == plot_grid(
                        dimensions,
                        super_sampling_factor,
                    )
                    &&& forall|i: int|
                        0 <= i < sim.state_view().density.len() ==> sim.state_view().density[i]
                            == 0
                    &&& forall|i: int|
                        0 <= i < sim.state_view().colors.len() ==> sim.state_view().colors[i]
                            == Color::black()
                    &&& sim.functions().len() == transforms@.len()
                    &&& forall|i: int|
                        0 <= i < transforms@.len() ==> (#[trigger] sim.functions()[i]).application
                            == transforms@[i]
                },
                Err(e) => setup_error(dimensions, super_sampling_factor, transforms@.len())
                    == Some(e),
            },
    {
        let mut rng = rng;
        if transforms.len() == 0 {
            return Err(ConfigError::EmptyFunctionSet);
        }
        let state = match State::new(
            dimensions,
            super_sampling_factor,
            preparation_rounds,
            start,
            &mut rng,
        ) {
            Ok(state) => state,
            Err(e) => {
                return Err(e);
            },
        };
        let ifs = match FunctionSet::with_random_colors(transforms, &mut rng) {
            Ok(ifs) => ifs,
            Err(e) => {
                return Err(e);
            },
        };
        Ok(Simulator { state, ifs, dimensions, preparation_rounds, super_sampling_factor, rng })
    }

    /// Starts over at `start` with the maps `transforms`, each with a new
    /// random colour: no iteration made, both histograms blank. Without a map
    /// nothing changes.
    pub fn reset(&mut self, start: P, transforms: Vec<T>) -> (done: Result<(), ConfigError>)
        requires
            old(self).wf(),
        ensures
            final(self).wf(),
            final(self).dimensions() == old(self).dimensions(),
            match done {
                Ok(_) => {
                    &&& transforms@.len() > 0
                    &&& final(self).state_view().point == start
                    &&& final(self).state_view().iterations == 0
                    &&& final(self).state_view().preparation_rounds == old(self).state_view().preparation_rounds
                    &&& final(self).state_view().factor == old(self).state_view().factor
                    &&& final(self).state_view().plot_dimensions == old(self).state_view().plot_dimensions
                    &&& forall|i: int|
                        0 <= i < final(self).state_view().density.len() ==> final(self).state_view().density[i] == 0
                    &&& forall|i: int|
                        0 <= i < final(self).state_view().colors.len() ==> final(self).state_view().colors[i] == Color::black()
                    &&& final(self).functions().len() == transforms@.len()
                    &&& forall|i: int|
                        0 <= i < transforms@.len() ==> (#[trigger] final(self).functions()[i]).application == transforms@[i]
                },
                Err(e) => {
                    &&& e == ConfigError::EmptyFunctionSet
                    &&& transforms@.len() == 0
                    &&& final(self).state_view() == old(self).state_view()
                    &&& final(self).functions() == old(self).functions()
                },
            },
    {
        if transforms.len() == 0 {
            return Err(ConfigError::EmptyFunctionSet);
        }
        let made = State::new(
            self.dimensions,
            self.super_sampling_factor,
            self.preparation_rounds,
            start,
            &mut self.rng,
        );
        match made {
            Ok(state) => {
                match FunctionSet::with_random_colors(transforms, &mut self.rng) {
                    Ok(ifs) => {
                        self.state = state;
                        self.ifs = ifs;
                        Ok(())
                    },
                    Err(e) => Err(e),
                }
            },
            Err(e) => Err(e),
        }
    }

    /// Takes another source for the random choices that are still to come.
    /// Nothing that has been drawn or accumulated changes.
    pub fn reseed(&mut self, rng: RandomSource)
        ensures
            final(self).source() == rng,
            final(self).wf() == old(self).wf(),
            final(self).state_view() == old(self).state_view(),
            final(self).functions() == old(self).functions(),
            final(self).dimensions() == old(self).dimensions(),
    {
        self.rng = rng;
    }

    /// The source that the random choices still to come are drawn from.
    pub closed spec fn source(&self) -> RandomSource {
        self.rng
    }

    /// One iteration: a function of the set is chosen at random, `apply`
    /// takes the point where that function's map takes it, `locate` says in
    /// which cell of the grid the new point lies, and the state steps there.
    pub fn step<F: Fn(&T, &P) -> P, G: Fn(&P, Dimensions) -> (usize, usize)>(
        &mut self,
        apply: F,
        locate: G,
    ) -> (outcome: Sample)
        requires
            old(self).wf(),
            old(self).state_view().iterations < usize::MAX,
            forall|t: &T, p: &P| call_requires(apply, (t, p)),
            forall|p: &P, d: Dimensions| call_requires(locate, (p, d)),
        ensures
            final(self).wf(),
            final(self).dimensions() == old(self).dimensions(),
            final(self).functions() == old(self).functions(),
            exists|choice: int, moved: P, cell: (usize, usize)|
                #[trigger] step_taken(
                    old(self).state_view(),
                    old(self).functions(),
                    apply,
                    locate,
                    choice,
                    moved,
                    cell,
                    final(self).state_view(),
                    outcome,
                ),
    {
        self.state.step(&self.ifs, &mut self.rng, apply, locate)
    }

    /// Shows what has been accumulated: both histograms are reduced to the
    /// size of the output and tone-mapped into `buffer`. The state is not
    /// changed, and pixels of cells without a hit stay as they were.
    pub fn render<C: Fn(u8, usize, usize) -> u8>(
        &self,
        buffer: &mut [u8],
        order: ChannelOrder,
        curve: C,
    )
        requires
            self.wf(),
            4 * self.dimensions().area() <= old(buffer)@.len(),
            forall|c: u8, hits: usize, most: usize|
                0 < hits < most ==> call_requires(curve, (c, hits, most)),
        ensures
            final(buffer)@.len() == old(buffer)@.len(),
            ({
                let view = self.state_view();
                let density = downsampled_density(view.density, view.plot_dimensions, view.factor);
                let colors = downsampled_color(view.colors, view.plot_dimensions, view.factor);
                &&& density.len() == self.dimensions().area()
                &&& colors.len() == self.dimensions().area()
                &&& forall|i: int|
                    0 <= i < density.len() ==> #[trigger] pixel_mapped(
                        curve,
                        order,
                        old(buffer)@,
                        final(buffer)@,
                        colors[i],
                        density[i],
                        peak(density) as usize,
                        i,
                    )
                &&& forall|k: int|
                    4 * density.len() <= k < old(buffer)@.len() ==> final(buffer)@[k] == old(buffer)@[k]
            }),
    {
        proof {
            lemma_reduced_plot_grid(self.dimensions, self.super_sampling_factor);
        }
        let (histogram, colors) = self.state.compute_subsampled_histogram();
        tone_map(&histogram, &colors, buffer, order, curve);
    }

    pub fn state(&self) -> (state: &State<P>)
        ensures
            state@ == self.state_view(),
    {
        &self.state
    }

    pub fn function_set(&self) -> (set: &FunctionSet<T>)
        ensures
            set@ == self.functions(),
    {
        &self.ifs
    }

    pub fn window_dimensions(&self) -> (dims: Dimensions)
        ensures
            dims == self.dimensions(),
    {
        self.dimensions
    }
}

/// Reducing the accumulation grid by its factor gives the output's own size.
pub proof fn lemma_reduced_plot_grid(dims: Dimensions, factor: SuperSamplingFactor)
    requires
        grid_error(dims, factor) is None,
    ensures
        crate::histogram::reduced(plot_grid(dims, factor), factor) == dims,
{
    let s = factor.scale();
    assert((dims.width * s) / s == dims.width) by (nonlinear_arith)
        requires
            s >= 1,
    ;
    assert((dims.height * s) / s == dims.height) by (nonlinear_arith)
        requires
            s >= 1,
    ;
}

/// A sample is either discarded, and then neither histogram changes, or
/// written to one cell that is not cell zero: that cell counts one hit more
/// and takes the blended colour, and every other cell stays as it was.
pub proof fn lemma_step_plots_one_cell<P>(
    before: StateView<P>,
    tint: Color,
    moved: P,
    row: int,
    col: int,
)
    requires
        before.wf(),
        before.iterations < usize::MAX,
    ensures
        ({
            let after = before.stepped(tint, moved, row, col);
            match before.next_sample(row, col) {
                Sample::Plotted(idx) => {
                    &&& 0 < idx < before.density.len()
                    &&& after.density == before.density.update(
                        idx as int,
                        (before.density[idx as int] + 1) as usize,
                    )
                    &&& after.density[idx as int] == before.density[idx as int] + 1
                    &&& after.colors == before.colors.update(idx as int, mix(before.color, tint))
                },
                _ => after.density == before.density && after.colors == before.colors,
            }
        }),
{
    let after = before.stepped(tint, moved, row, col);
    let plot = before.plot_dimensions;
    if before.iterations + 1 > before.preparation_rounds {
        match plot_target(plot, row, col) {
            Some(idx) => {
                lemma_cell_index(row, col, plot.height as int, plot.width as int);
                assert(plot.height * plot.width == plot.width * plot.height) by (nonlinear_arith);
                lemma_cell_within_total(before.density, idx);
            },
            None => {},
        }
    }
}

/// No step lowers the count of any cell, and cell zero never changes.
pub proof fn lemma_step_never_lowers<P>(
    before: StateView<P>,
    tint: Color,
    moved: P,
    row: int,
    col: int,
)
    requires
        before.wf(),
        before.iterations < usize::MAX,
    ensures
        ({
            let after = before.stepped(tint, moved, row, col);
            &&& after.density.len() == before.density.len()
            &&& after.colors.len() == before.colors.len()
            &&& forall|i: int|
                0 <= i < before.density.len() ==> #[trigger] after.density[i] >= before.density[i]
            &&& after.density[0] == before.density[0]
            &&& after.colors[0] == before.colors[0]
        }),
{
    lemma_step_plots_one_cell(before, tint, moved, row, col);
    let plot = before.plot_dimensions;
    assert(before.density.len() > 0) by (nonlinear_arith)
        requires
            before.density.len() == plot.width as int * plot.height as int,
            plot.width > 0,
            plot.height > 0,
    ;
}

/// The hits held grow by one with each sample that is plotted, and by
/// nothing else: at any time they are the iterations made past the
/// preparation, less the samples that were discarded.
pub proof fn lemma_step_counts_plotted<P>(
    before: StateView<P>,
    tint: Color,
    moved: P,
    row: int,
    col: int,
)
    requires
        before.wf(),
        before.iterations < usize::MAX,
    ensures
        ({
            let after = before.stepped(tint, moved, row, col);
            &&& after.wf()
            &&& after.iterations == before.iterations + 1
            &&& total(after.density) == total(before.density) + (if before.next_sample(row, col)
                is Plotted {
                1int
            } else {
                0int
            })
        }),
{
    lemma_step_plots_one_cell(before, tint, moved, row, col);
    match before.next_sample(row, col) {
        Sample::Plotted(idx) => {
            lemma_cell_within_total(before.density, idx as int);
            lemma_total_update(
                before.density,
                idx as int,
                (before.density[idx as int] + 1) as usize,
            );
        },
        _ => {},
    }
}

/// What one iteration is made with: the colour of the function that was
/// chosen, the point that its map gave, and the cell that the point lies in.
pub struct Move<P> {
    pub tint: Color,
    pub moved: P,
    pub row: int,
    pub col: int,
}

/// The state after a run of iterations, one after the other.
pub open spec fn after_moves<P>(start: StateView<P>, moves: Seq<Move<P>>) -> StateView<P>
    decreases moves.len(),
{
    if moves.len() == 0 {
        start
    } else {
        let last = moves.last();
        after_moves(start, moves.drop_last()).stepped(last.tint, last.moved, last.row, last.col)
    }
}

/// How many samples of a run of iterations were plotted.
pub open spec fn plotted_in<P>(start: StateView<P>, moves: Seq<Move<P>>) -> int
    decreases moves.len(),
{
    if moves.len() == 0 {
        0
    } else {
        let last = moves.last();
        plotted_in(start, moves.drop_last()) + if after_moves(
            start,
            moves.drop_last(),
        ).next_sample(last.row, last.col) is Plotted {
            1int
        } else {
            0int
        }
    }
}

/// How many samples of a run of iterations were discarded.
pub open spec fn discarded_in<P>(start: StateView<P>, moves: Seq<Move<P>>) -> int
    decreases moves.len(),
{
    if moves.len() == 0 {
        0
    } else {
        let last = moves.last();
        discarded_in(start, moves.drop_last()) + if after_moves(
            start,
            moves.drop_last(),
        ).next_sample(last.row, last.col) is Discarded {
            1int
        } else {
            0int
        }
    }
}

/// After any run of iterations the hits held are those held before and one
/// for each sample that was plotted. From a fresh state on they are the
/// iterations made past the preparation, less the samples that were discarded.
pub proof fn lemma_hits_after_moves<P>(start: StateView<P>, moves: Seq<Move<P>>)
    requires
        start.wf(),
        start.iterations + moves.len() <= usize::MAX,
    ensures
        after_moves(start, moves).wf(),
        after_moves(start, moves).iterations == start.iterations + moves.len(),
        after_moves(start, moves).preparation_rounds == start.preparation_rounds,
        total(after_moves(start, moves).density) == total(start.density) + plotted_in(start, moves),
        start.iterations == 0 ==> total(after_moves(start, moves).density) == (if moves.len()
            > start.preparation_rounds {
            moves.len() - start.preparation_rounds
        } else {
            0int
        }) - discarded_in(start, moves),
    decreases moves.len(),
{
    if moves.len() > 0 {
        let last = moves.last();
        let before = after_moves(start, moves.drop_last());
        lemma_hits_after_moves(start, moves.drop_last());
        lemma_step_counts_plotted(before, last.tint, last.moved, last.row, last.col);
        lemma_step_plots_one_cell(before, last.tint, last.moved, last.row, last.col);
    }
}

} // verus!
