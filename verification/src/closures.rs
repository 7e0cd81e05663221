use vstd::prelude::*;
use vstd::std_specs::hash::obeys_key_model;
use std::collections::HashMap;
use std::hash::Hash;

verus! {

broadcast use vstd::std_specs::hash::group_hash_axioms;

/// A calculation that stands for a costly one: it gives back what it is given.
pub fn simulated_expensive_calculation(intensity: u32) -> (result: u32)
    ensures
        result == intensity,
{
    intensity
}

/// What to do today.
#[derive(Clone, Copy, Debug, PartialEq, Eq, Structural)]
pub enum WorkoutPlan {
    Strength { pushups: u32, situps: u32 },
    Rest,
    Run { minutes: u32 },
}

/// The plan for an intensity and a lucky number, where the calculation gave
/// `pushups`, `situps` and `minutes`: strength below an intensity of 25, a
/// break on lucky number 3, and a run else.
pub open spec fn plan_of(
    intensity: u32,
    lucky_number: u32,
    pushups: u32,
    situps: u32,
    minutes: u32,
) -> WorkoutPlan {
    if intensity < 25 {
        WorkoutPlan::Strength { pushups, situps }
    } else if lucky_number == 3 {
        WorkoutPlan::Rest
    } else {
        WorkoutPlan::Run { minutes }
    }
}

/// The plan, with the costly calculation made anew wherever its result is needed.
pub fn generate_workout_plan(intensity: u32, lucky_number: u32) -> (plan: WorkoutPlan)
    ensures
        plan == plan_of(intensity, lucky_number, intensity, intensity, intensity),
{
    if intensity < 25 {
        WorkoutPlan::Strength {
            pushups: simulated_expensive_calculation(intensity),
            situps: simulated_expensive_calculation(intensity),
        }
    } else {
        if lucky_number == 3 {
            WorkoutPlan::Rest
        } else {
            WorkoutPlan::Run { minutes: simulated_expensive_calculation(intensity) }
        }
    }
}

/// The plan, with the costly calculation made once, before anything is decided.
pub fn generate_workout_plan2(intensity: u32, lucky_number: u32) -> (plan: WorkoutPlan)
    ensures
        plan == plan_of(intensity, lucky_number, intensity, intensity, intensity),
{
    let expensive_result = simulated_expensive_calculation(intensity);
    if intensity < 25 {
        WorkoutPlan::Strength { pushups: expensive_result, situps: expensive_result }
    } else {
        if lucky_number == 3 {
            WorkoutPlan::Rest
        } else {
            WorkoutPlan::Run { minutes: expensive_result }
        }
    }
}

/// The plan, with the calculation handed in and called anew wherever its
/// result is needed.
pub fn generate_workout_plan_closure<F: Fn(u32) -> u32>(
    intensity: u32,
    lucky_number: u32,
    simulated_closure: F,
) -> (plan: WorkoutPlan)
    requires
        call_requires(simulated_closure, (intensity,)),
    ensures
        match plan {
            WorkoutPlan::Strength { pushups, situps } => {
                &&& intensity < 25
                &&& call_ensures(simulated_closure, (intensity,), pushups)
                &&& call_ensures(simulated_closure, (intensity,), situps)
            },
            WorkoutPlan::Rest => intensity >= 25 && lucky_number == 3,
            WorkoutPlan::Run { minutes } => {
                &&& intensity >= 25
                &&& lucky_number != 3
                &&& call_ensures(simulated_closure, (intensity,), minutes)
            },
        },
{
    if intensity < 25 {
        WorkoutPlan::Strength {
            pushups: simulated_closure(intensity),
            situps: simulated_closure(intensity),
        }
    } else {
        if lucky_number == 3 {
            WorkoutPlan::Rest
        } else {
            WorkoutPlan::Run { minutes: simulated_closure(intensity) }
        }
    }
}

/// A calculation that is made once: the first result is kept and given for
/// every argument that is asked for later.
pub struct Cacher<T: Fn(u32) -> u32> {
    calculation: T,
    value: Option<u32>,
}

impl<T: Fn(u32) -> u32> Cacher<T> {
    pub closed spec fn calculation(&self) -> T {
        self.calculation
    }

    pub closed spec fn cached(&self) -> Option<u32> {
        self.value
    }

    pub fn new(calculation: T) -> (cacher: Cacher<T>)
        ensures
            cacher.calculation() == calculation,
            cacher.cached() is None,
    {
        Cacher { calculation, value: None }
    }

    pub fn value(&mut self, arg: u32) -> (v: u32)
        requires
            old(self).cached() is None ==> call_requires(old(self).calculation(), (arg,)),
        ensures
            final(self).calculation() == old(self).calculation(),
            final(self).cached() == Some(v),
            match old(self).cached() {
                Some(kept) => v == kept,
                None => call_ensures(old(self).calculation(), (arg,), v),
            },
    {
        match self.value {
            Some(value) => value,
            None => {
                let v = (self.calculation)(arg);
                self.value = Some(v);
                v
            },
        }
    }
}

/// The plan, with the calculation handed in and called at most once.
pub fn generate_workout_plan_closure_cache<F: Fn(u32) -> u32>(
    intensity: u32,
    lucky_number: u32,
    calculation: F,
) -> (plan: WorkoutPlan)
    requires
        call_requires(calculation, (intensity,)),
    ensures
        match plan {
            WorkoutPlan::Strength { pushups, situps } => {
                &&& intensity < 25
                &&& call_ensures(calculation, (intensity,), pushups)
                &&& situps == pushups
            },
            WorkoutPlan::Rest => intensity >= 25 && lucky_number == 3,
            WorkoutPlan::Run { minutes } => {
                &&& intensity >= 25
                &&& lucky_number != 3
                &&& call_ensures(calculation, (intensity,), minutes)
            },
        },
{
    let mut expensive_result = Cacher::new(calculation);
    if intensity < 25 {
        let pushups = expensive_result.value(intensity);
        let situps = expensive_result.value(intensity);
        WorkoutPlan::Strength { pushups, situps }
    } else {
        if lucky_number == 3 {
            WorkoutPlan::Rest
        } else {
            WorkoutPlan::Run { minutes: expensive_result.value(intensity) }
        }
    }
}

/// A calculation whose first result for each argument is kept and given
/// whenever that argument is asked for again.
#[verifier::reject_recursive_types(U)]
#[verifier::reject_recursive_types(V)]
pub struct HashCacher<T, U, V> where T: Fn(U) -> V, U: Eq + Hash + Copy, V: Copy {
    calculation_callback: T,
    results: HashMap<U, V>,
}

impl<T, U, V> HashCacher<T, U, V> where T: Fn(U) -> V, U: Eq + Hash + Copy, V: Copy {
    pub closed spec fn callback(&self) -> T {
        self.calculation_callback
    }

    pub closed spec fn results(&self) -> Map<U, V> {
        self.results@
    }

    pub fn new(callback: T) -> (cacher: HashCacher<T, U, V>)
        ensures
            cacher.callback() == callback,
            cacher.results() == Map::<U, V>::empty(),
    {
        HashCacher { calculation_callback: callback, results: HashMap::new() }
    }

    /// The result kept for `val`, or a new one where none was kept, which is
    /// then kept. The calculation is made either way.
    pub fn value(&mut self, val: U) -> (v: V)
        requires
            call_requires(old(self).callback(), (val,)),
        ensures
            final(self).callback() == old(self).callback(),
            obeys_key_model::<U>() ==> (if old(self).results().contains_key(val) {
                &&& v == old(self).results()[val]
                &&& final(self).results() == old(self).results()
            } else {
                &&& call_ensures(old(self).callback(), (val,), v)
                &&& final(self).results() == old(self).results().insert(val, v)
            }),
    {
        let computed: V = (self.calculation_callback)(val);
        let found: Option<V> = match self.results.get(&val) {
            Some(kept) => Some(*kept),
            None => None,
        };
        match found {
            Some(kept) => kept,
            None => {
                self.results.insert(val, computed);
                computed
            },
        }
    }
}

/// The plan, with the calculation handed in and its result kept by argument.
pub fn generate_workout_plan_closure_cache2<F: Fn(u32) -> u32>(
    intensity: u32,
    lucky_number: u32,
    calculation: F,
) -> (plan: WorkoutPlan)
    requires
        call_requires(calculation, (intensity,)),
    ensures
        match plan {
            WorkoutPlan::Strength { pushups, situps } => {
                &&& intensity < 25
                &&& call_ensures(calculation, (intensity,), pushups)
                &&& situps == pushups
            },
            WorkoutPlan::Rest => intensity >= 25 && lucky_number == 3,
            WorkoutPlan::Run { minutes } => {
                &&& intensity >= 25
                &&& lucky_number != 3
                &&& call_ensures(calculation, (intensity,), minutes)
            },
        },
{
    let mut expensive_result = HashCacher::new(calculation);
    if intensity < 25 {
        let pushups = expensive_result.value(intensity);
        let situps = expensive_result.value(intensity);
        WorkoutPlan::Strength { pushups, situps }
    } else {
        if lucky_number == 3 {
            WorkoutPlan::Rest
        } else {
            WorkoutPlan::Run { minutes: expensive_result.value(intensity) }
        }
    }
}

#[derive(Debug, PartialEq)]
pub struct Shoe {
    pub size: u32,
    pub style: String,
}

/// The shoes of the given size, in the order in which they came.
pub fn get_shoes_in_size(shoes: Vec<Shoe>, shoe_size: u32) -> (fitting: Vec<Shoe>)
    ensures
        fitting@ == shoes@.filter(|s: Shoe| s.size == shoe_size),
{
    let ghost fits = |s: Shoe| s.size == shoe_size;
    let mut fitting: Vec<Shoe> = Vec::new();
    let mut i: usize = 0;
    proof {
        reveal(Seq::filter);
    }
    while i < shoes.len()
        invariant
            i <= shoes.len(),
            fits == |s: Shoe| s.size == shoe_size,
            fitting@ == shoes@.take(i as int).filter(fits),
        decreases shoes.len() - i,
    {
        proof {
            reveal(Seq::filter);
            assert(shoes@.take(i + 1).drop_last() =~= shoes@.take(i as int));
        }
        if shoes[i].size == shoe_size {
            let shoe = Shoe { size: shoes[i].size, style: shoes[i].style.clone() };
            assert(shoe == shoes@[i as int]);
            fitting.push(shoe);
        }
        i = i + 1;
    }
    assert(shoes@.take(i as int) =~= shoes@);
    fitting
}

/// Counts from one to five, once.
pub struct Counter {
    count: u32,
}

impl Counter {
    /// How far the counter has counted.
    pub closed spec fn count(&self) -> u32 {
        self.count
    }

    pub open spec fn wf(&self) -> bool {
        self.count() <= 5
    }

    pub fn new() -> (counter: Counter)
        ensures
            counter.count() == 0,
            counter.wf(),
    {
        Counter { count: 0 }
    }

    /// The next number, up to five; after that, nothing.
    pub fn next(&mut self) -> (item: Option<u32>)
        ensures
            old(self).count() < 5 ==> final(self).count() == old(self).count() + 1 && item == Some(
                final(self).count(),
            ),
            old(self).count() >= 5 ==> final(self).count() == old(self).count() && item is None,
    {
        if self.count < 5 {
            self.count += 1;
            Some(self.count)
        } else {
            None
        }
    }
}

} // verus!
