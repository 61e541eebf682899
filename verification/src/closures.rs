//! Closures: capturing the environment, a memoizing cache around an
//! expensive calculation, and the workout plan it helps to produce.

use vstd::prelude::*;
use vstd::string::StringExecFns;

verus! {

/// A closure's argument and result types are fixed at its first use.
pub fn not_working() {
    let example_closure = |x: String| x;
    let s = example_closure(String::from_str("hello"));
    let _ = s;
}

/// A closure may read variables from the scope it was written in.
pub fn capture_env() {
    let x: i32 = 4;
    let equal_to_x = |z: i32| -> (r: bool)
        ensures
            r == (z == x),
        { z == x };
    let y: i32 = 4;
    let answer = equal_to_x(y);
    assert(answer);
}

/// Runs a calculation once and hands the remembered result back for every
/// later request, whatever its argument.
pub struct Cacher<T> where T: Fn(u32) -> u32 {
    calculation: T,
    value: Option<u32>,
}

impl<T> Cacher<T> where T: Fn(u32) -> u32 {
    /// The calculation this cache wraps.
    pub closed spec fn spec_calculation(&self) -> T {
        self.calculation
    }

    /// The remembered result, if the calculation has run.
    pub closed spec fn spec_value(&self) -> Option<u32> {
        self.value
    }

    /// A cache around `calculation` that has not run it yet.
    pub fn new(calculation: T) -> (r: Cacher<T>)
        ensures
            r.spec_calculation() == calculation,
            r.spec_value() is None,
    {
        Cacher { calculation, value: None }
    }

    /// The remembered result; on the first request, the result of running
    /// the calculation on `arg`.
    pub fn value(&mut self, arg: u32) -> (r: u32)
        requires
            call_requires(old(self).spec_calculation(), (arg,)),
        ensures
            final(self).spec_calculation() == old(self).spec_calculation(),
            final(self).spec_value() == Some(r),
            old(self).spec_value() is Some ==> old(self).spec_value() == Some(r),
            old(self).spec_value() is None ==> call_ensures(
                old(self).spec_calculation(),
                (arg,),
                r,
            ),
    {
        match self.value {
            Some(v) => v,
            None => {
                let v = (self.calculation)(arg);
                self.value = Some(v);
                v
            },
        }
    }
}

/// A day's workout.
#[derive(Clone, Copy, Debug, PartialEq, Eq, Structural)]
pub enum WorkoutPlan {
    /// Do this many pushups, then this many situps.
    PushupsAndSitups(u32, u32),
    /// Rest and stay hydrated.
    TakeABreak,
    /// Run for this many minutes.
    Run(u32),
}

/// The plan for the day: light days mean pushups and situps, and on other
/// days a lucky number earns a break instead of a run. The expensive
/// calculation behind the counts runs at most once, through a cache.
pub fn workout_plan(intensity: u32, random_number: u32) -> (r: WorkoutPlan)
    ensures
        intensity < 25 ==> r == WorkoutPlan::PushupsAndSitups(intensity, intensity),
        intensity >= 25 && random_number == 3 ==> r == WorkoutPlan::TakeABreak,
        intensity >= 25 && random_number != 3 ==> r == WorkoutPlan::Run(intensity),
{
    let expensive_closure = |num: u32| -> (r: u32)
        ensures
            r == num,
        { num };
    let mut expensive_result = Cacher::new(expensive_closure);
    if intensity < 25 {
        let pushups = expensive_result.value(intensity);
        let situps = expensive_result.value(intensity);
        WorkoutPlan::PushupsAndSitups(pushups, situps)
    } else if random_number == 3 {
        WorkoutPlan::TakeABreak
    } else {
        WorkoutPlan::Run(expensive_result.value(intensity))
    }
}

} // verus!
