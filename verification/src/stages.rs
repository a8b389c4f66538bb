use vstd::prelude::*;

use crate::context::Context;
use crate::env::Env;

verus! {

/// A judger that takes part in each stage of a run: before it, while the output is read
/// line by line, after it, and in the verdict.
pub trait Judger {
    /// Called before the run starts; may adjust its settings.
    fn do_before_run(&mut self, e: &mut Env);

    /// Called for each position while the run's output is read.
    fn do_in_run(&mut self, c: Context);

    /// Called after the run has ended.
    fn do_after_run(&mut self, e: &mut Env);

    /// Decides the result of the run.
    fn judge_result(&mut self, e: &mut Env);

    /// Whether the judger talks with the running program.
    fn is_interactive(&self) -> bool;
}

} // verus!
