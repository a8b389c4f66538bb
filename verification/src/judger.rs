use vstd::prelude::*;

use crate::env::Env;

verus! {

/// A judger prepares the process that runs a submission. Plugins implement it; the
/// runner keeps one built in.
pub trait Judger {
    /// Confines the process `pid`, which is about to run, to the settings `e`.
    fn do_config_judge_process(&mut self, e: &Env, pid: u32);

    /// The judger's name.
    fn get_plugin_name(&self) -> &'static str;
}

} // verus!
