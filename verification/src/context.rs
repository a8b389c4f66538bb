use vstd::prelude::*;

verus! {

/// Where a judger stands while it reads a run's output: the lines around the current
/// position and the current line's number.
#[derive(Debug)]
pub struct Context {
    prev_line: String,
    next_line: String,
    line_num: u64,
}

/// The mathematical value of a [`Context`].
pub struct ContextView {
    pub prev_line: Seq<char>,
    pub next_line: Seq<char>,
    pub line_num: u64,
}

impl View for Context {
    type V = ContextView;

    closed spec fn view(&self) -> ContextView {
        ContextView {
            prev_line: self.prev_line@,
            next_line: self.next_line@,
            line_num: self.line_num,
        }
    }
}

impl Context {
    /// The context before the first line: both lines empty, line number 0.
    pub fn new() -> (c: Context)
        ensures
            c@.prev_line == Seq::<char>::empty(),
            c@.next_line == Seq::<char>::empty(),
            c@.line_num == 0,
    {
        Context { prev_line: String::new(), next_line: String::new(), line_num: 0 }
    }
}

} // verus!
