use vstd::prelude::*;

verus! {

/// One recorded physics step: the logical time at which the step began and the
/// pose of the chassis and of each wheel after it.
#[derive(Debug, Clone, Copy, PartialEq, Eq)]
pub struct ExecutionStep<P> {
    pub time_us: u64,
    pub body: P,
    pub left_wheel: P,
    pub right_wheel: P,
}

/// The replayable trace of a run: one entry per executed physics step, in
/// logical-time order.
#[derive(Debug, Clone)]
pub struct ExecutionData<P> {
    pub steps: Vec<ExecutionStep<P>>,
}

impl<P> ExecutionData<P> {
    /// An empty trace.
    pub fn new() -> (r: ExecutionData<P>)
        ensures
            r.steps@ == Seq::<ExecutionStep<P>>::empty(),
    {
        ExecutionData { steps: Vec::new() }
    }

    /// Appends one step; the only way a trace grows.
    pub fn record(&mut self, step: ExecutionStep<P>)
        ensures
            final(self).steps@ == old(self).steps@.push(step),
    {
        self.steps.push(step);
    }

    pub fn len(&self) -> (r: usize)
        ensures
            r == self.steps@.len(),
    {
        self.steps.len()
    }
}

} // verus!
