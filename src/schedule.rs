use vstd::prelude::*;

verus! {

/// The shape of a learning-rate schedule: what it takes besides the
/// averaged gradient.
#[derive(Debug, Clone, Copy, PartialEq, Eq, Structural)]
pub enum ScheduleKind {
    /// The gradient alone.
    SingleParameter,
    /// The gradient and the parameter's previous step.
    Momentum,
    /// The gradient and the normalized epoch progress.
    Decay,
}

/// Which entry of a parameter's step history a schedule of kind `kind`
/// reads: the most recent one for momentum, if any was recorded. `None`
/// means that the schedule reads none (or that momentum starts from 0).
pub fn previous_step_index(kind: ScheduleKind, history_len: usize) -> (r: Option<usize>)
    ensures
        r == (if kind == ScheduleKind::Momentum && history_len > 0 {
            Some((history_len - 1) as usize)
        } else {
            None::<usize>
        }),
{
    match kind {
        ScheduleKind::Momentum => {
            if history_len > 0 {
                Some(history_len - 1)
            } else {
                None
            }
        },
        _ => None,
    }
}

} // verus!
