//! Focus/Automation Dispatcher: plans of synthetic-input actions.
//!
//! The manager decides what to synthesize — pointer moves, button events,
//! the fixed settle delays between them, focus changes with their waits —
//! and hands the plan out as data. The surrounding application performs
//! each step against the OS input queue; every step may independently
//! fail there, and such failures are logged, never propagated.

use vstd::prelude::*;
use crate::log_channel::LogLevel;

verus! {

/// Milliseconds the OS input queue needs between discrete synthetic
/// events to register them reliably; fixed, not configurable.
pub const SETTLE_MS: u64 = 50;

/// One synthetic-input action, performed outside.
#[derive(Debug, Clone, Copy, PartialEq, Eq, Structural)]
pub enum InputStep {
    /// Move the pointer to these screen coordinates.
    MouseMove {
        /// Horizontal screen coordinate, pixels from the left edge.
        x: i64,
        /// Vertical screen coordinate, pixels from the top edge.
        y: i64,
    },
    /// Wait this many milliseconds before the next action.
    Sleep {
        /// The wait in milliseconds.
        ms: u64,
    },
    /// Press the left pointer button.
    PressLeft,
    /// Release the left pointer button.
    ReleaseLeft,
}

/// One step of a delayed focus sequence, performed on a background task.
pub enum FocusStep {
    /// Emit a status message to the log channel.
    Announce {
        /// Severity to log with.
        level: LogLevel,
        /// The message text.
        message: String,
    },
    /// Sleep this many milliseconds before the next step.
    Sleep {
        /// The wait in milliseconds.
        ms: u64,
    },
    /// Raise and activate the windows of this process.
    Focus {
        /// The process to bring to the front.
        pid: i32,
    },
}

/// Plans synthetic-input and focus work without touching the OS itself.
pub struct InputManager {}

/// The click sequence at `(x, y)`: move the pointer, settle, press the
/// left button, settle, release it.
pub open spec fn click_steps(x: i64, y: i64) -> Seq<InputStep> {
    seq![
        InputStep::MouseMove { x, y },
        InputStep::Sleep { ms: SETTLE_MS },
        InputStep::PressLeft,
        InputStep::Sleep { ms: SETTLE_MS },
        InputStep::ReleaseLeft,
    ]
}

/// The four steps that `run_delayed_sequence` plans for entry `i` of
/// `steps`: announce, wait the entry's delay, focus the entry's process,
/// announce completion.
pub open spec fn focus_block(plan: Seq<FocusStep>, i: int, pid: i32, delay_ms: u64) -> bool {
    &&& (plan[4 * i] matches FocusStep::Announce { level, message } && level == LogLevel::Info
        && message@ == "Focusing next target..."@)
    &&& plan[4 * i + 1] == (FocusStep::Sleep { ms: delay_ms })
    &&& plan[4 * i + 2] == (FocusStep::Focus { pid })
    &&& (plan[4 * i + 3] matches FocusStep::Announce { level, message } && level
        == LogLevel::Success && message@ == "Focus step complete."@)
}

impl InputManager {
    /// A dispatcher; it holds no state of its own.
    pub fn new() -> (m: InputManager) {
        InputManager {  }
    }

    /// Plans a click at the given screen coordinates: a pointer move, a
    /// settle delay, a left-button press, a settle delay, a release.
    pub fn click_at(&self, x: i64, y: i64) -> (steps: Vec<InputStep>)
        ensures
            steps@ == click_steps(x, y),
    {
        let mut steps: Vec<InputStep> = Vec::new();
        steps.push(InputStep::MouseMove { x, y });
        steps.push(InputStep::Sleep { ms: SETTLE_MS });
        steps.push(InputStep::PressLeft);
        steps.push(InputStep::Sleep { ms: SETTLE_MS });
        steps.push(InputStep::ReleaseLeft);
        assert(steps@ =~= click_steps(x, y));
        steps
    }

    /// Plans a delayed focus sequence: for each `(process, delay)` entry
    /// in order, a log event, the entry's wait, the focus call, and a
    /// closing log event. The caller runs the plan on a background task
    /// and is never blocked by it; once handed out, the plan runs to its
    /// end.
    pub fn run_delayed_sequence(&self, steps: &Vec<(i32, u64)>) -> (plan: Vec<FocusStep>)
        ensures
            plan@.len() == 4 * steps@.len(),
            forall|i: int|
                0 <= i < steps@.len() ==> #[trigger] focus_block(
                    plan@,
                    i,
                    steps@[i].0,
                    steps@[i].1,
                ),
    {
        let mut plan: Vec<FocusStep> = Vec::new();
        let mut i: usize = 0;
        while i < steps.len()
            invariant
                i <= steps@.len(),
                plan@.len() == 4 * i,
                forall|k: int|
                    0 <= k < i ==> #[trigger] focus_block(plan@, k, steps@[k].0, steps@[k].1),
            decreases steps@.len() - i,
        {
            let (pid, delay_ms) = steps[i];
            let ghost plan_before = plan@;
            plan.push(
                FocusStep::Announce {
                    level: LogLevel::Info,
                    message: "Focusing next target...".to_owned(),
                },
            );
            plan.push(FocusStep::Sleep { ms: delay_ms });
            plan.push(FocusStep::Focus { pid });
            plan.push(
                FocusStep::Announce {
                    level: LogLevel::Success,
                    message: "Focus step complete.".to_owned(),
                },
            );
            proof {
                assert(focus_block(plan@, i as int, pid, delay_ms));
                assert forall|k: int| 0 <= k < i implies #[trigger] focus_block(
                    plan@,
                    k,
                    steps@[k].0,
                    steps@[k].1,
                ) by {
                    assert(focus_block(plan_before, k, steps@[k].0, steps@[k].1));
                    assert(plan@[4 * k] == plan_before[4 * k]);
                    assert(plan@[4 * k + 1] == plan_before[4 * k + 1]);
                    assert(plan@[4 * k + 2] == plan_before[4 * k + 2]);
                    assert(plan@[4 * k + 3] == plan_before[4 * k + 3]);
                }
            }
            i = i + 1;
        }
        plan
    }
}

} // verus!
