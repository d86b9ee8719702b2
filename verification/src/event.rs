pub mod debounce;
pub mod event_loop;
pub mod queue;
pub mod select;

pub use debounce::{DebounceSlot, VersionCounter};
pub use queue::MessageBuffer;
pub use event_loop::{continuation, plan_after_foreground, plan_step, route_input, Continuation, InputEvent, LoopStep, Route, TerminalInput, Wakeup};
pub use select::{record_outcome, retire_source, settle_round, sweep_sources, PollOutcome};
