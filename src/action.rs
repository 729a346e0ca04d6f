use vstd::prelude::*;

verus! {

/// A unit of intent consumed by the application loop or by the UI state tree.
///
/// `Quit`, `Suspend`, `Resume` and `RenderTick` are orchestration actions that
/// the application loop handles itself; every other action is dispatched to
/// the UI state tree.
#[derive(Clone, Debug, PartialEq, Eq)]
pub enum Action {
    Quit,
    Suspend,
    Resume,
    RenderTick,
    Tick,
    Resize(u16, u16),
    Noop,
    Update,
    ToggleShowLogger,
    ScheduleIncrement,
    ScheduleDecrement,
    Increment(usize),
    Decrement(usize),
    EnterNormal,
    EnterInsert,
    EnterProcessing,
    ExitProcessing,
    CompleteInput(String),
}

/// A notification for a host that embeds the application and observes it
/// outside the render loop.
#[derive(Clone, Debug, PartialEq, Eq)]
pub enum Message {
    HelloWorld(String),
    Quit,
}

/// The actions that the application loop intercepts and never dispatches.
pub open spec fn is_orchestration(a: Action) -> bool {
    matches!(a, Action::Quit | Action::Suspend | Action::Resume | Action::RenderTick)
}

} // verus!
