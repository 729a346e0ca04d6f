use vstd::prelude::*;

verus! {

/// A command to the render driver.
#[derive(Clone, Copy, Debug, PartialEq, Eq, Structural)]
pub enum Command {
    Render,
    Stop,
    Suspend,
}

/// What the render driver does on receiving a command.
#[derive(Clone, Copy, Debug, PartialEq, Eq, Structural)]
pub enum DriverStep {
    /// Lock the UI state tree and draw it over the whole surface.
    Draw,
    /// Leave the surface and end the task.
    Exit,
    /// Leave the surface, hand the terminal back to the shell, and end the
    /// task; the UI state tree is kept.
    SuspendAndExit,
    /// Nothing arrived; receive again.
    Wait,
}

pub open spec fn step_of(cmd: Option<Command>) -> DriverStep {
    match cmd {
        Some(Command::Render) => DriverStep::Draw,
        Some(Command::Stop) => DriverStep::Exit,
        Some(Command::Suspend) => DriverStep::SuspendAndExit,
        None => DriverStep::Wait,
    }
}

/// Whether the render driver's task ends after this step.
pub open spec fn ends_task(s: DriverStep) -> bool {
    s == DriverStep::Exit || s == DriverStep::SuspendAndExit
}

/// The render driver's response to one received command.
pub fn driver_step(cmd: Option<Command>) -> (r: DriverStep)
    ensures
        r == step_of(cmd),
        ends_task(r) <==> (cmd == Some(Command::Stop) || cmd == Some(Command::Suspend)),
{
    match cmd {
        Some(Command::Render) => DriverStep::Draw,
        Some(Command::Stop) => DriverStep::Exit,
        Some(Command::Suspend) => DriverStep::SuspendAndExit,
        None => DriverStep::Wait,
    }
}

/// Columns left for text in a bordered one-line input box of `width`
/// columns: two go to the borders and one to the cursor.
pub fn input_text_width(width: u16) -> (r: u16)
    ensures
        r == if width < 3 { 0 } else { width - 3 },
{
    if width < 3 {
        0
    } else {
        width - 3
    }
}

/// Where the cursor of a bordered one-line input box at column `x`, row
/// `y`, of `width` columns stands, for a cursor `cursor` characters into the
/// text: inside the left border, but never on the right border.
pub fn input_cursor(x: u16, y: u16, width: u16, cursor: usize) -> (r: (u16, u16))
    requires
        width >= 2,
        x + width <= u16::MAX,
        y < u16::MAX,
    ensures
        r.0 == if x + 1 + cursor < x + width - 2 { x + 1 + cursor } else { x + width - 2 },
        r.1 == y + 1,
{
    let limit: u16 = x + width - 2;
    let col: u16 = if (cursor as u64) < (width as u64) && x + 1 + (cursor as u16) < limit {
        x + 1 + (cursor as u16)
    } else {
        limit
    };
    (col, y + 1)
}

} // verus!
