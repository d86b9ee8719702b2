use vstd::prelude::*;

use crate::layout::Position;

verus! {

/// A terminal event as the event loop sees it: a key press `K`, a mouse
/// event (only a left-button press matters), a paste `P`, or anything else.
pub enum InputEvent<K, P> {
    Key(K),
    Mouse { left_button_down: bool, column: u16, row: u16 },
    Paste(P),
    Other,
}

/// Which handler of the root widget an event goes to.
pub enum Route<K, P> {
    Key(K),
    Click(Position),
    Paste(P),
    Ignore,
}

/// Routes a terminal event: keys and pastes to their handlers, a left-button
/// press to the click handler at its cell, everything else nowhere.
pub fn route_input<K, P>(event: InputEvent<K, P>) -> (r: Route<K, P>)
    ensures
        match event {
            InputEvent::Key(k) => r == Route::<K, P>::Key(k),
            InputEvent::Mouse { left_button_down, column, row } => if left_button_down {
                r == Route::<K, P>::Click(Position { x: column, y: row })
            } else {
                r is Ignore
            },
            InputEvent::Paste(p) => r == Route::<K, P>::Paste(p),
            InputEvent::Other => r is Ignore,
        },
{
    match event {
        InputEvent::Key(k) => Route::Key(k),
        InputEvent::Mouse { left_button_down, column, row } => {
            if left_button_down {
                Route::Click(Position::new(column, row))
            } else {
                Route::Ignore
            }
        },
        InputEvent::Paste(p) => Route::Paste(p),
        InputEvent::Other => Route::Ignore,
    }
}

/// What came of waiting on the terminal.
pub enum TerminalInput<M> {
    /// The terminal was resized.
    Resized,
    /// Another event was handed to the view, which answered with a message or not.
    Handled(Option<M>),
    /// Reading the terminal failed.
    Failed,
    /// The terminal's event stream ended.
    Ended,
}

/// What woke the event loop up.
pub enum Wakeup<M> {
    Terminal(TerminalInput<M>),
    /// A message taken from the queue.
    Queued(M),
    /// A message from one of the extra event sources.
    Sourced(M),
}

/// What the event loop does next.
pub enum LoopStep<M> {
    /// Leave the loop.
    Stop,
    /// Wait again, keeping the current view.
    Skip,
    /// Rebuild the view without drawing it, and wait again.
    Rebuild,
    /// Queue the message, then redraw.
    Enqueue(M),
    /// Redraw.
    Redraw,
    /// Hand the message to the update function (leaving the loop if it asks
    /// to exit), then redraw.
    Update(M),
}

/// Decides the event loop's next step from what woke it up.
pub fn plan_step<M>(wakeup: Wakeup<M>) -> (r: LoopStep<M>)
    ensures
        match wakeup {
            Wakeup::Terminal(TerminalInput::Resized) => r is Redraw,
            Wakeup::Terminal(TerminalInput::Handled(Some(m))) => r == LoopStep::Enqueue(m),
            Wakeup::Terminal(TerminalInput::Handled(None)) => r is Rebuild,
            Wakeup::Terminal(TerminalInput::Failed) => r is Skip,
            Wakeup::Terminal(TerminalInput::Ended) => r is Stop,
            Wakeup::Queued(m) => r == LoopStep::Update(m),
            Wakeup::Sourced(m) => r == LoopStep::Update(m),
        },
{
    match wakeup {
        Wakeup::Terminal(input) => match input {
            TerminalInput::Resized => LoopStep::Redraw,
            TerminalInput::Handled(Some(m)) => LoopStep::Enqueue(m),
            TerminalInput::Handled(None) => LoopStep::Rebuild,
            TerminalInput::Failed => LoopStep::Skip,
            TerminalInput::Ended => LoopStep::Stop,
        },
        Wakeup::Queued(m) => LoopStep::Update(m),
        Wakeup::Sourced(m) => LoopStep::Update(m),
    }
}

/// Whether the event loop goes on after the application's state was set up
/// or updated.
pub enum Continuation {
    /// The application asked to exit: leave the loop (before drawing, after setup).
    Stop,
    /// Go on: draw the view and wait again.
    Go,
}

/// The loop stops exactly when the application has asked to exit, whether
/// after its setup, after an update, or after an update with the message of
/// work done in the foreground.
pub fn continuation(exit: bool) -> (r: Continuation)
    ensures
        r is Stop <==> exit,
{
    if exit {
        Continuation::Stop
    } else {
        Continuation::Go
    }
}

/// What the loop does after handing the terminal to work in the foreground:
/// a message that work answered with goes to the update function, and the
/// view is redrawn either way.
pub fn plan_after_foreground<M>(message: Option<M>) -> (r: LoopStep<M>)
    ensures
        match message {
            Some(m) => r == LoopStep::Update(m),
            None => r is Redraw,
        },
{
    match message {
        Some(m) => LoopStep::Update(m),
        None => LoopStep::Redraw,
    }
}

} // verus!
