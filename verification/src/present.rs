//! The present loop as a state machine.
//!
//! The loop itself performs no GPU or window-system work. It is told what
//! the driver reported ([`Reply`]) and answers with the next thing to ask of
//! it ([`Command`]). One frame is the fixed chain
//! acquire -> submit -> present -> wait -> poll; a close request seen while
//! polling ends the loop, any failure aborts it.

use crate::error::FrameError;
use crate::resources::CommandBuffer;
use vstd::prelude::*;

verus! {

/// A window-system event, as far as the loop cares about it.
#[derive(Clone, Copy, Debug, PartialEq, Eq, Structural)]
pub enum WindowEvent {
    /// The user asked for the window to be closed.
    CloseRequested,
    /// Anything else; ignored.
    Other,
}

/// What the loop asks the driver to do next.
#[derive(Clone, Copy, Debug, PartialEq, Eq, Structural)]
pub enum Command {
    /// Acquire the next swapchain image, blocking until one is free.
    AcquireImage,
    /// Execute `command_buffer` on the graphics queue once `image` is available.
    Submit { image: usize, command_buffer: CommandBuffer },
    /// Present `image` on the present queue once the submitted work has finished.
    Present { image: usize },
    /// Flush the chain and block until the GPU has retired the whole frame.
    WaitForFrame,
    /// Poll the outstanding window events.
    PollEvents,
}

/// What the driver reports back for the command it was last given.
#[derive(Clone, Debug, PartialEq, Eq)]
pub enum Reply {
    /// An image was acquired.
    ImageAcquired { image: usize },
    /// The command buffer was submitted.
    Submitted,
    /// The presentation request was queued.
    PresentQueued,
    /// The GPU signalled that the frame's chain has completed.
    FrameRetired,
    /// The window events that were outstanding.
    EventsPolled { events: Vec<WindowEvent> },
    /// The command failed.
    Failed,
}

/// Where the loop stands. Every state but `Terminated` and `Failed` is a
/// running state, named after the reply it waits for.
#[derive(Clone, Copy, Debug, PartialEq, Eq, Structural)]
pub enum LoopState {
    AwaitingImage,
    AwaitingSubmit { image: usize },
    AwaitingPresent { image: usize },
    AwaitingRetire,
    AwaitingEvents,
    /// A close request was observed; the loop has ended.
    Terminated,
    /// A step failed; the loop was aborted.
    Failed { error: FrameError },
}

impl LoopState {
    /// The loop has neither terminated nor failed.
    pub open spec fn is_running(self) -> bool {
        !(self is Terminated) && !(self is Failed)
    }

    /// Whether the loop has neither terminated nor failed.
    pub fn running(&self) -> (running: bool)
        ensures
            running == self.is_running(),
    {
        match self {
            LoopState::Terminated => false,
            LoopState::Failed { .. } => false,
            _ => true,
        }
    }
}

/// Some event in `events` is a close request.
pub open spec fn has_close_request(events: Seq<WindowEvent>) -> bool {
    exists|i: int| 0 <= i < events.len() && events[i] == WindowEvent::CloseRequested
}

/// The state the loop moves to, and the command it issues, when `reply`
/// arrives in `state`. `table` holds the command buffer recorded for each
/// swapchain image.
pub open spec fn next(table: Seq<CommandBuffer>, state: LoopState, reply: Reply) -> (
    LoopState,
    Option<Command>,
) {
    match state {
        LoopState::AwaitingImage => match reply {
            Reply::ImageAcquired { image } => if image < table.len() {
                (
                    LoopState::AwaitingSubmit { image },
                    Some(Command::Submit { image, command_buffer: table[image as int] }),
                )
            } else {
                (LoopState::Failed { error: FrameError::ImageOutOfRange }, None)
            },
            Reply::Failed => (LoopState::Failed { error: FrameError::Acquire }, None),
            _ => (LoopState::Failed { error: FrameError::UnexpectedReply }, None),
        },
        LoopState::AwaitingSubmit { image } => match reply {
            Reply::Submitted => (
                LoopState::AwaitingPresent { image },
                Some(Command::Present { image }),
            ),
            Reply::Failed => (LoopState::Failed { error: FrameError::Submit }, None),
            _ => (LoopState::Failed { error: FrameError::UnexpectedReply }, None),
        },
        LoopState::AwaitingPresent { image } => match reply {
            Reply::PresentQueued => (LoopState::AwaitingRetire, Some(Command::WaitForFrame)),
            Reply::Failed => (LoopState::Failed { error: FrameError::Present }, None),
            _ => (LoopState::Failed { error: FrameError::UnexpectedReply }, None),
        },
        LoopState::AwaitingRetire => match reply {
            Reply::FrameRetired => (LoopState::AwaitingEvents, Some(Command::PollEvents)),
            Reply::Failed => (LoopState::Failed { error: FrameError::Wait }, None),
            _ => (LoopState::Failed { error: FrameError::UnexpectedReply }, None),
        },
        LoopState::AwaitingEvents => match reply {
            Reply::EventsPolled { events } => if has_close_request(events@) {
                (LoopState::Terminated, None)
            } else {
                (LoopState::AwaitingImage, Some(Command::AcquireImage))
            },
            _ => (LoopState::Failed { error: FrameError::UnexpectedReply }, None),
        },
        LoopState::Terminated => (LoopState::Terminated, None),
        LoopState::Failed { error } => (LoopState::Failed { error }, None),
    }
}

/// Everything the loop has done so far.
pub struct Trace {
    /// Where the loop stands.
    pub state: LoopState,
    /// The commands issued, oldest first.
    pub commands: Seq<Command>,
    /// The number of frames whose chain has retired.
    pub frames: nat,
}

/// The loop as it starts: the first acquire has been issued.
pub open spec fn start() -> Trace {
    Trace { state: LoopState::AwaitingImage, commands: seq![Command::AcquireImage], frames: 0 }
}

/// The trace after `reply` arrives.
pub open spec fn absorb(table: Seq<CommandBuffer>, trace: Trace, reply: Reply) -> Trace {
    let (state, command) = next(table, trace.state, reply);
    Trace {
        state,
        commands: match command {
            Some(command) => trace.commands.push(command),
            None => trace.commands,
        },
        frames: if trace.state is AwaitingRetire && reply is FrameRetired {
            trace.frames + 1
        } else {
            trace.frames
        },
    }
}

/// The trace after `replies` arrive, one after the other, starting from `trace`.
pub open spec fn run_from(table: Seq<CommandBuffer>, trace: Trace, replies: Seq<Reply>) -> Trace
    decreases replies.len(),
{
    if replies.len() == 0 {
        trace
    } else {
        absorb(table, run_from(table, trace, replies.drop_last()), replies.last())
    }
}

/// The trace of a loop that was started and then received `replies`.
pub open spec fn run(table: Seq<CommandBuffer>, replies: Seq<Reply>) -> Trace {
    run_from(table, start(), replies)
}

/// Whether any of `events` asks for the window to be closed.
pub fn close_requested(events: &Vec<WindowEvent>) -> (close: bool)
    ensures
        close == has_close_request(events@),
{
    let mut i: usize = 0;
    while i < events.len()
        invariant
            i <= events.len(),
            forall|j: int| 0 <= j < i ==> events@[j] != WindowEvent::CloseRequested,
        decreases events.len() - i,
    {
        match events[i] {
            WindowEvent::CloseRequested => {
                return true;
            },
            WindowEvent::Other => {},
        }
        i = i + 1;
    }
    false
}

/// Advances the loop by one reply: the new state and the command to perform
/// next, if the loop goes on.
pub fn step(table: &Vec<CommandBuffer>, state: LoopState, reply: &Reply) -> (result: (
    LoopState,
    Option<Command>,
))
    ensures
        result == next(table@, state, *reply),
{
    match state {
        LoopState::AwaitingImage => match reply {
            Reply::ImageAcquired { image } => {
                let image: usize = *image;
                if image < table.len() {
                    (
                        LoopState::AwaitingSubmit { image },
                        Some(Command::Submit { image, command_buffer: table[image] }),
                    )
                } else {
                    (LoopState::Failed { error: FrameError::ImageOutOfRange }, None)
                }
            },
            Reply::Failed => (LoopState::Failed { error: FrameError::Acquire }, None),
            _ => (LoopState::Failed { error: FrameError::UnexpectedReply }, None),
        },
        LoopState::AwaitingSubmit { image } => match reply {
            Reply::Submitted => (
                LoopState::AwaitingPresent { image },
                Some(Command::Present { image }),
            ),
            Reply::Failed => (LoopState::Failed { error: FrameError::Submit }, None),
            _ => (LoopState::Failed { error: FrameError::UnexpectedReply }, None),
        },
        LoopState::AwaitingPresent { image: _ } => match reply {
            Reply::PresentQueued => (LoopState::AwaitingRetire, Some(Command::WaitForFrame)),
            Reply::Failed => (LoopState::Failed { error: FrameError::Present }, None),
            _ => (LoopState::Failed { error: FrameError::UnexpectedReply }, None),
        },
        LoopState::AwaitingRetire => match reply {
            Reply::FrameRetired => (LoopState::AwaitingEvents, Some(Command::PollEvents)),
            Reply::Failed => (LoopState::Failed { error: FrameError::Wait }, None),
            _ => (LoopState::Failed { error: FrameError::UnexpectedReply }, None),
        },
        LoopState::AwaitingEvents => match reply {
            Reply::EventsPolled { events } => {
                if close_requested(events) {
                    (LoopState::Terminated, None)
                } else {
                    (LoopState::AwaitingImage, Some(Command::AcquireImage))
                }
            },
            _ => (LoopState::Failed { error: FrameError::UnexpectedReply }, None),
        },
        LoopState::Terminated => (LoopState::Terminated, None),
        LoopState::Failed { error } => (LoopState::Failed { error }, None),
    }
}

} // verus!
