//! What can go wrong, as values.
//!
//! Nothing is retried: the first failure ends setup or the present loop, and
//! the error says which step it was.

use vstd::prelude::*;

verus! {

/// Why setup was aborted.
#[derive(Clone, Copy, Debug, PartialEq, Eq, Structural)]
pub enum SetupError {
    /// The driver lists no physical device.
    NoDeviceAvailable,
    /// No listed device has a queue family that supports graphics.
    NoGraphicsQueueFamily,
    /// The logical device came without a queue.
    NoQueue,
    /// The surface supports none of the composite alpha modes.
    NoCompositeAlpha,
    /// The surface lists no supported format.
    NoSurfaceFormat,
}

/// Why the present loop was aborted.
#[derive(Clone, Copy, Debug, PartialEq, Eq, Structural)]
pub enum FrameError {
    /// Acquiring the next image failed.
    Acquire,
    /// The acquired image has no command buffer recorded for it.
    ImageOutOfRange,
    /// Submitting the command buffer failed.
    Submit,
    /// Queueing the presentation failed.
    Present,
    /// Flushing or waiting for the frame failed.
    Wait,
    /// The reply does not answer the command that was issued.
    UnexpectedReply,
}

impl SetupError {
    /// The text of the diagnostic for this error.
    pub open spec fn message_text(self) -> Seq<char> {
        match self {
            SetupError::NoDeviceAvailable => "No device available"@,
            SetupError::NoGraphicsQueueFamily => "Couldn't find a graphical queue family"@,
            SetupError::NoQueue => "Failed to create device: no queue"@,
            SetupError::NoCompositeAlpha => "Failed to create swapchain: no composite alpha mode"@,
            SetupError::NoSurfaceFormat => "Failed to create swapchain: no surface format"@,
        }
    }

    /// A diagnostic that names the step that failed.
    pub fn message(&self) -> (text: String)
        ensures
            text@ == self.message_text(),
    {
        match self {
            SetupError::NoDeviceAvailable => "No device available".to_owned(),
            SetupError::NoGraphicsQueueFamily => "Couldn't find a graphical queue family".to_owned(),
            SetupError::NoQueue => "Failed to create device: no queue".to_owned(),
            SetupError::NoCompositeAlpha => {
                "Failed to create swapchain: no composite alpha mode".to_owned()
            },
            SetupError::NoSurfaceFormat => "Failed to create swapchain: no surface format".to_owned(),
        }
    }
}

impl FrameError {
    /// The text of the diagnostic for this error.
    pub open spec fn message_text(self) -> Seq<char> {
        match self {
            FrameError::Acquire => "Failed to acquire the next image"@,
            FrameError::ImageOutOfRange => "Acquired an image without a command buffer"@,
            FrameError::Submit => "Failed to submit the command buffer"@,
            FrameError::Present => "Failed to present the image"@,
            FrameError::Wait => "Failed to wait for the frame"@,
            FrameError::UnexpectedReply => "Reply does not answer the issued command"@,
        }
    }

    /// A diagnostic that names the step that failed.
    pub fn message(&self) -> (text: String)
        ensures
            text@ == self.message_text(),
    {
        match self {
            FrameError::Acquire => "Failed to acquire the next image".to_owned(),
            FrameError::ImageOutOfRange => "Acquired an image without a command buffer".to_owned(),
            FrameError::Submit => "Failed to submit the command buffer".to_owned(),
            FrameError::Present => "Failed to present the image".to_owned(),
            FrameError::Wait => "Failed to wait for the frame".to_owned(),
            FrameError::UnexpectedReply => "Reply does not answer the issued command".to_owned(),
        }
    }
}

} // verus!
