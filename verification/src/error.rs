//! What can go wrong while a renderer is set up or a frame is rendered.

use vstd::prelude::*;

verus! {

/// How a caller is expected to react to an error.
#[derive(Clone, Copy, Debug, PartialEq, Eq, Structural)]
pub enum ErrorClass {
    /// The renderer could not be constructed and never will be.
    Fatal,
    /// Presentation failed; creating the swapchain again and rendering again
    /// is expected to help.
    Recoverable,
    /// This one frame was lost; the renderer is as it was before the call.
    Frame,
    /// The renderer was told of something that cannot happen in its state.
    Misuse,
}

/// An error of the renderer.
#[derive(Clone, Copy, Debug, PartialEq, Eq, Structural)]
pub enum RenderError {
    /// No physical device was enumerated.
    NoPhysicalDevice,
    /// No enumerated device has a queue family that both draws and presents
    /// to the surface.
    NoQueueFamily,
    /// The logical device was not created, or came without a draw queue.
    DeviceCreationFailed,
    /// The capabilities of the surface could not be queried.
    SurfaceCapabilitiesUnavailable,
    /// The surface supports no format.
    NoSurfaceFormat,
    /// The surface supports no way of compositing.
    NoCompositeAlpha,
    /// The swapchain was not created.
    SwapchainCreationFailed,
    /// The swapchain no longer matches the surface.
    SwapchainOutOfDate,
    /// Drawing or submitting the frame failed.
    FrameFailed,
    /// The event does not belong to the state the renderer is in.
    UnexpectedEvent,
}

pub type RenderResult<T> = Result<T, RenderError>;

impl RenderError {
    /// The class of an error, as a mathematical function.
    pub open spec fn spec_class(self) -> ErrorClass {
        match self {
            RenderError::NoPhysicalDevice => ErrorClass::Fatal,
            RenderError::NoQueueFamily => ErrorClass::Fatal,
            RenderError::DeviceCreationFailed => ErrorClass::Fatal,
            RenderError::SurfaceCapabilitiesUnavailable => ErrorClass::Recoverable,
            RenderError::NoSurfaceFormat => ErrorClass::Recoverable,
            RenderError::NoCompositeAlpha => ErrorClass::Recoverable,
            RenderError::SwapchainCreationFailed => ErrorClass::Recoverable,
            RenderError::SwapchainOutOfDate => ErrorClass::Recoverable,
            RenderError::FrameFailed => ErrorClass::Frame,
            RenderError::UnexpectedEvent => ErrorClass::Misuse,
        }
    }

    /// Whether calling again can succeed: after the swapchain was created
    /// again for a recoverable error, at once for a lost frame.
    pub open spec fn spec_is_retryable(self) -> bool {
        self.spec_class() == ErrorClass::Recoverable || self.spec_class() == ErrorClass::Frame
    }

    #[verifier::when_used_as_spec(spec_class)]
    pub fn class(self) -> (class: ErrorClass)
        ensures
            class == self.spec_class(),
    {
        match self {
            RenderError::NoPhysicalDevice
            | RenderError::NoQueueFamily
            | RenderError::DeviceCreationFailed => ErrorClass::Fatal,
            RenderError::SurfaceCapabilitiesUnavailable
            | RenderError::NoSurfaceFormat
            | RenderError::NoCompositeAlpha
            | RenderError::SwapchainCreationFailed
            | RenderError::SwapchainOutOfDate => ErrorClass::Recoverable,
            RenderError::FrameFailed => ErrorClass::Frame,
            RenderError::UnexpectedEvent => ErrorClass::Misuse,
        }
    }

    #[verifier::when_used_as_spec(spec_is_retryable)]
    pub fn is_retryable(self) -> (retryable: bool)
        ensures
            retryable == self.spec_is_retryable(),
    {
        match self.class() {
            ErrorClass::Recoverable | ErrorClass::Frame => true,
            ErrorClass::Fatal | ErrorClass::Misuse => false,
        }
    }

    /// Whether the error ends the construction of a renderer for good.
    pub fn is_fatal(self) -> (fatal: bool)
        ensures
            fatal == (self.spec_class() == ErrorClass::Fatal),
    {
        match self.class() {
            ErrorClass::Fatal => true,
            _ => false,
        }
    }
}

} // verus!
