//! Flash messages: short one-shot notices carried to the next page.

use vstd::prelude::*;

verus! {

/// The kinds of flash message.
#[derive(Debug, Clone, Copy, PartialEq, Eq, Structural)]
pub enum FlashType {
    Success,
    Error,
    Warning,
    Info,
}

/// A flash message: its text and its kind.
#[derive(Debug, Clone)]
pub struct FlashMessage {
    pub message: String,
    pub flash_type: FlashType,
}

impl FlashMessage {
    /// A success message.
    pub fn success(message: String) -> (r: FlashMessage)
        ensures
            r.message == message,
            r.flash_type == FlashType::Success,
    {
        FlashMessage { message, flash_type: FlashType::Success }
    }

    /// An error message.
    pub fn error(message: String) -> (r: FlashMessage)
        ensures
            r.message == message,
            r.flash_type == FlashType::Error,
    {
        FlashMessage { message, flash_type: FlashType::Error }
    }

    /// A warning message.
    pub fn warning(message: String) -> (r: FlashMessage)
        ensures
            r.message == message,
            r.flash_type == FlashType::Warning,
    {
        FlashMessage { message, flash_type: FlashType::Warning }
    }

    /// An informational message.
    pub fn info(message: String) -> (r: FlashMessage)
        ensures
            r.message == message,
            r.flash_type == FlashType::Info,
    {
        FlashMessage { message, flash_type: FlashType::Info }
    }
}

} // verus!
