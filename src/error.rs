use vstd::prelude::*;

verus! {

/// Why an operation of the picker failed.
///
/// Variants that come from a backend carry that backend's own message.
#[derive(Clone, Debug, PartialEq, Eq)]
pub enum PickError {
    /// A window that the operation needs is not open.
    WindowNotFound,
    /// No screen contains the cursor position.
    ScreenNotFound(String),
    /// The screen capture backend failed.
    CaptureError(String),
    /// The captured buffer holds fewer than three channel bytes.
    InsufficientPixelData,
    /// The system clipboard could not be acquired or written.
    ClipboardUnavailable(String),
    /// A window could not be shown, hidden, focused, opened or closed.
    FocusError(String),
}

/// The human-readable message of an error, as it is handed to the user.
pub open spec fn message_of(e: PickError) -> Seq<char> {
    match e {
        PickError::WindowNotFound => "Could not get main window"@,
        PickError::ScreenNotFound(m) => m@,
        PickError::CaptureError(m) => m@,
        PickError::InsufficientPixelData => "Captured pixel data holds fewer than three channels"@,
        PickError::ClipboardUnavailable(m) => m@,
        PickError::FocusError(m) => m@,
    }
}

impl PickError {
    /// The message of this error, for the boundary where errors become text.
    pub fn message(&self) -> (r: String)
        ensures
            r@ == message_of(*self),
    {
        match self {
            PickError::WindowNotFound => String::from_str("Could not get main window"),
            PickError::ScreenNotFound(m) => m.clone(),
            PickError::CaptureError(m) => m.clone(),
            PickError::InsufficientPixelData => String::from_str(
                "Captured pixel data holds fewer than three channels",
            ),
            PickError::ClipboardUnavailable(m) => m.clone(),
            PickError::FocusError(m) => m.clone(),
        }
    }
}

} // verus!
