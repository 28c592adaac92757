//! What the library knows of the terminal: its configuration and its
//! errors. Setting it up, drawing and restoring it happen outside.

use vstd::prelude::*;

verus! {

#[verifier::external_type_specification]
#[verifier::external_body]
pub struct ExIoError(std::io::Error);

/// A failure of the terminal.
#[derive(Debug)]
pub enum TerminalError {
    /// An I/O error while setting up, drawing or restoring.
    Io(std::io::Error),
}

impl From<std::io::Error> for TerminalError {
    fn from(err: std::io::Error) -> (r: TerminalError) {
        TerminalError::Io(err)
    }
}

impl vstd::std_specs::convert::FromSpecImpl<std::io::Error> for TerminalError {
    open spec fn obeys_from_spec() -> bool {
        true
    }

    open spec fn from_spec(err: std::io::Error) -> TerminalError {
        TerminalError::Io(err)
    }
}

/// How the terminal is set up.
#[derive(Debug, Clone, Copy, PartialEq, Eq, Structural)]
pub struct TerminalConfig {
    /// Whether pointer events are captured.
    pub mouse_capture: bool,
}

impl Default for TerminalConfig {
    /// Pointer events are captured.
    fn default() -> (r: TerminalConfig)
        ensures
            r.mouse_capture,
    {
        TerminalConfig { mouse_capture: true }
    }
}

} // verus!
