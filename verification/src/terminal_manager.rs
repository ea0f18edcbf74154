//! The terminal, as the session sees it.

use crate::display_data::DisplayData;
use crate::error::SessionError;
use vstd::prelude::*;

verus! {

/// What the session asks of the terminal. Nothing is promised of an
/// implementation: the session is verified for whatever the calls return.
pub trait TerminalManage {
    /// Switches the terminal to the full-screen mode of the session.
    fn enter_app_screen(&mut self) -> Result<(), SessionError>;

    /// Draws one frame.
    fn draw_frame(&mut self, display_data: DisplayData) -> Result<(), SessionError>;

    /// Gives the terminal back as it was before the session took it.
    fn exit_app_screen(&mut self) -> Result<(), SessionError>;

    /// Wipes the screen, so that the next frame is drawn in full.
    fn clear_app_screen(&mut self) -> Result<(), SessionError>;

    /// The number of rows of the terminal.
    fn get_terminal_height(&self) -> Result<u16, SessionError>;
}

} // verus!
