//! What the dialogs of the terminal interface hold and check.

pub mod popups;
