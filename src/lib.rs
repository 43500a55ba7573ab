//! Choosing a saved grid configuration (a preset) from a directory through a
//! modal dialog with one digit hotkey per preset.
//!
//! - `catalog`: numbering the directory's entries, within the dialog's room.
//! - `binding`: the label, hotkey and dispatch code of each preset.
//! - `dialog`: building the preset and save dialogs on rustty's toolkit.
//! - `controller`: what a key pressed in the dialog does, and how a load ends.
pub mod binding;
pub mod catalog;
pub mod controller;
pub mod dialog;
