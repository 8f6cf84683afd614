//! The interactive core of a small modal terminal editor.
//!
//! The library holds the editor's decisions: how a key is read under the
//! current mode, how an action moves the cursor or changes the mode, and what
//! one turn of the run loop asks the terminal to show. The terminal itself is
//! driven by the program around it.
pub mod input;
pub mod editor;
pub mod laws;
