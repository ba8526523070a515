//! A thin input-normalization layer over a curses terminal backend.
//!
//! Raw terminal input codes (keyboard, mouse, resize) are translated into a
//! unified, strongly-typed event stream. The decoding layer — classification
//! of raw input units, mouse bitmask decomposition, keymap construction and
//! the pending-event queue — lives here and is verified; the terminal I/O
//! that surrounds it is left to the host program.

pub mod decoder;
pub mod event;
pub mod keymap;
pub mod mouse;

pub use decoder::{Decoder, Input};
pub use event::{Event, Key, Modifier, MouseButton, MouseEvent};
