//! A verified text-editing engine: a character buffer, a cursor/selection
//! model over a row layout, key-binding dispatch, an undo/redo history with
//! time-based coalescing, and a clamped, smoothed scroll controller.
pub mod buffer;
pub mod selection;
pub mod history;
pub mod scroll;
pub mod dispatch;
pub mod editor;
pub mod laws;
