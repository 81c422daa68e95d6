//! Acquisition core of a two-channel data recorder: batch timestamp
//! reconstruction, the strided tee that feeds a live display, the hand-off
//! decisions of the driver callback, and the run lifecycle.

pub mod bifurcate;
pub mod bridge;
pub mod channel;
pub mod clock;
pub mod dialog;
pub mod events;
pub mod latest;
pub mod lifecycle;
pub mod path;
pub mod pipeline;
pub mod scan;
pub mod sink;
pub mod text;
pub mod ui_event;
