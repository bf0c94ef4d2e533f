//! A two-machine clipboard mirror: snapshots of the local clipboard travel to
//! a peer over a byte stream and vice versa, so both machines share one
//! logical clipboard.
//!
//! This crate holds the verified core: the snapshot data model, the wire
//! codec with incremental frame assembly, and the decision logic of the two
//! loops that sample and apply clipboard state.

pub mod codec;
pub mod port;
pub mod snapshot;
pub mod sync;
pub mod text;
pub mod wayland;

pub use codec::{decode, encode, Decoded};
pub use port::{log, Clipboard, ClipboardError};
pub use snapshot::{CbData, Image};
pub use sync::{choose_snapshot, input_step, output_step, should_apply, InputStep};
pub use wayland::{mime_to_format, PictureFormat, WaylandClipboard};
