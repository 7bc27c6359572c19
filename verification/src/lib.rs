//! Verified core of a desktop telemetry panel: the shared-memory frame
//! layout, the renderer IPC protocol and its state machine, and the
//! JSON-RPC command logic of the panel server.

pub mod browser;
pub mod bytes;
pub mod clock;
pub mod cube;
pub mod event;
pub mod frame;
pub mod frame_buffer;
pub mod history;
pub mod input;
pub mod ipc;
pub mod labels;
pub mod names;
pub mod panel;
pub mod proto;
pub mod protocol;
pub mod session;
pub mod shm;
pub mod signaling;
pub mod text;
