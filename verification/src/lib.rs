//! Driver core for the OMNIKEY 5025CL contactless card reader.
//!
//! The crate performs no I/O. It builds the command frames that the reader
//! understands, decodes the response frames that the reader sends back, and
//! decides, step by step, which bulk transfer a session owes next. The caller
//! owns the USB handle, performs each transfer and reports how it went.
//!
//! - `frame`: the two command frames, the endpoints and the timeout.
//! - `reader_data`: decoding a response frame, and rendering the result.
//! - `locate`: picking the reader out of an enumeration of devices.
//! - `reader`: the session, from the search for the device to each command.
//! - `error`: what can go wrong.
//! - `bytes`, `text`: numbers in buffers and numbers in text.
//! - `relay`: the answers that the notification relay owes its clients.

pub mod bytes;
pub mod error;
pub mod frame;
pub mod locate;
pub mod reader;
pub mod reader_data;
pub mod relay;
pub mod structs;
pub mod text;
