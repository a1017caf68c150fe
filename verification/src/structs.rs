//! The reader and the data read from it, under one path.

pub use crate::reader::Reader;
pub use crate::reader_data::ReaderData;
