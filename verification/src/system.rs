//! Vectors and seekable input streams.

mod file_stream;
mod input_stream;
pub mod time;
mod time_order;
mod vector2;
mod vector3;

pub use file_stream::{
    begin_open, calls_left, holds_after, lemma_open_closes_first, lemma_size_restores_cursor,
    lemma_step_progress, offset_result, step, FileInputStream, FileReply, FileRequest, Pending,
};
pub use input_stream::{
    available, chunked_read, delivered, lemma_available_in_bounds,
    lemma_chunked_read_reproduces, InputStream, MemoryInputStream,
};
pub use vector2::{Vector2, Vector2i, Vector2u};
pub use vector3::{Vector3, Vextor3i};
