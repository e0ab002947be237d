//! A compression sink factory: given an optional algorithm (gzip, zlib, or
//! none) and an optional level, it builds an in-memory sink that byte
//! streams can be written through and finished into one byte buffer — a
//! verbatim copy of the writes, or a complete gzip or zlib stream of them.

mod flate;
mod sink;

pub use flate::gunzip_of;
pub use flate::gzip_of;
pub use flate::unzlib_of;
pub use flate::zlib_of;
pub use flate::GzStream;
pub use flate::ZlibStream;
pub use sink::buffered_after;
pub use sink::chosen_alg;
pub use sink::chosen_level;
pub use sink::effective_level;
pub use sink::decoded;
pub use sink::finished_bytes;
pub use sink::get_writer;
pub use sink::lemma_omitted_level_is_default;
pub use sink::lemma_raw_finish_is_identity;
pub use sink::Algs;
pub use sink::Sink;
pub use sink::SinkError;
pub use sink::DEFAULT_LEVEL;
pub use sink::MAX_LEVEL;
pub use sink::WRITE_BUF_CAPACITY;
