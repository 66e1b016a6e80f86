//! Safe, verified surface over a native multimedia framework's demuxing and
//! muxing boundary: error translation, option-dictionary marshaling, the
//! custom byte-stream I/O bridge, and the open/probe context protocol.

pub mod context;
pub mod dictionary;
pub mod error;
pub mod io;
pub mod memory;
pub mod sample_format;

pub use context::Context;
pub use context::Format;
pub use context::InputContext;
pub use context::InputEvents;
pub use context::InputFormat;
pub use context::IoBinding;
pub use context::MuxerSelection;
pub use context::IoBridge;
pub use context::OpenEvents;
pub use context::OutputContext;
pub use context::OutputEvents;
pub use context::OutputFormat;
pub use dictionary::Dictionary;
pub use dictionary::Disowned;
pub use error::Error;
pub use error::ErrorKind;
pub use io::AVInput;
pub use io::AVOutput;
pub use io::AVSeek;
pub use io::SeekAction;
pub use io::SeekFrom;
pub use io::SeekRequest;
pub use memory::MemoryReader;
pub use memory::MemoryWriter;
pub use sample_format::SampleFormat;
