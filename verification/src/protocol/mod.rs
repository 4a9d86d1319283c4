pub mod codec;
pub mod messages;

pub use messages::{
    CapsAck, Capabilities, Chunk, ChunkAck, Done, DoneAck, FileAck, FileDecision, FileEntry, Hello,
    Manifest, ManifestAck, MessageKind, ProtocolError, PairAccept, PairRequest, TransferStats, WireMessage,
};
