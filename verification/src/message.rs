use vstd::prelude::*;

verus! {

/// Progress events emitted by the sending side of a transfer.
///
/// Exactly one `Failed` may ever appear on a channel, and when present it
/// is the last message before the producer closes the channel.
#[derive(Debug, Clone)]
pub enum SenderMessage {
    CipherSelected { cipher: String },
    TransferTotals { file_count: u64, total_bytes: u64 },
    FileStarted { name: String, size: u64 },
    ChunkSent { size: u64 },
    FileFinished,
    DirectoryCreated,
    FileSkipped,
    RoomAssigned { room_id: String },
    Failed { error: String },
}

/// Progress events emitted by the receiving side of a transfer.
///
/// Structurally the sender set with `ChunkReceived` in place of
/// `ChunkSent` and without `RoomAssigned`.
#[derive(Debug, Clone)]
pub enum ReceiverMessage {
    CipherSelected { cipher: String },
    TransferTotals { file_count: u64, total_bytes: u64 },
    FileStarted { name: String, size: u64 },
    ChunkReceived { size: u64 },
    FileFinished,
    DirectoryCreated,
    FileSkipped,
    Failed { error: String },
}

/// The failure text carried by a sender message, if it is terminal.
pub open spec fn sender_failure(m: SenderMessage) -> Option<Seq<char>> {
    match m {
        SenderMessage::Failed { error } => Some(error@),
        _ => None,
    }
}

/// The failure text carried by a receiver message, if it is terminal.
pub open spec fn receiver_failure(m: ReceiverMessage) -> Option<Seq<char>> {
    match m {
        ReceiverMessage::Failed { error } => Some(error@),
        _ => None,
    }
}

} // verus!
