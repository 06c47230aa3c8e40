use vstd::prelude::*;

use crate::message::{ReceiverMessage, SenderMessage};
use crate::secret::{encode_secret, encoded, Secret};

verus! {

/// Mathematical view of the progress-interface state: how long the bar
/// is, how far it has advanced, what it says, the size of the file in
/// flight, whether the bar was abandoned on a failure, and whether the
/// room instructions were already announced.
#[verifier::ext_equal]
pub struct ProgressModel {
    pub bar_length: nat,
    pub bar_position: nat,
    pub label: Seq<char>,
    pub current_file_size: nat,
    pub abandoned: bool,
    pub room_announced: bool,
}

/// The state every run starts from: an empty, unlabelled, live bar.
pub open spec fn init_progress() -> ProgressModel {
    ProgressModel {
        bar_length: 0,
        bar_position: 0,
        label: Seq::empty(),
        current_file_size: 0,
        abandoned: false,
        room_announced: false,
    }
}

/// Bar positions saturate at the machine bound instead of wrapping.
pub open spec fn sat_add(a: nat, b: nat) -> nat {
    if a + b <= u64::MAX as nat {
        (a + b) as nat
    } else {
        u64::MAX as nat
    }
}

/// Label shown once a cipher is selected.
pub open spec fn cipher_label(cipher: Seq<char>) -> Seq<char> {
    "Cipher set to "@ + cipher
}

/// Label shown while a file is in flight.
pub open spec fn transfer_label(name: Seq<char>) -> Seq<char> {
    "Transferring "@ + name
}

/// Label shown when the transfer ends on an engine failure.
pub open spec fn failure_label(error: Seq<char>) -> Seq<char> {
    "Could not finish because of error: "@ + error
}

/// One step of the sender-side reducer: how a single message transforms
/// the progress state.
///
/// Totals set the bar length; each sent chunk advances the position by
/// its size; a skipped file advances it by the whole declared size of
/// the file in flight; file and directory boundaries change nothing; a
/// failure abandons the bar and shows the error; a room assignment only
/// records that the instructions were announced.
pub open spec fn sender_step(s: ProgressModel, m: SenderMessage) -> ProgressModel {
    match m {
        SenderMessage::CipherSelected { cipher } => ProgressModel {
            label: cipher_label(cipher@),
            ..s
        },
        SenderMessage::TransferTotals { file_count, total_bytes } => ProgressModel {
            bar_length: total_bytes as nat,
            ..s
        },
        SenderMessage::FileStarted { name, size } => ProgressModel {
            current_file_size: size as nat,
            label: transfer_label(name@),
            ..s
        },
        SenderMessage::ChunkSent { size } => ProgressModel {
            bar_position: sat_add(s.bar_position, size as nat),
            ..s
        },
        SenderMessage::FileFinished => s,
        SenderMessage::DirectoryCreated => s,
        SenderMessage::FileSkipped => ProgressModel {
            bar_position: sat_add(s.bar_position, s.current_file_size),
            ..s
        },
        SenderMessage::RoomAssigned { room_id } => ProgressModel { room_announced: true, ..s },
        SenderMessage::Failed { error } => ProgressModel {
            abandoned: true,
            label: failure_label(error@),
            ..s
        },
    }
}

/// The instruction text a sender message asks the interface to print:
/// the canonical `room-passphrase` secret string, announced exactly once
/// when the relay assigns the room.
pub open spec fn sender_effect(s: ProgressModel, m: SenderMessage, pass: Seq<char>) -> Option<
    Seq<char>,
> {
    match m {
        SenderMessage::RoomAssigned { room_id } => if !s.room_announced {
            Some(encoded(room_id@, pass))
        } else {
            None
        },
        _ => None,
    }
}

/// One step of the receiver-side reducer: the sender reducer without
/// room announcements, with received chunks in place of sent ones.
pub open spec fn receiver_step(s: ProgressModel, m: ReceiverMessage) -> ProgressModel {
    match m {
        ReceiverMessage::CipherSelected { cipher } => ProgressModel {
            label: cipher_label(cipher@),
            ..s
        },
        ReceiverMessage::TransferTotals { file_count, total_bytes } => ProgressModel {
            bar_length: total_bytes as nat,
            ..s
        },
        ReceiverMessage::FileStarted { name, size } => ProgressModel {
            current_file_size: size as nat,
            label: transfer_label(name@),
            ..s
        },
        ReceiverMessage::ChunkReceived { size } => ProgressModel {
            bar_position: sat_add(s.bar_position, size as nat),
            ..s
        },
        ReceiverMessage::FileFinished => s,
        ReceiverMessage::DirectoryCreated => s,
        ReceiverMessage::FileSkipped => ProgressModel {
            bar_position: sat_add(s.bar_position, s.current_file_size),
            ..s
        },
        ReceiverMessage::Failed { error } => ProgressModel {
            abandoned: true,
            label: failure_label(error@),
            ..s
        },
    }
}

/// Folds a whole sender message stream through the reducer, in order.
pub open spec fn run_sender(s: ProgressModel, ms: Seq<SenderMessage>) -> ProgressModel
    decreases ms.len(),
{
    if ms.len() == 0 {
        s
    } else {
        run_sender(sender_step(s, ms[0]), ms.drop_first())
    }
}

/// Folds a whole receiver message stream through the reducer, in order.
pub open spec fn run_receiver(s: ProgressModel, ms: Seq<ReceiverMessage>) -> ProgressModel
    decreases ms.len(),
{
    if ms.len() == 0 {
        s
    } else {
        run_receiver(receiver_step(s, ms[0]), ms.drop_first())
    }
}

/// The instruction texts a whole sender stream asks to print, in order.
pub open spec fn run_sender_effects(
    s: ProgressModel,
    ms: Seq<SenderMessage>,
    pass: Seq<char>,
) -> Seq<Seq<char>>
    decreases ms.len(),
{
    if ms.len() == 0 {
        Seq::empty()
    } else {
        let rest = run_sender_effects(sender_step(s, ms[0]), ms.drop_first(), pass);
        match sender_effect(s, ms[0], pass) {
            Some(t) => seq![t] + rest,
            None => rest,
        }
    }
}

/// Adds with saturation at the largest representable position.
pub fn sat_add_u64(a: u64, b: u64) -> (r: u64)
    ensures
        r as nat == sat_add(a as nat, b as nat),
{
    if a <= u64::MAX - b {
        a + b
    } else {
        u64::MAX
    }
}

/// The progress-interface state owned by the consuming thread: bar
/// geometry, label, the size of the file in flight, and the terminal
/// flags. Mutated only through the reducer methods.
pub struct ProgressState {
    bar_length: u64,
    bar_position: u64,
    label: String,
    current_file_size: u64,
    abandoned: bool,
    room_announced: bool,
}

impl View for ProgressState {
    type V = ProgressModel;

    closed spec fn view(&self) -> ProgressModel {
        ProgressModel {
            bar_length: self.bar_length as nat,
            bar_position: self.bar_position as nat,
            label: self.label@,
            current_file_size: self.current_file_size as nat,
            abandoned: self.abandoned,
            room_announced: self.room_announced,
        }
    }
}

/// The text an interface effect carries, if any.
pub open spec fn text_view(o: Option<String>) -> Option<Seq<char>> {
    match o {
        Some(s) => Some(s@),
        None => None,
    }
}

impl ProgressState {
    /// Creates the state a run starts from.
    pub fn new() -> (s: Self)
        ensures
            s@ == init_progress(),
    {
        let s = ProgressState {
            bar_length: 0,
            bar_position: 0,
            label: String::new(),
            current_file_size: 0,
            abandoned: false,
            room_announced: false,
        };
        proof {
            assert(s@ =~= init_progress());
        }
        s
    }

    /// How many bytes the whole transfer announced.
    pub fn bar_length(&self) -> (r: u64)
        ensures
            r as nat == self@.bar_length,
    {
        self.bar_length
    }

    /// How many bytes the bar has accounted for so far.
    pub fn bar_position(&self) -> (r: u64)
        ensures
            r as nat == self@.bar_position,
    {
        self.bar_position
    }

    /// The text currently shown next to the bar.
    pub fn label(&self) -> (r: &String)
        ensures
            r@ == self@.label,
    {
        &self.label
    }

    /// Whether a terminal failure abandoned the bar.
    pub fn is_abandoned(&self) -> (r: bool)
        ensures
            r == self@.abandoned,
    {
        self.abandoned
    }

    /// Applies one sender message to the state, exactly as the reducer
    /// specifies, and returns the instruction text to print, if the
    /// message asks for one. The secret instructions combine the
    /// assigned room with the locally held passphrase and are produced
    /// at most once per run.
    pub fn apply_sender_message(&mut self, m: &SenderMessage, passphrase: &str) -> (effect: Option<
        String,
    >)
        ensures
            final(self)@ == sender_step(old(self)@, *m),
            text_view(effect) == sender_effect(old(self)@, *m, passphrase@),
    {
        let effect: Option<String> = match m {
            SenderMessage::CipherSelected { cipher } => {
                let mut l = String::from_str("Cipher set to ");
                l.append(cipher.as_str());
                self.label = l;
                None
            },
            SenderMessage::TransferTotals { file_count: _, total_bytes } => {
                self.bar_length = *total_bytes;
                None
            },
            SenderMessage::FileStarted { name, size } => {
                self.current_file_size = *size;
                let mut l = String::from_str("Transferring ");
                l.append(name.as_str());
                self.label = l;
                None
            },
            SenderMessage::ChunkSent { size } => {
                self.bar_position = sat_add_u64(self.bar_position, *size);
                None
            },
            SenderMessage::FileFinished => None,
            SenderMessage::DirectoryCreated => None,
            SenderMessage::FileSkipped => {
                self.bar_position = sat_add_u64(self.bar_position, self.current_file_size);
                None
            },
            SenderMessage::RoomAssigned { room_id } => {
                if !self.room_announced {
                    self.room_announced = true;
                    let sec = Secret {
                        room_identifier: room_id.clone(),
                        passphrase: String::from_str(passphrase),
                    };
                    Some(encode_secret(&sec))
                } else {
                    None
                }
            },
            SenderMessage::Failed { error } => {
                self.abandoned = true;
                let mut l = String::from_str("Could not finish because of error: ");
                l.append(error.as_str());
                self.label = l;
                None
            },
        };
        proof {
            assert(final(self)@ =~= sender_step(old(self)@, *m));
        }
        effect
    }

    /// Applies one receiver message to the state, exactly as the
    /// receiver reducer specifies. The receiver prints no instructions.
    pub fn apply_receiver_message(&mut self, m: &ReceiverMessage)
        ensures
            final(self)@ == receiver_step(old(self)@, *m),
    {
        match m {
            ReceiverMessage::CipherSelected { cipher } => {
                let mut l = String::from_str("Cipher set to ");
                l.append(cipher.as_str());
                self.label = l;
            },
            ReceiverMessage::TransferTotals { file_count: _, total_bytes } => {
                self.bar_length = *total_bytes;
            },
            ReceiverMessage::FileStarted { name, size } => {
                self.current_file_size = *size;
                let mut l = String::from_str("Transferring ");
                l.append(name.as_str());
                self.label = l;
            },
            ReceiverMessage::ChunkReceived { size } => {
                self.bar_position = sat_add_u64(self.bar_position, *size);
            },
            ReceiverMessage::FileFinished => (),
            ReceiverMessage::DirectoryCreated => (),
            ReceiverMessage::FileSkipped => {
                self.bar_position = sat_add_u64(self.bar_position, self.current_file_size);
            },
            ReceiverMessage::Failed { error } => {
                self.abandoned = true;
                let mut l = String::from_str("Could not finish because of error: ");
                l.append(error.as_str());
                self.label = l;
            },
        }
        proof {
            assert(final(self)@ =~= receiver_step(old(self)@, *m));
        }
    }
}

/// The chunk-progress messages for a sequence of chunk sizes.
pub open spec fn chunk_messages(sizes: Seq<u64>) -> Seq<SenderMessage> {
    sizes.map_values(|sz: u64| SenderMessage::ChunkSent { size: sz })
}

/// The number of bytes a sequence of chunks carries in total.
pub open spec fn total_size(sizes: Seq<u64>) -> int
    decreases sizes.len(),
{
    if sizes.len() == 0 {
        0
    } else {
        sizes[0] + total_size(sizes.drop_first())
    }
}

/// Chunk sizes are unsigned, so their total never goes negative.
pub proof fn lemma_total_size_nonneg(sizes: Seq<u64>)
    ensures
        total_size(sizes) >= 0,
    decreases sizes.len(),
{
    if sizes.len() > 0 {
        lemma_total_size_nonneg(sizes.drop_first());
    }
}

/// A run of chunk messages advances the bar position by exactly the
/// bytes the chunks carry, and touches nothing else of the bar geometry.
pub proof fn lemma_chunks_advance(s: ProgressModel, sizes: Seq<u64>)
    requires
        s.bar_position + total_size(sizes) <= u64::MAX,
    ensures
        run_sender(s, chunk_messages(sizes)).bar_position == s.bar_position + total_size(sizes),
        run_sender(s, chunk_messages(sizes)).bar_length == s.bar_length,
    decreases sizes.len(),
{
    let ms = chunk_messages(sizes);
    if sizes.len() == 0 {
        assert(ms.len() == 0);
    } else {
        lemma_total_size_nonneg(sizes.drop_first());
        let s1 = sender_step(s, ms[0]);
        assert(s1.bar_position == sat_add(s.bar_position, sizes[0] as nat));
        assert(s1.bar_position == s.bar_position + sizes[0]);
        assert(ms.drop_first() =~= chunk_messages(sizes.drop_first()));
        lemma_chunks_advance(s1, sizes.drop_first());
    }
}

/// Law: progress accounting. From a fresh bar, announcing a byte total
/// and then sending chunks that sum to exactly that total drives the bar
/// position to the total, which is then exactly the bar length.
pub proof fn lemma_progress_accounting(
    s: ProgressModel,
    file_count: u64,
    total_bytes: u64,
    sizes: Seq<u64>,
)
    requires
        s.bar_position == 0,
        total_size(sizes) == total_bytes,
    ensures
        ({
            let stream = seq![SenderMessage::TransferTotals { file_count, total_bytes }]
                + chunk_messages(sizes);
            let r = run_sender(s, stream);
            r.bar_position == total_bytes && r.bar_position == r.bar_length
        }),
{
    let stream = seq![SenderMessage::TransferTotals { file_count, total_bytes }]
        + chunk_messages(sizes);
    let s1 = sender_step(s, stream[0]);
    assert(s1.bar_length == total_bytes as nat);
    assert(s1.bar_position == 0);
    assert(stream.drop_first() =~= chunk_messages(sizes));
    lemma_chunks_advance(s1, sizes);
}

/// Law: skip accounting. Starting a file of a declared size and then
/// skipping it, with no chunks in between, advances the bar position by
/// exactly that declared size.
pub proof fn lemma_skip_accounting(s: ProgressModel, name: String, size: u64)
    requires
        s.bar_position + size <= u64::MAX,
    ensures
        ({
            let stream = seq![
                SenderMessage::FileStarted { name, size },
                SenderMessage::FileSkipped,
            ];
            run_sender(s, stream).bar_position == s.bar_position + size
        }),
{
    let stream = seq![SenderMessage::FileStarted { name, size }, SenderMessage::FileSkipped];
    let s1 = sender_step(s, stream[0]);
    let s2 = sender_step(s1, stream.drop_first()[0]);
    assert(stream.drop_first().drop_first().len() == 0);
    assert(run_sender(s, stream) == run_sender(s1, stream.drop_first()));
    assert(run_sender(s1, stream.drop_first()) == run_sender(s2, stream.drop_first().drop_first()));
    assert(run_sender(s, stream) == s2);
    assert(s2.bar_position == sat_add(s1.bar_position, s1.current_file_size));
}

} // verus!
