use iris_cli::channel::Channel;
use iris_cli::message::{ReceiverMessage, SenderMessage};
use iris_cli::pipeline::{
    drain_receiver_bar, drain_receiver_log, drain_sender_bar, drain_sender_log, exit_status,
};
use iris_cli::progress::ProgressState;

#[test]
fn log_mode_failure_as_last_message_exits_nonzero() {
    let mut c: Channel<SenderMessage> = Channel::new();
    c.send(SenderMessage::TransferTotals {
        file_count: 1,
        total_bytes: 10,
    });
    c.send(SenderMessage::Failed {
        error: "relay unreachable".to_string(),
    });
    c.close();

    let failure = drain_sender_log(&mut c);
    assert_eq!(failure.as_deref(), Some("relay unreachable"));
    assert_eq!(exit_status(failure.is_some()), 1);
}

#[test]
fn log_mode_clean_stream_exits_zero() {
    let mut c: Channel<SenderMessage> = Channel::new();
    c.send(SenderMessage::TransferTotals {
        file_count: 1,
        total_bytes: 10,
    });
    c.send(SenderMessage::ChunkSent { size: 10 });
    c.send(SenderMessage::FileFinished);
    c.close();

    let failure = drain_sender_log(&mut c);
    assert!(failure.is_none());
    assert_eq!(exit_status(failure.is_some()), 0);
}

#[test]
fn log_mode_stops_reading_at_the_first_failure() {
    let mut c: Channel<SenderMessage> = Channel::new();
    c.send(SenderMessage::Failed {
        error: "boom".to_string(),
    });
    c.send(SenderMessage::FileFinished);
    c.close();

    let failure = drain_sender_log(&mut c);
    assert_eq!(failure.as_deref(), Some("boom"));
    assert!(matches!(c.receive(), Some(SenderMessage::FileFinished)));
}

#[test]
fn receiver_log_mode_reports_the_failure() {
    let mut c: Channel<ReceiverMessage> = Channel::new();
    c.send(ReceiverMessage::ChunkReceived { size: 4 });
    c.send(ReceiverMessage::Failed {
        error: "bad room".to_string(),
    });
    c.close();
    assert_eq!(drain_receiver_log(&mut c).as_deref(), Some("bad room"));
}

#[test]
fn bar_mode_folds_the_whole_stream_in_order() {
    let mut c: Channel<SenderMessage> = Channel::new();
    c.send(SenderMessage::CipherSelected {
        cipher: "ChaCha".to_string(),
    });
    c.send(SenderMessage::TransferTotals {
        file_count: 2,
        total_bytes: 1000,
    });
    c.send(SenderMessage::RoomAssigned {
        room_id: "7".to_string(),
    });
    c.send(SenderMessage::FileStarted {
        name: "a.txt".to_string(),
        size: 700,
    });
    c.send(SenderMessage::ChunkSent { size: 700 });
    c.send(SenderMessage::FileFinished);
    c.send(SenderMessage::FileStarted {
        name: "b.txt".to_string(),
        size: 300,
    });
    c.send(SenderMessage::FileSkipped);
    c.close();

    let mut st = ProgressState::new();
    let instructions = drain_sender_bar(&mut c, &mut st, "horse-staple");
    assert_eq!(instructions, vec!["7-horse-staple".to_string()]);
    assert_eq!(st.bar_length(), 1000);
    assert_eq!(st.bar_position(), 1000);
    assert_eq!(st.label().as_str(), "Transferring b.txt");
    assert!(!st.is_abandoned());
    assert!(c.receive().is_none());
}

#[test]
fn bar_mode_renders_a_terminal_failure_as_abandoned() {
    let mut c: Channel<ReceiverMessage> = Channel::new();
    c.send(ReceiverMessage::TransferTotals {
        file_count: 1,
        total_bytes: 50,
    });
    c.send(ReceiverMessage::ChunkReceived { size: 20 });
    c.send(ReceiverMessage::Failed {
        error: "disk full".to_string(),
    });
    c.close();

    let mut st = ProgressState::new();
    drain_receiver_bar(&mut c, &mut st);
    assert!(st.is_abandoned());
    assert_eq!(st.bar_position(), 20);
    assert_eq!(st.label().as_str(), "Could not finish because of error: disk full");
}

#[test]
fn exit_status_maps_failure_observation() {
    assert_eq!(exit_status(false), 0);
    assert_eq!(exit_status(true), 1);
}
