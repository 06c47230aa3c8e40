use iris_cli::channel::Channel;
use iris_cli::message::SenderMessage;

fn chunk(size: u64) -> SenderMessage {
    SenderMessage::ChunkSent { size }
}

#[test]
fn ordering_preserved() {
    let mut c: Channel<SenderMessage> = Channel::new();
    c.send(SenderMessage::CipherSelected {
        cipher: "Aes".to_string(),
    });
    c.send(chunk(1));
    c.send(chunk(2));
    c.send(chunk(3));
    c.close();

    assert!(matches!(
        c.receive(),
        Some(SenderMessage::CipherSelected { cipher }) if cipher == "Aes"
    ));
    assert!(matches!(c.receive(), Some(SenderMessage::ChunkSent { size: 1 })));
    assert!(matches!(c.receive(), Some(SenderMessage::ChunkSent { size: 2 })));
    assert!(matches!(c.receive(), Some(SenderMessage::ChunkSent { size: 3 })));
    assert!(c.receive().is_none());
}

#[test]
fn closure_is_terminal() {
    let mut c: Channel<u64> = Channel::new();
    c.send(7);
    c.close();
    assert_eq!(c.receive(), Some(7));
    assert_eq!(c.receive(), None);
    assert_eq!(c.receive(), None);
    assert_eq!(c.receive(), None);
}

#[test]
fn close_keeps_pending_messages_readable() {
    let mut c: Channel<u64> = Channel::new();
    c.send(1);
    c.send(2);
    c.close();
    assert_eq!(c.receive(), Some(1));
    assert_eq!(c.receive(), Some(2));
    assert_eq!(c.receive(), None);
}

#[test]
fn empty_closed_channel_yields_end_of_stream() {
    let mut c: Channel<u64> = Channel::new();
    c.close();
    assert_eq!(c.receive(), None);
}
