use cooptask::channel::Channel;
use cooptask::channel::RecvStatus;
use cooptask::channel::SendStatus;

#[test]
fn ten_messages_arrive_in_send_order() {
    let mut c: Channel<String> = Channel::new(32);
    for i in 0..10 {
        let r = c.send(format!("Message {}", i));
        // 10 < 32, so no send is ever deferred.
        assert!(matches!(r, SendStatus::Sent));
    }
    c.close_sender();
    let mut received: Vec<String> = Vec::new();
    loop {
        match c.receive() {
            RecvStatus::Received(m) => received.push(m),
            RecvStatus::Empty => panic!("consumer suspended although the stream had ended"),
            RecvStatus::EndOfStream => break,
        }
    }
    let expected: Vec<String> = (0..10).map(|i| format!("Message {}", i)).collect();
    assert_eq!(received, expected);
}

#[test]
fn second_send_suspends_until_one_receive() {
    let mut c: Channel<String> = Channel::new(1);
    let first = c.send(String::from("Message 0"));
    assert!(matches!(first, SendStatus::Sent));

    // The buffer is at capacity: the second send is deferred, however often
    // it is retried, and the message is handed back each time.
    let mut pending = String::from("Message 1");
    for _ in 0..3 {
        match c.send(pending) {
            SendStatus::Full(m) => pending = m,
            _ => panic!("send on a full channel must be deferred"),
        }
    }

    // One receive frees the slot; the retried send is now accepted.
    match c.receive() {
        RecvStatus::Received(m) => assert_eq!(m, "Message 0"),
        _ => panic!("a buffered message must be received"),
    }
    let retried = c.send(pending);
    assert!(matches!(retried, SendStatus::Sent));
}

#[test]
fn drained_channel_reports_end_of_stream_repeatedly() {
    let mut c: Channel<String> = Channel::new(4);
    assert!(matches!(c.send(String::from("Message 0")), SendStatus::Sent));
    c.close_sender();
    match c.receive() {
        RecvStatus::Received(m) => assert_eq!(m, "Message 0"),
        _ => panic!("the buffer must drain before the stream ends"),
    }
    for _ in 0..3 {
        assert!(matches!(c.receive(), RecvStatus::EndOfStream));
    }
}

#[test]
fn empty_buffer_with_live_sender_suspends_receiver() {
    let mut c: Channel<String> = Channel::new(2);
    assert!(matches!(c.receive(), RecvStatus::Empty));
}

#[test]
fn send_after_receiver_dropped_fails_closed() {
    let mut c: Channel<String> = Channel::new(2);
    c.close_receiver();
    match c.send(String::from("Message 0")) {
        SendStatus::Closed(m) => assert_eq!(m, "Message 0"),
        _ => panic!("send without a receiver must fail with Closed"),
    }
}
