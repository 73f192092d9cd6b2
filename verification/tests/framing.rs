use pomodoro::ipc::framing::{split_into_datagrams, Reassembler, CHUNK};
use pomodoro::ipc::MessageResponse;

fn joined(datagrams: &Vec<Vec<u8>>) -> Option<Vec<u8>> {
    let mut receiver = Reassembler::new();
    for (i, datagram) in datagrams.iter().enumerate() {
        let complete = receiver.accept(datagram);
        assert_eq!(i + 1 == datagrams.len(), complete);
        assert_eq!(complete, receiver.is_complete());
    }
    receiver.into_message()
}

#[test]
fn payloads_of_every_length_are_cut_and_joined() {
    for len in [0usize, 1, 2, 2047, 2048, 2049, 4095, 4096, 4097, 10_000, 2048 * 7] {
        let payload: Vec<u8> = (0..len).map(|i| (i * 31 % 251) as u8).collect();
        let datagrams = split_into_datagrams(&payload);

        assert_eq!((len + CHUNK - 1) / CHUNK + 1, datagrams.len());
        assert!(datagrams.last().unwrap().is_empty());
        for datagram in &datagrams[..datagrams.len() - 1] {
            assert!(!datagram.is_empty());
            assert!(datagram.len() <= CHUNK);
        }
        for datagram in datagrams.iter().rev().skip(2) {
            assert_eq!(CHUNK, datagram.len());
        }
        assert_eq!(Some(payload), joined(&datagrams));
    }
}

#[test]
fn a_large_response_decodes_as_if_it_had_not_been_cut() {
    let body: Vec<String> = (0..5_000).map(|i| format!("│ {:>5} │ 24:59 │ 29:59 │ sample │", i)).collect();
    let payload = MessageResponse::new(body.clone()).encode().unwrap();
    assert!(payload.len() > 50 * CHUNK);

    let datagrams = split_into_datagrams(&payload);
    let received = joined(&datagrams).unwrap();
    assert_eq!(payload, received);
    let decoded = MessageResponse::decode(&received).unwrap();
    assert_eq!(&body, decoded.get_body());
    assert_eq!(
        MessageResponse::decode(&payload).unwrap().get_body(),
        decoded.get_body()
    );
}

#[test]
fn a_receiver_waits_for_the_empty_datagram() {
    let mut receiver = Reassembler::new();
    assert!(!receiver.is_complete());
    assert!(!receiver.accept(&[1, 2, 3]));
    assert!(!receiver.accept(&[4]));
    assert!(Reassembler::new().into_message().is_none());

    assert!(receiver.accept(&[]));
    // what comes after the end belongs to no message
    assert!(receiver.accept(&[9, 9]));
    assert!(receiver.accept(&[]));
    assert_eq!(Some(vec![1, 2, 3, 4]), receiver.into_message());

    let mut receiver = Reassembler::new();
    assert!(receiver.accept(&[]));
    assert_eq!(Some(vec![]), receiver.into_message());

    let mut receiver = Reassembler::new();
    receiver.accept(&[5]);
    assert_eq!(None, receiver.into_message());
}
