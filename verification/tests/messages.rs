use latency_link::framing::{
    recv_message, send_message, try_recv_message, PollReply, PollStep, RecvStep, SendStep,
};
use latency_link::text::append_decimal;

fn on_the_wire(payload: &[u8]) -> Vec<u8> {
    let payload = payload.to_vec();
    let mut replies = Vec::new();
    let mut written = Vec::new();
    let mut flushed = false;
    loop {
        match send_message(&payload, &replies) {
            SendStep::WriteAll(bytes) => {
                written.extend(bytes);
                flushed = false;
            }
            SendStep::Flush => flushed = true,
            SendStep::Return => {
                assert!(flushed);
                return written;
            }
            SendStep::Fail => panic!("the sending failed"),
        }
        replies.push(true);
    }
}

fn read_from(stream: &[u8]) -> Option<(Vec<u8>, Vec<u8>)> {
    let mut reads: Vec<Option<Vec<u8>>> = Vec::new();
    let mut at = 0;
    loop {
        match recv_message(&reads) {
            RecvStep::ReadExact(n) => {
                if at + n > stream.len() {
                    return None;
                }
                reads.push(Some(stream[at..at + n].to_vec()));
                at += n;
            }
            RecvStep::Decode(payload) => return Some((payload, stream[at..].to_vec())),
            RecvStep::Fail => return None,
        }
    }
}

#[test]
fn a_message_is_written_as_length_and_payload() {
    let payload = vec![7, 8, 9];
    assert_eq!(send_message(&payload, &vec![]), SendStep::WriteAll(vec![0, 0, 0, 3]));
    assert_eq!(send_message(&payload, &vec![true]), SendStep::WriteAll(vec![7, 8, 9]));
    assert_eq!(send_message(&payload, &vec![true, true]), SendStep::Flush);
    assert_eq!(send_message(&payload, &vec![true, true, true]), SendStep::Return);
    let long = vec![1u8; 0x0102_03];
    assert_eq!(send_message(&long, &vec![]), SendStep::WriteAll(vec![0, 1, 2, 3]));
    assert_eq!(on_the_wire(&[]), vec![0, 0, 0, 0]);
}

#[test]
fn the_first_failure_ends_the_sending() {
    let payload = vec![7, 8, 9];
    assert_eq!(send_message(&payload, &vec![false]), SendStep::Fail);
    assert_eq!(send_message(&payload, &vec![true, false]), SendStep::Fail);
    assert_eq!(send_message(&payload, &vec![true, true, false]), SendStep::Fail);
}

#[test]
fn a_message_is_read_back() {
    let mut stream = on_the_wire(&[1, 2, 3, 4, 5]);
    stream.extend_from_slice(&[9, 9]);
    assert_eq!(read_from(&stream), Some((vec![1, 2, 3, 4, 5], vec![9, 9])));
    assert_eq!(read_from(&on_the_wire(&[])), Some((vec![], vec![])));
}

#[test]
fn messages_are_read_in_order() {
    let mut stream = on_the_wire(b"first");
    stream.extend(on_the_wire(b"second"));
    let (first, rest) = read_from(&stream).unwrap();
    let (second, rest) = read_from(&rest).unwrap();
    assert_eq!(first, b"first");
    assert_eq!(second, b"second");
    assert!(rest.is_empty());
}

#[test]
fn a_message_that_is_cut_off_is_not_read() {
    assert_eq!(read_from(&[0, 0]), None);
    assert_eq!(read_from(&[0, 0, 0, 4, 1]), None);
    assert_eq!(recv_message(&vec![None]), RecvStep::Fail);
    assert_eq!(recv_message(&vec![Some(vec![0, 0, 0, 4]), None]), RecvStep::Fail);
}

#[test]
fn the_length_is_read_most_significant_byte_first() {
    let prefix = vec![Some(vec![0x01, 0x02, 0x03, 0x04])];
    assert_eq!(recv_message(&prefix), RecvStep::ReadExact(0x0102_0304));
}

#[test]
fn a_waiting_message_is_looked_for_without_taking_part_of_it() {
    let mut replies = Vec::new();
    assert_eq!(try_recv_message(&replies), PollStep::EnterNonblocking);
    replies.push(PollReply::Switched(true));
    assert_eq!(try_recv_message(&replies), PollStep::Peek(4));
    replies.push(PollReply::Peeked(Some(4)));
    assert_eq!(try_recv_message(&replies), PollStep::LeaveNonblocking);
    replies.push(PollReply::Switched(false));
    assert_eq!(try_recv_message(&replies), PollStep::Receive);
}

#[test]
fn there_is_no_message_without_a_whole_prefix() {
    assert_eq!(try_recv_message(&vec![PollReply::Switched(false)]), PollStep::Nothing);
    for peeked in [None, Some(0), Some(3)] {
        let replies =
            vec![PollReply::Switched(true), PollReply::Peeked(peeked), PollReply::Switched(true)];
        assert_eq!(try_recv_message(&replies), PollStep::Nothing);
    }
}

#[test]
fn numbers_are_written_in_decimal() {
    for (n, text) in [
        (0u64, "0"),
        (9, "9"),
        (10, "10"),
        (1_234_567_890, "1234567890"),
        (u64::MAX, "18446744073709551615"),
    ] {
        let mut s = String::from("n=");
        append_decimal(&mut s, n);
        assert_eq!(s, format!("n={}", text));
    }
}
