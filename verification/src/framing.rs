//! Length-prefixed messages on the control connection.

use vstd::prelude::*;

verus! {

/// Number of bytes in the length prefix.
pub const PREFIX_LEN: usize = 4;

/// Four bytes, most significant first.
pub open spec fn be_bytes(n: int) -> Seq<u8> {
    seq![
        (n / 0x100_0000 % 256) as u8,
        (n / 0x1_0000 % 256) as u8,
        (n / 0x100 % 256) as u8,
        (n % 256) as u8,
    ]
}

/// The number that four bytes, most significant first, stand for.
pub open spec fn be_value(b: Seq<u8>) -> int {
    b[0] * 0x100_0000 + b[1] * 0x1_0000 + b[2] * 0x100 + b[3]
}

/// The length that is put in front of a payload: its low 32 bits.
pub open spec fn wire_len(payload: Seq<u8>) -> int {
    payload.len() as int % 0x1_0000_0000
}

/// A payload as it travels: the length first.
pub open spec fn framed(payload: Seq<u8>) -> Seq<u8> {
    be_bytes(wire_len(payload)) + payload
}

/// Payloads one after the other, as they travel.
pub open spec fn framed_all(payloads: Seq<Seq<u8>>) -> Seq<u8>
    decreases payloads.len(),
{
    if payloads.len() == 0 {
        Seq::empty()
    } else {
        framed(payloads.first()) + framed_all(payloads.drop_first())
    }
}

/// What the sender of a message does next.
#[derive(Debug, PartialEq, Eq)]
pub enum SendStep {
    /// Write all of these bytes.
    WriteAll(Vec<u8>),
    /// Flush what was written.
    Flush,
    /// The message was sent.
    Return,
    /// Give up with the error of the action that failed.
    Fail,
}

/// What the sender of a message does next, with bytes as a sequence.
pub enum SendStepView {
    WriteAll(Seq<u8>),
    Flush,
    Return,
    Fail,
}

impl View for SendStep {
    type V = SendStepView;

    open spec fn view(&self) -> SendStepView {
        match *self {
            SendStep::WriteAll(b) => SendStepView::WriteAll(b@),
            SendStep::Flush => SendStepView::Flush,
            SendStep::Return => SendStepView::Return,
            SendStep::Fail => SendStepView::Fail,
        }
    }
}

/// What is done once `replies` have come back (each says whether an action worked): the length is
/// written, the payload is written, and both are flushed. The first action that fails ends the
/// sending.
pub open spec fn send_step(payload: Seq<u8>, replies: Seq<bool>) -> SendStepView {
    if replies.len() == 0 {
        SendStepView::WriteAll(be_bytes(wire_len(payload)))
    } else if !replies[0] {
        SendStepView::Fail
    } else if replies.len() == 1 {
        SendStepView::WriteAll(payload)
    } else if !replies[1] {
        SendStepView::Fail
    } else if replies.len() == 2 {
        SendStepView::Flush
    } else if !replies[2] {
        SendStepView::Fail
    } else {
        SendStepView::Return
    }
}

/// Sends one payload: says what to do after the actions made so far.
pub fn send_message(payload: &Vec<u8>, replies: &Vec<bool>) -> (step: SendStep)
    ensures
        step@ == send_step(payload@, replies@),
{
    if replies.len() == 0 {
        let len: u64 = payload.len() as u64 % 0x1_0000_0000;
        let mut prefix: Vec<u8> = Vec::new();
        prefix.push((len / 0x100_0000 % 256) as u8);
        prefix.push((len / 0x1_0000 % 256) as u8);
        prefix.push((len / 0x100 % 256) as u8);
        prefix.push((len % 256) as u8);
        assert(prefix@ =~= be_bytes(wire_len(payload@)));
        SendStep::WriteAll(prefix)
    } else if !replies[0] {
        SendStep::Fail
    } else if replies.len() == 1 {
        SendStep::WriteAll(copy_bytes(payload))
    } else if !replies[1] {
        SendStep::Fail
    } else if replies.len() == 2 {
        SendStep::Flush
    } else if !replies[2] {
        SendStep::Fail
    } else {
        SendStep::Return
    }
}

/// The bytes that were written over a row of replies, by the writes that worked.
pub open spec fn bytes_written(payload: Seq<u8>, replies: Seq<bool>) -> Seq<u8>
    decreases replies.len(),
{
    if replies.len() == 0 {
        Seq::empty()
    } else {
        let before = bytes_written(payload, replies.drop_last());
        match send_step(payload, replies.drop_last()) {
            SendStepView::WriteAll(bytes) => if replies.last() {
                before + bytes
            } else {
                before
            },
            _ => before,
        }
    }
}

/// A message that counts as sent has been written as it is to travel, all of it, and flushed after
/// that.
pub proof fn a_sent_message_is_written_whole_and_flushed(payload: Seq<u8>, replies: Seq<bool>)
    requires
        send_step(payload, replies) is Return,
    ensures
        bytes_written(payload, replies) == framed(payload),
        replies.len() >= 3,
        send_step(payload, replies.take(2)) is Flush,
        bytes_written(payload, replies.take(2)) == framed(payload),
        replies[2],
    decreases replies.len(),
{
    let written = replies.take(2);
    assert(written.drop_last() =~= replies.take(1));
    assert(replies.take(1).drop_last() =~= Seq::<bool>::empty());
    assert(bytes_written(payload, Seq::<bool>::empty()) =~= Seq::<u8>::empty());
    assert(bytes_written(payload, replies.take(1)) =~= be_bytes(wire_len(payload)));
    assert(bytes_written(payload, written) =~= framed(payload));
    let before = replies.drop_last();
    if replies.len() == 3 {
        assert(before =~= written);
    } else {
        a_sent_message_is_written_whole_and_flushed(payload, before);
    }
}

fn copy_bytes(bytes: &Vec<u8>) -> (r: Vec<u8>)
    ensures
        r@ == bytes@,
{
    vstd::slice::slice_to_vec(bytes.as_slice())
}

/// What the receiver of a message does next.
#[derive(Debug, PartialEq, Eq)]
pub enum RecvStep {
    /// Read exactly this many bytes.
    ReadExact(usize),
    /// Decode these bytes into a message; that is the outcome.
    Decode(Vec<u8>),
    /// Give up with the error of the read that failed.
    Fail,
}

/// What the receiver of a message does next, with bytes as a sequence.
pub enum RecvStepView {
    ReadExact(int),
    Decode(Seq<u8>),
    Fail,
}

impl View for RecvStep {
    type V = RecvStepView;

    open spec fn view(&self) -> RecvStepView {
        match *self {
            RecvStep::ReadExact(n) => RecvStepView::ReadExact(n as int),
            RecvStep::Decode(b) => RecvStepView::Decode(b@),
            RecvStep::Fail => RecvStepView::Fail,
        }
    }
}

/// What is done once `reads` have come back (`None` is a read that failed): the prefix is read
/// first, then as many bytes as it announces.
pub open spec fn recv_step(reads: Seq<Option<Vec<u8>>>) -> RecvStepView {
    if reads.len() == 0 {
        RecvStepView::ReadExact(PREFIX_LEN as int)
    } else if reads[0] is None || reads[0]->0@.len() != PREFIX_LEN {
        RecvStepView::Fail
    } else if reads.len() == 1 {
        RecvStepView::ReadExact(be_value(reads[0]->0@))
    } else if reads[1] is None || reads[1]->0@.len() != be_value(reads[0]->0@) {
        RecvStepView::Fail
    } else {
        RecvStepView::Decode(reads[1]->0@)
    }
}

/// Receives one message: says what to do after the reads made so far.
pub fn recv_message(reads: &Vec<Option<Vec<u8>>>) -> (step: RecvStep)
    ensures
        step@ == recv_step(reads@),
{
    if reads.len() == 0 {
        return RecvStep::ReadExact(PREFIX_LEN);
    }
    match &reads[0] {
        None => RecvStep::Fail,
        Some(prefix) => {
            if prefix.len() != PREFIX_LEN {
                return RecvStep::Fail;
            }
            let len: u32 = prefix[0] as u32 * 0x100_0000 + prefix[1] as u32 * 0x1_0000
                + prefix[2] as u32 * 0x100 + prefix[3] as u32;
            if reads.len() == 1 {
                return RecvStep::ReadExact(len as usize);
            }
            match &reads[1] {
                None => RecvStep::Fail,
                Some(body) => {
                    if body.len() != len as usize {
                        RecvStep::Fail
                    } else {
                        RecvStep::Decode(copy_bytes(body))
                    }
                },
            }
        },
    }
}

/// The first payload in a stream of bytes and what follows it, or nothing where the stream ends
/// inside the message.
pub open spec fn read_frame(stream: Seq<u8>) -> Option<(Seq<u8>, Seq<u8>)> {
    if stream.len() < PREFIX_LEN {
        None
    } else {
        let len = be_value(stream.take(PREFIX_LEN as int));
        let rest = stream.skip(PREFIX_LEN as int);
        if rest.len() < len {
            None
        } else {
            Some((rest.take(len), rest.skip(len)))
        }
    }
}

/// The first `count` payloads in a stream.
pub open spec fn read_frames(stream: Seq<u8>, count: nat) -> Option<Seq<Seq<u8>>>
    decreases count,
{
    if count == 0 {
        Some(Seq::empty())
    } else {
        match read_frame(stream) {
            None => None,
            Some((payload, rest)) => match read_frames(rest, (count - 1) as nat) {
                None => None,
                Some(more) => Some(seq![payload] + more),
            },
        }
    }
}

proof fn lemma_be_bytes_value(n: int)
    requires
        0 <= n < 0x1_0000_0000,
    ensures
        be_bytes(n).len() == 4,
        be_value(be_bytes(n)) == n,
{
    let d: int = n % 256;
    let c: int = n / 0x100 % 256;
    let b: int = n / 0x1_0000 % 256;
    let a: int = n / 0x100_0000 % 256;
    assert(n == a * 0x100_0000 + b * 0x1_0000 + c * 0x100 + d);
}

proof fn lemma_be_value_range(b: Seq<u8>)
    ensures
        0 <= be_value(b) < 0x1_0000_0000,
{
}

/// What a receiver reads from a stream is what the steps of [`recv_message`] say: the two reads
/// that they ask for, taken from the front of the stream, lead to decoding the first payload.
pub proof fn recv_steps_read_the_first_frame(stream: Seq<u8>, first: Vec<u8>, second: Vec<u8>)
    requires
        stream.len() >= PREFIX_LEN,
        first@ == stream.take(PREFIX_LEN as int),
        stream.len() >= PREFIX_LEN + be_value(first@),
        second@ == stream.skip(PREFIX_LEN as int).take(be_value(first@)),
    ensures
        recv_step(Seq::empty()) == RecvStepView::ReadExact(PREFIX_LEN as int),
        recv_step(seq![Some(first)]) == RecvStepView::ReadExact(be_value(first@)),
        read_frame(stream) is Some,
        recv_step(seq![Some(first), Some(second)]) == RecvStepView::Decode(
            (read_frame(stream)->0).0,
        ),
{
    lemma_be_value_range(first@);
}

/// A receiver gets back the payload that was sent, and finds the stream right behind it. The
/// prefix has 32 bits, so this is said of payloads whose length fits in them.
pub proof fn read_gives_back_what_was_sent(payload: Seq<u8>, rest: Seq<u8>)
    requires
        payload.len() < 0x1_0000_0000,
    ensures
        read_frame(framed(payload) + rest) == Some((payload, rest)),
{
    let stream = framed(payload) + rest;
    lemma_be_bytes_value(wire_len(payload));
    assert(stream.take(4) =~= be_bytes(wire_len(payload)));
    assert(stream.skip(4) =~= payload + rest);
    assert((payload + rest).take(payload.len() as int) =~= payload);
    assert((payload + rest).skip(payload.len() as int) =~= rest);
}

/// Messages sent one after the other are received one after the other.
pub proof fn messages_arrive_in_order(payloads: Seq<Seq<u8>>)
    requires
        forall|i: int| 0 <= i < payloads.len() ==> (#[trigger] payloads[i]).len() < 0x1_0000_0000,
    ensures
        read_frames(framed_all(payloads), payloads.len()) == Some(payloads),
    decreases payloads.len(),
{
    if payloads.len() == 0 {
        assert(payloads =~= Seq::empty());
    } else {
        let tail = payloads.drop_first();
        assert forall|i: int| 0 <= i < tail.len() implies (#[trigger] tail[i]).len()
            < 0x1_0000_0000 by {
            assert(tail[i] == payloads[i + 1]);
        }
        messages_arrive_in_order(tail);
        assert(payloads[0].len() < 0x1_0000_0000);
        read_gives_back_what_was_sent(payloads.first(), framed_all(tail));
        assert(seq![payloads.first()] + tail =~= payloads);
    }
}

/// What a check for a waiting message does next.
#[derive(Clone, Copy, Debug, PartialEq, Eq)]
pub enum PollStep {
    /// Switch the stream to nonblocking reads.
    EnterNonblocking,
    /// Peek at this many bytes.
    Peek(usize),
    /// Switch the stream back to blocking reads.
    LeaveNonblocking,
    /// Receive a message; that is the outcome, and nothing where the receiving fails.
    Receive,
    /// There is no message.
    Nothing,
}

/// How one action of a check for a waiting message ended.
#[derive(Clone, Copy, Debug, PartialEq, Eq)]
pub enum PollReply {
    /// The switch of the stream's mode, and whether it worked.
    Switched(bool),
    /// The number of bytes that can be peeked at, or nothing where peeking failed.
    Peeked(Option<usize>),
}

/// What is done once `replies` have come back. The stream is left blocking before anything is
/// read from it, and nothing is read unless a whole prefix is there.
pub open spec fn poll_step(replies: Seq<PollReply>) -> PollStep {
    if replies.len() == 0 {
        PollStep::EnterNonblocking
    } else if replies[0] != PollReply::Switched(true) {
        PollStep::Nothing
    } else if replies.len() == 1 {
        PollStep::Peek(PREFIX_LEN)
    } else if replies.len() == 2 {
        PollStep::LeaveNonblocking
    } else {
        match replies[1] {
            PollReply::Peeked(Some(n)) if n >= PREFIX_LEN => PollStep::Receive,
            _ => PollStep::Nothing,
        }
    }
}

/// Checks for a waiting message without taking part of one: says what to do after the replies
/// so far.
pub fn try_recv_message(replies: &Vec<PollReply>) -> (step: PollStep)
    ensures
        step == poll_step(replies@),
{
    if replies.len() == 0 {
        return PollStep::EnterNonblocking;
    }
    match replies[0] {
        PollReply::Switched(true) => {},
        _ => {
            return PollStep::Nothing;
        },
    }
    if replies.len() == 1 {
        PollStep::Peek(PREFIX_LEN)
    } else if replies.len() == 2 {
        PollStep::LeaveNonblocking
    } else {
        match replies[1] {
            PollReply::Peeked(Some(n)) => {
                if n >= PREFIX_LEN {
                    PollStep::Receive
                } else {
                    PollStep::Nothing
                }
            },
            _ => PollStep::Nothing,
        }
    }
}

/// Bytes are taken off the stream only after it was left in blocking mode and at least a whole
/// prefix was seen.
pub proof fn receiving_follows_a_full_peek(replies: Seq<PollReply>)
    requires
        poll_step(replies) == PollStep::Receive,
    ensures
        replies.len() >= 3,
        replies[0] == PollReply::Switched(true),
        replies[1] is Peeked,
        replies[1]->Peeked_0 is Some,
        replies[1]->Peeked_0->0 >= PREFIX_LEN,
        poll_step(replies.take(2)) == PollStep::LeaveNonblocking,
{
}

/// A message travels as four bytes that say its length, most significant first, and the payload
/// behind them.
pub proof fn a_message_travels_behind_its_length(payload: Seq<u8>)
    ensures
        framed(payload).len() == 4 + payload.len(),
        framed(payload)[0] * 16777216 + framed(payload)[1] * 65536 + framed(payload)[2] * 256
            + framed(payload)[3] == payload.len() as int % 4294967296,
        framed(payload).skip(4) == payload,
{
    lemma_be_bytes_value(wire_len(payload));
    assert(framed(payload).skip(4) =~= payload);
}

/// Sending gives up exactly when one of its three actions failed, and succeeds exactly when all of
/// them worked.
pub proof fn sending_succeeds_when_all_three_actions_work(payload: Seq<u8>, replies: Seq<bool>)
    ensures
        send_step(payload, replies) is Fail <==> exists|i: int|
            0 <= i < 3 && i < replies.len() && !(#[trigger] replies[i]),
        send_step(payload, replies) is Return <==> replies.len() >= 3 && replies[0] && replies[1]
            && replies[2],
        send_step(payload, replies) is Flush <==> replies.len() == 2 && replies[0] && replies[1],
{
    if send_step(payload, replies) is Fail {
        if !replies[0] {
        } else if !replies[1] {
        } else {
            assert(!replies[2]);
        }
    }
}

/// The number that four bytes, most significant first, stand for, is what is read after them; what
/// is decoded is what was read then; and receiving gives up exactly when a read failed or fell short.
pub proof fn a_prefix_says_how_much_is_read(reads: Seq<Option<Vec<u8>>>)
    ensures
        ({
            let prefix = reads[0]->0@;
            let announced = prefix[0] * 16777216 + prefix[1] * 65536 + prefix[2] * 256 + prefix[3];
            let no_prefix = reads.len() > 0 && (reads[0] is None || prefix.len() != 4);
            let no_body = reads.len() > 1 && (reads[1] is None || reads[1]->0@.len() != announced);
            &&& recv_step(reads) is Fail <==> no_prefix || no_body
            &&& reads.len() == 0 ==> recv_step(reads) == RecvStepView::ReadExact(4)
            &&& reads.len() == 1 && !no_prefix ==> recv_step(reads) == RecvStepView::ReadExact(
                announced,
            )
            &&& reads.len() > 1 && !no_prefix && !no_body ==> recv_step(reads)
                == RecvStepView::Decode(reads[1]->0@)
        }),
{
}

/// A message is received exactly when the stream could be switched and four bytes or more were seen;
/// after the first switch the stream is switched back, whatever was seen.
pub proof fn a_message_is_received_when_four_bytes_are_there(replies: Seq<PollReply>)
    ensures
        ({
            let switched = replies.len() > 0 && replies[0] == PollReply::Switched(true);
            let seen = replies[1] is Peeked && replies[1]->Peeked_0 is Some
                && replies[1]->Peeked_0->0 >= 4;
            &&& poll_step(replies) is Receive <==> switched && replies.len() >= 3 && seen
            &&& poll_step(replies) is Nothing <==> replies.len() > 0 && (!switched || (
            replies.len() >= 3 && !seen))
            &&& poll_step(replies) == PollStep::Peek(4) <==> switched && replies.len() == 1
            &&& poll_step(replies) is LeaveNonblocking <==> switched && replies.len() == 2
        }),
{
}

} // verus!
