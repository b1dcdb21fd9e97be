//! Reassembly of HSMS messages from a TCP byte stream.
use vstd::prelude::*;

use crate::error::SecsTransportError;
use crate::hsms::{frame_length_field, message_of, HsmsHeader, HsmsMessage};

verus! {

/// The views of a queue of messages.
pub open spec fn message_views(s: Seq<HsmsMessage>) -> Seq<(HsmsHeader, Option<Seq<u8>>)> {
    s.map_values(|m: HsmsMessage| m@)
}

/// Splits the complete frames off the front of `buf`: the messages they hold,
/// the bytes left over, and the error of the first frame that does not read
/// as a message, after which splitting stops with the bytes behind that frame.
pub open spec fn assemble(buf: Seq<u8>) -> (Seq<(HsmsHeader, Option<Seq<u8>>)>, Seq<u8>, Option<
    SecsTransportError,
>)
    decreases buf.len(),
{
    if buf.len() < 4 || buf.len() < 4 + frame_length_field(buf) {
        (Seq::empty(), buf, None)
    } else {
        let total = 4 + frame_length_field(buf);
        match message_of(buf.take(total)) {
            Err(e) => (Seq::empty(), buf.skip(total), Some(e)),
            Ok(m) => {
                let rest = assemble(buf.skip(total));
                (seq![m] + rest.0, rest.1, rest.2)
            },
        }
    }
}

/// Collects bytes and cuts them into HSMS messages.
pub struct HsmsAssembler {
    incoming_buffer: Vec<u8>,
    outgoing_messages: std::collections::VecDeque<HsmsMessage>,
}

impl HsmsAssembler {
    /// Bytes received that do not yet form a complete frame.
    pub closed spec fn buffered(&self) -> Seq<u8> {
        self.incoming_buffer@
    }

    /// Messages assembled and not yet taken.
    pub closed spec fn ready(&self) -> Seq<(HsmsHeader, Option<Seq<u8>>)> {
        message_views(self.outgoing_messages@)
    }

    pub fn new() -> (r: HsmsAssembler)
        ensures
            r.buffered() == Seq::<u8>::empty(),
            r.ready() == Seq::<(HsmsHeader, Option<Seq<u8>>)>::empty(),
    {
        let r = HsmsAssembler {
            incoming_buffer: Vec::new(),
            outgoing_messages: std::collections::VecDeque::new(),
        };
        assert(r.ready() =~= Seq::<(HsmsHeader, Option<Seq<u8>>)>::empty());
        r
    }

    /// Whether bytes of an incomplete frame are waiting.
    pub fn has_remained(&self) -> (r: bool)
        ensures
            r == (self.buffered().len() > 0),
    {
        self.incoming_buffer.len() > 0
    }

    /// Takes the oldest assembled message.
    pub fn poll_message(&mut self) -> (r: Option<HsmsMessage>)
        ensures
            old(self).ready().len() == 0 ==> r is None && final(self).ready() == old(self).ready(),
            old(self).ready().len() > 0 ==> (r is Some && r->Some_0@ == old(self).ready()[0]
                && final(self).ready() == old(self).ready().drop_first()),
            final(self).buffered() == old(self).buffered(),
    {
        let r = self.outgoing_messages.pop_front();
        assert(self.ready() =~= old(self).ready().drop_first() || old(self).ready().len() == 0);
        r
    }

    /// Drops the bytes of an incomplete frame.
    pub fn clear(&mut self)
        ensures
            final(self).buffered() == Seq::<u8>::empty(),
            final(self).ready() == old(self).ready(),
    {
        self.incoming_buffer.clear();
    }

    /// Appends `bytes` and cuts every complete frame into a message; a frame
    /// that is no message stops the cutting with its error.
    pub fn handle_read(&mut self, bytes: &[u8]) -> (r: Result<(), SecsTransportError>)
        ensures
            ({
                let a = assemble(old(self).buffered() + bytes@);
                &&& final(self).ready() == old(self).ready() + a.0
                &&& final(self).buffered() == a.1
                &&& r == match a.2 {
                    None => Ok::<(), SecsTransportError>(()),
                    Some(e) => Err::<(), SecsTransportError>(e),
                }
            }),
    {
        let mut i: usize = 0;
        while i < bytes.len()
            invariant
                i <= bytes@.len(),
                self.incoming_buffer@ == old(self).incoming_buffer@ + bytes@.take(i as int),
                self.outgoing_messages@ == old(self).outgoing_messages@,
            decreases bytes@.len() - i,
        {
            self.incoming_buffer.push(bytes[i]);
            assert(self.incoming_buffer@ =~= old(self).incoming_buffer@ + bytes@.take(
                i as int + 1,
            ));
            i = i + 1;
        }
        assert(bytes@.take(i as int) =~= bytes@);
        self.process_buffer()
    }

    fn process_buffer(&mut self) -> (r: Result<(), SecsTransportError>)
        ensures
            ({
                let a = assemble(old(self).buffered());
                &&& final(self).ready() == old(self).ready() + a.0
                &&& final(self).buffered() == a.1
                &&& r == match a.2 {
                    None => Ok::<(), SecsTransportError>(()),
                    Some(e) => Err::<(), SecsTransportError>(e),
                }
            }),
    {
        let ghost total_a = assemble(old(self).buffered());
        loop
            invariant
                total_a == assemble(old(self).buffered()),
                self.ready() + assemble(self.buffered()).0 == old(self).ready() + total_a.0,
                assemble(self.buffered()).1 == total_a.1,
                assemble(self.buffered()).2 == total_a.2,
            decreases self.incoming_buffer@.len(),
        {
            let ghost buf = self.incoming_buffer@;
            if self.incoming_buffer.len() < 4 {
                assert(assemble(buf) == (Seq::<(HsmsHeader, Option<Seq<u8>>)>::empty(), buf, None::<SecsTransportError>));
                assert(self.ready() + Seq::<(HsmsHeader, Option<Seq<u8>>)>::empty() =~= self.ready());
                return Ok(());
            }
            let len = crate::bytes::u32_from_be(
                self.incoming_buffer[0],
                self.incoming_buffer[1],
                self.incoming_buffer[2],
                self.incoming_buffer[3],
            ) as usize;
            if self.incoming_buffer.len() - 4 < len {
                assert(len == frame_length_field(buf));
                assert(assemble(buf) == (Seq::<(HsmsHeader, Option<Seq<u8>>)>::empty(), buf, None::<SecsTransportError>));
                assert(self.ready() + Seq::<(HsmsHeader, Option<Seq<u8>>)>::empty() =~= self.ready());
                return Ok(());
            }
            let total = 4 + len;
            let mut frame = self.incoming_buffer.split_off(0);
            let rest = frame.split_off(total);
            self.incoming_buffer = rest;
            assert(frame@ == buf.take(total as int));
            assert(self.incoming_buffer@ == buf.skip(total as int));
            let ghost queue_before = self.outgoing_messages@;
            match HsmsMessage::try_from(frame.as_slice()) {
                Ok(message) => {
                    self.outgoing_messages.push_back(message);
                    assert(message_views(self.outgoing_messages@) =~= message_views(queue_before).push(message@));
                    assert(assemble(buf).0 == seq![message@] + assemble(self.incoming_buffer@).0);
                    assert(self.ready() + assemble(self.buffered()).0 =~= message_views(queue_before)
                        + assemble(buf).0);
                },
                Err(e) => {
                    assert(assemble(buf) == (Seq::<(HsmsHeader, Option<Seq<u8>>)>::empty(), self.incoming_buffer@, Some(e)));
                    assert(self.ready() + Seq::<(HsmsHeader, Option<Seq<u8>>)>::empty() =~= self.ready());
                    return Err(e);
                },
            }
        }
    }
}

/// A frame at the front of the stream reads as its message, and the rest of
/// the stream is assembled after it.
pub proof fn lemma_assemble_frame(m: (HsmsHeader, Option<Seq<u8>>), rest: Seq<u8>)
    requires
        crate::hsms::message_fits(m),
        m.1 is Some <==> m.0.stype == crate::hsms::HsmsSType::DataMessage,
    ensures
        assemble(crate::hsms::frame_bytes(m) + rest) == (
            seq![m] + assemble(rest).0,
            assemble(rest).1,
            assemble(rest).2,
        ),
{
    let f = crate::hsms::frame_bytes(m);
    let buf = f + rest;
    crate::hsms::lemma_frame_round_trip(m);
    let total = 4 + frame_length_field(f);
    assert(buf[0] == f[0] && buf[1] == f[1] && buf[2] == f[2] && buf[3] == f[3]);
    assert(frame_length_field(buf) == frame_length_field(f));
    assert(buf.take(total) =~= f);
    assert(buf.skip(total) =~= rest);
}

/// Reading a stream in two pieces assembles the same messages as reading it
/// at once, when the first piece raises no error.
pub proof fn lemma_assemble_split(x: Seq<u8>, y: Seq<u8>)
    requires
        assemble(x).2 is None,
    ensures
        assemble(x + y) == (
            assemble(x).0 + assemble(assemble(x).1 + y).0,
            assemble(assemble(x).1 + y).1,
            assemble(assemble(x).1 + y).2,
        ),
    decreases x.len(),
{
    if x.len() < 4 || x.len() < 4 + frame_length_field(x) {
        assert(assemble(x).0 + assemble(x + y).0 =~= assemble(x + y).0);
    } else {
        let total = 4 + frame_length_field(x);
        let xy = x + y;
        assert(xy[0] == x[0] && xy[1] == x[1] && xy[2] == x[2] && xy[3] == x[3]);
        assert(frame_length_field(xy) == frame_length_field(x));
        assert(xy.take(total) =~= x.take(total));
        assert(xy.skip(total) =~= x.skip(total) + y);
        lemma_assemble_split(x.skip(total), y);
        let m = message_of(x.take(total))->Ok_0;
        let r = assemble(x.skip(total));
        assert(seq![m] + r.0 + assemble(r.1 + y).0 =~= seq![m] + (r.0 + assemble(r.1 + y).0));
    }
}

} // verus!
