use vstd::prelude::*;

verus! {

/// The largest payload a frame can carry: the length byte, the four-byte
/// header and the payload together must not exceed the chip's 65-byte
/// FIFO, and the length byte counts the header as four.
pub const MAX_PAYLOAD: usize = 60;

/// The on-air frame for a payload: one length byte holding the payload
/// length plus four, the fixed four-byte header (the broadcast address
/// twice, then two placeholder flag bytes), then the payload.
pub open spec fn frame_spec(payload: Seq<u8>) -> Seq<u8> {
    seq![(payload.len() + 4) as u8, 0xFFu8, 0xFFu8, 0x00u8, 0x00u8] + payload
}

/// The payload a receiver reconstructs from a frame: the length byte names
/// the header and payload together, so the payload is the `length - 4`
/// bytes that follow the four-byte header.
pub open spec fn frame_payload(frame: Seq<u8>) -> Seq<u8> {
    frame.subrange(5, 5 + (frame[0] - 4))
}

/// Build the on-air frame for `payload`.
pub fn build_frame(payload: &[u8]) -> (r: Vec<u8>)
    requires
        payload@.len() <= MAX_PAYLOAD,
    ensures
        r@ == frame_spec(payload@),
        r@.len() == payload@.len() + 5,
{
    let mut frame: Vec<u8> = Vec::new();
    frame.push((payload.len() + 4) as u8);
    frame.push(0xFF);
    frame.push(0xFF);
    frame.push(0x00);
    frame.push(0x00);
    let mut i: usize = 0;
    while i < payload.len()
        invariant
            i <= payload@.len() <= MAX_PAYLOAD,
            frame@.len() == 5 + i,
            frame@ == seq![
                (payload@.len() + 4) as u8,
                0xFFu8,
                0xFFu8,
                0x00u8,
                0x00u8,
            ] + payload@.subrange(0, i as int),
        decreases payload@.len() - i,
    {
        frame.push(payload[i]);
        proof {
            assert(payload@.subrange(0, i as int).push(payload@[i as int]) =~= payload@.subrange(
                0,
                i + 1,
            ));
            assert(frame@ =~= (seq![
                (payload@.len() + 4) as u8,
                0xFFu8,
                0xFFu8,
                0x00u8,
                0x00u8,
            ] + payload@.subrange(0, i + 1)));
        }
        i = i + 1;
    }
    proof {
        assert(payload@.subrange(0, payload@.len() as int) =~= payload@);
    }
    frame
}

/// Law: framing round-trips. A frame built from a payload of at most
/// `MAX_PAYLOAD` bytes carries the payload length plus four in its length
/// byte, and the receiver's reconstruction gives back the payload byte for
/// byte.
pub proof fn lemma_frame_round_trip(payload: Seq<u8>)
    requires
        payload.len() <= MAX_PAYLOAD,
    ensures
        frame_spec(payload).len() == payload.len() + 5,
        frame_spec(payload)[0] == payload.len() + 4,
        frame_payload(frame_spec(payload)) == payload,
{
    assert(frame_payload(frame_spec(payload)) =~= payload);
}

} // verus!
