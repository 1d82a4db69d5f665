//! Laying decoded sound out for playing: every packet of one or two
//! channels becomes a run of stereo frames.

use vstd::prelude::*;

verus! {

/// Why decoded sound could not be laid out.
#[derive(Debug, Clone, Copy, PartialEq, Eq, Structural)]
pub enum DecodeError {
    /// A packet has neither one channel nor two.
    UnsupportedChannelConfiguration,
}

/// The stereo frames of a playable packet: a single channel on both sides,
/// or the two channels side by side.
pub open spec fn packet_frames<S>(packet: Seq<Vec<S>>) -> Seq<(S, S)> {
    if packet.len() == 1 {
        Seq::new(packet[0]@.len(), |i: int| (packet[0]@[i], packet[0]@[i]))
    } else {
        Seq::new(packet[0]@.len(), |i: int| (packet[0]@[i], packet[1]@[i]))
    }
}

/// Whether each of the first `end` packets can be laid out.
pub open spec fn all_playable<S>(packets: Seq<Vec<Vec<S>>>, end: int) -> bool {
    forall|i: int| 0 <= i < end ==> packets[i]@.len() == 1 || packets[i]@.len() == 2
}

/// The frames of the first `end` packets, one after the other.
pub open spec fn stream_frames<S>(packets: Seq<Vec<Vec<S>>>, end: int) -> Seq<(S, S)>
    decreases end,
{
    if end <= 0 {
        Seq::empty()
    } else {
        stream_frames(packets, end - 1) + packet_frames(packets[end - 1]@)
    }
}

/// Adds the frames of one packet to `frames`.
pub fn push_packet<S: Copy>(frames: &mut Vec<(S, S)>, packet: &Vec<Vec<S>>) -> (result: Result<(), DecodeError>)
    requires
        packet@.len() == 2 ==> packet@[1]@.len() >= packet@[0]@.len(),
    ensures
        result is Ok == (packet@.len() == 1 || packet@.len() == 2),
        result is Ok ==> final(frames)@ == old(frames)@ + packet_frames(packet@),
        result is Err ==> final(frames)@ == old(frames)@ && result
            == Err::<(), DecodeError>(DecodeError::UnsupportedChannelConfiguration),
{
    let channels = packet.len();
    if channels == 1 {
        let samples = packet[0].len();
        let mut i: usize = 0;
        assert(frames@ =~= old(frames)@ + packet_frames(packet@).take(0));
        while i < samples
            invariant
                i <= samples,
                samples == packet@[0]@.len(),
                packet@.len() == 1,
                frames@ == old(frames)@ + packet_frames(packet@).take(i as int),
            decreases samples - i,
        {
            frames.push((packet[0][i], packet[0][i]));
            assert(frames@ =~= old(frames)@ + packet_frames(packet@).take(i + 1));
            i += 1;
        }
        assert(packet_frames(packet@).take(samples as int) =~= packet_frames(packet@));
        Ok(())
    } else if channels == 2 {
        let samples = packet[0].len();
        let mut i: usize = 0;
        assert(frames@ =~= old(frames)@ + packet_frames(packet@).take(0));
        while i < samples
            invariant
                i <= samples,
                samples == packet@[0]@.len(),
                packet@.len() == 2,
                packet@[1]@.len() >= samples,
                frames@ == old(frames)@ + packet_frames(packet@).take(i as int),
            decreases samples - i,
        {
            frames.push((packet[0][i], packet[1][i]));
            assert(frames@ =~= old(frames)@ + packet_frames(packet@).take(i + 1));
            i += 1;
        }
        assert(packet_frames(packet@).take(samples as int) =~= packet_frames(packet@));
        Ok(())
    } else {
        Err(DecodeError::UnsupportedChannelConfiguration)
    }
}

/// Lays a decoded stream out as stereo frames. Fails at the first packet
/// that has neither one channel nor two.
pub fn frames_from_packets<S: Copy>(packets: &Vec<Vec<Vec<S>>>) -> (result: Result<Vec<(S, S)>, DecodeError>)
    requires
        forall|i: int|
            0 <= i < packets@.len() && (#[trigger] packets@[i])@.len() == 2 ==> packets@[i]@[1]@.len()
                >= packets@[i]@[0]@.len(),
    ensures
        result is Ok == all_playable(packets@, packets@.len() as int),
        result matches Ok(frames) ==> frames@ == stream_frames(packets@, packets@.len() as int),
        result matches Err(e) ==> e == DecodeError::UnsupportedChannelConfiguration,
{
    let mut frames: Vec<(S, S)> = Vec::new();
    let mut i: usize = 0;
    while i < packets.len()
        invariant
            i <= packets@.len(),
            forall|k: int|
                0 <= k < packets@.len() && (#[trigger] packets@[k])@.len() == 2 ==> packets@[k]@[1]@.len()
                    >= packets@[k]@[0]@.len(),
            all_playable(packets@, i as int),
            frames@ == stream_frames(packets@, i as int),
        decreases packets@.len() - i,
    {
        match push_packet(&mut frames, &packets[i]) {
            Ok(()) => {},
            Err(e) => {
                assert(!all_playable(packets@, packets@.len() as int));
                return Err(e);
            },
        }
        i += 1;
    }
    Ok(frames)
}

} // verus!
