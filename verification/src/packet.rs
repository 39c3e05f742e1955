//! The radio packet: an IEEE 802.15.4 frame in the buffer that the radio driver hands to
//! the hardware.
//!
//! The driver keeps a packet as one length header, the room for the payload and the room
//! for the checksum. The header counts the checksum in, although the checksum itself is
//! computed by the hardware and never stored.

use nrf52840_hal::ieee802154::Packet;
use vstd::prelude::*;

verus! {

/// The packet buffer of the radio driver.
#[verifier::external_type_specification]
#[verifier::external_body]
pub struct ExPacket(nrf52840_hal::ieee802154::Packet);

/// The bytes of the buffer of `packet`, in memory order: the header, then the payload and
/// whatever lies behind it.
pub uninterp spec fn packet_frame(packet: Packet) -> Seq<u8>;

/// The most payload bytes that one packet can carry.
pub const CAPACITY: u8 = 125;

/// How many bytes the header counts beyond the payload: those of the checksum.
pub const CRC_LEN: u8 = 2;

/// The size of the buffer: header, largest payload and checksum.
pub const FRAME_LEN: u8 = 128;

/// Whether the header of `packet` announces a payload that fits into the buffer behind it.
///
/// Every packet that software alone has made is sound. One that the radio has written
/// holds the header that came over the air, and could announce up to two bytes more than
/// `CAPACITY`.
pub open spec fn packet_sound(packet: Packet) -> bool {
    &&& packet_frame(packet).len() == FRAME_LEN
    &&& CRC_LEN <= packet_frame(packet)[0]
    &&& 1 + packet_frame(packet)[0] - CRC_LEN <= FRAME_LEN
}

/// The payload of `packet`: as many of the bytes behind the header as it announces.
pub open spec fn packet_payload(packet: Packet) -> Seq<u8> {
    packet_frame(packet).subrange(1, 1 + packet_frame(packet)[0] - CRC_LEN)
}

/// The payload of a sound packet is what stands right behind the header, byte for byte, and the
/// header is two more than its length.
pub proof fn law_payload_follows_the_header(packet: Packet)
    requires
        packet_frame(packet).len() == 128,
        2 <= packet_frame(packet)[0] <= 129,
    ensures
        packet_sound(packet),
        packet_payload(packet).len() + 2 == packet_frame(packet)[0],
        forall|i: int|
            0 <= i < packet_payload(packet).len() ==> #[trigger] packet_payload(packet)[i]
                == packet_frame(packet)[1 + i],
{
}

/// A packet is sound exactly if its header counts the checksum and no more than the 127 bytes that
/// lie behind it.
pub proof fn law_sound_headers(packet: Packet)
    ensures
        packet_sound(packet) <==> packet_frame(packet).len() == 128 && 2 <= packet_frame(packet)[0]
            <= 127 + 2,
{
}

/// Calls `Packet::set_len` of `nrf52840_hal::ieee802154`, which refuses a length over its
/// `CAPACITY` with a panic.
///
/// Claimed of it: it writes the header, which then announces `len` payload bytes, and
/// leaves the rest of the buffer alone.
#[verifier::external_body]
pub(crate) fn set_len(packet: &mut Packet, len: u8)
    requires
        len <= CAPACITY,
    ensures
        packet_frame(*final(packet)).len() == FRAME_LEN,
        packet_frame(*final(packet))[0] == len + CRC_LEN,
        forall|i: int|
            1 <= i < FRAME_LEN ==> #[trigger] packet_frame(*final(packet))[i] == packet_frame(
                *old(packet),
            )[i],
{
    packet.set_len(len)
}

/// Calls `deref` of `nrf52840_hal::ieee802154::Packet`, which panics where the header
/// announces more than the buffer holds, or less than the checksum.
///
/// Claimed of it: the slice is the payload.
#[verifier::external_body]
pub(crate) fn payload(packet: &Packet) -> (bytes: &[u8])
    requires
        packet_sound(*packet),
    ensures
        bytes@ == packet_payload(*packet),
{
    packet
}

/// Calls `deref_mut` of `nrf52840_hal::ieee802154::Packet`, which panics as `deref` does.
///
/// Claimed of it: the slice is the payload, and what is written to it takes the payload's
/// place in the buffer, between the header and the bytes behind the payload.
#[verifier::external_body]
pub(crate) fn payload_mut(packet: &mut Packet) -> (bytes: &mut [u8])
    requires
        packet_sound(*old(packet)),
    ensures
        bytes@ == packet_payload(*old(packet)),
        packet_frame(*final(packet)) == packet_frame(*old(packet)).take(1) + final(bytes)@
            + packet_frame(*old(packet)).skip((1 + bytes@.len()) as int),
{
    packet
}

/// Makes the bytes of `head` followed by those of `tail` the payload of `packet`, and leaves
/// the bytes behind the payload alone.
pub(crate) fn fill(packet: &mut Packet, head: &[u8], tail: &[u8])
    requires
        head@.len() + tail@.len() <= CAPACITY,
    ensures
        packet_sound(*final(packet)),
        packet_payload(*final(packet)) == head@ + tail@,
        forall|i: int|
            1 + head@.len() + tail@.len() <= i < FRAME_LEN ==> #[trigger] packet_frame(
                *final(packet),
            )[i] == packet_frame(*old(packet))[i],
{
    set_len(packet, head.len() as u8 + tail.len() as u8);
    let dest = payload_mut(packet);
    let ghost len = dest@.len();
    let mut i: usize = 0;
    while i < dest.len()
        invariant
            i <= len,
            dest@.len() == len,
            len == head@.len() + tail@.len(),
            forall|j: int| 0 <= j < i ==> dest@[j] == (head@ + tail@)[j],
        decreases len - i,
    {
        dest[i] = if i < head.len() {
            head[i]
        } else {
            tail[i - head.len()]
        };
        i = i + 1;
    }
    assert(dest@ =~= head@ + tail@);
    assert(packet_payload(*packet) =~= head@ + tail@);
}

} // verus!
