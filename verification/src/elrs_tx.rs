//! The radio link: the packet that puts the transmitter module into the
//! expected mode, and the frame that carries the control axes to it.

use vstd::prelude::*;
use vstd::arithmetic::power2::pow2;
use crate::mixer::MixerOutMsg;

verus! {

/// Least channel value of the link.
pub const CHANNEL_VALUE_MIN: u16 = 172;

/// Greatest channel value of the link.
pub const CHANNEL_VALUE_MAX: u16 = 1811;

/// The channel value in the middle of the range: the neutral value of the
/// link, sent on every channel that carries no control axis.
pub const CHANNEL_VALUE_MID: u16 = 992;

/// Number of channels that one frame carries.
pub const FRAME_CHANNELS: usize = 16;

/// Number of bits that one channel takes in a frame.
pub const CHANNEL_BITS: usize = 11;

/// Length of a channels frame in bytes: address, length, type, the packed
/// channels and the checksum.
pub const FRAME_LENGTH: usize = 26;

/// The address of the transmitter module.
pub const ADDRESS_TRANSMITTER: u8 = 0xEE;

/// The packet type of a write to the module's settings.
pub const TYPE_SETTINGS_WRITE: u8 = 0x2D;

/// The packet type of a channels frame.
pub const TYPE_RC_CHANNELS: u8 = 0x16;

/// The CRC-8 of `bytes` with the polynomial of DVB-S2, as the `crc` crate
/// computes it.
pub uninterp spec fn crc8_dvb_s2(bytes: Seq<u8>) -> u8;

/// Computes the CRC-8 of `bytes` by `crc::Crc::<u8>::checksum`, with the
/// algorithm `crc::CRC_8_DVB_S2`. The checksum is a function of the bytes
/// alone; the contract gives it its name and claims nothing else of it.
#[verifier::external_body]
fn crc8_checksum(bytes: &[u8]) -> (r: u8)
    ensures
        r == crc8_dvb_s2(bytes@),
{
    let crc8_alg = crc::Crc::<u8>::new(&crc::CRC_8_DVB_S2);
    crc8_alg.checksum(bytes)
}

/// Reads `crsf::RcChannels::CHANNEL_VALUE_MIN`, which that crate sets to 172.
#[verifier::external_body]
fn channel_value_min() -> (r: u16)
    ensures
        r == CHANNEL_VALUE_MIN,
{
    crsf::RcChannels::CHANNEL_VALUE_MIN
}

/// Reads `crsf::RcChannels::CHANNEL_VALUE_MAX`, which that crate sets to 1811.
#[verifier::external_body]
fn channel_value_max() -> (r: u16)
    ensures
        r == CHANNEL_VALUE_MAX,
{
    crsf::RcChannels::CHANNEL_VALUE_MAX
}

/// Reads `crsf::RcChannels::CHANNEL_VALUE_MID`, which that crate sets to 992.
#[verifier::external_body]
fn channel_value_mid() -> (r: u16)
    ensures
        r == CHANNEL_VALUE_MID,
{
    crsf::RcChannels::CHANNEL_VALUE_MID
}

/// The part of the link-initialization packet that its checksum covers: the
/// type, the addresses of the module and of the radio transmitter, and the
/// setting with its value.
pub open spec fn magic_body() -> Seq<u8> {
    seq![TYPE_SETTINGS_WRITE, ADDRESS_TRANSMITTER, 0xEAu8, 0x01u8, 0x00u8]
}

/// The link-initialization packet that ends in `checksum`.
pub open spec fn magic_packet(checksum: u8) -> Seq<u8> {
    seq![ADDRESS_TRANSMITTER, 6u8] + magic_body() + seq![checksum]
}

/// Puts the address and the length before `body`, and `checksum` behind it.
pub fn seal_magic_packet(body: &[u8; 5], checksum: u8) -> (r: [u8; 8])
    ensures
        r@ == seq![ADDRESS_TRANSMITTER, 6u8] + body@ + seq![checksum],
{
    let r: [u8; 8] = [
        ADDRESS_TRANSMITTER,
        6,
        body[0],
        body[1],
        body[2],
        body[3],
        body[4],
        checksum,
    ];
    r
}

/// The packet that puts the transmitter module into the expected mode.
pub fn gen_magic_packet() -> (r: [u8; 8])
    ensures
        r@ == magic_packet(crc8_dvb_s2(magic_body())),
{
    let body: [u8; 5] = [TYPE_SETTINGS_WRITE, ADDRESS_TRANSMITTER, 0xEA, 0x01, 0x00];
    let checksum: u8 = crc8_checksum(body.as_slice());
    seal_magic_packet(&body, checksum)
}

/// The channel value that stands for the normalized position `val`.
pub open spec fn wire_value(val: int) -> int {
    val * (CHANNEL_VALUE_MAX - CHANNEL_VALUE_MIN) / 10000 + CHANNEL_VALUE_MIN
}

/// Maps a normalized position onto the channel range of the link.
pub fn mxier_out_2_crsf(val: u16) -> (r: u16)
    ensures
        r == wire_value(val as int),
        val <= 10000 ==> CHANNEL_VALUE_MIN <= r <= CHANNEL_VALUE_MAX,
{
    let lo: u16 = channel_value_min();
    let hi: u16 = channel_value_max();
    let span: u32 = (hi - lo) as u32;
    (val as u32 * span / 10000 + lo as u32) as u16
}

/// The channels of a frame for the positions `msg`: aileron, elevator,
/// thrust and direction on the first four, the neutral value
/// `CHANNEL_VALUE_MID` on the others.
pub open spec fn wire_channels(msg: MixerOutMsg) -> Seq<u16> {
    seq![
        wire_value(msg.aileron as int) as u16,
        wire_value(msg.elevator as int) as u16,
        wire_value(msg.thrust as int) as u16,
        wire_value(msg.direction as int) as u16,
        CHANNEL_VALUE_MID,
        CHANNEL_VALUE_MID,
        CHANNEL_VALUE_MID,
        CHANNEL_VALUE_MID,
        CHANNEL_VALUE_MID,
        CHANNEL_VALUE_MID,
        CHANNEL_VALUE_MID,
        CHANNEL_VALUE_MID,
        CHANNEL_VALUE_MID,
        CHANNEL_VALUE_MID,
        CHANNEL_VALUE_MID,
        CHANNEL_VALUE_MID,
    ]
}

/// Where no position lies above the scale, every channel of the frame lies
/// in the range of the link.
pub proof fn lemma_wire_channels_in_range(msg: MixerOutMsg)
    requires
        msg.in_range(),
    ensures
        wire_channels(msg).len() == FRAME_CHANNELS,
        forall|i: int|
            0 <= i < FRAME_CHANNELS ==> CHANNEL_VALUE_MIN <= #[trigger] wire_channels(msg)[i]
                <= CHANNEL_VALUE_MAX,
{
}

/// Computes the channels of a frame for the positions `msg`. Where no
/// position lies above the scale, every channel lies in the range of the
/// link.
pub fn crsf_channels(msg: &MixerOutMsg) -> (r: [u16; 16])
    ensures
        r@ == wire_channels(*msg),
        msg.in_range() ==> forall|i: int|
            0 <= i < FRAME_CHANNELS ==> CHANNEL_VALUE_MIN <= #[trigger] r@[i] <= CHANNEL_VALUE_MAX,
{
    let mid: u16 = channel_value_mid();
    let r: [u16; 16] = [
        mxier_out_2_crsf(msg.aileron),
        mxier_out_2_crsf(msg.elevator),
        mxier_out_2_crsf(msg.thrust),
        mxier_out_2_crsf(msg.direction),
        mid,
        mid,
        mid,
        mid,
        mid,
        mid,
        mid,
        mid,
        mid,
        mid,
        mid,
        mid,
    ];
    r
}

/// Whether bit number `n` of `v` is set, counted from the lowest.
pub open spec fn bit_of(v: int, n: int) -> bool {
    (v / pow2(n as nat) as int) % 2 == 1
}

/// `frame` is the channels frame for `channels`: the address of the
/// transmitter module, the count of the bytes that follow, the type, the
/// lowest eleven bits of each channel packed in ascending order from the
/// lowest bit of the first payload byte, and the checksum of type and
/// payload.
pub open spec fn is_rc_channels_frame(frame: Seq<u8>, channels: Seq<u16>) -> bool {
    &&& frame.len() == FRAME_LENGTH
    &&& frame[0] == ADDRESS_TRANSMITTER
    &&& frame[1] == FRAME_LENGTH - 2
    &&& frame[2] == TYPE_RC_CHANNELS
    &&& forall|k: int|
        0 <= k < FRAME_CHANNELS * CHANNEL_BITS ==> bit_of(#[trigger] frame[3 + k / 8] as int, k % 8)
            == bit_of(channels[k / (CHANNEL_BITS as int)] as int, k % (CHANNEL_BITS as int))
    &&& frame[FRAME_LENGTH - 1] == crc8_dvb_s2(frame.subrange(2, FRAME_LENGTH - 1))
}

/// Builds the channels frame by `crsf::Packet::into_raw` on a
/// `crsf::Packet::RcChannels`, addressed to `crsf::PacketAddress::Transmitter`,
/// and copies out the bytes that `crsf::RawPacket::data` gives. The contract
/// states the layout that the crate writes on a little-endian machine:
/// header, packed channels, and as last byte the checksum that it computes
/// over type and payload with `crc::CRC_8_DVB_S2`.
#[verifier::external_body]
fn new_rc_channel_packet(channel_vals: &[u16; 16]) -> (r: Vec<u8>)
    ensures
        is_rc_channels_frame(r@, channel_vals@),
{
    let chn = crsf::RcChannels(*channel_vals);
    let packet = crsf::Packet::RcChannels(chn);
    packet.into_raw(crsf::PacketAddress::Transmitter).data().to_vec()
}

/// The bytes to send for the positions `msg`.
pub fn rc_channels_frame(msg: &MixerOutMsg) -> (r: Vec<u8>)
    ensures
        is_rc_channels_frame(r@, wire_channels(*msg)),
{
    let channels: [u16; 16] = crsf_channels(msg);
    new_rc_channel_packet(&channels)
}

/// How often the link-initialization packet is sent before the first frame.
pub const MAGIC_REPEATS: u32 = 10;

/// The pause after each write, in milliseconds.
pub const TICK_MILLIS: u64 = 10;

/// What the sender does at one tick. After either, it pauses for
/// `TICK_MILLIS`.
#[derive(Clone, Copy, Debug, PartialEq, Eq)]
pub enum TxAction {
    /// Write the link-initialization packet.
    SendMagic([u8; 8]),
    /// Wait for the newest positions and write their frame.
    SendChannels,
}

/// The sender's progress: how many link-initialization packets have gone
/// out. It holds no positions and no frames.
#[derive(Clone, Copy, Debug, PartialEq, Eq, Structural)]
pub struct Transmitter {
    pub magic_sent: u32,
}

impl Transmitter {
    /// A sender that has written nothing yet.
    pub fn new() -> (r: Self)
        ensures
            r.magic_sent == 0,
    {
        Transmitter { magic_sent: 0 }
    }

    /// Whether the link is initialized, so that frames go out.
    pub open spec fn streaming(self) -> bool {
        self.magic_sent >= MAGIC_REPEATS
    }

    /// Tells what to write at this tick and counts it. Until the
    /// link-initialization packet has gone out `MAGIC_REPEATS` times, that
    /// packet is due; from then on a frame is due at every tick, without end.
    pub fn step(&mut self) -> (r: TxAction)
        ensures
            !old(self).streaming() ==> {
                &&& r matches TxAction::SendMagic(packet)
                &&& packet@ == magic_packet(crc8_dvb_s2(magic_body()))
                &&& final(self).magic_sent == old(self).magic_sent + 1
            },
            old(self).streaming() ==> r is SendChannels && *final(self) == *old(self),
    {
        if self.magic_sent < MAGIC_REPEATS {
            self.magic_sent = self.magic_sent + 1;
            TxAction::SendMagic(gen_magic_packet())
        } else {
            TxAction::SendChannels
        }
    }
}

} // verus!
