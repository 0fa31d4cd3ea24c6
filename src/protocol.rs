use vstd::prelude::*;
use crate::firmware::Version;

verus! {

/// Device-type code of this program on the bus.
pub const DEVICE_BASE: u8 = 0x70;

/// Data-type codes of the frames that the session sends or reads.
pub const DATA_REQUEST: u8 = 0x04;
pub const DATA_INFORMATION: u8 = 0x07;
pub const DATA_UPDATE: u8 = 0x08;
pub const DATA_UPDATE_LOCATION: u8 = 0x09;

/// The update mode that a device reports about itself.
#[derive(Clone, Copy, Debug, PartialEq, Eq, Structural)]
pub enum ModeUpdate {
    NoMode,
    Ready,
    Update,
    Complete,
    Failed,
    NotAvailable,
    RunApplication,
    NotRegistered,
    EndOfType,
}

/// What the device reported about itself.
#[derive(Clone, Copy, Debug, PartialEq, Eq, Structural)]
pub struct Information {
    pub mode_update: ModeUpdate,
    /// Model code; zero stands for no model.
    pub model_number: u32,
    pub version: Version,
}

/// A message decoded from the device during one step, if any.
#[derive(Clone, Copy, Debug, PartialEq, Eq, Structural)]
pub enum Reply {
    Nothing,
    /// Device information, with the device type of its sender.
    Information { from: u8, information: Information },
    /// The next block that the device expects.
    UpdateLocation { index_block_next: u16 },
}

/// The device types asked in turn for their information, as a device of
/// any of these roles may be the one attached.
pub open spec fn probe_target(count: nat) -> u8 {
    let k = count % 8;
    if k == 1 {
        0x20
    } else if k == 2 {
        0x30
    } else if k == 3 {
        0x31
    } else if k == 4 {
        0x32
    } else if k == 5 {
        0x33
    } else if k == 6 {
        0xA0
    } else if k == 7 {
        0xA1
    } else {
        0x10
    }
}

/// The device type to ask on the trigger's `count`-th firing: drone,
/// controller, link client and server, BLE client and server, tester,
/// monitor, in that order and round again.
pub fn probe_device_type(count: u128) -> (r: u8)
    ensures
        r == probe_target(count as nat),
{
    let table: [u8; 8] = [0x10, 0x20, 0x30, 0x31, 0x32, 0x33, 0xA0, 0xA1];
    table[(count % 8) as usize]
}

/// The payload of a request for data of type `data_type`.
pub fn request_payload(data_type: u8) -> (r: Vec<u8>)
    ensures
        r@ == seq![data_type],
{
    let mut v: Vec<u8> = Vec::new();
    v.push(data_type);
    v
}

/// The payload of an update frame: the block index, little-endian, then the
/// block bytes.
pub fn update_payload(index_block: u16, data: &Vec<u8>) -> (r: Vec<u8>)
    ensures
        r@ == seq![(index_block % 256) as u8, (index_block / 256) as u8] + data@,
{
    let mut v: Vec<u8> = Vec::new();
    v.push((index_block % 256) as u8);
    v.push((index_block / 256) as u8);
    let mut i: usize = 0;
    while i < data.len()
        invariant
            i <= data@.len(),
            v@ == seq![(index_block % 256) as u8, (index_block / 256) as u8] + data@.subrange(0, i as int),
        decreases data@.len() - i,
    {
        v.push(data[i]);
        i = i + 1;
        assert(v@ =~= seq![(index_block % 256) as u8, (index_block / 256) as u8] + data@.subrange(0, i as int));
    }
    assert(data@.subrange(0, i as int) =~= data@);
    v
}

/// The frame that the codec builds for a payload; it ends in a checksum.
pub uninterp spec fn frame_of(data_type: u8, from: u8, to: u8, payload: Seq<u8>) -> Seq<u8>;

/// Relies on e_drone's `communication::transfer::transfer`: start code
/// 0x0A 0x55, a four-byte header, the payload, then a two-byte CRC-16.
#[verifier::external_body]
fn frame(data_type: u8, from: u8, to: u8, payload: &Vec<u8>) -> (r: Vec<u8>)
    ensures
        r@ == frame_of(data_type, from, to, payload@),
        r@.len() == payload@.len() + 8,
        r@[0] == 0x0A && r@[1] == 0x55,
        r@.subrange(6, 6 + payload@.len() as int) == payload@,
{
    e_drone::communication::transfer::transfer(
        e_drone::protocol::DataType::from_u8(data_type),
        e_drone::system::DeviceType::from_u8(from),
        e_drone::system::DeviceType::from_u8(to),
        payload,
    )
}

/// The frame asking device `target` for data of type `data_type`.
pub fn request_frame(target: u8, data_type: u8) -> (r: Vec<u8>)
    ensures
        r@ == frame_of(DATA_REQUEST, DEVICE_BASE, target, seq![data_type]),
{
    let payload = request_payload(data_type);
    frame(DATA_REQUEST, DEVICE_BASE, target, &payload)
}

/// The frame carrying the blocks `data`, starting at block `index_block`, to
/// device `target`.
pub fn update_frame(target: u8, index_block: u16, data: &Vec<u8>) -> (r: Vec<u8>)
    ensures
        r@ == frame_of(
            DATA_UPDATE,
            DEVICE_BASE,
            target,
            seq![(index_block % 256) as u8, (index_block / 256) as u8] + data@,
        ),
{
    let payload = update_payload(index_block, data);
    frame(DATA_UPDATE, DEVICE_BASE, target, &payload)
}

} // verus!
