use vstd::prelude::*;

verus! {

/// Bytes in one block of a firmware payload.
pub const BLOCK_SIZE: usize = 16;

/// A firmware version triple.
#[derive(Clone, Copy, Debug, PartialEq, Eq, Structural)]
pub struct Version {
    pub major: u8,
    pub minor: u8,
    pub build: u16,
}

/// A loaded firmware image: the model it targets, its version, and the bytes
/// of the container (header included) that are sent block by block.
pub struct FirmwareImage {
    pub model_number: u32,
    pub version: Version,
    pub data: Vec<u8>,
}

/// The bytes that a read of `count` blocks from block `index` covers, as a
/// half-open range; `None` when the first block starts past the payload.
pub open spec fn block_range(len: nat, index: nat, count: nat) -> Option<(nat, nat)> {
    if 16 * index < len {
        let end = 16 * index + 16 * count;
        Some((16 * index, if end < len { end } else { len }))
    } else {
        None
    }
}

impl FirmwareImage {
    pub fn new(model_number: u32, version: Version, data: Vec<u8>) -> (r: FirmwareImage)
        ensures
            r.model_number == model_number,
            r.version == version,
            r.data@ == data@,
    {
        FirmwareImage { model_number, version, data }
    }

    /// Whether this image is built for the device model `model_number`.
    pub fn matches(&self, model_number: u32) -> (r: bool)
        ensures
            r == (self.model_number == model_number),
    {
        self.model_number == model_number
    }

    /// Number of whole blocks in the image, modulo 2^16.
    pub open spec fn block_count_spec(&self) -> u16 {
        ((self.data@.len() / 16) % 0x10000) as u16
    }

    /// Number of whole blocks in the image, kept to 16 bits as the device's
    /// block cursor is.
    pub fn block_count(&self) -> (r: u16)
        ensures
            r == self.block_count_spec(),
    {
        ((self.data.len() / BLOCK_SIZE) % 0x10000) as u16
    }

    /// Reads `count_block` blocks starting at block `index_block`; the run is
    /// cut at the end of the payload, and `None` when it would start past it.
    pub fn get_data_block(&self, index_block: u16, count_block: u16) -> (r: Option<Vec<u8>>)
        ensures
            match block_range(self.data@.len(), index_block as nat, count_block as nat) {
                Some((start, end)) => r is Some && r->0@ == self.data@.subrange(start as int, end as int),
                None => r is None,
            },
    {
        let start: usize = (index_block as usize) * BLOCK_SIZE;
        if start < self.data.len() {
            let wanted: usize = start + (count_block as usize) * BLOCK_SIZE;
            let end: usize = if wanted < self.data.len() { wanted } else { self.data.len() };
            let mut out: Vec<u8> = Vec::new();
            let mut i: usize = start;
            while i < end
                invariant
                    start <= i <= end <= self.data@.len(),
                    out@ == self.data@.subrange(start as int, i as int),
                decreases end - i,
            {
                out.push(self.data[i]);
                i = i + 1;
                assert(out@ =~= self.data@.subrange(start as int, i as int));
            }
            Some(out)
        } else {
            None
        }
    }
}

/// The first image built for `model_number`, if any is.
pub fn find_matched_firmware_file(files: &Vec<FirmwareImage>, model_number: u32) -> (r: Option<usize>)
    ensures
        match r {
            Some(i) => i < files@.len() && files@[i as int].model_number == model_number
                && forall|j: int| 0 <= j < i ==> files@[j].model_number != model_number,
            None => forall|j: int| 0 <= j < files@.len() ==> files@[j].model_number != model_number,
        },
{
    let mut i: usize = 0;
    while i < files.len()
        invariant
            i <= files@.len(),
            forall|j: int| 0 <= j < i ==> files@[j].model_number != model_number,
        decreases files@.len() - i,
    {
        if files[i].matches(model_number) {
            return Some(i);
        }
        i = i + 1;
    }
    None
}

} // verus!
