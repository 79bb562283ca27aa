use vstd::prelude::*;
use crate::internals::mmu::l2::BASE_ADDRESS;

verus! {

/// Bytes in the page pool: one 4 KiB frame per second-level entry.
pub const POOL_BYTES: usize = 0x10_0000;

/// The contents of the page pool, byte by byte from `BASE_ADDRESS`.
pub struct FrameMemory {
    bytes: Vec<u8>,
}

impl View for FrameMemory {
    type V = Seq<u8>;

    /// The bytes of the pool, from its first address on.
    closed spec fn view(&self) -> Seq<u8> {
        self.bytes@
    }
}

/// Where the byte at `physical_address` lies in the pool.
pub open spec fn pool_offset(physical_address: u32) -> int {
    physical_address - BASE_ADDRESS
}

/// `after` is `before` with `data` written from `offset` on.
pub open spec fn written(before: Seq<u8>, after: Seq<u8>, offset: int, data: Seq<u8>) -> bool {
    &&& after.len() == before.len()
    &&& after.subrange(offset, offset + data.len()) == data
    &&& forall|k: int|
        0 <= k < before.len() && !(offset <= k < offset + data.len()) ==> #[trigger] after[k] == before[k]
}

impl FrameMemory {
    /// Whether the contents cover the whole pool.
    pub open spec fn wf(&self) -> bool {
        self@.len() == POOL_BYTES
    }

    /// A pool of zeroed frames.
    pub fn new() -> (m: Self)
        ensures
            m.wf(),
            m@ == Seq::new(POOL_BYTES as nat, |i: int| 0u8),
    {
        let mut bytes: Vec<u8> = Vec::new();
        let mut i: usize = 0;
        while i < POOL_BYTES
            invariant
                i <= POOL_BYTES,
                bytes@ == Seq::new(i as nat, |k: int| 0u8),
            decreases POOL_BYTES - i,
        {
            bytes.push(0);
            i = i + 1;
        }
        FrameMemory { bytes }
    }

    /// The byte at `physical_address`.
    pub fn read(&self, physical_address: u32) -> (b: u8)
        requires
            self.wf(),
            BASE_ADDRESS <= physical_address,
            pool_offset(physical_address) < POOL_BYTES,
        ensures
            b == self@[pool_offset(physical_address)],
    {
        self.bytes[(physical_address - BASE_ADDRESS) as usize]
    }

    /// Writes `data` from `physical_address` on.
    pub fn write(&mut self, physical_address: u32, data: &[u8])
        requires
            old(self).wf(),
            BASE_ADDRESS <= physical_address,
            pool_offset(physical_address) + data@.len() <= POOL_BYTES,
        ensures
            final(self).wf(),
            written(old(self)@, final(self)@, pool_offset(physical_address), data@),
    {
        let offset = (physical_address - BASE_ADDRESS) as usize;
        let mut i: usize = 0;
        while i < data.len()
            invariant
                i <= data@.len(),
                offset + data@.len() <= POOL_BYTES,
                offset == pool_offset(physical_address),
                self.bytes@.len() == POOL_BYTES,
                forall|k: int| 0 <= k < i ==> #[trigger] self.bytes@[offset + k] == data@[k],
                forall|k: int|
                    0 <= k < POOL_BYTES && !(offset <= k < offset + i) ==> #[trigger] self.bytes@[k] == old(self)@[k],
            decreases data@.len() - i,
        {
            self.bytes.set(offset + i, data[i]);
            i = i + 1;
        }
        assert forall|k: int| 0 <= k < data@.len() implies #[trigger] self@.subrange(
            offset as int,
            offset + data@.len(),
        )[k] == data@[k] by {
            assert(self.bytes@[offset + k] == data@[k]);
        }
        assert(self@.subrange(offset as int, offset + data@.len()) =~= data@);
    }
}

} // verus!
