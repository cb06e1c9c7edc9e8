//! Wire chunks: the unit a work request is fragmented into, and the builder
//! that stamps connection-level and request-level parameters onto each chunk.

use vstd::prelude::*;

verus! {

/// (Max) size of a single WR chunk, in bytes.
pub const WR_CHUNK_SIZE: u32 = 0x1000;

/// A PMTU is usable by the fragmenter when it is positive and divides the
/// maximum chunk size; the path MTUs a reliable connection can carry
/// (256 through 4096, powers of two) all satisfy this.
pub open spec fn pmtu_valid(pmtu: u16) -> bool {
    0 < pmtu && WR_CHUNK_SIZE as int % pmtu as int == 0
}

/// Every valid PMTU is at most the maximum chunk size.
pub proof fn lemma_pmtu_bound(pmtu: u16)
    requires
        pmtu_valid(pmtu),
    ensures
        pmtu <= WR_CHUNK_SIZE,
{
    if pmtu > WR_CHUNK_SIZE {
        vstd::arithmetic::div_mod::lemma_small_mod(WR_CHUNK_SIZE as nat, pmtu as nat);
    }
}

/// Position of a wire chunk within its parent work request's
/// fragmentation sequence.
#[derive(Clone, Copy, Debug, PartialEq, Eq, Structural)]
pub enum ChunkPos {
    First,
    Middle,
    Last,
    Only,
}

impl ChunkPos {
    /// Position the next emitted chunk would carry once a chunk with this
    /// position has been emitted.
    pub open spec fn next_spec(self) -> ChunkPos {
        match self {
            ChunkPos::First => ChunkPos::Middle,
            ChunkPos::Middle => ChunkPos::Middle,
            ChunkPos::Last => ChunkPos::Last,
            ChunkPos::Only => ChunkPos::Only,
        }
    }

    /// Advances the position: `First` becomes `Middle`; the others are fixed.
    pub fn next(self) -> (r: ChunkPos)
        ensures
            r == self.next_spec(),
    {
        match self {
            ChunkPos::First => ChunkPos::Middle,
            ChunkPos::Middle => ChunkPos::Middle,
            ChunkPos::Last => ChunkPos::Last,
            ChunkPos::Only => ChunkPos::Only,
        }
    }
}

/// One wire-sized unit of a fragmented work request.
#[derive(Clone, Copy, Debug, PartialEq, Eq, Structural)]
pub struct WrChunk {
    /// Packet sequence number of the chunk's first packet (24-bit).
    pub psn: u32,
    /// Local address the chunk's payload starts at.
    pub laddr: u64,
    /// Remote address the chunk's payload is written to.
    pub raddr: u64,
    /// Payload length in bytes, at most `WR_CHUNK_SIZE`.
    pub len: u32,
    /// Position within the parent work request's fragmentation sequence.
    pub pos: ChunkPos,
    /// Send-flag byte of the parent work request.
    pub flags: u8,
    /// Remote key of the parent work request.
    pub rkey: u32,
    /// Total length of the parent work request.
    pub total_len: u32,
    /// Local key of the parent work request.
    pub lkey: u32,
    /// Immediate data of the parent work request.
    pub imm: u32,
    /// Set only when the chunk is re-emitted by the retransmit worker.
    pub is_retry: bool,
}

impl WrChunk {
    /// Marks the chunk as a retransmission.
    pub fn set_is_retry(&mut self)
        ensures
            *final(self) == (WrChunk { is_retry: true, ..*old(self) }),
    {
        self.is_retry = true;
    }
}

/// Builder for `WrChunk` values: created with the connection-level
/// parameters, then loaded with the request-level parameters, then stamped
/// with per-chunk metadata.
#[derive(Clone, Copy, Debug, PartialEq, Eq, Structural)]
pub struct WrChunkBuilder {
    /// Path MTU of the connection, in bytes.
    pub pmtu: u16,
    /// Send-flag byte of the work request.
    pub flags: u8,
    /// Remote key of the work request.
    pub rkey: u32,
    /// Total length of the work request.
    pub total_len: u32,
    /// Local key of the work request.
    pub lkey: u32,
    /// Immediate data of the work request.
    pub imm: u32,
    /// PSN of the chunk being built.
    pub psn: u32,
    /// Local address of the chunk being built.
    pub laddr: u64,
    /// Remote address of the chunk being built.
    pub raddr: u64,
    /// Length of the chunk being built.
    pub len: u32,
    /// Position of the chunk being built.
    pub pos: ChunkPos,
}

impl WrChunkBuilder {
    /// The chunk the builder's current fields describe.
    pub open spec fn chunk_spec(self) -> WrChunk {
        WrChunk {
            psn: self.psn,
            laddr: self.laddr,
            raddr: self.raddr,
            len: self.len,
            pos: self.pos,
            flags: self.flags,
            rkey: self.rkey,
            total_len: self.total_len,
            lkey: self.lkey,
            imm: self.imm,
            is_retry: false,
        }
    }

    /// Creates a builder carrying the connection-level parameters.
    pub fn new(pmtu: u16) -> (r: Self)
        requires
            pmtu_valid(pmtu),
        ensures
            r == (WrChunkBuilder {
                pmtu,
                flags: 0,
                rkey: 0,
                total_len: 0,
                lkey: 0,
                imm: 0,
                psn: 0,
                laddr: 0,
                raddr: 0,
                len: 0,
                pos: ChunkPos::First,
            }),
    {
        WrChunkBuilder {
            pmtu,
            flags: 0,
            rkey: 0,
            total_len: 0,
            lkey: 0,
            imm: 0,
            psn: 0,
            laddr: 0,
            raddr: 0,
            len: 0,
            pos: ChunkPos::First,
        }
    }

    /// Loads the request-level parameters of one work request.
    pub fn set_ibv_params(self, flags: u8, rkey: u32, total_len: u32, lkey: u32, imm: u32) -> (r:
        Self)
        ensures
            r == (WrChunkBuilder { flags, rkey, total_len, lkey, imm, ..self }),
    {
        WrChunkBuilder { flags, rkey, total_len, lkey, imm, ..self }
    }

    /// Stamps the metadata of one chunk.
    pub fn set_chunk_meta(self, psn: u32, laddr: u64, raddr: u64, len: u32, pos: ChunkPos) -> (r:
        Self)
        ensures
            r == (WrChunkBuilder { psn, laddr, raddr, len, pos, ..self }),
    {
        WrChunkBuilder { psn, laddr, raddr, len, pos, ..self }
    }

    /// Produces the chunk described by the builder's fields.
    pub fn build(self) -> (r: WrChunk)
        ensures
            r == self.chunk_spec(),
    {
        WrChunk {
            psn: self.psn,
            laddr: self.laddr,
            raddr: self.raddr,
            len: self.len,
            pos: self.pos,
            flags: self.flags,
            rkey: self.rkey,
            total_len: self.total_len,
            lkey: self.lkey,
            imm: self.imm,
            is_retry: false,
        }
    }

    /// Path MTU the builder was created with.
    pub fn pmtu(&self) -> (r: u16)
        ensures
            r == self.pmtu,
    {
        self.pmtu
    }
}

} // verus!
