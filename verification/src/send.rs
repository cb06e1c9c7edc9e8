//! Work-request validation and fragmentation: `SendWrResolver` checks and
//! exposes the fields of a submitted work request, and `WrFragmenter` splits
//! a validated request into PMTU-aligned wire chunks tagged with wrapping
//! packet sequence numbers.

use vstd::prelude::*;

use crate::chunk::pmtu_valid;
use crate::chunk::ChunkPos;
use crate::chunk::WrChunk;
use crate::chunk::WrChunkBuilder;
use crate::chunk::WR_CHUNK_SIZE;
use crate::psn::psn_wrapping_add;
use crate::psn::PSN_SPACE;

verus! {

/// Opcode of an RDMA Write work request.
pub const WR_OPCODE_RDMA_WRITE: u32 = 0;

/// Opcode of an RDMA Write-with-Immediate work request.
pub const WR_OPCODE_RDMA_WRITE_WITH_IMM: u32 = 1;

/// Error type for invalid input validation
#[derive(Debug)]
pub enum ValidationError {
    /// The user input is invalid
    InvalidInput(String),
    /// The operation is unimplemented
    Unimplemented(String),
}

impl ValidationError {
    /// `ValidationError::InvalidInput` error
    pub fn invalid_input(value: String) -> (r: Self)
        ensures
            r == ValidationError::InvalidInput(value),
    {
        ValidationError::InvalidInput(value)
    }

    /// `ValidationError::Unimplemented` error
    pub fn unimplemented(value: String) -> (r: Self)
        ensures
            r == ValidationError::Unimplemented(value),
    {
        ValidationError::Unimplemented(value)
    }
}

/// Plain view of a submitted work request: the fields the send path reads,
/// filled in at the trust boundary from the caller's verbs structure.
#[derive(Clone, Copy, Debug, PartialEq, Eq, Structural)]
pub struct SendWr {
    /// Caller-chosen identifier, returned unchanged in completions.
    pub wr_id: u64,
    /// Work-request opcode, in the verbs encoding.
    pub opcode: u32,
    /// Send-flag bitmask.
    pub send_flags: u32,
    /// Number of scatter/gather elements the caller supplied.
    pub num_sge: i32,
    /// Local address of the (single) scatter/gather element.
    pub sge_addr: u64,
    /// Length in bytes of the scatter/gather element.
    pub sge_length: u32,
    /// Local key of the scatter/gather element.
    pub sge_lkey: u32,
    /// Remote memory address for RDMA operations.
    pub raddr: u64,
    /// Remote key for RDMA operations.
    pub rkey: u32,
    /// Immediate data value.
    pub imm: u32,
}

/// A resolver and validator for submitted work requests.
#[derive(Clone, Copy)]
pub struct SendWrResolver {
    wr: SendWr,
}

impl SendWrResolver {
    /// The request the resolver was validated from.
    pub closed spec fn wr_spec(self) -> SendWr {
        self.wr
    }

    /// A request is supported when its opcode is Write or
    /// Write-with-Immediate and it carries exactly one scatter/gather
    /// element.
    pub open spec fn valid_wr(wr: SendWr) -> bool {
        &&& (wr.opcode == WR_OPCODE_RDMA_WRITE || wr.opcode == WR_OPCODE_RDMA_WRITE_WITH_IMM)
        &&& wr.num_sge == 1
    }

    /// Creates a new resolver from the given work request.
    pub fn new(wr: SendWr) -> (r: Result<Self, ValidationError>)
        ensures
            r is Ok <==> Self::valid_wr(wr),
            r matches Ok(v) ==> v.wr_spec() == wr,
            !(wr.opcode == WR_OPCODE_RDMA_WRITE || wr.opcode == WR_OPCODE_RDMA_WRITE_WITH_IMM)
                ==> (r matches Err(e) && e is Unimplemented),
            (wr.opcode == WR_OPCODE_RDMA_WRITE || wr.opcode == WR_OPCODE_RDMA_WRITE_WITH_IMM)
                && wr.num_sge < 0 ==> (r matches Err(e) && e is InvalidInput),
            (wr.opcode == WR_OPCODE_RDMA_WRITE || wr.opcode == WR_OPCODE_RDMA_WRITE_WITH_IMM)
                && wr.num_sge >= 0 && wr.num_sge != 1 ==> (r matches Err(e) && e is Unimplemented),
    {
        if !(wr.opcode == WR_OPCODE_RDMA_WRITE || wr.opcode == WR_OPCODE_RDMA_WRITE_WITH_IMM) {
            return Err(ValidationError::unimplemented(String::from_str("opcode not supported")));
        }
        if wr.num_sge < 0 {
            return Err(ValidationError::invalid_input(
                String::from_str("scatter/gather count out of range"),
            ));
        }
        if wr.num_sge != 1 {
            return Err(ValidationError::unimplemented(String::from_str("only support single sge")));
        }
        Ok(Self { wr })
    }

    /// Returns the local address of the SGE buffer.
    pub fn laddr(&self) -> (r: u64)
        ensures
            r == self.wr_spec().sge_addr,
    {
        self.wr.sge_addr
    }

    /// Returns the length of the SGE buffer in bytes.
    pub fn length(&self) -> (r: u32)
        ensures
            r == self.wr_spec().sge_length,
    {
        self.wr.sge_length
    }

    /// Returns the local key associated with the SGE buffer.
    pub fn lkey(&self) -> (r: u32)
        ensures
            r == self.wr_spec().sge_lkey,
    {
        self.wr.sge_lkey
    }

    /// Returns the remote memory address for RDMA operations.
    pub fn raddr(&self) -> (r: u64)
        ensures
            r == self.wr_spec().raddr,
    {
        self.wr.raddr
    }

    /// Returns the remote key for RDMA operations.
    pub fn rkey(&self) -> (r: u32)
        ensures
            r == self.wr_spec().rkey,
    {
        self.wr.rkey
    }

    /// Returns the immediate data value.
    pub fn imm(&self) -> (r: u32)
        ensures
            r == self.wr_spec().imm,
    {
        self.wr.imm
    }

    /// Returns the send flags.
    pub fn send_flags(&self) -> (r: u32)
        ensures
            r == self.wr_spec().send_flags,
    {
        self.wr.send_flags
    }

    /// Returns the ID associated with this WR.
    pub fn wr_id(&self) -> (r: u64)
        ensures
            r == self.wr_spec().wr_id,
    {
        self.wr.wr_id
    }
}

/// Length of the PMTU-aligned span from `laddr` to the chunk boundary:
/// advancing by the maximum chunk size and rounding down to the PMTU
/// boundary leaves this many bytes.
pub open spec fn tentative_len_spec(laddr: u64, pmtu: u16) -> int {
    WR_CHUNK_SIZE - laddr as int % pmtu as int
}

/// Length of the next chunk: the aligned span, clamped to the remaining
/// length of the work request.
pub open spec fn chunk_len_spec(laddr: u64, rem: u32, pmtu: u16) -> int {
    if rem <= tentative_len_spec(laddr, pmtu) {
        rem as int
    } else {
        tentative_len_spec(laddr, pmtu)
    }
}

/// Number of wire packets a chunk of `len` bytes occupies on a path whose
/// MTU is `pmtu`: the length divided by the PMTU, rounded up.
pub open spec fn packets_of(len: int, pmtu: u16) -> int {
    (len + pmtu - 1) / (pmtu as int)
}

/// Position carried by a chunk, from whether it is the first and/or the
/// final chunk of its work request.
pub open spec fn chunk_pos_spec(first: bool, last: bool) -> ChunkPos {
    if first && last {
        ChunkPos::Only
    } else if last {
        ChunkPos::Last
    } else if first {
        ChunkPos::First
    } else {
        ChunkPos::Middle
    }
}

/// The chunk emitted for the given builder and per-chunk metadata.
pub open spec fn frag_chunk(
    b: WrChunkBuilder,
    psn: u32,
    laddr: u64,
    raddr: u64,
    len: int,
    pos: ChunkPos,
) -> WrChunk {
    WrChunk {
        psn,
        laddr,
        raddr,
        len: len as u32,
        pos,
        flags: b.flags,
        rkey: b.rkey,
        total_len: b.total_len,
        lkey: b.lkey,
        imm: b.imm,
        is_retry: false,
    }
}

/// The full sequence of chunks fragmentation produces from the given state:
/// `rem` bytes starting at `laddr`/`raddr`, first chunk numbered `psn`,
/// `first` telling whether no chunk has been emitted yet.
pub open spec fn frag_chunks(
    b: WrChunkBuilder,
    psn: u32,
    laddr: u64,
    raddr: u64,
    rem: u32,
    first: bool,
) -> Seq<WrChunk>
    decreases rem,
    when rem == 0 || pmtu_valid(b.pmtu)
    via frag_chunks_decreases
{
    if rem == 0 || !pmtu_valid(b.pmtu) {
        Seq::empty()
    } else {
        let len = chunk_len_spec(laddr, rem, b.pmtu);
        let last = rem <= tentative_len_spec(laddr, b.pmtu);
        seq![frag_chunk(b, psn, laddr, raddr, len, chunk_pos_spec(first, last))] + frag_chunks(
            b,
            ((psn + packets_of(len, b.pmtu)) % (PSN_SPACE as int)) as u32,
            (laddr + len) as u64,
            (raddr + len) as u64,
            (rem - len) as u32,
            false,
        )
    }
}

#[via_fn]
proof fn frag_chunks_decreases(
    b: WrChunkBuilder,
    psn: u32,
    laddr: u64,
    raddr: u64,
    rem: u32,
    first: bool,
) {
    if rem != 0 && pmtu_valid(b.pmtu) {
        crate::chunk::lemma_pmtu_bound(b.pmtu);
        assert((laddr as int % b.pmtu as int) < (b.pmtu as int));
        assert(chunk_len_spec(laddr, rem, b.pmtu) >= 1);
    }
}

/// Sum of the lengths of a sequence of chunks.
pub open spec fn chunks_len_sum(s: Seq<WrChunk>) -> int
    decreases s.len(),
{
    if s.len() == 0 {
        0
    } else {
        s[0].len + chunks_len_sum(s.skip(1))
    }
}

/// Coverage: fragmenting `rem` remaining bytes yields chunks whose lengths
/// sum exactly to `rem`; every byte of the work request is covered by
/// exactly one chunk.
pub proof fn lemma_fragmentation_coverage(
    b: WrChunkBuilder,
    psn: u32,
    laddr: u64,
    raddr: u64,
    rem: u32,
    first: bool,
)
    requires
        pmtu_valid(b.pmtu),
        laddr + rem <= u64::MAX,
    ensures
        chunks_len_sum(frag_chunks(b, psn, laddr, raddr, rem, first)) == rem,
    decreases rem,
{
    let s = frag_chunks(b, psn, laddr, raddr, rem, first);
    if rem == 0 {
        assert(s.len() == 0);
    } else {
        crate::chunk::lemma_pmtu_bound(b.pmtu);
        let len = chunk_len_spec(laddr, rem, b.pmtu);
        assert(1 <= len <= WR_CHUNK_SIZE);
        let psn2 = ((psn + packets_of(len, b.pmtu)) % (PSN_SPACE as int)) as u32;
        let rest = frag_chunks(b, psn2, (laddr + len) as u64, (raddr + len) as u64, (rem - len) as u32, false);
        lemma_fragmentation_coverage(b, psn2, (laddr + len) as u64, (raddr + len) as u64, (rem - len) as u32, false);
        assert(s.skip(1) =~= rest);
        assert(s[0].len == len);
    }
}

/// Alignment: every chunk but the last ends exactly on a PMTU boundary,
/// `(laddr + len) % pmtu == 0`.
pub proof fn lemma_fragmentation_alignment(
    b: WrChunkBuilder,
    psn: u32,
    laddr: u64,
    raddr: u64,
    rem: u32,
    first: bool,
)
    requires
        pmtu_valid(b.pmtu),
        laddr + rem <= u64::MAX,
    ensures
        ({
            let s = frag_chunks(b, psn, laddr, raddr, rem, first);
            forall|i: int|
                0 <= i < s.len() - 1 ==> ((#[trigger] s[i]).laddr + s[i].len) % (b.pmtu as int)
                    == 0
        }),
    decreases rem,
{
    let s = frag_chunks(b, psn, laddr, raddr, rem, first);
    if rem == 0 {
    } else {
        crate::chunk::lemma_pmtu_bound(b.pmtu);
        let p = b.pmtu as int;
        let len = chunk_len_spec(laddr, rem, b.pmtu);
        let psn2 = ((psn + packets_of(len, b.pmtu)) % (PSN_SPACE as int)) as u32;
        let rest = frag_chunks(b, psn2, (laddr + len) as u64, (raddr + len) as u64, (rem - len) as u32, false);
        lemma_fragmentation_alignment(b, psn2, (laddr + len) as u64, (raddr + len) as u64, (rem - len) as u32, false);
        assert(s.skip(1) =~= rest);
        assert forall|i: int| 0 <= i < s.len() - 1 implies ((#[trigger] s[i]).laddr + s[i].len) % (
        b.pmtu as int) == 0 by {
            if i == 0 {
                // The head is not the last chunk, so it was not clamped:
                // it runs exactly to the PMTU boundary.
                assert(rest.len() > 0);
                assert(!(rem <= tentative_len_spec(laddr, b.pmtu)));
                assert(len == tentative_len_spec(laddr, b.pmtu));
                vstd::arithmetic::div_mod::lemma_fundamental_div_mod(laddr as int, p);
                vstd::arithmetic::div_mod::lemma_fundamental_div_mod(WR_CHUNK_SIZE as int, p);
                assert(laddr + len == p * (laddr as int / p) + p * (WR_CHUNK_SIZE as int / p));
                vstd::arithmetic::mul::lemma_mul_is_distributive_add(
                    p,
                    laddr as int / p,
                    WR_CHUNK_SIZE as int / p,
                );
                vstd::arithmetic::div_mod::lemma_mod_multiples_vanish(
                    laddr as int / p + WR_CHUNK_SIZE as int / p,
                    0,
                    p,
                );
            } else {
                assert(s[i] == rest[i - 1]);
                assert(((rest[i - 1]).laddr + rest[i - 1].len) % (b.pmtu as int) == 0);
            }
        }
    }
}

/// Position sequence for a fragmentation already in progress: `first` tells
/// whether the next chunk would be the work request's first.
proof fn lemma_positions_from(
    b: WrChunkBuilder,
    psn: u32,
    laddr: u64,
    raddr: u64,
    rem: u32,
    first: bool,
)
    requires
        pmtu_valid(b.pmtu),
    ensures
        ({
            let s = frag_chunks(b, psn, laddr, raddr, rem, first);
            &&& s.len() == 1 ==> s[0].pos == chunk_pos_spec(first, true)
            &&& s.len() > 1 ==> s[0].pos == chunk_pos_spec(first, false) && s[s.len() - 1].pos
                == ChunkPos::Last && (forall|i: int|
                0 < i < s.len() - 1 ==> (#[trigger] s[i]).pos == ChunkPos::Middle)
        }),
    decreases rem,
{
    let s = frag_chunks(b, psn, laddr, raddr, rem, first);
    if rem == 0 {
    } else {
        crate::chunk::lemma_pmtu_bound(b.pmtu);
        let len = chunk_len_spec(laddr, rem, b.pmtu);
        let last = rem <= tentative_len_spec(laddr, b.pmtu);
        let psn2 = ((psn + packets_of(len, b.pmtu)) % (PSN_SPACE as int)) as u32;
        let rest = frag_chunks(b, psn2, (laddr + len) as u64, (raddr + len) as u64, (rem - len) as u32, false);
        lemma_positions_from(b, psn2, (laddr + len) as u64, (raddr + len) as u64, (rem - len) as u32, false);
        assert(s.skip(1) =~= rest);
        if last {
            assert(rem - len == 0);
            assert(s.len() == 1);
        } else {
            assert(rest.len() >= 1);
            assert(s[s.len() - 1] == rest[rest.len() - 1]);
            if rest.len() == 1 {
                assert(rest[0].pos == chunk_pos_spec(false, true));
            }
            assert forall|i: int| 0 < i < s.len() - 1 implies (#[trigger] s[i]).pos
                == ChunkPos::Middle by {
                assert(s[i] == rest[i - 1]);
                if i - 1 == 0 {
                    assert(rest.len() > 1);
                    assert(rest[0].pos == chunk_pos_spec(false, false));
                }
            }
        }
    }
}

/// Position sequence: if exactly one chunk is produced its position is
/// `Only`; otherwise the positions run `First, Middle, ..., Middle, Last`.
pub proof fn lemma_fragmentation_positions(
    b: WrChunkBuilder,
    psn: u32,
    laddr: u64,
    raddr: u64,
    rem: u32,
)
    requires
        pmtu_valid(b.pmtu),
    ensures
        ({
            let s = frag_chunks(b, psn, laddr, raddr, rem, true);
            &&& s.len() == 1 ==> s[0].pos == ChunkPos::Only
            &&& s.len() > 1 ==> s[0].pos == ChunkPos::First && s[s.len() - 1].pos == ChunkPos::Last
                && (forall|i: int| 0 < i < s.len() - 1 ==> (#[trigger] s[i]).pos == ChunkPos::Middle)
        }),
{
    lemma_positions_from(b, psn, laddr, raddr, rem, true);
}

/// PSN monotonicity with wraparound: each successor chunk carries the PSN
/// of its predecessor advanced by the predecessor's packet count, modulo
/// the 24-bit PSN space.
pub proof fn lemma_fragmentation_psn_chain(
    b: WrChunkBuilder,
    psn: u32,
    laddr: u64,
    raddr: u64,
    rem: u32,
    first: bool,
)
    requires
        pmtu_valid(b.pmtu),
    ensures
        ({
            let s = frag_chunks(b, psn, laddr, raddr, rem, first);
            forall|i: int|
                0 <= i < s.len() - 1 ==> (#[trigger] s[i + 1]).psn == (s[i].psn + packets_of(
                    s[i].len as int,
                    b.pmtu,
                )) % (PSN_SPACE as int)
        }),
    decreases rem,
{
    let s = frag_chunks(b, psn, laddr, raddr, rem, first);
    if rem == 0 {
    } else {
        crate::chunk::lemma_pmtu_bound(b.pmtu);
        let len = chunk_len_spec(laddr, rem, b.pmtu);
        assert(1 <= len <= WR_CHUNK_SIZE);
        let psn2 = ((psn + packets_of(len, b.pmtu)) % (PSN_SPACE as int)) as u32;
        let rest = frag_chunks(b, psn2, (laddr + len) as u64, (raddr + len) as u64, (rem - len) as u32, false);
        lemma_fragmentation_psn_chain(b, psn2, (laddr + len) as u64, (raddr + len) as u64, (rem - len) as u32, false);
        assert(s.skip(1) =~= rest);
        assert forall|i: int| 0 <= i < s.len() - 1 implies (#[trigger] s[i + 1]).psn == (s[i].psn
            + packets_of(s[i].len as int, b.pmtu)) % (PSN_SPACE as int) by {
            if i == 0 {
                assert(rest.len() > 0);
                assert(s[1] == rest[0]);
                assert(rest[0].psn == psn2);
                assert(s[0].psn == psn);
                assert(s[0].len as int == len);
            } else {
                assert(s[i] == rest[i - 1]);
                assert(s[i + 1] == rest[i]);
            }
        }
    }
}

/// Work Request Fragmenter, used to split a single work request into
/// multiple chunks.
pub struct WrFragmenter {
    /// Current PSN
    pub psn: u32,
    /// Current laddr
    pub laddr: u64,
    /// Current raddr
    pub raddr: u64,
    /// Remaining length
    pub rem_len: u32,
    /// Current chunk position
    pub chunk_pos: ChunkPos,
    /// Chunk builder
    pub builder: WrChunkBuilder,
}

impl WrFragmenter {
    /// Well-formedness of the fragmenter's state: the PSN fits its 24-bit
    /// field, the addresses cannot run off the address space, and the
    /// position reflects whether a chunk has been emitted yet.
    pub open spec fn wf(self) -> bool {
        &&& pmtu_valid(self.builder.pmtu)
        &&& self.psn < PSN_SPACE
        &&& self.laddr + self.rem_len <= u64::MAX
        &&& self.raddr + self.rem_len <= u64::MAX
        &&& (self.rem_len > 0 ==> (self.chunk_pos is First || self.chunk_pos is Middle))
    }

    /// The chunks the fragmenter has yet to emit.
    pub open spec fn pending(self) -> Seq<WrChunk> {
        frag_chunks(
            self.builder,
            self.psn,
            self.laddr,
            self.raddr,
            self.rem_len,
            self.chunk_pos is First,
        )
    }

    /// Creates a new `WrFragmenter` for a validated work request, a builder
    /// carrying the connection-level parameters, and the connection's base
    /// PSN.
    pub fn new(wr: SendWrResolver, builder: WrChunkBuilder, base_psn: u32) -> (r: Self)
        requires
            pmtu_valid(builder.pmtu),
            base_psn < PSN_SPACE,
            wr.wr_spec().sge_addr + wr.wr_spec().sge_length <= u64::MAX,
            wr.wr_spec().raddr + wr.wr_spec().sge_length <= u64::MAX,
        ensures
            r.wf(),
            r.psn == base_psn,
            r.laddr == wr.wr_spec().sge_addr,
            r.raddr == wr.wr_spec().raddr,
            r.rem_len == wr.wr_spec().sge_length,
            r.chunk_pos is First,
            r.builder == (WrChunkBuilder {
                flags: wr.wr_spec().send_flags as u8,
                rkey: wr.wr_spec().rkey,
                total_len: wr.wr_spec().sge_length,
                lkey: wr.wr_spec().sge_lkey,
                imm: wr.wr_spec().imm,
                ..builder
            }),
    {
        let flags: u8 = #[verifier::truncate] (wr.send_flags() as u8);
        let builder = builder.set_ibv_params(flags, wr.rkey(), wr.length(), wr.lkey(), wr.imm());
        Self {
            psn: base_psn,
            laddr: wr.laddr(),
            raddr: wr.raddr(),
            rem_len: wr.length(),
            chunk_pos: ChunkPos::First,
            builder,
        }
    }

    /// Checks if the fragmentation is complete; further calls to `next`
    /// will yield `None`.
    pub fn is_complete(&self) -> (r: bool)
        requires
            self.wf(),
        ensures
            r == (self.pending().len() == 0),
            r == (self.rem_len == 0),
    {
        proof {
            if self.rem_len != 0 && pmtu_valid(self.builder.pmtu) {
                assert(self.pending().len() >= 1);
            }
        }
        self.rem_len == 0
    }

    /// Emits the next chunk of the fragmentation sequence, or `None` once
    /// every byte of the work request has been covered.
    pub fn next(&mut self) -> (r: Option<WrChunk>)
        requires
            old(self).wf(),
        ensures
            final(self).wf(),
            final(self).builder == old(self).builder,
            old(self).pending().len() == 0 ==> r is None && *final(self) == *old(self),
            old(self).pending().len() > 0 ==> r == Some(old(self).pending()[0])
                && final(self).pending() == old(self).pending().skip(1),
    {
        if self.rem_len == 0 {
            return None;
        }
        let ghost prev = *self;
        proof {
            crate::chunk::lemma_pmtu_bound(self.builder.pmtu);
        }
        let pmtu = self.builder.pmtu();
        // Chunk boundary must align with PMTU: the span from the current
        // local address to the next boundary below laddr + WR_CHUNK_SIZE.
        let boundary_gap: u64 = (WR_CHUNK_SIZE as u64) - self.laddr % (pmtu as u64);
        let mut chunk_size: u32 = boundary_gap as u32;
        assert(chunk_size == tentative_len_spec(prev.laddr, prev.builder.pmtu));

        if self.rem_len <= chunk_size {
            chunk_size = self.rem_len;
            self.chunk_pos = if matches!(self.chunk_pos, ChunkPos::First) {
                ChunkPos::Only
            } else {
                ChunkPos::Last
            };
        }
        assert(chunk_size == chunk_len_spec(prev.laddr, prev.rem_len, prev.builder.pmtu));

        let chunk = self.builder.set_chunk_meta(
            self.psn,
            self.laddr,
            self.raddr,
            chunk_size,
            self.chunk_pos,
        ).build();

        let num_packets = (chunk_size + pmtu as u32 - 1) / (pmtu as u32);
        self.psn = psn_wrapping_add(self.psn, num_packets);
        self.laddr = self.laddr + chunk_size as u64;
        self.raddr = self.raddr + chunk_size as u64;
        self.rem_len = self.rem_len - chunk_size;
        self.chunk_pos = self.chunk_pos.next();

        proof {
            let s = prev.pending();
            assert(s.len() > 0);
            assert(chunk == s[0]);
            assert(self.pending() =~= s.skip(1));
        }
        Some(chunk)
    }
}

} // verus!
