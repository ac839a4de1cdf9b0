//! Snapshot blobs: a fixed header with the register file followed by the
//! memory image under a run-length encoding with a single escape byte.

use vstd::prelude::*;

use crate::cpu::{flag_set, lemma_unused_bit, CPU, UNUSED_FLAG};
use crate::memory::{loaded, Memory, MEMORY_SIZE};

verus! {

broadcast use crate::memory::Memory::lemma_size;

/// The byte that introduces an escaped `0xFF` (`0xFF 0x00`) or a run
/// (`0xFF count value`) in the compressed memory stream.
pub const RLE_MARKER: u8 = 0xFF;

/// Longest run one record can describe.
pub const MAX_RUN: usize = 255;

/// Length of the blob header that precedes the compressed memory stream.
pub const HEADER_LEN: usize = 16;

/// The register file and internal state of a core at an instruction
/// boundary.
#[derive(Debug, Clone, Copy, PartialEq, Eq, Structural)]
pub struct CpuSnapshot {
    pub a: u8,
    pub x: u8,
    pub y: u8,
    pub pc: u16,
    pub sp: u8,
    pub status: u8,
    pub cycles: u64,
    pub halted: bool,
}

/// Why a snapshot could not be restored. Nothing is restored when any of
/// these is reported.
#[derive(Debug, Clone, Copy, PartialEq, Eq, Structural)]
pub enum RestoreError {
    /// The stream ends inside a record, the blob is shorter than its header,
    /// or the stream stands for fewer than 65536 bytes.
    TruncatedStream,
    /// The stream stands for more than 65536 bytes.
    OversizedStream,
    /// A marker followed by something other than the escape byte or a run
    /// length; the format leaves no such byte, so the decoder never reports
    /// it.
    BadEscape,
    /// A run record whose count lies outside `1..=255`; a nonzero byte always
    /// lies inside, so the decoder never reports it.
    BadRleCount,
    /// The header's halted byte is neither 0 nor 1.
    SchemaMismatch,
}

/// How one byte is written outside a run record.
pub open spec fn literal(v: u8) -> Seq<u8> {
    if v == RLE_MARKER {
        seq![RLE_MARKER, 0u8]
    } else {
        seq![v]
    }
}

/// `n` copies of `v` written as literals.
pub open spec fn literals(v: u8, n: nat) -> Seq<u8>
    decreases n,
{
    if n == 0 {
        Seq::empty()
    } else {
        literals(v, (n - 1) as nat) + literal(v)
    }
}

/// How a run of `n` copies of `v` (`1 <= n <= 255`) is written: as a
/// record when it is at least four long or of zeros, else as literals.
pub open spec fn chunk(v: u8, n: nat) -> Seq<u8> {
    if n >= 4 || v == 0 {
        seq![RLE_MARKER, n as u8, v]
    } else {
        literals(v, n)
    }
}

/// The encoding of `n` copies of `v` followed by `rest`, where runs are
/// taken greedily from the front, at most 255 long.
pub open spec fn encode_run(rest: Seq<u8>, v: u8, n: nat) -> Seq<u8>
    decreases rest.len(),
{
    if rest.len() == 0 {
        chunk(v, n)
    } else if rest[0] == v && n < MAX_RUN {
        encode_run(rest.drop_first(), v, n + 1)
    } else {
        chunk(v, n) + encode_run(rest.drop_first(), rest[0], 1)
    }
}

/// The compressed form of `m`.
pub open spec fn rle_encode(m: Seq<u8>) -> Seq<u8> {
    if m.len() == 0 {
        Seq::empty()
    } else {
        encode_run(m.drop_first(), m[0], 1)
    }
}

/// Decodes the complete records at the front of `s`: the bytes they stand
/// for, and whether `s` ends on a record boundary (`false` when its last
/// record is cut off).
pub open spec fn rle_decode(s: Seq<u8>) -> (Seq<u8>, bool)
    decreases s.len(),
{
    if s.len() == 0 {
        (Seq::empty(), true)
    } else if s[0] != RLE_MARKER {
        let (r, complete) = rle_decode(s.drop_first());
        (seq![s[0]] + r, complete)
    } else if s.len() < 2 {
        (Seq::empty(), false)
    } else if s[1] == 0 {
        let (r, complete) = rle_decode(s.subrange(2, s.len() as int));
        (seq![RLE_MARKER] + r, complete)
    } else if s.len() < 3 {
        (Seq::empty(), false)
    } else {
        let (r, complete) = rle_decode(s.subrange(3, s.len() as int));
        (Seq::new(s[1] as nat, |j: int| s[2]) + r, complete)
    }
}

/// The memory image a compressed stream stands for, or why there is none.
/// A stream standing for more than 65536 bytes is oversized even when it
/// is also cut off.
pub open spec fn decoded_image(s: Seq<u8>) -> Result<Seq<u8>, RestoreError> {
    let (m, complete) = rle_decode(s);
    if m.len() > MEMORY_SIZE {
        Err(RestoreError::OversizedStream)
    } else if !complete || m.len() < MEMORY_SIZE {
        Err(RestoreError::TruncatedStream)
    } else {
        Ok(m)
    }
}

/// `n` copies of `v`.
pub open spec fn repeat(v: u8, n: nat) -> Seq<u8> {
    Seq::new(n, |j: int| v)
}

proof fn lemma_decode_literal(v: u8, rest: Seq<u8>)
    ensures
        rle_decode(literal(v) + rest) == (seq![v] + rle_decode(rest).0, rle_decode(rest).1),
{
    let s = literal(v) + rest;
    if v == RLE_MARKER {
        assert(s.subrange(2, s.len() as int) =~= rest);
    } else {
        assert(s.drop_first() =~= rest);
    }
}

proof fn lemma_decode_literals(v: u8, n: nat, rest: Seq<u8>)
    ensures
        rle_decode(literals(v, n) + rest) == (repeat(v, n) + rle_decode(rest).0, rle_decode(
            rest,
        ).1),
    decreases n,
{
    if n == 0 {
        assert(literals(v, n) + rest =~= rest);
        assert(repeat(v, n) + rle_decode(rest).0 =~= rle_decode(rest).0);
    } else {
        let k = (n - 1) as nat;
        assert(literals(v, n) + rest =~= literals(v, k) + (literal(v) + rest));
        lemma_decode_literals(v, k, literal(v) + rest);
        lemma_decode_literal(v, rest);
        assert(repeat(v, k) + (seq![v] + rle_decode(rest).0) =~= repeat(v, n) + rle_decode(
            rest,
        ).0);
    }
}

proof fn lemma_decode_chunk(v: u8, n: nat, rest: Seq<u8>)
    requires
        1 <= n <= MAX_RUN,
    ensures
        rle_decode(chunk(v, n) + rest) == (repeat(v, n) + rle_decode(rest).0, rle_decode(rest).1),
{
    if n >= 4 || v == 0 {
        let s = chunk(v, n) + rest;
        assert(s.subrange(3, s.len() as int) =~= rest);
        assert(Seq::new(s[1] as nat, |j: int| s[2]) =~= repeat(v, n));
    } else {
        lemma_decode_literals(v, n, rest);
    }
}

proof fn lemma_decode_encode_run(rest: Seq<u8>, v: u8, n: nat)
    requires
        1 <= n <= MAX_RUN,
    ensures
        rle_decode(encode_run(rest, v, n)) == (repeat(v, n) + rest, true),
    decreases rest.len(),
{
    if rest.len() == 0 {
        lemma_decode_chunk(v, n, rest);
        assert(chunk(v, n) + rest =~= chunk(v, n));
        assert(repeat(v, n) + rle_decode(rest).0 =~= repeat(v, n) + rest);
    } else if rest[0] == v && n < MAX_RUN {
        lemma_decode_encode_run(rest.drop_first(), v, n + 1);
        assert(repeat(v, n + 1) + rest.drop_first() =~= repeat(v, n) + rest);
    } else {
        let tail = encode_run(rest.drop_first(), rest[0], 1);
        lemma_decode_chunk(v, n, tail);
        lemma_decode_encode_run(rest.drop_first(), rest[0], 1);
        assert(repeat(rest[0], 1) + rest.drop_first() =~= rest);
    }
}

/// Decoding undoes encoding, for every byte sequence: the stream ends on a
/// record boundary and stands for exactly `m`.
pub proof fn lemma_rle_round_trip(m: Seq<u8>)
    ensures
        rle_decode(rle_encode(m)) == (m, true),
{
    if m.len() > 0 {
        lemma_decode_encode_run(m.drop_first(), m[0], 1);
        assert(repeat(m[0], 1) + m.drop_first() =~= m);
    }
}

/// Every 64 KiB memory image comes back unchanged from its compressed form.
pub proof fn lemma_image_round_trip(m: Seq<u8>)
    requires
        m.len() == MEMORY_SIZE,
    ensures
        decoded_image(rle_encode(m)) == Ok::<Seq<u8>, RestoreError>(m),
{
    lemma_rle_round_trip(m);
}

/// Encoding of `m` from position `i` on.
spec fn encode_from(m: Seq<u8>, i: int) -> Seq<u8> {
    if i >= m.len() {
        Seq::empty()
    } else {
        encode_run(m.skip(i + 1), m[i], 1)
    }
}

/// Run-length encodes `memory`: greedy runs of at most 255 equal bytes;
/// runs of four or more and runs of zeros become `0xFF count value`, other
/// bytes stay literal with `0xFF` escaped as `0xFF 0x00`.
pub fn compress_memory(memory: &[u8]) -> (r: Vec<u8>)
    ensures
        r@ == rle_encode(memory@),
{
    let mut compressed: Vec<u8> = Vec::new();
    let mut i: usize = 0;
    assert(memory@.len() > 0 ==> memory@.skip(1) =~= memory@.drop_first());
    while i < memory.len()
        invariant
            i <= memory@.len(),
            rle_encode(memory@) == compressed@ + encode_from(memory@, i as int),
        decreases memory.len() - i,
    {
        let current = memory[i];
        let mut count: usize = 1;
        while count < MAX_RUN && count < memory.len() - i && memory[i + count] == current
            invariant
                i < memory@.len(),
                1 <= count <= MAX_RUN,
                i + count <= memory@.len(),
                current == memory@[i as int],
                encode_from(memory@, i as int) == encode_run(
                    memory@.skip(i + count),
                    current,
                    count as nat,
                ),
            decreases MAX_RUN - count,
        {
            assert(memory@.skip(i + count).drop_first() =~= memory@.skip(i + count + 1));
            count = count + 1;
        }
        let ghost before = compressed@;
        assert(encode_from(memory@, i as int) == chunk(current, count as nat) + encode_from(
            memory@,
            (i + count) as int,
        )) by {
            if i + count < memory.len() {
                assert(memory@.skip(i + count).drop_first() =~= memory@.skip(i + count + 1));
            }
        }
        if count > 3 || current == 0 {
            compressed.push(RLE_MARKER);
            compressed.push(count as u8);
            compressed.push(current);
        } else {
            let mut j: usize = 0;
            while j < count
                invariant
                    j <= count <= 3,
                    compressed@ == before + literals(current, j as nat),
                decreases count - j,
            {
                if current == RLE_MARKER {
                    compressed.push(RLE_MARKER);
                    compressed.push(0);
                } else {
                    compressed.push(current);
                }
                assert(compressed@ =~= before + literals(current, (j + 1) as nat));
                j = j + 1;
            }
        }
        assert(compressed@ =~= before + chunk(current, count as nat));
        i = i + count;
    }
    assert(compressed@ + encode_from(memory@, i as int) =~= compressed@);
    compressed
}

/// Decodes a compressed memory stream into exactly 65536 bytes.
/// Stops early once the output passes 65536 bytes.
pub fn decompress_memory(compressed: &[u8]) -> (r: Result<Vec<u8>, RestoreError>)
    ensures
        match r {
            Ok(image) => decoded_image(compressed@) == Ok::<Seq<u8>, RestoreError>(image@),
            Err(e) => decoded_image(compressed@) == Err::<Seq<u8>, RestoreError>(e),
        },
{
    let ghost s = compressed@;
    let mut out: Vec<u8> = Vec::new();
    let mut i: usize = 0;
    assert(s.skip(0) =~= s);
    while i < compressed.len()
        invariant
            s == compressed@,
            i <= s.len(),
            rle_decode(s).0 == out@ + rle_decode(s.skip(i as int)).0,
            rle_decode(s).1 == rle_decode(s.skip(i as int)).1,
        decreases compressed.len() - i,
    {
        if out.len() > MEMORY_SIZE {
            return Err(RestoreError::OversizedStream);
        }
        let ghost rest = s.skip(i as int);
        if compressed[i] == RLE_MARKER {
            if i + 1 >= compressed.len() {
                return Err(RestoreError::TruncatedStream);
            }
            if compressed[i + 1] == 0 {
                assert(rest.subrange(2, rest.len() as int) =~= s.skip(i + 2));
                out.push(RLE_MARKER);
                assert(out@ + rle_decode(s.skip(i + 2)).0 =~= out@.drop_last() + rle_decode(rest).0);
                i = i + 2;
            } else {
                if i + 2 >= compressed.len() {
                    return Err(RestoreError::TruncatedStream);
                }
                let count = compressed[i + 1];
                let value = compressed[i + 2];
                let ghost start = out@;
                let mut k: u8 = 0;
                while k < count
                    invariant
                        k <= count,
                        out@ == start + Seq::new(k as nat, |j: int| value),
                    decreases count - k,
                {
                    out.push(value);
                    k = k + 1;
                    assert(out@ =~= start + Seq::new(k as nat, |j: int| value));
                }
                assert(rest.subrange(3, rest.len() as int) =~= s.skip(i + 3));
                assert(Seq::new(count as nat, |j: int| value) =~= Seq::new(
                    rest[1] as nat,
                    |j: int| rest[2],
                ));
                assert(out@ + rle_decode(s.skip(i + 3)).0 =~= start + rle_decode(rest).0);
                i = i + 3;
            }
        } else {
            assert(rest.drop_first() =~= s.skip(i + 1));
            out.push(compressed[i]);
            assert(out@ + rle_decode(s.skip(i + 1)).0 =~= out@.drop_last() + rle_decode(rest).0);
            i = i + 1;
        }
    }
    assert(out@ + rle_decode(s.skip(i as int)).0 =~= out@);
    if out.len() > MEMORY_SIZE {
        Err(RestoreError::OversizedStream)
    } else if out.len() < MEMORY_SIZE {
        Err(RestoreError::TruncatedStream)
    } else {
        Ok(out)
    }
}

/// `256^n`.
pub open spec fn pow256(n: nat) -> nat
    decreases n,
{
    if n == 0 {
        1
    } else {
        256 * pow256((n - 1) as nat)
    }
}

/// The `n` low bytes of `x`, least significant first.
pub open spec fn le_bytes(x: nat, n: nat) -> Seq<u8>
    decreases n,
{
    if n == 0 {
        Seq::empty()
    } else {
        seq![(x % 256) as u8] + le_bytes(x / 256, (n - 1) as nat)
    }
}

/// The number whose bytes, least significant first, are `s`.
pub open spec fn le_value(s: Seq<u8>) -> nat
    decreases s.len(),
{
    if s.len() == 0 {
        0
    } else {
        s[0] as nat + 256 * le_value(s.drop_first())
    }
}

/// The snapshot record of core `c`.
pub open spec fn snapshot_of(c: CPU) -> CpuSnapshot {
    CpuSnapshot {
        a: c.a,
        x: c.x,
        y: c.y,
        pc: c.pc,
        sp: c.sp,
        status: c.status,
        cycles: c.cycles,
        halted: c.halted,
    }
}

/// The core a snapshot record describes; the unused status bit 5 reads 1
/// whatever the record holds.
pub open spec fn core_of(s: CpuSnapshot) -> CPU {
    CPU {
        a: s.a,
        x: s.x,
        y: s.y,
        pc: s.pc,
        sp: s.sp,
        status: s.status | UNUSED_FLAG,
        cycles: s.cycles,
        halted: s.halted,
    }
}

/// The 16-byte header: A, X, Y, PC (little-endian), SP, P, the instruction
/// count (little-endian `u64`) and the halted flag as 0 or 1.
pub open spec fn header_of(s: CpuSnapshot) -> Seq<u8> {
    seq![s.a, s.x, s.y] + le_bytes(s.pc as nat, 2) + seq![s.sp, s.status] + le_bytes(
        s.cycles as nat,
        8,
    ) + seq![
        if s.halted {
            1u8
        } else {
            0u8
        },
    ]
}

/// The blob for record `s` and memory image `m`: the header, then the
/// compressed image.
pub open spec fn blob_of(s: CpuSnapshot, m: Seq<u8>) -> Seq<u8> {
    header_of(s) + rle_encode(m)
}

/// What a blob holds, or why it cannot be restored.
pub open spec fn parse_blob(b: Seq<u8>) -> Result<(CpuSnapshot, Seq<u8>), RestoreError> {
    if b.len() < HEADER_LEN {
        Err(RestoreError::TruncatedStream)
    } else if b[15] > 1 {
        Err(RestoreError::SchemaMismatch)
    } else {
        match decoded_image(b.subrange(HEADER_LEN as int, b.len() as int)) {
            Ok(m) => Ok(
                (
                    CpuSnapshot {
                        a: b[0],
                        x: b[1],
                        y: b[2],
                        pc: le_value(b.subrange(3, 5)) as u16,
                        sp: b[5],
                        status: b[6],
                        cycles: le_value(b.subrange(7, 15)) as u64,
                        halted: b[15] == 1,
                    },
                    m,
                ),
            ),
            Err(e) => Err(e),
        }
    }
}

proof fn lemma_le_bytes_len(x: nat, n: nat)
    ensures
        le_bytes(x, n).len() == n,
    decreases n,
{
    if n > 0 {
        lemma_le_bytes_len(x / 256, (n - 1) as nat);
    }
}

proof fn lemma_le_round_trip(x: nat, n: nat)
    requires
        x < pow256(n),
    ensures
        le_value(le_bytes(x, n)) == x,
    decreases n,
{
    if n > 0 {
        lemma_le_round_trip(x / 256, (n - 1) as nat);
        assert(le_bytes(x, n).drop_first() =~= le_bytes(x / 256, (n - 1) as nat));
    }
}

proof fn lemma_le_value_bound(s: Seq<u8>)
    ensures
        le_value(s) < pow256(s.len()),
    decreases s.len(),
{
    if s.len() > 0 {
        lemma_le_value_bound(s.drop_first());
    }
}

proof fn lemma_pow256_facts()
    ensures
        pow256(2) == 0x1_0000,
        pow256(8) == 0x1_0000_0000_0000_0000,
{
    reveal_with_fuel(pow256, 9);
}

/// Appends the `n` low bytes of `value`, least significant first.
fn push_le(out: &mut Vec<u8>, value: u64, n: usize)
    ensures
        final(out)@ == old(out)@ + le_bytes(value as nat, n as nat),
{
    let mut v = value;
    let mut k: usize = 0;
    assert(old(out)@ =~= old(out)@ + Seq::<u8>::empty());
    while k < n
        invariant
            k <= n,
            out@ + le_bytes(v as nat, (n - k) as nat) == old(out)@ + le_bytes(value as nat, n as nat),
        decreases n - k,
    {
        let ghost before = out@;
        out.push((v % 256) as u8);
        assert(before + le_bytes(v as nat, (n - k) as nat) =~= out@ + le_bytes(
            (v / 256) as nat,
            (n - k - 1) as nat,
        ));
        v = v / 256;
        k = k + 1;
    }
    assert(out@ + le_bytes(v as nat, 0) =~= out@);
}

/// The number stored in `bytes[start..start + n]`, least significant byte
/// first.
fn read_le(bytes: &[u8], start: usize, n: usize) -> (r: u64)
    requires
        n <= 8,
        start + n <= bytes@.len(),
    ensures
        r == le_value(bytes@.subrange(start as int, start + n)),
{
    proof {
        lemma_pow256_facts();
    }
    let mut acc: u64 = 0;
    let mut k: usize = n;
    assert(bytes@.subrange(start + n, start + n) =~= Seq::<u8>::empty());
    while k > 0
        invariant
            k <= n <= 8,
            start + n <= bytes.len(),
            pow256(8) == 0x1_0000_0000_0000_0000,
            acc == le_value(bytes@.subrange(start + k, start + n)),
        decreases k,
    {
        k = k - 1;
        let ghost tail = bytes@.subrange(start + k + 1, start + n);
        proof {
            lemma_le_value_bound(tail);
            lemma_pow256_monotone(tail.len(), 7);
        }
        assert(bytes@.subrange(start + k, start + n).drop_first() =~= tail);
        acc = acc * 256 + bytes[start + k] as u64;
    }
    acc
}

proof fn lemma_pow256_monotone(i: nat, j: nat)
    requires
        i <= j,
    ensures
        pow256(i) <= pow256(j),
    decreases j,
{
    if i < j {
        lemma_pow256_monotone(i, (j - 1) as nat);
    }
}

/// Decoding a blob gives back the record and the 64 KiB image it was made
/// from, and the record gives back the core (whose unused status bit is set,
/// as it is in every core that `new`, `reset` and `step` produce).
pub proof fn lemma_snapshot_round_trip(c: CPU, m: Seq<u8>)
    requires
        m.len() == MEMORY_SIZE,
        flag_set(c.status, UNUSED_FLAG),
    ensures
        parse_blob(blob_of(snapshot_of(c), m)) == Ok::<(CpuSnapshot, Seq<u8>), RestoreError>(
            (snapshot_of(c), m),
        ),
        core_of(snapshot_of(c)) == c,
{
    let s = snapshot_of(c);
    let b = blob_of(s, m);
    lemma_pow256_facts();
    lemma_le_bytes_len(s.pc as nat, 2);
    lemma_le_bytes_len(s.cycles as nat, 8);
    lemma_le_round_trip(s.pc as nat, 2);
    lemma_le_round_trip(s.cycles as nat, 8);
    lemma_image_round_trip(m);
    lemma_unused_bit(c.status);
    assert(b.subrange(3, 5) =~= le_bytes(s.pc as nat, 2));
    assert(b.subrange(7, 15) =~= le_bytes(s.cycles as nat, 8));
    assert(b.subrange(HEADER_LEN as int, b.len() as int) =~= rle_encode(m));
}

impl CpuSnapshot {
    /// Records the state of `cpu`, including its instruction count.
    pub fn capture(cpu: &CPU) -> (s: CpuSnapshot)
        ensures
            s == snapshot_of(*cpu),
    {
        CpuSnapshot {
            a: cpu.get_register_a(),
            x: cpu.get_register_x(),
            y: cpu.get_register_y(),
            pc: cpu.get_pc(),
            sp: cpu.get_sp(),
            status: cpu.get_status(),
            cycles: cpu.cycles,
            halted: cpu.is_halted(),
        }
    }

    /// Overwrites every register, the instruction count and the halted
    /// latch of `cpu` with this record (the unused status bit reads 1).
    pub fn apply_to(&self, cpu: &mut CPU)
        ensures
            *final(cpu) == core_of(*self),
    {
        cpu.set_register_a(self.a);
        cpu.set_register_x(self.x);
        cpu.set_register_y(self.y);
        cpu.set_pc(self.pc);
        cpu.set_sp(self.sp);
        cpu.set_status(self.status);
        cpu.cycles = self.cycles;
        if self.halted {
            cpu.halt();
        } else {
            cpu.resume();
        }
    }
}

/// Freezes `cpu` and `memory` into a blob: the 16-byte header, then the
/// compressed image of all 65536 cells.
pub fn encode_snapshot(cpu: &CPU, memory: &Memory) -> (r: Vec<u8>)
    ensures
        r@ == blob_of(snapshot_of(*cpu), memory@),
{
    let s = CpuSnapshot::capture(cpu);
    let mut blob: Vec<u8> = Vec::new();
    blob.push(s.a);
    blob.push(s.x);
    blob.push(s.y);
    push_le(&mut blob, s.pc as u64, 2);
    blob.push(s.sp);
    blob.push(s.status);
    push_le(&mut blob, s.cycles, 8);
    blob.push(if s.halted { 1 } else { 0 });
    let image = memory.dump();
    let compressed = compress_memory(image.as_slice());
    let ghost header = blob@;
    let mut i: usize = 0;
    while i < compressed.len()
        invariant
            i <= compressed@.len(),
            blob@ == header + compressed@.subrange(0, i as int),
        decreases compressed.len() - i,
    {
        blob.push(compressed[i]);
        i = i + 1;
        assert(blob@ =~= header + compressed@.subrange(0, i as int));
    }
    assert(header =~= header_of(s));
    assert(compressed@.subrange(0, i as int) =~= compressed@);
    blob
}

/// Reads a blob back into a record and a 64 KiB image.
pub fn decode_snapshot(blob: &[u8]) -> (r: Result<(CpuSnapshot, Vec<u8>), RestoreError>)
    ensures
        match r {
            Ok((s, image)) => parse_blob(blob@) == Ok::<(CpuSnapshot, Seq<u8>), RestoreError>(
                (s, image@),
            ),
            Err(e) => parse_blob(blob@) == Err::<(CpuSnapshot, Seq<u8>), RestoreError>(e),
        },
{
    if blob.len() < HEADER_LEN {
        return Err(RestoreError::TruncatedStream);
    }
    if blob[15] > 1 {
        return Err(RestoreError::SchemaMismatch);
    }
    let stream = slice_from(blob, HEADER_LEN);
    match decompress_memory(stream.as_slice()) {
        Ok(image) => {
            let s = CpuSnapshot {
                a: blob[0],
                x: blob[1],
                y: blob[2],
                pc: read_le(blob, 3, 2) as u16,
                sp: blob[5],
                status: blob[6],
                cycles: read_le(blob, 7, 8),
                halted: blob[15] == 1,
            };
            Ok((s, image))
        },
        Err(e) => Err(e),
    }
}

/// `bytes[start..]` as a vector.
fn slice_from(bytes: &[u8], start: usize) -> (r: Vec<u8>)
    requires
        start <= bytes@.len(),
    ensures
        r@ == bytes@.subrange(start as int, bytes@.len() as int),
{
    let mut out: Vec<u8> = Vec::new();
    let mut i: usize = start;
    while i < bytes.len()
        invariant
            start <= i <= bytes@.len(),
            out@ == bytes@.subrange(start as int, i as int),
        decreases bytes.len() - i,
    {
        out.push(bytes[i]);
        i = i + 1;
        assert(out@ =~= bytes@.subrange(start as int, i as int));
    }
    out
}

/// Restores `cpu` and `memory` from a blob. On success every register, the
/// instruction count, the halted latch and all 65536 cells come from the
/// blob; on failure neither is touched.
pub fn restore_snapshot(blob: &[u8], cpu: &mut CPU, memory: &mut Memory) -> (r: Result<(), RestoreError>)
    ensures
        match parse_blob(blob@) {
            Ok((s, image)) => r is Ok && *final(cpu) == core_of(s) && final(memory)@ == image,
            Err(e) => r == Err::<(), RestoreError>(e) && *final(cpu) == *old(cpu) && final(memory)@
                == old(memory)@,
        },
{
    match decode_snapshot(blob) {
        Ok((s, image)) => {
            s.apply_to(cpu);
            memory.load_rom(image.as_slice(), 0);
            assert(final(memory)@ =~= image@) by {
                assert(loaded(old(memory)@, 0, image@) =~= image@);
            }
            Ok(())
        },
        Err(e) => Err(e),
    }
}

} // verus!
