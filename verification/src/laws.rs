//! Machine-wide laws, each proved against the bus and scheduler model.

use vstd::prelude::*;

use crate::gameboy::{gb_wf, spec_dma_source, spec_gb_read, spec_gb_read_sync, spec_gb_tick,
    spec_gb_write, GameBoyV};
use crate::ppu::{lemma_ppu_run_keeps_memory, spec_ppu_mode, spec_vram_write};

verus! {

/// One scheduled bus operation: an access followed by its four T-cycles.
pub enum BusOp {
    Read(u16),
    Write(u16, u8),
}

/// The machine after one scheduled bus operation: a read moves only the
/// lazy sound unit's catch-up, a write changes its decoded target, and
/// either way the scheduler then advances the clock by four T-cycles.
pub open spec fn spec_apply_op(s: GameBoyV, op: BusOp) -> GameBoyV {
    match op {
        BusOp::Read(a) => spec_gb_tick(spec_gb_read_sync(s, a), 4),
        BusOp::Write(a, v) => spec_gb_tick(spec_gb_write(s, a, v), 4),
    }
}

/// The machine after a whole sequence of scheduled bus operations.
pub open spec fn spec_apply_ops(s: GameBoyV, ops: Seq<BusOp>) -> GameBoyV
    decreases ops.len(),
{
    if ops.len() == 0 {
        s
    } else {
        spec_apply_ops(spec_apply_op(s, ops[0]), ops.drop_first())
    }
}

/// A bus write never moves the clock.
pub proof fn lemma_write_keeps_clock(s: GameBoyV, address: u16, value: u8)
    ensures
        spec_gb_write(s, address, value).clock_count == s.clock_count,
{
}

/// The clock is monotonic and advances by exactly four T-cycles for every
/// bus operation: after any sequence of operations it stands exactly four
/// times their number past where it started, and never below it.
pub proof fn lemma_clock_advances(s: GameBoyV, ops: Seq<BusOp>)
    requires
        s.clock_count + 4 * ops.len() <= u64::MAX,
    ensures
        spec_apply_ops(s, ops).clock_count == s.clock_count + 4 * ops.len(),
        spec_apply_ops(s, ops).clock_count >= s.clock_count,
    decreases ops.len(),
{
    if ops.len() > 0 {
        let s1 = spec_apply_op(s, ops[0]);
        match ops[0] {
            BusOp::Read(a) => {
                assert(spec_gb_read_sync(s, a).clock_count == s.clock_count);
            },
            BusOp::Write(a, v) => {
                lemma_write_keeps_clock(s, a, v);
            },
        }
        assert(s1.clock_count == s.clock_count + 4);
        lemma_clock_advances(s1, ops.drop_first());
    }
}

/// Write-then-read over work RAM, its echo, or high RAM returns the byte
/// written, as long as no transfer is holding the bus.
pub proof fn lemma_ram_write_read(s: GameBoyV, address: u16, value: u8)
    requires
        gb_wf(s),
        !s.dma_active,
        (0xC000 <= address <= 0xDFFF) || (0xE000 <= address <= 0xFDFF) || (0xFF80 <= address
            <= 0xFFFE),
    ensures
        spec_gb_read(spec_gb_write(s, address, value), address) == value,
{
}

/// Write-then-read over video RAM returns the byte written whenever the
/// pixel transfer is not holding video memory (and no object transfer is
/// holding the bus); during pixel transfer the write is dropped and the
/// read answers 0xFF.
pub proof fn lemma_vram_write_read(s: GameBoyV, address: u16, value: u8)
    requires
        gb_wf(s),
        !s.dma_active,
        0x8000 <= address <= 0x9FFF,
    ensures
        spec_ppu_mode(s.ppu) != 3 ==> spec_gb_read(spec_gb_write(s, address, value), address)
            == value,
        spec_ppu_mode(s.ppu) == 3 ==> spec_gb_write(s, address, value) == s && spec_gb_read(
            s,
            address,
        ) == 0xFF,
{
    if spec_ppu_mode(s.ppu) == 3 {
        assert(spec_vram_write(s.ppu, address, value) == s.ppu);
        assert(spec_gb_write(s, address, value) =~= s);
    }
}

/// Write-then-read over object memory returns the byte written whenever
/// the picture unit is not holding it (modes 0 and 1, no transfer);
/// during object search and pixel transfer the write is dropped and the
/// read answers 0xFF.
pub proof fn lemma_oam_write_read(s: GameBoyV, address: u16, value: u8)
    requires
        gb_wf(s),
        !s.dma_active,
        0xFE00 <= address <= 0xFE9F,
    ensures
        spec_ppu_mode(s.ppu) != 2 && spec_ppu_mode(s.ppu) != 3 ==> spec_gb_read(
            spec_gb_write(s, address, value),
            address,
        ) == value,
{
}

/// Every address of the echo region reads exactly what its work-RAM
/// counterpart two pages below reads.
pub proof fn lemma_echo_read(s: GameBoyV, address: u16)
    requires
        0xE000 <= address <= 0xFDFF,
    ensures
        spec_gb_read(s, address) == spec_gb_read(s, (address - 0x2000) as u16),
{
}

/// A write to the echo region is the same machine transition as the write
/// to its work-RAM counterpart two pages below.
pub proof fn lemma_echo_write(s: GameBoyV, address: u16, value: u8)
    requires
        0xE000 <= address <= 0xFDFF,
    ensures
        spec_gb_write(s, address, value) == spec_gb_write(s, (address - 0x2000) as u16, value),
{
}

/// One bus operation of a machine whose object-memory transfer has copied
/// its first `k` bytes: the bus lockout drops every write outside high
/// RAM, so the transfer's sources stay put; the operation's tick lands
/// source byte `k` in object memory; and the transfer stays active exactly
/// until all 160 bytes are down.
proof fn lemma_dma_op_step(s0: GameBoyV, s: GameBoyV, op: BusOp, k: int)
    requires
        0 <= k < 160,
        s.dma_active,
        s.dma_progress == k,
        s.dma == s0.dma,
        s.cartridge == s0.cartridge,
        s.wram == s0.wram,
        s.ppu.vram == s0.ppu.vram,
        s.ppu.oam.len() == 0xA0,
        s.dma_start_clock == s0.dma_start_clock,
        s.clock_count == s0.dma_start_clock + 4 * k,
        s0.dma_start_clock + 640 <= u64::MAX,
        forall|j: int| 0 <= j < k ==> s.ppu.oam[j] == spec_dma_source(s0, j),
    ensures
        ({
            let t = spec_apply_op(s, op);
            &&& t.dma == s0.dma
            &&& t.cartridge == s0.cartridge
            &&& t.wram == s0.wram
            &&& t.ppu.vram == s0.ppu.vram
            &&& t.ppu.oam.len() == 0xA0
            &&& t.dma_start_clock == s0.dma_start_clock
            &&& t.clock_count == s0.dma_start_clock + 4 * (k + 1)
            &&& t.dma_active == (k + 1 < 160)
            &&& t.dma_progress == k + 1
            &&& forall|j: int| 0 <= j < k + 1 ==> t.ppu.oam[j] == spec_dma_source(s0, j)
        }),
{
    let w = match op {
        BusOp::Read(a) => spec_gb_read_sync(s, a),
        BusOp::Write(a, v) => spec_gb_write(s, a, v),
    };
    assert(w.dma == s.dma && w.cartridge == s.cartridge && w.wram == s.wram && w.ppu == s.ppu
        && w.dma_active && w.dma_progress == k && w.dma_start_clock == s.dma_start_clock
        && w.clock_count == s.clock_count);
    let clock2 = (s.clock_count + 4) as u64;
    let w2 = GameBoyV { clock_count: clock2, ..w };
    let sd = crate::gameboy::spec_dma_step(w2);
    assert((clock2 - s0.dma_start_clock) / 4 == k + 1);
    assert(sd.dma_progress == k + 1 && sd.dma_active == (k + 1 < 160));
    assert forall|j: int| 0 <= j < k + 1 implies sd.ppu.oam[j] == spec_dma_source(s0, j) by {
        if j == k {
            assert(spec_dma_source(w2, j) == spec_dma_source(s0, j));
        }
    }
    lemma_ppu_run_keeps_memory(sd.ppu, clock2);
    assert(spec_apply_op(s, op) == spec_gb_tick(w, 4));
    assert(spec_apply_op(s, op).ppu.oam == sd.ppu.oam);
}

/// The whole transfer, by induction over the remaining bus operations.
proof fn lemma_dma_ops_run(s0: GameBoyV, s: GameBoyV, ops: Seq<BusOp>, k: int)
    requires
        0 <= k <= 160,
        k + ops.len() == 160,
        s0.dma_start_clock + 640 <= u64::MAX,
        k < 160 ==> {
            &&& s.dma_active
            &&& s.dma_progress == k
            &&& s.dma == s0.dma
            &&& s.cartridge == s0.cartridge
            &&& s.wram == s0.wram
            &&& s.ppu.vram == s0.ppu.vram
            &&& s.dma_start_clock == s0.dma_start_clock
            &&& s.clock_count == s0.dma_start_clock + 4 * k
        },
        s.ppu.oam.len() == 0xA0,
        forall|j: int| 0 <= j < k ==> s.ppu.oam[j] == spec_dma_source(s0, j),
        k == 160 ==> !s.dma_active,
    ensures
        !spec_apply_ops(s, ops).dma_active,
        spec_apply_ops(s, ops).ppu.oam.len() == 0xA0,
        forall|i: int| 0 <= i < 160 ==> spec_apply_ops(s, ops).ppu.oam[i] == spec_dma_source(
            s0,
            i,
        ),
    decreases ops.len(),
{
    if ops.len() == 0 {
    } else {
        lemma_dma_op_step(s0, s, ops[0], k);
        lemma_dma_ops_run(s0, spec_apply_op(s, ops[0]), ops.drop_first(), k + 1);
    }
}

/// Writing a source page to the transfer register and letting exactly 160
/// bus operations pass, whatever they read or write, copies the page's
/// 160 bytes into object memory, one per four T-cycles: the lockout drops
/// every write outside high RAM, so nothing can disturb the source, and
/// the transfer ends with the last of those operations. For source page
/// 0xC1 the bytes are work RAM 0x100 through 0x19F, as seen before the
/// write.
pub proof fn lemma_dma_transfer(s: GameBoyV, page: u8, ops: Seq<BusOp>)
    requires
        gb_wf(s),
        !s.dma_active,
        s.clock_count + 640 <= u64::MAX,
        ops.len() == 160,
    ensures
        ({
            let d = spec_gb_write(s, 0xFF46, page);
            let f = spec_apply_ops(d, ops);
            &&& !f.dma_active
            &&& forall|i: int| 0 <= i < 160 ==> f.ppu.oam[i] == spec_dma_source(d, i)
            &&& (page == 0xC1 ==> forall|i: int| 0 <= i < 160 ==> f.ppu.oam[i] == s.wram[0x100
                + i])
        }),
{
    let d = spec_gb_write(s, 0xFF46, page);
    assert(d.dma_active && d.dma_progress == 0 && d.dma == page && d.dma_start_clock
        == s.clock_count && d.clock_count == s.clock_count && d.ppu == s.ppu && d.wram == s.wram
        && d.cartridge == s.cartridge);
    lemma_dma_ops_run(d, d, ops, 0);
    if page == 0xC1 {
        assert forall|i: int| 0 <= i < 160 implies spec_apply_ops(d, ops).ppu.oam[i] == s.wram[
            0x100 + i
        ] by {
            assert(spec_apply_ops(d, ops).ppu.oam[i] == spec_dma_source(d, i));
            assert(0xC000 <= 0xC1 * 256 + i < 0xE000);
            assert(spec_dma_source(d, i) == s.wram[0x100 + i]);
        }
    }
}

} // verus!
