use vstd::prelude::*;

verus! {

/// Number of BP (blitting processor) registers.
pub const BP_REG_SIZE: usize = 0x100;
/// Number of CP registers, addressed from index 0x20.
pub const CP_REG_SIZE: usize = 0x80;
/// Number of XF words (matrices, lights and registers up to 0x1057).
pub const XF_MEM_SIZE: usize = 0x1058;

/// First CP register index handled by the command processor.
pub const CP_REG_BASE: usize = 0x20;

/// FIFO command: load a CP register (1 + 1 + 4 bytes).
pub const CP_CMD_BYTE: u8 = 0x08;
/// FIFO command: load XF words (1 + 2 + 2 + 4·n bytes).
pub const XF_CMD_BYTE: u8 = 0x10;
/// FIFO command: load a BP register (1 + 4 bytes).
pub const BP_CMD_BYTE: u8 = 0x61;
/// Primitive command for triangle lists (low three bits select the format).
pub const DRAW_TRIANGLES_CMD: u8 = 0x90;

/// Big-endian 16-bit value of `hi`, `lo`.
pub open spec fn be16(hi: u8, lo: u8) -> int {
    hi * 0x100 + lo
}

/// Big-endian 32-bit value of four bytes of `d` starting at `i`.
pub open spec fn be32_at(d: Seq<u8>, i: int) -> u32 {
    (d[i] * 0x100_0000 + d[i + 1] * 0x1_0000 + d[i + 2] * 0x100 + d[i + 3]) as u32
}

/// Abstract GX state: register files and the pending FIFO bytes.
pub struct GxView {
    pub raise_interrupt: bool,
    pub bp_regs: Seq<u32>,
    pub cp_regs: Seq<u32>,
    pub xf_mem: Seq<u32>,
    pub fifo: Seq<u8>,
}

impl GxView {
    pub open spec fn wf(self) -> bool {
        &&& self.bp_regs.len() == BP_REG_SIZE
        &&& self.cp_regs.len() == CP_REG_SIZE
        &&& self.xf_mem.len() == XF_MEM_SIZE
    }

    /// BP load: register `data[0]` gets the 24-bit value; a PE-finish
    /// write (register 0x45, bit 1) requests an interrupt.
    pub open spec fn load_bp(self, data: Seq<u8>) -> GxView {
        let idx = data[0] as int;
        let val = (data[1] * 0x1_0000 + data[2] * 0x100 + data[3]) as u32;
        GxView {
            bp_regs: self.bp_regs.update(idx, val),
            raise_interrupt: self.raise_interrupt || (idx == 0x45 && val & 0x02 != 0),
            ..self
        }
    }

    /// CP load: register `data[0]` (from 0x20) gets the 32-bit value;
    /// indices outside the CP file are ignored.
    pub open spec fn load_cp(self, data: Seq<u8>) -> GxView {
        let local = data[0] - CP_REG_BASE;
        if 0 <= local < self.cp_regs.len() {
            GxView { cp_regs: self.cp_regs.update(local, be32_at(data, 1)), ..self }
        } else {
            self
        }
    }

    /// XF load: `length + 1` words written from `addr`; words past the end
    /// of XF memory are dropped.
    pub open spec fn load_xf(self, data: Seq<u8>) -> GxView {
        let n = be16(data[0], data[1]) + 1;
        let addr = be16(data[2], data[3]);
        GxView {
            xf_mem: Seq::new(
                self.xf_mem.len(),
                |r: int|
                    if addr <= r < addr + n {
                        be32_at(data, 4 + (r - addr) * 4)
                    } else {
                        self.xf_mem[r]
                    },
            ),
            ..self
        }
    }

    /// Executes the complete commands of `fifo` from `pos`; returns the new
    /// state and the position of the first unconsumed byte.
    pub open spec fn run_commands(self, fifo: Seq<u8>, pos: int) -> (GxView, int)
        decreases fifo.len() - pos,
    {
        if pos >= fifo.len() || pos < 0 {
            (self, pos)
        } else {
            let cmd = fifo[pos];
            let remaining = fifo.len() - pos;
            if cmd == CP_CMD_BYTE {
                if remaining < 6 {
                    (self, pos)
                } else {
                    self.load_cp(fifo.subrange(pos + 1, pos + 6)).run_commands(fifo, pos + 6)
                }
            } else if cmd == XF_CMD_BYTE {
                if remaining < 5 {
                    (self, pos)
                } else {
                    let total = 5 + (be16(fifo[pos + 1], fifo[pos + 2]) + 1) * 4;
                    if remaining < total {
                        (self, pos)
                    } else {
                        self.load_xf(fifo.subrange(pos + 1, pos + total)).run_commands(
                            fifo,
                            pos + total,
                        )
                    }
                }
            } else if cmd == BP_CMD_BYTE {
                if remaining < 5 {
                    (self, pos)
                } else {
                    self.load_bp(fifo.subrange(pos + 1, pos + 5)).run_commands(fifo, pos + 5)
                }
            } else {
                self.run_commands(fifo, pos + 1)
            }
        }
    }

    /// State after executing every complete command at the front of the
    /// FIFO; an incomplete trailing command stays queued.
    pub open spec fn drained(self) -> GxView {
        let (g, pos) = self.run_commands(self.fifo, 0);
        GxView { fifo: self.fifo.skip(pos), ..g }
    }

    /// State after `bytes` are written to the FIFO.
    pub open spec fn after_write(self, bytes: Seq<u8>) -> GxView {
        GxView { fifo: self.fifo + bytes, ..self }.drained()
    }
}

pub proof fn lemma_run_commands_wf(g: GxView, fifo: Seq<u8>, pos: int)
    requires
        g.wf(),
    ensures
        g.run_commands(fifo, pos).0.wf(),
        pos <= g.run_commands(fifo, pos).1,
        0 <= pos ==> g.run_commands(fifo, pos).1 <= fifo.len() || g.run_commands(fifo, pos).1
            == pos,
    decreases fifo.len() - pos,
{
    if pos >= fifo.len() || pos < 0 {
    } else {
        let cmd = fifo[pos];
        let remaining = fifo.len() - pos;
        if cmd == CP_CMD_BYTE {
            if remaining >= 6 {
                lemma_run_commands_wf(g.load_cp(fifo.subrange(pos + 1, pos + 6)), fifo, pos + 6);
            }
        } else if cmd == XF_CMD_BYTE {
            if remaining >= 5 {
                let total = 5 + (be16(fifo[pos + 1], fifo[pos + 2]) + 1) * 4;
                if remaining >= total {
                    lemma_run_commands_wf(
                        g.load_xf(fifo.subrange(pos + 1, pos + total)),
                        fifo,
                        pos + total,
                    );
                }
            }
        } else if cmd == BP_CMD_BYTE {
            if remaining >= 5 {
                lemma_run_commands_wf(g.load_bp(fifo.subrange(pos + 1, pos + 5)), fifo, pos + 5);
            }
        } else {
            lemma_run_commands_wf(g, fifo, pos + 1);
        }
    }
}

fn be32(a: u8, b: u8, c: u8, d: u8) -> (r: u32)
    ensures
        r == (a * 0x100_0000 + b * 0x1_0000 + c * 0x100 + d) as u32,
{
    let (a, b, c, d) = (a as u32, b as u32, c as u32, d as u32);
    assert((a << 24) | (b << 16) | (c << 8) | d == a * 0x100_0000 + b * 0x1_0000 + c * 0x100 + d)
        by (bit_vector)
        requires
            a < 256,
            b < 256,
            c < 256,
            d < 256,
    ;
    (a << 24) | (b << 16) | (c << 8) | d
}

/// The graphics FIFO front end: decodes BP/CP/XF register loads.
pub struct Gx {
    pub raise_interrupt: bool,
    bp_regs: Vec<u32>,
    cp_regs: Vec<u32>,
    xf_mem: Vec<u32>,
    fifo: Vec<u8>,
}

impl View for Gx {
    type V = GxView;

    closed spec fn view(&self) -> GxView {
        GxView {
            raise_interrupt: self.raise_interrupt,
            bp_regs: self.bp_regs@,
            cp_regs: self.cp_regs@,
            xf_mem: self.xf_mem@,
            fifo: self.fifo@,
        }
    }
}

impl Gx {
    pub fn new() -> (r: Gx)
        ensures
            r@.wf(),
            !r@.raise_interrupt,
            r@.fifo.len() == 0,
            forall|i: int| 0 <= i < BP_REG_SIZE ==> r@.bp_regs[i] == 0,
            forall|i: int| 0 <= i < CP_REG_SIZE ==> r@.cp_regs[i] == 0,
            forall|i: int| 0 <= i < XF_MEM_SIZE ==> r@.xf_mem[i] == 0,
    {
        Gx {
            raise_interrupt: false,
            bp_regs: vec![0; BP_REG_SIZE],
            cp_regs: vec![0; CP_REG_SIZE],
            xf_mem: vec![0; XF_MEM_SIZE],
            fifo: Vec::with_capacity(256),
        }
    }

    /// Whether a PE-finish interrupt is waiting to be raised.
    pub fn interrupt_pending(&self) -> (r: bool)
        ensures
            r == self@.raise_interrupt,
    {
        self.raise_interrupt
    }

    /// Drops the pending PE-finish request.
    pub fn clear_interrupt(&mut self)
        ensures
            final(self)@ == (GxView { raise_interrupt: false, ..old(self)@ }),
    {
        self.raise_interrupt = false;
    }

    /// Value of BP register `idx`.
    pub fn bp_reg(&self, idx: usize) -> (r: u32)
        requires
            self@.wf(),
            idx < BP_REG_SIZE,
        ensures
            r == self@.bp_regs[idx as int],
    {
        self.bp_regs[idx]
    }

    /// Value of CP register `idx` (counted from 0x20).
    pub fn cp_reg(&self, idx: usize) -> (r: u32)
        requires
            self@.wf(),
            idx < CP_REG_SIZE,
        ensures
            r == self@.cp_regs[idx as int],
    {
        self.cp_regs[idx]
    }

    /// XF word at `addr`.
    pub fn xf_word(&self, addr: usize) -> (r: u32)
        requires
            self@.wf(),
            addr < XF_MEM_SIZE,
        ensures
            r == self@.xf_mem[addr as int],
    {
        self.xf_mem[addr]
    }

    /// Number of bytes waiting in the FIFO.
    pub fn pending_bytes(&self) -> (r: usize)
        ensures
            r == self@.fifo.len(),
    {
        self.fifo.len()
    }

    pub fn mmio_write_u8(&mut self, val: u8)
        requires
            old(self)@.wf(),
            old(self)@.fifo.len() + 1 <= usize::MAX,
        ensures
            final(self)@.wf(),
            final(self)@ == old(self)@.after_write(seq![val]),
    {
        self.fifo.push(val);
        assert(self.fifo@ =~= old(self)@.fifo + seq![val]);
        self.drain_fifo();
    }

    pub fn mmio_write_u16(&mut self, val: u16)
        requires
            old(self)@.wf(),
            old(self)@.fifo.len() + 2 <= usize::MAX,
        ensures
            final(self)@.wf(),
            final(self)@ == old(self)@.after_write(seq![(val / 0x100) as u8, (val % 0x100) as u8]),
    {
        proof {
            crate::bits::lemma_u16_bytes(val);
        }
        self.fifo.push((val >> 8u16) as u8);
        self.fifo.push(val as u8);
        assert(self.fifo@ =~= old(self)@.fifo + seq![(val / 0x100) as u8, (val % 0x100) as u8]);
        self.drain_fifo();
    }

    pub fn mmio_write_u32(&mut self, val: u32)
        requires
            old(self)@.wf(),
            old(self)@.fifo.len() + 4 <= usize::MAX,
        ensures
            final(self)@.wf(),
            final(self)@ == old(self)@.after_write(
                seq![
                    (val / 0x100_0000) as u8,
                    ((val / 0x1_0000) % 0x100) as u8,
                    ((val / 0x100) % 0x100) as u8,
                    (val % 0x100) as u8,
                ],
            ),
    {
        assert((val >> 24u32) as u8 == (val / 0x100_0000) as u8 && (val >> 16u32) as u8 == ((val
            / 0x1_0000) % 0x100) as u8 && (val >> 8u32) as u8 == ((val / 0x100) % 0x100) as u8
            && val as u8 == (val % 0x100) as u8) by (bit_vector);
        self.fifo.push((val >> 24u32) as u8);
        self.fifo.push((val >> 16u32) as u8);
        self.fifo.push((val >> 8u32) as u8);
        self.fifo.push(val as u8);
        assert(self.fifo@ =~= old(self)@.fifo + seq![
            (val / 0x100_0000) as u8,
            ((val / 0x1_0000) % 0x100) as u8,
            ((val / 0x100) % 0x100) as u8,
            (val % 0x100) as u8,
        ]);
        self.drain_fifo();
    }

    /// Executes every complete command queued in the FIFO.
    fn drain_fifo(&mut self)
        requires
            old(self)@.wf(),
        ensures
            final(self)@ == old(self)@.drained(),
            final(self)@.wf(),
    {
        let mut pos: usize = 0;
        let ghost g0 = self@;
        let ghost fifo = self.fifo@;
        loop
            invariant
                0 <= pos <= fifo.len(),
                self.fifo@ == fifo,
                self@.wf(),
                g0 == (GxView { fifo, ..g0 }),
                g0.wf(),
                self@.run_commands(fifo, pos as int) == g0.run_commands(fifo, 0),
            ensures
                0 <= pos <= fifo.len(),
                self.fifo@ == fifo,
                self@.wf(),
                self@.run_commands(fifo, pos as int) == (self@, pos as int),
                g0.run_commands(fifo, 0) == (self@, pos as int),
            decreases fifo.len() - pos,
        {
            let remaining = self.fifo.len() - pos;
            if remaining == 0 {
                break;
            }
            let cmd = self.fifo[pos];
            if cmd == CP_CMD_BYTE {
                if remaining < 6 {
                    break;
                }
                let data = vstd::slice::slice_subrange(self.fifo.as_slice(), pos + 1, pos + 6);
                let data = vstd::slice::slice_to_vec(data);
                self.load_cp(&data);
                pos += 6;
            } else if cmd == XF_CMD_BYTE {
                if remaining < 5 {
                    break;
                }
                let length = (self.fifo[pos + 1] as usize) * 256 + (self.fifo[pos + 2] as usize);
                let n = length + 1;
                let total = 5 + n * 4;
                if remaining < total {
                    break;
                }
                let data = vstd::slice::slice_subrange(self.fifo.as_slice(), pos + 1, pos + total);
                let data = vstd::slice::slice_to_vec(data);
                self.load_xf(&data);
                pos += total;
            } else if cmd == BP_CMD_BYTE {
                if remaining < 5 {
                    break;
                }
                let data = vstd::slice::slice_subrange(self.fifo.as_slice(), pos + 1, pos + 5);
                let data = vstd::slice::slice_to_vec(data);
                self.load_bp(&data);
                pos += 5;
            } else {
                pos += 1;
            }
        }
        if pos > 0 {
            let rest = vstd::slice::slice_subrange(self.fifo.as_slice(), pos, self.fifo.len());
            self.fifo = vstd::slice::slice_to_vec(rest);
        }
        assert(self.fifo@ =~= fifo.skip(pos as int));
    }

    fn load_bp(&mut self, data: &[u8])
        requires
            old(self)@.wf(),
            data@.len() >= 4,
        ensures
            final(self)@ == old(self)@.load_bp(data@),
    {
        let idx = data[0] as usize;
        let val = be32(0, data[1], data[2], data[3]);
        self.bp_regs.set(idx, val);
        if idx == 0x45 && (val & 0x02) != 0 {
            self.raise_interrupt = true;
        }
    }

    fn load_cp(&mut self, data: &[u8])
        requires
            old(self)@.wf(),
            data@.len() >= 5,
        ensures
            final(self)@ == old(self)@.load_cp(data@),
    {
        let idx = data[0] as usize;
        let val = be32(data[1], data[2], data[3], data[4]);
        let local = idx.wrapping_sub(CP_REG_BASE);
        if local < self.cp_regs.len() {
            self.cp_regs.set(local, val);
        }
    }

    fn load_xf(&mut self, data: &[u8])
        requires
            old(self)@.wf(),
            data@.len() >= 4,
            data@.len() >= 4 + (be16(data@[0], data@[1]) + 1) * 4,
        ensures
            final(self)@ == old(self)@.load_xf(data@),
    {
        let length = (data[0] as usize) * 256 + (data[1] as usize);
        let addr = (data[2] as usize) * 256 + (data[3] as usize);
        let n = length + 1;
        let ghost x0 = self.xf_mem@;
        let mut i: usize = 0;
        while i < n
            invariant
                i <= n,
                n == be16(data@[0], data@[1]) + 1,
                addr == be16(data@[2], data@[3]),
                data@.len() >= 4 + n * 4,
                x0 == old(self)@.xf_mem,
                x0.len() == XF_MEM_SIZE,
                self@ == (GxView { xf_mem: self.xf_mem@, ..old(self)@ }),
                self.xf_mem@ == Seq::new(
                    x0.len(),
                    |r: int|
                        if addr <= r < addr + i {
                            be32_at(data@, 4 + (r - addr) * 4)
                        } else {
                            x0[r]
                        },
                ),
            decreases n - i,
        {
            let offset = 4 + i * 4;
            let val = be32(data[offset], data[offset + 1], data[offset + 2], data[offset + 3]);
            let reg = addr + i;
            if reg < self.xf_mem.len() {
                self.xf_mem.set(reg, val);
            }
            i += 1;
            assert(self.xf_mem@ =~= Seq::new(
                x0.len(),
                |r: int|
                    if addr <= r < addr + i {
                        be32_at(data@, 4 + (r - addr) * 4)
                    } else {
                        x0[r]
                    },
            ));
        }
        assert(self@.xf_mem =~= old(self)@.load_xf(data@).xf_mem);
    }
}

/// Primitive kinds a draw command can start.
#[derive(Clone, Copy, Debug, PartialEq, Eq, Structural)]
pub enum Primitive {
    Triangles,
}

impl Primitive {
    /// Primitive of a draw command; its low three bits select the vertex
    /// format and are ignored here.
    pub fn from_cmd(cmd: u8) -> (r: Option<Primitive>)
        ensures
            r == if cmd & !0b111u8 == DRAW_TRIANGLES_CMD {
                Some(Primitive::Triangles)
            } else {
                None
            },
    {
        if cmd & !0b111u8 == DRAW_TRIANGLES_CMD {
            Some(Primitive::Triangles)
        } else {
            None
        }
    }
}

} // verus!
