use crate::mmu::{be32_of, mapped, Mmu};
use std::collections::VecDeque;
use vstd::prelude::*;

verus! {

/// IOS error code for an invalid argument.
pub const IPC_EINVAL: i32 = -4;

/// `/dev/stm/eventhook`: accepts every request.
pub struct EventHook;

impl EventHook {
    /// Answers every ioctl with success.
    pub fn ioctl(&mut self, cmd: u32, in_buf: u32, in_len: u32, out_buf: u32, out_len: u32) -> (r: i32)
        ensures
            r == 0,
    {
        0
    }
}

/// `/dev/stm/immediate`: no request is implemented.
pub struct Immediate;

impl Immediate {
    /// Rejects every ioctl as an invalid argument.
    pub fn ioctl(&mut self, cmd: u32, in_buf: u32, in_len: u32, out_buf: u32, out_len: u32) -> (r: i32)
        ensures
            r == IPC_EINVAL,
    {
        IPC_EINVAL
    }
}

/// USB request kinds of the Bluetooth dongle's ioctlv.
pub const USB_CTRL: u32 = 0;
pub const USB_BULK: u32 = 1;
pub const USB_INTR: u32 = 2;
/// HCI event (interrupt IN) endpoint.
pub const EP_INT_IN: u8 = 0x81;
/// Bulk OUT endpoint.
pub const EP_BULK_OUT: u8 = 0x02;

/// HCI event code of Command_Complete.
pub const EV_COMMAND_COMPLETE: u8 = 0x0E;
pub const OP_READ_LOCAL_VERSION: u16 = 0x1001;
pub const OP_READ_LOCAL_FEATURES: u16 = 0x1003;
pub const OP_READ_BUFFER_SIZE: u16 = 0x1005;
pub const OP_READ_BD_ADDR: u16 = 0x1009;

/// Return parameters of the Command_Complete event for `opcode`: real
/// answers for the four initialisation reads, a bare success status
/// otherwise.
pub open spec fn command_complete_payload(opcode: u16) -> Seq<u8> {
    if opcode == OP_READ_LOCAL_VERSION {
        seq![0x00u8, 0x03, 0x40, 0x0E, 0x03, 0x0F, 0x00, 0x40, 0x0E]
    } else if opcode == OP_READ_LOCAL_FEATURES {
        seq![0x00u8, 0xBC, 0x02, 0x04, 0x38, 0x08, 0x08, 0x00, 0x00]
    } else if opcode == OP_READ_BUFFER_SIZE {
        seq![0x00u8, 0x53, 0x01, 0x40, 0x08, 0x00, 0x08, 0x00]
    } else if opcode == OP_READ_BD_ADDR {
        seq![0x00u8, 0x11, 0x22, 0x33, 0x44, 0x55, 0x66]
    } else {
        seq![0x00u8]
    }
}

/// The Command_Complete event for `opcode`: event code, parameter length,
/// one free command slot, the opcode little-endian, then the payload.
pub open spec fn command_complete_event(opcode: u16) -> Seq<u8> {
    let payload = command_complete_payload(opcode);
    seq![
        EV_COMMAND_COMPLETE,
        (3 + payload.len()) as u8,
        0x01u8,
        (opcode % 0x100) as u8,
        (opcode / 0x100) as u8,
    ] + payload
}

/// Word `idx` of an ioctlv vector table (each entry is a pointer and a
/// length, eight bytes).
pub open spec fn vec_entry(m: Mmu, vec_ptr: u32, idx: int) -> u32 {
    let p = vec_ptr + idx * 8;
    be32_of(m.mem(p), m.mem(p + 1), m.mem(p + 2), m.mem(p + 3))
}

/// Vector entry `idx` is readable and points at `n` readable bytes.
pub open spec fn entry_readable(m: Mmu, vec_ptr: u32, idx: int, n: int) -> bool {
    mapped(vec_ptr + idx * 8, 4) && mapped(vec_entry(m, vec_ptr, idx) as int, n)
}

/// First byte of the buffer of vector entry `idx`.
pub open spec fn entry_byte(m: Mmu, vec_ptr: u32, idx: int) -> u8 {
    m.mem(vec_entry(m, vec_ptr, idx) as int)
}

/// Little-endian halfword at the buffer of vector entry `idx`.
pub open spec fn entry_le16(m: Mmu, vec_ptr: u32, idx: int) -> u16 {
    let p = vec_entry(m, vec_ptr, idx) as int;
    (m.mem(p) + m.mem(p + 1) * 0x100) as u16
}

/// Control transfers: an HCI command (class request 0x20, request 0) of
/// at least three bytes; its opcode is queued for a Command_Complete.
pub open spec fn control_queues(m: Mmu, vec_ptr: u32) -> bool {
    entry_byte(m, vec_ptr, 0) == 0x20 && entry_byte(m, vec_ptr, 1) == 0 && entry_le16(m, vec_ptr, 4) >= 3
}

/// Every guest pointer an ioctlv of `cmd` follows is mapped.
pub open spec fn ioctlv_ok(m: Mmu, pending: Seq<Seq<u8>>, cmd: u32, vec_ptr: u32) -> bool {
    if cmd == USB_CTRL {
        &&& entry_readable(m, vec_ptr, 0, 1)
        &&& entry_readable(m, vec_ptr, 1, 1)
        &&& (entry_byte(m, vec_ptr, 0) == 0x20 && entry_byte(m, vec_ptr, 1) == 0) ==> {
            &&& entry_readable(m, vec_ptr, 4, 2)
            &&& entry_le16(m, vec_ptr, 4) >= 3 ==> entry_readable(m, vec_ptr, 6, 2)
        }
    } else if cmd == USB_INTR {
        &&& entry_readable(m, vec_ptr, 0, 1)
        &&& (entry_byte(m, vec_ptr, 0) == EP_INT_IN && pending.len() > 0) ==> entry_readable(
            m,
            vec_ptr,
            2,
            pending[0].len() as int,
        )
    } else if cmd == USB_BULK {
        &&& entry_readable(m, vec_ptr, 0, 1)
        &&& entry_byte(m, vec_ptr, 0) == EP_BULK_OUT ==> entry_readable(m, vec_ptr, 1, 2)
    } else {
        true
    }
}

/// The Bluetooth dongle behind `/dev/usb/oh1/57e/305`: answers HCI
/// commands with queued Command_Complete events.
pub struct Bluetooth {
    pending_hci: VecDeque<Vec<u8>>,
}

impl View for Bluetooth {
    type V = Seq<Seq<u8>>;

    closed spec fn view(&self) -> Seq<Seq<u8>> {
        self.pending_hci@.map_values(|e: Vec<u8>| e@)
    }
}

impl Bluetooth {
    /// Every queued event is short: at most a header and nine bytes.
    pub open spec fn wf(&self) -> bool {
        forall|i: int| 0 <= i < self@.len() ==> #[trigger] self@[i].len() <= 14
    }

    pub fn new() -> (r: Self)
        ensures
            r@ == Seq::<Seq<u8>>::empty(),
            r.wf(),
    {
        let r = Self { pending_hci: VecDeque::new() };
        assert(r@ =~= Seq::<Seq<u8>>::empty());
        r
    }

    /// Appends the Command_Complete event for `opcode` to the queue.
    pub fn queue_command_complete(&mut self, opcode: u16)
        requires
            old(self).wf(),
        ensures
            final(self).wf(),
            final(self)@ == old(self)@.push(command_complete_event(opcode)),
    {
        let payload: Vec<u8> = if opcode == OP_READ_LOCAL_VERSION {
            vec![0x00, 0x03, 0x40, 0x0E, 0x03, 0x0F, 0x00, 0x40, 0x0E]
        } else if opcode == OP_READ_LOCAL_FEATURES {
            vec![0x00, 0xBC, 0x02, 0x04, 0x38, 0x08, 0x08, 0x00, 0x00]
        } else if opcode == OP_READ_BUFFER_SIZE {
            vec![0x00, 0x53, 0x01, 0x40, 0x08, 0x00, 0x08, 0x00]
        } else if opcode == OP_READ_BD_ADDR {
            vec![0x00, 0x11, 0x22, 0x33, 0x44, 0x55, 0x66]
        } else {
            vec![0x00]
        };
        assert(payload@ =~= command_complete_payload(opcode));
        let mut event: Vec<u8> = vec![
            EV_COMMAND_COMPLETE,
            (3 + payload.len()) as u8,
            0x01,
            (opcode % 0x100) as u8,
            (opcode / 0x100) as u8,
        ];
        let mut i: usize = 0;
        while i < payload.len()
            invariant
                i <= payload@.len(),
                payload@.len() <= 9,
                event@ == seq![
                    EV_COMMAND_COMPLETE,
                    (3 + payload@.len()) as u8,
                    0x01u8,
                    (opcode % 0x100) as u8,
                    (opcode / 0x100) as u8,
                ] + payload@.take(i as int),
            decreases payload@.len() - i,
        {
            event.push(payload[i]);
            assert(payload@.take(i as int + 1) =~= payload@.take(i as int).push(payload@[i as int]));
            i = i + 1;
        }
        assert(payload@.take(payload@.len() as int) =~= payload@);
        let ghost before = self@;
        self.pending_hci.push_back(event);
        assert(self@ =~= before.push(command_complete_event(opcode)));
    }

    fn vec_data(m: &Mmu, vec_ptr: u32, idx: u32) -> (r: u32)
        requires
            m.wf(),
            idx < 8,
            mapped(vec_ptr + idx * 8, 4),
        ensures
            r == vec_entry(*m, vec_ptr, idx as int),
    {
        m.phys_read_u32(vec_ptr + idx * 8)
    }

    fn read_le16(m: &Mmu, p: u32) -> (r: u16)
        requires
            m.wf(),
            mapped(p as int, 2),
        ensures
            r == (m.mem(p as int) + m.mem(p + 1) * 0x100) as u16,
    {
        let lo = m.phys_read_u8(p) as u16;
        let hi = m.phys_read_u8(p + 1) as u16;
        lo + hi * 0x100
    }

    /// Control endpoint: queues a Command_Complete for each HCI command.
    fn handle_control(&mut self, m: &Mmu, vec_ptr: u32) -> (r: i32)
        requires
            old(self).wf(),
            m.wf(),
            ioctlv_ok(*m, old(self)@, USB_CTRL, vec_ptr),
        ensures
            r == 0,
            final(self).wf(),
            final(self)@ == if control_queues(*m, vec_ptr) {
                old(self)@.push(command_complete_event(entry_le16(*m, vec_ptr, 6)))
            } else {
                old(self)@
            },
    {
        let bm_request = m.phys_read_u8(Self::vec_data(m, vec_ptr, 0));
        let b_request = m.phys_read_u8(Self::vec_data(m, vec_ptr, 1));
        if bm_request != 0x20 || b_request != 0 {
            return 0;
        }
        let w_length = Self::read_le16(m, Self::vec_data(m, vec_ptr, 4));
        if w_length < 3 {
            return 0;
        }
        let opcode = Self::read_le16(m, Self::vec_data(m, vec_ptr, 6));
        self.queue_command_complete(opcode);
        0
    }

    /// Bulk endpoints: outgoing ACL data is dropped, incoming gets nothing.
    fn handle_bulk(&self, m: &Mmu, vec_ptr: u32) -> (r: i32)
        requires
            m.wf(),
            ioctlv_ok(*m, self@, USB_BULK, vec_ptr),
        ensures
            r == 0,
    {
        let endpoint = m.phys_read_u8(Self::vec_data(m, vec_ptr, 0));
        if endpoint == EP_BULK_OUT {
            let _w_length = Self::read_le16(m, Self::vec_data(m, vec_ptr, 1));
        }
        0
    }

    /// HCI event endpoint: delivers the oldest queued event into the
    /// guest buffer and returns its length, or 0 when none is queued.
    fn handle_interrupt(&mut self, m: &mut Mmu, vec_ptr: u32) -> (r: i32)
        requires
            old(self).wf(),
            old(m).wf(),
            ioctlv_ok(*old(m), old(self)@, USB_INTR, vec_ptr),
        ensures
            final(self).wf(),
            final(m).wf(),
            ({
                let delivers = entry_byte(*old(m), vec_ptr, 0) == EP_INT_IN && old(self)@.len() > 0;
                if delivers {
                    let ev = old(self)@[0];
                    let buf = vec_entry(*old(m), vec_ptr, 2) as int;
                    &&& r == ev.len()
                    &&& final(self)@ == old(self)@.drop_first()
                    &&& forall|i: int| 0 <= i < ev.len() ==> #[trigger] final(m).mem(buf + i) == ev[i]
                    &&& final(m).same_outside(old(m), buf, ev.len() as int)
                } else {
                    &&& r == 0
                    &&& final(self)@ == old(self)@
                    &&& *final(m) == *old(m)
                }
            }),
    {
        let ep = m.phys_read_u8(Self::vec_data(m, vec_ptr, 0));
        if ep != EP_INT_IN {
            return 0;
        }
        let ghost before = self@;
        let event = match self.pending_hci.pop_front() {
            Some(e) => e,
            None => {
                return 0;
            },
        };
        assert(self@ =~= before.drop_first());
        assert(event@ == before[0]);
        let buf_ptr = Self::vec_data(m, vec_ptr, 2);
        let ghost m0 = *m;
        let mut i: usize = 0;
        while i < event.len()
            invariant
                m.wf(),
                i <= event@.len() <= 14,
                mapped(buf_ptr as int, event@.len() as int),
                forall|j: int| 0 <= j < i ==> #[trigger] m.mem(buf_ptr + j) == event@[j],
                m.same_outside(&m0, buf_ptr as int, i as int),
            decreases event@.len() - i,
        {
            m.phys_write_u8(buf_ptr + i as u32, event[i]);
            i = i + 1;
        }
        event.len() as i32
    }

    /// Dispatches a USB ioctlv; unknown requests succeed and do nothing.
    pub fn ioctlv(&mut self, m: &mut Mmu, cmd: u32, in_count: u32, io_count: u32, vec_ptr: u32) -> (r: i32)
        requires
            old(self).wf(),
            old(m).wf(),
            ioctlv_ok(*old(m), old(self)@, cmd, vec_ptr),
        ensures
            final(self).wf(),
            final(m).wf(),
            cmd == USB_CTRL ==> r == 0 && *final(m) == *old(m) && final(self)@ == if control_queues(
                *old(m),
                vec_ptr,
            ) {
                old(self)@.push(command_complete_event(entry_le16(*old(m), vec_ptr, 6)))
            } else {
                old(self)@
            },
            cmd == USB_INTR ==> ({
                let delivers = entry_byte(*old(m), vec_ptr, 0) == EP_INT_IN && old(self)@.len() > 0;
                if delivers {
                    let ev = old(self)@[0];
                    let buf = vec_entry(*old(m), vec_ptr, 2) as int;
                    &&& r == ev.len()
                    &&& final(self)@ == old(self)@.drop_first()
                    &&& forall|i: int| 0 <= i < ev.len() ==> #[trigger] final(m).mem(buf + i) == ev[i]
                    &&& final(m).same_outside(old(m), buf, ev.len() as int)
                } else {
                    &&& r == 0
                    &&& final(self)@ == old(self)@
                    &&& *final(m) == *old(m)
                }
            }),
            cmd != USB_CTRL && cmd != USB_INTR ==> r == 0 && *final(m) == *old(m) && final(self)@ == old(
                self,
            )@,
    {
        if cmd == USB_CTRL {
            self.handle_control(m, vec_ptr)
        } else if cmd == USB_INTR {
            self.handle_interrupt(m, vec_ptr)
        } else if cmd == USB_BULK {
            self.handle_bulk(m, vec_ptr)
        } else {
            0
        }
    }
}

/// HCI events leave the queue in the order their commands were queued:
/// after queuing the events for `op1` and then `op2` behind `pending`,
/// deliveries yield `pending` first, then `op1`'s event, then `op2`'s.
pub proof fn lemma_hci_fifo(pending: Seq<Seq<u8>>, op1: u16, op2: u16)
    ensures
        ({
            let q = pending.push(command_complete_event(op1)).push(command_complete_event(op2));
            &&& q.take(pending.len() as int) == pending
            &&& q[pending.len() as int] == command_complete_event(op1)
            &&& q[pending.len() as int + 1] == command_complete_event(op2)
            &&& q.len() == pending.len() + 2
        }),
{
    let q = pending.push(command_complete_event(op1)).push(command_complete_event(op2));
    assert(q.take(pending.len() as int) =~= pending);
}

} // verus!
