use crate::console::{route_spec, BusTarget, Gekko};
use crate::mmu::{mapped, virt_to_phys_spec};
use vstd::prelude::*;

verus! {

/// A section of an executable: where its bytes start in the file, the
/// address they go to, and how many there are.
#[derive(Clone, Copy)]
pub struct Section {
    pub offset: u32,
    pub vaddr: u32,
    pub size: u32,
}

/// The byte writes of section `s` of the file `data`, in address order.
pub open spec fn section_writes(data: Seq<u8>, s: Section) -> Seq<(u32, u8)> {
    Seq::new(s.size as nat, |i: int| ((s.vaddr + i) as u32, data[s.offset + i]))
}

/// The byte writes of the sections `secs`, one section after another.
pub open spec fn sections_writes(data: Seq<u8>, secs: Seq<Section>) -> Seq<(u32, u8)>
    decreases secs.len(),
{
    if secs.len() == 0 {
        Seq::empty()
    } else {
        sections_writes(data, secs.drop_last()) + section_writes(data, secs.last())
    }
}

/// The zero writes that clear `size` bytes from `start`.
pub open spec fn bss_writes(start: u32, size: u32) -> Seq<(u32, u8)> {
    Seq::new(size as nat, |i: int| ((start + i) as u32, 0u8))
}

/// Whether a byte can be written at bus address `addr`: a device
/// register, or mapped memory.
pub open spec fn byte_writable(addr: u32) -> bool {
    let (target, off) = route_spec(virt_to_phys_spec(addr));
    target == BusTarget::Fallback ==> mapped(off as int, 1)
}

/// Whether section `s` lies inside the file `data`, its offsets and
/// addresses do not wrap, and each address takes a byte.
pub open spec fn section_ok(data: Seq<u8>, s: Section) -> bool {
    &&& s.offset + s.size <= data.len()
    &&& s.offset + s.size <= u32::MAX + 1
    &&& s.vaddr + s.size <= u32::MAX + 1
    &&& forall|i: int| 0 <= i < s.size ==> #[trigger] byte_writable((s.vaddr + i) as u32)
}

/// `states` runs through the byte bus writes `ws`: each state is the one
/// before it after the matching write.
pub open spec fn write_run(states: Seq<Gekko>, ws: Seq<(u32, u8)>) -> bool {
    &&& states.len() == ws.len() + 1
    &&& forall|i: int|
        0 <= i < ws.len() ==> #[trigger] Gekko::bus_write_ok(states[i], states[i + 1], ws[i].0, 1, ws[i].1 as u32)
}

/// `after` is `before` after the byte bus writes `ws`, in order.
pub open spec fn bus_bytes_ok(before: Gekko, after: Gekko, ws: Seq<(u32, u8)>) -> bool {
    exists|states: Seq<Gekko>|
        #[trigger] write_run(states, ws) && states[0] == before && states.last() == after
}

/// No writes leave the console as it was.
pub proof fn lemma_bus_bytes_empty(g0: Gekko)
    ensures
        bus_bytes_ok(g0, g0, Seq::empty()),
{
    let states = seq![g0];
    assert(write_run(states, Seq::empty()));
}

/// The writes of one more byte extend a run of writes.
pub proof fn lemma_bus_bytes_push(g0: Gekko, mid: Gekko, g1: Gekko, ws: Seq<(u32, u8)>, w: (u32, u8))
    requires
        bus_bytes_ok(g0, mid, ws),
        Gekko::bus_write_ok(mid, g1, w.0, 1, w.1 as u32),
    ensures
        bus_bytes_ok(g0, g1, ws.push(w)),
{
    let states = choose|states: Seq<Gekko>| #[trigger] write_run(states, ws) && states[0] == g0 && states.last() == mid;
    let ext = states.push(g1);
    let wext = ws.push(w);
    assert forall|i: int| 0 <= i < wext.len() implies #[trigger] Gekko::bus_write_ok(
        ext[i],
        ext[i + 1],
        wext[i].0,
        1,
        wext[i].1 as u32,
    ) by {
        if i < ws.len() {
            assert(ext[i] == states[i] && ext[i + 1] == states[i + 1] && wext[i] == ws[i]);
        } else {
            assert(ext[i] == mid && ext[i + 1] == g1 && wext[i] == w);
        }
    }
    assert(write_run(ext, wext));
}

impl Gekko {
    /// Writes the bytes of section `s` of `data` to its addresses.
    fn load_section(&mut self, data: &[u8], s: Section, Ghost(g0): Ghost<Gekko>, Ghost(done): Ghost<Seq<(u32, u8)>>)
        requires
            old(self).wf(),
            section_ok(data@, s),
            bus_bytes_ok(g0, *old(self), done),
        ensures
            final(self).wf(),
            bus_bytes_ok(g0, *final(self), done + section_writes(data@, s)),
    {
        let mut i: u32 = 0;
        while i < s.size
            invariant
                self.wf(),
                i <= s.size,
                section_ok(data@, s),
                bus_bytes_ok(g0, *self, done + section_writes(data@, s).take(i as int)),
            decreases s.size - i,
        {
            let ghost before = *self;
            let ghost prefix = done + section_writes(data@, s).take(i as int);
            let addr = s.vaddr + i;
            let value = data[(s.offset + i) as usize];
            assert(byte_writable((s.vaddr + i) as u32));
            self.write_u8(addr, value);
            proof {
                let w = ((s.vaddr + i) as u32, data@[s.offset + i]);
                lemma_bus_bytes_push(g0, before, *self, prefix, w);
                assert(prefix.push(w) =~= done + section_writes(data@, s).take(i + 1));
            }
            i = i + 1;
        }
        assert(section_writes(data@, s).take(s.size as int) =~= section_writes(data@, s));
    }

    /// Loads an executable whose file is `data`: the text sections, then
    /// the data sections, byte by byte at their addresses, then zeros over
    /// the BSS.
    pub fn load_image(
        &mut self,
        data: &[u8],
        text_sections: &[Section],
        data_sections: &[Section],
        bss_start: u32,
        bss_size: u32,
    )
        requires
            old(self).wf(),
            forall|k: int| 0 <= k < text_sections@.len() ==> section_ok(data@, #[trigger] text_sections@[k]),
            forall|k: int| 0 <= k < data_sections@.len() ==> section_ok(data@, #[trigger] data_sections@[k]),
            bss_start + bss_size <= u32::MAX + 1,
            forall|i: int| 0 <= i < bss_size ==> #[trigger] byte_writable((bss_start + i) as u32),
        ensures
            final(self).wf(),
            bus_bytes_ok(
                *old(self),
                *final(self),
                sections_writes(data@, text_sections@) + sections_writes(data@, data_sections@) + bss_writes(
                    bss_start,
                    bss_size,
                ),
            ),
    {
        let ghost g0 = *self;
        let ghost mut done: Seq<(u32, u8)> = Seq::empty();
        proof {
            lemma_bus_bytes_empty(g0);
            assert(text_sections@.take(0) =~= Seq::<Section>::empty());
        }
        let mut k: usize = 0;
        while k < text_sections.len()
            invariant
                self.wf(),
                k <= text_sections@.len(),
                forall|j: int| 0 <= j < text_sections@.len() ==> section_ok(data@, #[trigger] text_sections@[j]),
                forall|j: int| 0 <= j < data_sections@.len() ==> section_ok(data@, #[trigger] data_sections@[j]),
                forall|i: int| 0 <= i < bss_size ==> #[trigger] byte_writable((bss_start + i) as u32),
                done == sections_writes(data@, text_sections@.take(k as int)),
                bus_bytes_ok(g0, *self, done),
            decreases text_sections@.len() - k,
        {
            let s = text_sections[k];
            self.load_section(data, s, Ghost(g0), Ghost(done));
            proof {
                assert(text_sections@.take(k + 1).drop_last() =~= text_sections@.take(k as int));
                done = done + section_writes(data@, s);
            }
            k = k + 1;
        }
        assert(text_sections@.take(text_sections@.len() as int) =~= text_sections@);
        let ghost text_done = done;
        k = 0;
        while k < data_sections.len()
            invariant
                self.wf(),
                k <= data_sections@.len(),
                forall|j: int| 0 <= j < data_sections@.len() ==> section_ok(data@, #[trigger] data_sections@[j]),
                forall|i: int| 0 <= i < bss_size ==> #[trigger] byte_writable((bss_start + i) as u32),
                done == text_done + sections_writes(data@, data_sections@.take(k as int)),
                bus_bytes_ok(g0, *self, done),
            decreases data_sections@.len() - k,
        {
            let s = data_sections[k];
            self.load_section(data, s, Ghost(g0), Ghost(done));
            proof {
                assert(data_sections@.take(k + 1).drop_last() =~= data_sections@.take(k as int));
                assert(text_done + sections_writes(data@, data_sections@.take(k + 1)) =~= done + section_writes(
                    data@,
                    s,
                ));
                done = done + section_writes(data@, s);
            }
            k = k + 1;
        }
        assert(data_sections@.take(data_sections@.len() as int) =~= data_sections@);
        let ghost sec_done = done;
        let mut i: u32 = 0;
        while i < bss_size
            invariant
                self.wf(),
                i <= bss_size,
                bss_start + bss_size <= u32::MAX + 1,
                forall|j: int| 0 <= j < bss_size ==> #[trigger] byte_writable((bss_start + j) as u32),
                bus_bytes_ok(g0, *self, sec_done + bss_writes(bss_start, bss_size).take(i as int)),
            decreases bss_size - i,
        {
            let ghost before = *self;
            let ghost prefix = sec_done + bss_writes(bss_start, bss_size).take(i as int);
            assert(byte_writable((bss_start + i) as u32));
            self.write_u8(bss_start + i, 0);
            proof {
                let w = ((bss_start + i) as u32, 0u8);
                lemma_bus_bytes_push(g0, before, *self, prefix, w);
                assert(prefix.push(w) =~= sec_done + bss_writes(bss_start, bss_size).take(i + 1));
            }
            i = i + 1;
        }
        assert(bss_writes(bss_start, bss_size).take(bss_size as int) =~= bss_writes(bss_start, bss_size));
    }
}

} // verus!
