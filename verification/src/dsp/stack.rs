use vstd::prelude::*;

verus! {

broadcast use vstd::array::group_array_axioms;

/// A small hardware stack of 16-bit words. Slot 0 is the empty-stack slot;
/// `ptr` points at the current top.
pub struct DspStack<const N: usize> {
    data: [u16; N],
    ptr: u8,
}

impl<const N: usize> DspStack<N> {
    /// The slots of the stack, bottom first.
    pub closed spec fn slots(&self) -> Seq<u16> {
        self.data@
    }

    /// Index of the current top slot (0 when the stack is empty).
    pub closed spec fn depth(&self) -> int {
        self.ptr as int
    }

    pub open spec fn wf(&self) -> bool {
        &&& 0 <= self.depth() < N
        &&& self.slots().len() == N
    }

    /// The value currently on top.
    pub open spec fn top_spec(&self) -> u16 {
        self.slots()[self.depth()]
    }

    /// The stack with its top slot replaced.
    pub closed spec fn with_top(self, value: u16) -> Self {
        DspStack { data: vstd::array::spec_array_update(self.data, self.ptr as int, value), ptr: self.ptr }
    }

    pub proof fn lemma_with_top(self, value: u16)
        requires
            self.wf(),
        ensures
            self.with_top(value).wf(),
            self.with_top(value).depth() == self.depth(),
            self.with_top(value).slots() == self.slots().update(self.depth(), value),
    {
    }

    /// The stack after pushing `value`.
    pub closed spec fn push_spec(self, value: u16) -> Self {
        DspStack {
            data: vstd::array::spec_array_update(self.data, self.ptr + 1, value),
            ptr: (self.ptr + 1) as u8,
        }
    }

    /// The stack after popping its top.
    pub closed spec fn pop_spec(self) -> Self {
        DspStack { data: self.data, ptr: (self.ptr - 1) as u8 }
    }

    pub proof fn lemma_push_pop(self, value: u16)
        requires
            self.wf(),
            self.depth() + 1 < N,
            self.depth() < 255,
        ensures
            self.push_spec(value).wf(),
            self.push_spec(value).depth() == self.depth() + 1,
            self.push_spec(value).slots() == self.slots().update(self.depth() + 1, value),
            self.push_spec(value).top_spec() == value,
            self.push_spec(value).pop_spec().depth() == self.depth(),
            self.push_spec(value).pop_spec().top_spec() == self.top_spec(),
    {
    }

    pub proof fn lemma_pop(self)
        requires
            self.wf(),
            self.depth() > 0,
        ensures
            self.pop_spec().wf(),
            self.pop_spec().depth() == self.depth() - 1,
            self.pop_spec().slots() == self.slots(),
    {
    }

    /// A stack with every slot zero and nothing pushed.
    pub closed spec fn empty_spec() -> Self {
        DspStack { data: vstd::array::spec_array_fill_for_copy_type::<u16, N>(0), ptr: 0 }
    }

    #[inline(always)]
    pub fn top(&self) -> (r: u16)
        requires
            self.wf(),
        ensures
            r == self.top_spec(),
    {
        self.data[self.ptr as usize]
    }

    #[inline(always)]
    pub fn set_top(&mut self, value: u16)
        requires
            old(self).wf(),
        ensures
            *final(self) == old(self).with_top(value),
            final(self).wf(),
            final(self).depth() == old(self).depth(),
            final(self).slots() == old(self).slots().update(old(self).depth(), value),
    {
        let p = self.ptr as usize;
        self.data[p] = value;
        proof {
            assert(self.data =~= vstd::array::spec_array_update(old(self).data, old(self).ptr as int, value));
        }
    }

    #[inline(always)]
    pub fn push(&mut self, value: u16)
        requires
            old(self).wf(),
            old(self).depth() + 1 < N,
            old(self).depth() < 255,
        ensures
            *final(self) == old(self).push_spec(value),
            final(self).wf(),
            final(self).depth() == old(self).depth() + 1,
            final(self).slots() == old(self).slots().update(old(self).depth() + 1, value),
    {
        self.ptr += 1;
        let p = self.ptr as usize;
        self.data[p] = value;
        proof {
            assert(self.data =~= vstd::array::spec_array_update(old(self).data, old(self).ptr + 1, value));
        }
    }

    #[inline(always)]
    pub fn pop(&mut self) -> (r: u16)
        requires
            old(self).wf(),
            old(self).depth() > 0,
        ensures
            r == old(self).top_spec(),
            *final(self) == old(self).pop_spec(),
            final(self).wf(),
            final(self).depth() == old(self).depth() - 1,
            final(self).slots() == old(self).slots(),
    {
        let value = self.data[self.ptr as usize];
        self.ptr -= 1;
        value
    }

    #[inline(always)]
    pub fn is_empty(&self) -> (r: bool)
        ensures
            r == (self.depth() == 0),
    {
        self.ptr == 0
    }
}

impl<const N: usize> Default for DspStack<N> {
    fn default() -> (r: Self)
        ensures
            r == Self::empty_spec(),
            r.depth() == 0,
            r.slots().len() == N,
            forall|i: int| 0 <= i < N ==> r.slots()[i] == 0,
            N > 0 ==> r.wf(),
    {
        Self { data: [0; N], ptr: 0 }
    }
}

/// One operation on a stack: push a value, or pop the top.
#[derive(Clone, Copy)]
pub enum StackOp {
    Push(u16),
    Pop,
}

/// Number of pushes in `ops`.
pub open spec fn push_count(ops: Seq<StackOp>) -> int
    decreases ops.len(),
{
    if ops.len() == 0 {
        0
    } else {
        push_count(ops.drop_last()) + if ops.last() is Push {
            1int
        } else {
            0int
        }
    }
}

/// Number of pops in `ops`.
pub open spec fn pop_count(ops: Seq<StackOp>) -> int
    decreases ops.len(),
{
    if ops.len() == 0 {
        0
    } else {
        pop_count(ops.drop_last()) + if ops.last() is Pop {
            1int
        } else {
            0int
        }
    }
}

impl<const N: usize> DspStack<N> {
    /// The stack after `ops`, in order.
    pub open spec fn run_ops(self, ops: Seq<StackOp>) -> Self
        decreases ops.len(),
    {
        if ops.len() == 0 {
            self
        } else {
            let before = self.run_ops(ops.drop_last());
            match ops.last() {
                StackOp::Push(v) => before.push_spec(v),
                StackOp::Pop => before.pop_spec(),
            }
        }
    }

    /// Whether `ops` can run from this stack: every push has a slot and
    /// pointer value left, every pop has something to pop.
    pub open spec fn ops_ok(self, ops: Seq<StackOp>) -> bool
        decreases ops.len(),
    {
        if ops.len() == 0 {
            true
        } else {
            let before = self.run_ops(ops.drop_last());
            &&& self.ops_ok(ops.drop_last())
            &&& match ops.last() {
                StackOp::Push(_) => before.depth() + 1 < N && before.depth() < 255,
                StackOp::Pop => before.depth() > 0,
            }
        }
    }

    /// Running `ops` keeps the stack well formed and moves its depth by
    /// the pushes less the pops.
    pub proof fn lemma_run_ops_depth(self, ops: Seq<StackOp>)
        requires
            self.wf(),
            self.ops_ok(ops),
        ensures
            self.run_ops(ops).wf(),
            self.run_ops(ops).depth() == self.depth() + push_count(ops) - pop_count(ops),
        decreases ops.len(),
    {
        if ops.len() > 0 {
            self.lemma_run_ops_depth(ops.drop_last());
            let before = self.run_ops(ops.drop_last());
            match ops.last() {
                StackOp::Push(v) => before.lemma_push_pop(v),
                StackOp::Pop => before.lemma_pop(),
            }
        }
    }
}

/// A fresh stack is empty after a run of pushes and pops exactly when
/// there were as many pushes as pops.
pub proof fn lemma_empty_iff_balanced<const N: usize>(ops: Seq<StackOp>)
    requires
        N > 0,
        DspStack::<N>::empty_spec().ops_ok(ops),
    ensures
        (DspStack::<N>::empty_spec().run_ops(ops).depth() == 0) <==> push_count(ops) == pop_count(ops),
{
    assert(DspStack::<N>::empty_spec().wf());
    DspStack::<N>::empty_spec().lemma_run_ops_depth(ops);
}

} // verus!
