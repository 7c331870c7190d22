//! Peripheral handles as recorded register programs

use vstd::prelude::*;

verus! {

/// The handle of one peripheral.
///
/// Its view is the sequence of operations issued through it and not yet handed
/// to the driver, oldest first.
pub struct Handle<Op> {
    ops: Vec<Op>,
}

impl<Op> View for Handle<Op> {
    type V = Seq<Op>;

    closed spec fn view(&self) -> Seq<Op> {
        self.ops@
    }
}

impl<Op> Handle<Op> {
    /// A handle through which nothing has been issued.
    pub fn new() -> (handle: Self)
        ensures
            handle@ == Seq::<Op>::empty(),
    {
        Handle { ops: Vec::new() }
    }

    /// Records `op` behind everything issued so far.
    pub fn issue(&mut self, op: Op)
        ensures
            final(self)@ == old(self)@.push(op),
    {
        self.ops.push(op);
    }

    /// The number of operations waiting for the driver.
    pub fn pending(&self) -> (n: usize)
        ensures
            n == self@.len(),
    {
        self.ops.len()
    }

    /// Hands the recorded program to the driver and leaves the handle empty.
    pub fn take(&mut self) -> (program: Vec<Op>)
        ensures
            program@ == old(self)@,
            final(self)@ == Seq::<Op>::empty(),
    {
        let mut program: Vec<Op> = Vec::new();
        core::mem::swap(&mut self.ops, &mut program);
        program
    }
}

} // verus!
