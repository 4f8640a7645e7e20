use vstd::prelude::*;

verus! {

/// The table of running servers: one slot for each configured server, in
/// the order of the catalog. A slot holds the handle of the server's
/// process while the server is taken to be running, and nothing else holds
/// that handle. The table says what was launched and not yet stopped
/// through it; a process that died by itself stays in its slot until the
/// server is stopped.
///
/// The table has no lock of its own. Whoever shares it between requests
/// gives each request that changes it exclusive access for as long as the
/// request lasts.
pub struct Registry<H> {
    slots: Vec<Option<H>>,
}

impl<H> View for Registry<H> {
    type V = Seq<Option<H>>;

    closed spec fn view(&self) -> Seq<Option<H>> {
        self.slots@
    }
}

/// Whether slot `index` of `slots` holds a handle. No slot outside the
/// table does.
pub open spec fn occupied<H>(slots: Seq<Option<H>>, index: int) -> bool {
    0 <= index < slots.len() && slots[index] is Some
}

/// A table of `len` empty slots.
pub open spec fn all_stopped<H>(len: nat) -> Seq<Option<H>> {
    Seq::new(len, |i: int| None::<H>)
}

impl<H> Registry<H> {
    /// A table of `len` slots, all of them empty.
    pub fn new(len: usize) -> (registry: Self)
        ensures
            registry@ == all_stopped::<H>(len as nat),
    {
        let mut slots: Vec<Option<H>> = Vec::new();
        let mut n: usize = 0;
        while n < len
            invariant
                n <= len,
                slots@ == all_stopped::<H>(n as nat),
            decreases len - n,
        {
            slots.push(None);
            n = n + 1;
        }
        Registry { slots }
    }

    /// The number of slots, which never changes.
    pub fn len(&self) -> (len: usize)
        ensures
            len == self@.len(),
    {
        self.slots.len()
    }

    /// Slot `index` itself, to read or to change in place.
    pub fn get(&mut self, index: usize) -> (slot: &mut Option<H>)
        requires
            index < old(self)@.len(),
        ensures
            *slot == old(self)@[index as int],
            final(self)@ == old(self)@.update(index as int, *final(slot)),
        no_unwind
    {
        &mut self.slots[index]
    }

    /// Whether slot `index` holds a handle.
    pub fn is_running(&self, index: usize) -> (running: bool)
        ensures
            running == occupied(self@, index as int),
    {
        index < self.slots.len() && self.slots[index].is_some()
    }
}

} // verus!
