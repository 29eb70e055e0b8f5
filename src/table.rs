//! A table from transfer ids to handles, at most one handle per id.
use std::collections::HashMap;
use vstd::prelude::*;

verus! {

broadcast use vstd::std_specs::hash::group_hash_axioms;

/// Live transfers by id, each with the handle that reaches it.
pub struct TransferTable<H> {
    entries: HashMap<u32, H>,
}

impl<H> View for TransferTable<H> {
    type V = Map<u32, H>;

    closed spec fn view(&self) -> Map<u32, H> {
        self.entries@
    }
}

impl<H> TransferTable<H> {
    pub fn new() -> (r: Self)
        ensures
            r@ == Map::<u32, H>::empty(),
    {
        TransferTable { entries: HashMap::new() }
    }

    /// Whether a transfer with this id is live.
    pub fn contains(&self, id: u32) -> (r: bool)
        ensures
            r == self@.contains_key(id),
    {
        self.entries.contains_key(&id)
    }

    /// The handle of transfer `id`, if it is live.
    pub fn get(&self, id: u32) -> (r: Option<&H>)
        ensures
            r is None <==> !self@.contains_key(id),
            r matches Some(h) ==> *h == self@[id],
    {
        self.entries.get(&id)
    }

    /// Ends transfer `id`: removes it and returns its handle, if it was live.
    pub fn remove(&mut self, id: u32) -> (r: Option<H>)
        ensures
            final(self)@ == old(self)@.remove(id),
            r is None <==> !old(self)@.contains_key(id),
            r matches Some(h) ==> h == old(self)@[id],
    {
        self.entries.remove(&id)
    }

    /// Registers transfer `id` with handle `h`, replacing and returning the
    /// handle it had if it was live.
    pub fn insert(&mut self, id: u32, h: H) -> (r: Option<H>)
        ensures
            final(self)@ == old(self)@.insert(id, h),
            r is None <==> !old(self)@.contains_key(id),
            r matches Some(p) ==> p == old(self)@[id],
    {
        self.entries.insert(id, h)
    }
}

/// The live file transfers of a session: inbound ones by the handle that
/// takes their chunks, outbound ones by the handle that stops them.
pub struct FileTransfers<I, O> {
    pub inbound: TransferTable<I>,
    pub outbound: TransferTable<O>,
}

impl<I, O> FileTransfers<I, O> {
    /// No transfer yet.
    pub fn new() -> (r: Self)
        ensures
            r.inbound@ == Map::<u32, I>::empty(),
            r.outbound@ == Map::<u32, O>::empty(),
    {
        FileTransfers { inbound: TransferTable::new(), outbound: TransferTable::new() }
    }

    /// Whether `id` names a live transfer, inbound or outbound.
    pub fn is_live(&self, id: u32) -> (r: bool)
        ensures
            r == (self.inbound@.contains_key(id) || self.outbound@.contains_key(id)),
    {
        self.inbound.contains(id) || self.outbound.contains(id)
    }

    /// Where a chunk for inbound transfer `id` goes; `None` when no such
    /// transfer is live.
    pub fn handle_inbound_file_chunk(&self, id: u32) -> (r: Option<&I>)
        ensures
            r is None <==> !self.inbound@.contains_key(id),
            r matches Some(h) ==> *h == self.inbound@[id],
    {
        self.inbound.get(id)
    }

    /// Ends transfer `id` in both directions, handing back what it held:
    /// dropping the inbound handle ends the writer, the outbound one is
    /// to be aborted.
    pub fn cancel_transfer(&mut self, id: u32) -> (r: (Option<I>, Option<O>))
        ensures
            final(self).inbound@ == old(self).inbound@.remove(id),
            final(self).outbound@ == old(self).outbound@.remove(id),
            r.0 is Some <==> old(self).inbound@.contains_key(id),
            r.1 is Some <==> old(self).outbound@.contains_key(id),
            r.0 matches Some(h) ==> h == old(self).inbound@[id],
            r.1 matches Some(h) ==> h == old(self).outbound@[id],
    {
        let i = self.inbound.remove(id);
        let o = self.outbound.remove(id);
        (i, o)
    }
}

} // verus!
