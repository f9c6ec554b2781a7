use vstd::prelude::*;

verus! {

#[derive(PartialEq, Eq, Structural, Clone, Copy, Debug)]
pub enum EntityError {
    /// An event loaded out of sequence.
    OutOfSequence { expected: u64, got: u64 },
    /// Events loaded after new ones were added.
    AlreadyDirty,
}

/// The events of one entity, in order: the first `n_persisted` are stored, the rest are new.
/// Event `i` has sequence number `i + 1`.
pub struct EntityEvents<T> {
    events: Vec<T>,
    n_persisted: usize,
}

impl<T> EntityEvents<T> {
    pub closed spec fn events(&self) -> Seq<T> {
        self.events@
    }

    pub closed spec fn persisted(&self) -> nat {
        self.n_persisted as nat
    }

    pub open spec fn wf(&self) -> bool {
        self.persisted() <= self.events().len()
    }

    /// No events yet.
    pub fn new() -> (r: Self)
        ensures
            r.wf(),
            r.events() == Seq::<T>::empty(),
            r.persisted() == 0,
    {
        EntityEvents { events: Vec::new(), n_persisted: 0 }
    }

    /// The events of a new entity, none of them stored yet.
    pub fn init(events: Vec<T>) -> (r: Self)
        ensures
            r.wf(),
            r.events() == events@,
            r.persisted() == 0,
    {
        EntityEvents { events, n_persisted: 0 }
    }

    /// Adds a new event.
    pub fn push(&mut self, event: T)
        ensures
            old(self).wf() ==> final(self).wf(),
            final(self).events() == old(self).events().push(event),
            final(self).persisted() == old(self).persisted(),
    {
        self.events.push(event);
    }

    /// Adds a stored event read back; it must carry the next sequence number.
    pub fn load_event(&mut self, sequence: u64, event: T) -> (r: Result<(), EntityError>)
        requires
            old(self).wf(),
        ensures
            final(self).wf(),
            old(self).persisted() < old(self).events().len() ==> r == Err::<(), EntityError>(EntityError::AlreadyDirty),
            old(self).persisted() == old(self).events().len() && sequence != old(self).events().len() + 1 ==> r.is_err(),
            old(self).persisted() == old(self).events().len() && sequence == old(self).events().len() + 1
                && old(self).events().len() < u64::MAX ==> r.is_ok(),
            r.is_ok() ==> final(self).events() == old(self).events().push(event) && final(self).persisted()
                == old(self).persisted() + 1,
            r.is_err() ==> final(self).events() == old(self).events() && final(self).persisted() == old(self).persisted(),
    {
        if self.n_persisted < self.events.len() {
            return Err(EntityError::AlreadyDirty);
        }
        let len = self.events.len() as u64;
        if len == u64::MAX {
            return Err(EntityError::OutOfSequence { expected: len, got: sequence });
        }
        if sequence != len + 1 {
            return Err(EntityError::OutOfSequence { expected: len + 1, got: sequence });
        }
        self.events.push(event);
        self.n_persisted = self.events.len();
        Ok(())
    }

    /// Whether there are events not stored yet.
    pub fn is_dirty(&self) -> (r: bool)
        requires
            self.wf(),
        ensures
            r == (self.persisted() < self.events().len()),
    {
        self.n_persisted < self.events.len()
    }

    /// The sequence number of the first event not stored yet.
    pub fn first_new_sequence(&self) -> (r: u64)
        requires
            self.wf(),
            self.events().len() < u64::MAX,
        ensures
            r == self.persisted() + 1,
    {
        self.n_persisted as u64 + 1
    }

    /// The number of events.
    pub fn len(&self) -> (r: usize)
        ensures
            r == self.events().len(),
    {
        self.events.len()
    }

    /// The event with sequence number `i + 1`.
    pub fn get(&self, i: usize) -> (r: &T)
        requires
            i < self.events().len(),
        ensures
            *r == self.events()[i as int],
    {
        &self.events[i]
    }

    /// Records that every event is stored.
    pub fn mark_persisted(&mut self)
        requires
            old(self).wf(),
        ensures
            final(self).wf(),
            final(self).events() == old(self).events(),
            final(self).persisted() == old(self).events().len(),
    {
        self.n_persisted = self.events.len();
    }
}

} // verus!
