use vstd::prelude::*;

use std::collections::VecDeque;

verus! {

/// One diagnostic message written by the filter program.
#[derive(Debug)]
pub struct DiagnosticRecord {
    pub message: String,
}

impl DiagnosticRecord {
    /// A record with the same message.
    pub fn duplicate(&self) -> (r: DiagnosticRecord)
        ensures
            r == *self,
    {
        DiagnosticRecord { message: self.message.clone() }
    }
}

/// A bounded buffer of diagnostic records between the filter program and the
/// relay. A record that finds the buffer full is dropped; the writer never waits.
pub struct EventChannel {
    buf: VecDeque<DiagnosticRecord>,
    cap: usize,
}

impl EventChannel {
    /// The records waiting to be drained, oldest first.
    pub closed spec fn records(&self) -> Seq<DiagnosticRecord> {
        self.buf@
    }

    /// How many records the buffer holds at most.
    pub closed spec fn capacity(&self) -> nat {
        self.cap as nat
    }

    /// The buffer never holds more than its capacity.
    pub closed spec fn wf(&self) -> bool {
        self.buf@.len() <= self.cap
    }

    /// An empty channel that holds at most `capacity` records.
    pub fn new(capacity: usize) -> (r: EventChannel)
        ensures
            r.wf(),
            r.records() == Seq::<DiagnosticRecord>::empty(),
            r.capacity() == capacity,
    {
        EventChannel { buf: VecDeque::new(), cap: capacity }
    }

    /// How many records wait to be drained.
    pub fn len(&self) -> (r: usize)
        requires
            self.wf(),
        ensures
            r == self.records().len(),
    {
        self.buf.len()
    }

    /// How many records the buffer holds at most.
    pub fn capacity_of(&self) -> (r: usize)
        ensures
            r == self.capacity(),
    {
        self.cap
    }

    /// Offers a record. It is kept, and `true` returned, when there is room;
    /// otherwise the channel is unchanged and `false` returned.
    pub fn push(&mut self, rec: DiagnosticRecord) -> (accepted: bool)
        requires
            old(self).wf(),
        ensures
            final(self).wf(),
            final(self).capacity() == old(self).capacity(),
            accepted == (old(self).records().len() < old(self).capacity()),
            accepted ==> final(self).records() == old(self).records().push(rec),
            !accepted ==> final(self).records() == old(self).records(),
    {
        if self.buf.len() < self.cap {
            self.buf.push_back(rec);
            true
        } else {
            false
        }
    }

    /// Takes out the oldest records, at most `max` of them, in the order they
    /// were written.
    pub fn drain(&mut self, max: usize) -> (r: Vec<DiagnosticRecord>)
        requires
            old(self).wf(),
        ensures
            final(self).wf(),
            final(self).capacity() == old(self).capacity(),
            r@.len() == if max < old(self).records().len() {
                max as nat
            } else {
                old(self).records().len()
            },
            r@ == old(self).records().take(r@.len() as int),
            final(self).records() == old(self).records().skip(r@.len() as int),
    {
        let mut out: Vec<DiagnosticRecord> = Vec::new();
        let ghost start = self.buf@;
        while out.len() < max && self.buf.len() > 0
            invariant
                self.wf(),
                self.cap == old(self).cap,
                start == old(self).records(),
                out@.len() <= max,
                out@.len() + self.buf@.len() == start.len(),
                out@ == start.take(out@.len() as int),
                self.buf@ == start.skip(out@.len() as int),
            decreases self.buf@.len(),
        {
            let ghost k: int = out@.len() as int;
            match self.buf.pop_front() {
                Some(rec) => {
                    assert(rec == start[k]);
                    out.push(rec);
                    assert(out@ =~= start.take(k + 1));
                    assert(self.buf@ =~= start.skip(k + 1));
                },
                None => {},
            }
        }
        out
    }

    /// Takes out every waiting record, oldest first, leaving the channel empty.
    pub fn drain_all(&mut self) -> (r: Vec<DiagnosticRecord>)
        requires
            old(self).wf(),
        ensures
            final(self).wf(),
            final(self).capacity() == old(self).capacity(),
            r@ == old(self).records(),
            final(self).records() == Seq::<DiagnosticRecord>::empty(),
            r@.len() <= old(self).capacity(),
    {
        let n = self.buf.len();
        let r = self.drain(n);
        assert(r@ =~= old(self).records());
        assert(self.records() =~= Seq::<DiagnosticRecord>::empty());
        r
    }
}

} // verus!
