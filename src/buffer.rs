//! The row buffer: per-entity id counters and the rows not yet confirmed exported.
use vstd::prelude::*;
use crate::mapper::{IdCounters, MappedTransaction};
use crate::rows::{CallTraceRow, EventRow, ObjectRow, TransactionRow};

verus! {

/// How many rows of each entity a snapshot covers.
#[derive(Clone, Copy, Debug, PartialEq, Eq, Structural)]
pub struct RowCounts {
    pub transactions: usize,
    pub events: usize,
    pub objects: usize,
    pub call_traces: usize,
}

/// Sealed rows awaiting export, each entity's in the order they were produced,
/// and the next id of each entity. Ids start at zero for each run.
pub struct RowBuffer {
    next: IdCounters,
    transactions: Vec<TransactionRow>,
    events: Vec<EventRow>,
    objects: Vec<ObjectRow>,
    call_traces: Vec<CallTraceRow>,
}

impl RowBuffer {
    pub closed spec fn next_ids(&self) -> IdCounters {
        self.next
    }

    pub closed spec fn transaction_rows(&self) -> Seq<TransactionRow> {
        self.transactions@
    }

    pub closed spec fn event_rows(&self) -> Seq<EventRow> {
        self.events@
    }

    pub closed spec fn object_rows(&self) -> Seq<ObjectRow> {
        self.objects@
    }

    pub closed spec fn call_trace_rows(&self) -> Seq<CallTraceRow> {
        self.call_traces@
    }

    /// The number of buffered rows of each entity.
    pub open spec fn counts(&self) -> RowCounts {
        RowCounts {
            transactions: self.transaction_rows().len() as usize,
            events: self.event_rows().len() as usize,
            objects: self.object_rows().len() as usize,
            call_traces: self.call_trace_rows().len() as usize,
        }
    }

    /// An empty buffer whose ids start at zero.
    pub fn new() -> (r: RowBuffer)
        ensures
            r.next_ids() == (IdCounters { transaction: 0, event: 0, object: 0, call_trace: 0 }),
            r.transaction_rows() == Seq::<TransactionRow>::empty(),
            r.event_rows() == Seq::<EventRow>::empty(),
            r.object_rows() == Seq::<ObjectRow>::empty(),
            r.call_trace_rows() == Seq::<CallTraceRow>::empty(),
    {
        RowBuffer {
            next: IdCounters { transaction: 0, event: 0, object: 0, call_trace: 0 },
            transactions: Vec::new(),
            events: Vec::new(),
            objects: Vec::new(),
            call_traces: Vec::new(),
        }
    }

    pub fn next_ids_of(&self) -> (r: IdCounters)
        ensures
            r == self.next_ids(),
    {
        self.next
    }

    pub fn transactions(&self) -> (r: &Vec<TransactionRow>)
        ensures
            r@ == self.transaction_rows(),
    {
        &self.transactions
    }

    pub fn events(&self) -> (r: &Vec<EventRow>)
        ensures
            r@ == self.event_rows(),
    {
        &self.events
    }

    pub fn objects(&self) -> (r: &Vec<ObjectRow>)
        ensures
            r@ == self.object_rows(),
    {
        &self.objects
    }

    pub fn call_traces(&self) -> (r: &Vec<CallTraceRow>)
        ensures
            r@ == self.call_trace_rows(),
    {
        &self.call_traces
    }

    /// The number of buffered rows of each entity.
    pub fn counts_of(&self) -> (r: RowCounts)
        ensures
            r == self.counts(),
            r.transactions == self.transaction_rows().len(),
            r.events == self.event_rows().len(),
            r.objects == self.object_rows().len(),
            r.call_traces == self.call_trace_rows().len(),
    {
        RowCounts {
            transactions: self.transactions.len(),
            events: self.events.len(),
            objects: self.objects.len(),
            call_traces: self.call_traces.len(),
        }
    }

    /// Seals the rows of one mapped transaction into the buffer and moves each
    /// id counter past the ids they used.
    pub fn append(&mut self, m: MappedTransaction)
        requires
            old(self).next_ids().transaction < u64::MAX,
            old(self).next_ids().event + m.events.len() <= u64::MAX,
            old(self).next_ids().object + m.objects.len() <= u64::MAX,
            old(self).next_ids().call_trace + m.call_traces.len() <= u64::MAX,
        ensures
            final(self).next_ids() == (IdCounters {
                transaction: (old(self).next_ids().transaction + 1) as u64,
                event: (old(self).next_ids().event + m.events.len()) as u64,
                object: (old(self).next_ids().object + m.objects.len()) as u64,
                call_trace: (old(self).next_ids().call_trace + m.call_traces.len()) as u64,
            }),
            final(self).transaction_rows() == old(self).transaction_rows().push(m.transaction),
            final(self).event_rows() == old(self).event_rows() + m.events@,
            final(self).object_rows() == old(self).object_rows() + m.objects@,
            final(self).call_trace_rows() == old(self).call_trace_rows() + m.call_traces@,
    {
        let MappedTransaction { transaction, mut events, mut objects, mut call_traces, .. } = m;
        self.next = IdCounters {
            transaction: self.next.transaction + 1,
            event: self.next.event + events.len() as u64,
            object: self.next.object + objects.len() as u64,
            call_trace: self.next.call_trace + call_traces.len() as u64,
        };
        self.transactions.push(transaction);
        self.events.append(&mut events);
        self.objects.append(&mut objects);
        self.call_traces.append(&mut call_traces);
    }

    /// Drops the first rows of each entity, as many as `c` gives; the rows
    /// buffered after them stay, and the id counters are kept.
    pub fn drop_prefix(&mut self, c: RowCounts)
        requires
            c.transactions <= old(self).transaction_rows().len(),
            c.events <= old(self).event_rows().len(),
            c.objects <= old(self).object_rows().len(),
            c.call_traces <= old(self).call_trace_rows().len(),
        ensures
            final(self).next_ids() == old(self).next_ids(),
            final(self).transaction_rows() == old(self).transaction_rows().skip(c.transactions as int),
            final(self).event_rows() == old(self).event_rows().skip(c.events as int),
            final(self).object_rows() == old(self).object_rows().skip(c.objects as int),
            final(self).call_trace_rows() == old(self).call_trace_rows().skip(c.call_traces as int),
    {
        let t = self.transactions.split_off(c.transactions);
        self.transactions = t;
        let e = self.events.split_off(c.events);
        self.events = e;
        let o = self.objects.split_off(c.objects);
        self.objects = o;
        let ct = self.call_traces.split_off(c.call_traces);
        self.call_traces = ct;
        proof {
            assert(self.transactions@ =~= old(self).transactions@.skip(c.transactions as int));
            assert(self.events@ =~= old(self).events@.skip(c.events as int));
            assert(self.objects@ =~= old(self).objects@.skip(c.objects as int));
            assert(self.call_traces@ =~= old(self).call_traces@.skip(c.call_traces as int));
        }
    }

    /// Drops every buffered row; the id counters are kept.
    pub fn clean(&mut self)
        ensures
            final(self).next_ids() == old(self).next_ids(),
            final(self).transaction_rows() == Seq::<TransactionRow>::empty(),
            final(self).event_rows() == Seq::<EventRow>::empty(),
            final(self).object_rows() == Seq::<ObjectRow>::empty(),
            final(self).call_trace_rows() == Seq::<CallTraceRow>::empty(),
    {
        self.transactions.clear();
        self.events.clear();
        self.objects.clear();
        self.call_traces.clear();
    }
}

} // verus!
