//! The export coordinator: checkpoint state, and the ingest, export and discard
//! cycles it drives against the row buffer.
use vstd::prelude::*;
use crate::buffer::{RowBuffer, RowCounts};
use crate::mapper::{
    frames, map_error, map_transaction, maps_to, missing_payloads, object_deltas, IdCounters,
    MapError, MappedTransaction,
};
use crate::model::{CallTrace, Certificate, Effects, MoveStruct, ObjectDelta};
use crate::types::{checkpoint_json, LastExportData};

verus! {

/// Why an exporter operation failed.
#[derive(Clone, Copy, Debug, PartialEq, Eq, Structural)]
pub enum ExportError {
    /// The transaction could not be mapped; nothing was buffered.
    Mapping(MapError),
    /// The sequence number is below the one already buffered through.
    SequenceRegression,
    /// No export cycle was prepared.
    NoExportPending,
    /// The row buffer could not produce its local block.
    SnapshotFailed,
    /// The publish sink failed.
    PublishFailed,
    /// The row buffer could not record the confirmed export.
    ConfirmFailed,
}

/// How the outside steps of an export cycle ended.
#[derive(Clone, Copy, Debug, PartialEq, Eq, Structural)]
pub enum ExportOutcome {
    /// Published, and the row buffer recorded the export and the checkpoint.
    Confirmed,
    SnapshotFailed,
    PublishFailed,
    ConfirmFailed,
}

/// An export cycle in progress: the sequence number it exports through and
/// the buffered rows its snapshot covers.
#[derive(Clone, Copy, Debug, PartialEq, Eq, Structural)]
pub struct ExportTicket {
    pub through: u64,
    pub rows: RowCounts,
}

impl ExportTicket {
    /// The checkpoint payload that a confirmed export of this cycle persists.
    pub fn checkpoint_payload(&self) -> (r: Vec<u8>)
        ensures
            r@ == checkpoint_json(self.through),
    {
        LastExportData { last_known_tx_version: self.through }.to_json()
    }
}

/// The checkpoint state of an exporter.
pub struct ExporterView {
    /// The highest sequence number mapped into the buffer.
    pub buffered_through: u64,
    /// The highest sequence number durably exported.
    pub confirmed_through: u64,
    /// Transactions ingested since the last export cycle began (diagnostic).
    pub cached: u32,
    /// The sequence number that the prepared export cycle covers, if any.
    pub pending: Option<u64>,
}

/// The state after a transaction with sequence number `seq` is ingested.
pub open spec fn after_ingest(s: ExporterView, seq: u64) -> ExporterView {
    ExporterView {
        buffered_through: seq,
        cached: if s.cached == u32::MAX { u32::MAX } else { (s.cached + 1) as u32 },
        ..s
    }
}

/// The state after transactions with sequence numbers `seqs` are ingested in order.
pub open spec fn after_ingests(s: ExporterView, seqs: Seq<u64>) -> ExporterView
    decreases seqs.len(),
{
    if seqs.len() == 0 {
        s
    } else {
        after_ingest(after_ingests(s, seqs.drop_last()), seqs.last())
    }
}

/// The state after an export cycle is prepared.
pub open spec fn after_prepare(s: ExporterView) -> ExporterView {
    ExporterView { cached: 0, pending: Some(s.buffered_through), ..s }
}

/// The state after the prepared export cycle ends with `outcome`: confirmed
/// through its sequence number when confirmed, otherwise unchanged but for the
/// cycle, which is dropped.
pub open spec fn after_export(s: ExporterView, outcome: ExportOutcome) -> ExporterView {
    match s.pending {
        None => s,
        Some(through) => match outcome {
            ExportOutcome::Confirmed => ExporterView { confirmed_through: through, pending: None, ..s },
            _ => ExporterView { pending: None, ..s },
        },
    }
}

/// What ending the prepared export cycle with `outcome` returns.
pub open spec fn export_result(s: ExporterView, outcome: ExportOutcome) -> Result<(), ExportError> {
    match s.pending {
        None => Err(ExportError::NoExportPending),
        Some(_) => match outcome {
            ExportOutcome::Confirmed => Ok(()),
            ExportOutcome::SnapshotFailed => Err(ExportError::SnapshotFailed),
            ExportOutcome::PublishFailed => Err(ExportError::PublishFailed),
            ExportOutcome::ConfirmFailed => Err(ExportError::ConfirmFailed),
        },
    }
}

/// The state after buffered data is discarded: rewound to the last confirmed export.
pub open spec fn after_discard(s: ExporterView) -> ExporterView {
    ExporterView { buffered_through: s.confirmed_through, cached: 0, pending: None, ..s }
}

/// The id counters after one transaction's rows are sealed.
pub open spec fn advanced(next: IdCounters, n_events: nat, n_objects: nat, n_frames: nat) -> IdCounters {
    IdCounters {
        transaction: (next.transaction + 1) as u64,
        event: (next.event + n_events) as u64,
        object: (next.object + n_objects) as u64,
        call_trace: (next.call_trace + n_frames) as u64,
    }
}

/// Drives ingest, export and discard cycles over a row buffer.
pub struct QueryableExporter {
    last_tx_version: u64,
    last_successful_export_tx_version: u64,
    chain_id: Option<u8>,
    cached_transactions_count: u32,
    transactions_per_export: u32,
    buffer: RowBuffer,
    pending: Option<ExportTicket>,
}

impl View for QueryableExporter {
    type V = ExporterView;

    closed spec fn view(&self) -> ExporterView {
        ExporterView {
            buffered_through: self.last_tx_version,
            confirmed_through: self.last_successful_export_tx_version,
            cached: self.cached_transactions_count,
            pending: match self.pending {
                Some(t) => Some(t.through),
                None => None,
            },
        }
    }
}

impl QueryableExporter {
    /// Buffered-through never falls below confirmed-through, and a prepared
    /// cycle covers rows that are still buffered.
    pub closed spec fn wf(&self) -> bool {
        &&& self.last_tx_version >= self.last_successful_export_tx_version
        &&& self.pending matches Some(t) ==> {
            &&& self.last_successful_export_tx_version <= t.through <= self.last_tx_version
            &&& t.rows.transactions <= self.buffer.transaction_rows().len()
            &&& t.rows.events <= self.buffer.event_rows().len()
            &&& t.rows.objects <= self.buffer.object_rows().len()
            &&& t.rows.call_traces <= self.buffer.call_trace_rows().len()
        }
    }

    pub closed spec fn rows(&self) -> RowBuffer {
        self.buffer
    }

    pub closed spec fn chain(&self) -> Option<u8> {
        self.chain_id
    }

    pub closed spec fn per_export(&self) -> u32 {
        self.transactions_per_export
    }

    pub closed spec fn ticket(&self) -> Option<ExportTicket> {
        self.pending
    }

    /// An exporter resuming after the last persisted export, if any, or from
    /// sequence number zero; its buffer is empty and its ids start at zero.
    pub fn new(last_exported_data: Option<LastExportData>, chain_id: Option<u8>, transactions_per_export: u32) -> (r: Self)
        ensures
            r.wf(),
            r@.buffered_through == match last_exported_data {
                Some(d) => d.last_known_tx_version,
                None => 0,
            },
            r@.confirmed_through == r@.buffered_through,
            r@.cached == 0,
            r@.pending is None,
            r.chain() == chain_id,
            r.per_export() == transactions_per_export,
            r.rows().next_ids() == (IdCounters { transaction: 0, event: 0, object: 0, call_trace: 0 }),
            r.rows().counts() == (RowCounts { transactions: 0, events: 0, objects: 0, call_traces: 0 }),
    {
        let last_tx_version = match last_exported_data {
            Some(d) => d.last_known_tx_version,
            None => 0,
        };
        QueryableExporter {
            last_tx_version,
            last_successful_export_tx_version: last_tx_version,
            chain_id,
            cached_transactions_count: 0,
            transactions_per_export,
            buffer: RowBuffer::new(),
            pending: None,
        }
    }

    pub fn set_chain_id(&mut self, chain_id: u8)
        ensures
            final(self).chain() == Some(chain_id),
            final(self)@ == old(self)@,
            final(self).rows() == old(self).rows(),
            final(self).per_export() == old(self).per_export(),
            final(self).ticket() == old(self).ticket(),
            final(self).wf() == old(self).wf(),
    {
        self.chain_id = Some(chain_id);
    }

    pub fn chain_id(&self) -> (r: Option<u8>)
        ensures
            r == self.chain(),
    {
        self.chain_id
    }

    pub fn get_cached_transactions_count(&self) -> (r: u32)
        ensures
            r == self@.cached,
    {
        self.cached_transactions_count
    }

    /// How many transactions the row buffer batches into one export.
    pub fn get_transactions_per_export(&self) -> (r: u32)
        ensures
            r == self.per_export(),
    {
        self.transactions_per_export
    }

    pub fn last_tx_version(&self) -> (r: u64)
        ensures
            r == self@.buffered_through,
    {
        self.last_tx_version
    }

    pub fn last_successful_export_tx_version(&self) -> (r: u64)
        ensures
            r == self@.confirmed_through,
    {
        self.last_successful_export_tx_version
    }

    /// The buffered rows, not yet confirmed exported.
    pub fn buffer(&self) -> (r: &RowBuffer)
        ensures
            *r == self.rows(),
    {
        &self.buffer
    }

    /// The export cycle in progress, if any.
    pub fn pending_export(&self) -> (r: Option<ExportTicket>)
        ensures
            r == self.ticket(),
            r matches Some(t) ==> self@.pending == Some(t.through),
            r is None ==> self@.pending is None,
    {
        self.pending
    }

    /// Maps one transaction and seals its rows into the buffer. A sequence
    /// number below the one buffered through is refused. On success the
    /// buffer holds the mapped rows after the earlier ones, and the result
    /// lists the positions of module events whose payload was not decoded.
    /// On failure nothing changes.
    pub fn add_transaction(
        &mut self,
        seq: u64,
        digest: &Vec<u8>,
        cert: &Certificate,
        effects: &Effects,
        event_move_structs: &Vec<Option<MoveStruct>>,
        created_objects: &Vec<Option<ObjectDelta>>,
        mutated_objects: &Vec<Option<ObjectDelta>>,
        call_traces_per_tx_payload: &Vec<Vec<CallTrace>>,
        timestamp_ms: u64,
    ) -> (r: Result<Vec<usize>, ExportError>)
        requires
            old(self).wf(),
        ensures
            final(self).wf(),
            r is Ok <==> seq >= old(self)@.buffered_through && map_error(
                old(self).rows().next_ids(),
                *cert,
                *effects,
                created_objects@,
                mutated_objects@,
                call_traces_per_tx_payload@,
            ) is None,
            r matches Err(e) ==> {
                if seq < old(self)@.buffered_through {
                    e == ExportError::SequenceRegression
                } else {
                    map_error(
                        old(self).rows().next_ids(),
                        *cert,
                        *effects,
                        created_objects@,
                        mutated_objects@,
                        call_traces_per_tx_payload@,
                    ) == Some(e->Mapping_0)
                }
            },
            r is Err ==> *final(self) == *old(self),
            r matches Ok(missing) ==> {
                &&& final(self)@ == after_ingest(old(self)@, seq)
                &&& final(self).chain() == old(self).chain()
                &&& final(self).per_export() == old(self).per_export()
                &&& final(self).ticket() == old(self).ticket()
                &&& missing@ == missing_payloads(effects.events@, event_move_structs@, effects.events.len() as nat)
                &&& final(self).rows().next_ids() == advanced(
                    old(self).rows().next_ids(),
                    effects.events.len() as nat,
                    object_deltas(created_objects@, mutated_objects@).len(),
                    frames(call_traces_per_tx_payload@).len(),
                )
                &&& exists|m: MappedTransaction|
                    {
                        &&& maps_to(
                            m,
                            old(self).rows().next_ids(),
                            seq,
                            digest@,
                            *cert,
                            *effects,
                            event_move_structs@,
                            created_objects@,
                            mutated_objects@,
                            call_traces_per_tx_payload@,
                            timestamp_ms,
                            old(self).chain(),
                        )
                        &&& final(self).rows().transaction_rows() == old(self).rows().transaction_rows().push(m.transaction)
                        &&& final(self).rows().event_rows() == old(self).rows().event_rows() + m.events@
                        &&& final(self).rows().object_rows() == old(self).rows().object_rows() + m.objects@
                        &&& final(self).rows().call_trace_rows() == old(self).rows().call_trace_rows() + m.call_traces@
                    }
            },
    {
        if seq < self.last_tx_version {
            return Err(ExportError::SequenceRegression);
        }
        let next = self.buffer.next_ids_of();
        let mapped = match map_transaction(
            next,
            seq,
            digest,
            cert,
            effects,
            event_move_structs,
            created_objects,
            mutated_objects,
            call_traces_per_tx_payload,
            timestamp_ms,
            self.chain_id,
        ) {
            Ok(m) => m,
            Err(e) => {
                return Err(ExportError::Mapping(e));
            },
        };
        let missing = copy_positions(&mapped.missing_payloads);
        self.buffer.append(mapped);
        self.last_tx_version = seq;
        self.cached_transactions_count = if self.cached_transactions_count == u32::MAX {
            u32::MAX
        } else {
            self.cached_transactions_count + 1
        };
        Ok(missing)
    }

    /// Begins an export cycle: resets the cached count and records what the
    /// cycle covers, the sequence number buffered through and every row buffered
    /// so far. A cycle already prepared is replaced.
    pub fn prepare_export(&mut self) -> (r: ExportTicket)
        requires
            old(self).wf(),
        ensures
            final(self).wf(),
            final(self)@ == after_prepare(old(self)@),
            r.through == old(self)@.buffered_through,
            r.rows == old(self).rows().counts(),
            final(self).ticket() == Some(r),
            final(self).rows() == old(self).rows(),
            final(self).chain() == old(self).chain(),
            final(self).per_export() == old(self).per_export(),
    {
        self.cached_transactions_count = 0;
        let ticket = ExportTicket { through: self.last_tx_version, rows: self.buffer.counts_of() };
        self.pending = Some(ticket);
        ticket
    }

    /// Ends the prepared export cycle with the outcome of its outside steps.
    /// Once confirmed, the rows the cycle covers leave the buffer and the
    /// exporter is confirmed through the cycle's sequence number; on any
    /// failure the buffered rows and the confirmed sequence number stay, so the
    /// next cycle exports them again.
    pub fn export(&mut self, outcome: ExportOutcome) -> (r: Result<(), ExportError>)
        requires
            old(self).wf(),
        ensures
            final(self).wf(),
            r == export_result(old(self)@, outcome),
            final(self)@ == after_export(old(self)@, outcome),
            final(self).ticket() is None,
            final(self).chain() == old(self).chain(),
            final(self).per_export() == old(self).per_export(),
            final(self).rows().next_ids() == old(self).rows().next_ids(),
            outcome == ExportOutcome::Confirmed ==> (old(self).ticket() matches Some(t) ==> {
                &&& final(self).rows().transaction_rows() == old(self).rows().transaction_rows().skip(t.rows.transactions as int)
                &&& final(self).rows().event_rows() == old(self).rows().event_rows().skip(t.rows.events as int)
                &&& final(self).rows().object_rows() == old(self).rows().object_rows().skip(t.rows.objects as int)
                &&& final(self).rows().call_trace_rows() == old(self).rows().call_trace_rows().skip(t.rows.call_traces as int)
            }),
            !(old(self).ticket() is Some && outcome == ExportOutcome::Confirmed) ==> final(self).rows() == old(self).rows(),
    {
        let ticket = match self.pending {
            Some(t) => t,
            None => {
                return Err(ExportError::NoExportPending);
            },
        };
        self.pending = None;
        match outcome {
            ExportOutcome::Confirmed => {
                self.buffer.drop_prefix(ticket.rows);
                self.last_successful_export_tx_version = ticket.through;
                Ok(())
            },
            ExportOutcome::SnapshotFailed => Err(ExportError::SnapshotFailed),
            ExportOutcome::PublishFailed => Err(ExportError::PublishFailed),
            ExportOutcome::ConfirmFailed => Err(ExportError::ConfirmFailed),
        }
    }

    /// Discards everything not confirmed exported: rewinds buffered-through to
    /// confirmed-through, resets the cached count, drops the buffered rows and
    /// any prepared cycle.
    pub fn reset_cached_data(&mut self)
        requires
            old(self).wf(),
        ensures
            final(self).wf(),
            final(self)@ == after_discard(old(self)@),
            final(self).ticket() is None,
            final(self).chain() == old(self).chain(),
            final(self).per_export() == old(self).per_export(),
            final(self).rows().next_ids() == old(self).rows().next_ids(),
            final(self).rows().counts() == (RowCounts { transactions: 0, events: 0, objects: 0, call_traces: 0 }),
    {
        self.last_tx_version = self.last_successful_export_tx_version;
        self.cached_transactions_count = 0;
        self.pending = None;
        self.buffer.clean();
    }
}

/// A copy of a list of positions.
fn copy_positions(v: &Vec<usize>) -> (r: Vec<usize>)
    ensures
        r@ == v@,
{
    let mut r: Vec<usize> = Vec::new();
    let mut i: usize = 0;
    while i < v.len()
        invariant
            i <= v.len(),
            r@ == v@.take(i as int),
        decreases v.len() - i,
    {
        r.push(v[i]);
        proof {
            assert(r@ =~= v@.take(i + 1));
        }
        i = i + 1;
    }
    proof {
        assert(v@.take(v.len() as int) =~= v@);
    }
    r
}

/// After any non-empty run of ingested transactions, an export cycle whose
/// outside steps succeed leaves the exporter confirmed through the last
/// ingested sequence number, with no cached transactions.
pub proof fn lemma_export_confirms_last_ingest(s: ExporterView, seqs: Seq<u64>)
    requires
        seqs.len() > 0,
    ensures
        after_export(after_prepare(after_ingests(s, seqs)), ExportOutcome::Confirmed).confirmed_through
            == seqs.last(),
        after_export(after_prepare(after_ingests(s, seqs)), ExportOutcome::Confirmed).buffered_through
            == seqs.last(),
        after_export(after_prepare(after_ingests(s, seqs)), ExportOutcome::Confirmed).cached == 0,
{
}

/// Discarding twice is discarding once, and neither discard moves the
/// confirmed sequence number.
pub proof fn lemma_discard_idempotent(s: ExporterView)
    ensures
        after_discard(s).confirmed_through == s.confirmed_through,
        after_discard(after_discard(s)).confirmed_through == s.confirmed_through,
        after_discard(after_discard(s)) == after_discard(s),
{
}

/// An export cycle that fails at any outside step leaves the confirmed and
/// buffered sequence numbers as they were, so the next cycle exports through
/// the same sequence number.
pub proof fn lemma_failed_export_retries(s: ExporterView, outcome: ExportOutcome)
    requires
        outcome != ExportOutcome::Confirmed,
    ensures
        after_export(after_prepare(s), outcome).confirmed_through == s.confirmed_through,
        after_export(after_prepare(s), outcome).buffered_through == s.buffered_through,
        after_prepare(after_export(after_prepare(s), outcome)).pending == after_prepare(s).pending,
        export_result(after_prepare(s), outcome) is Err,
{
}

/// Buffered-through never falls below confirmed-through.
pub proof fn lemma_buffered_covers_confirmed(e: &QueryableExporter)
    requires
        e.wf(),
    ensures
        e@.buffered_through >= e@.confirmed_through,
{
}

} // verus!
