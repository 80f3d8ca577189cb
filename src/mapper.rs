//! The transaction mapper: one ledger transaction, with its events, object
//! deltas and call traces, into one transaction row and its child rows.
use vstd::prelude::*;
use crate::columns::{
    copy_bytes, event_columns, event_columns_of, lemma_map_push, lemma_take_next, owner_columns,
    owner_key, owner_kind,
};
use crate::encode::{bcs_object_ref, ref_bytes, ref_encodable};
use crate::model::{
    CallTrace, CallType, Certificate, Effects, Event, MoveStruct, ObjectDelta, ObjectRef,
    TransactionKind,
};
use crate::rows::{
    byte_list, opt_bytes, CallTraceRow, CallTraceRowView, EventRow, EventRowView, ObjectRow,
    ObjectRowView, TransactionRow, TransactionRowView,
};

verus! {

/// Why a transaction could not be mapped.
#[derive(Clone, Copy, Debug, PartialEq, Eq, Structural)]
pub enum MapError {
    /// An object reference could not be serialized.
    Serialization,
    /// The fee, gas used times gas price, does not fit in 64 bits.
    FeeOverflow,
    /// An entity's row ids are used up.
    IdExhausted,
}

/// The next row id of each entity.
#[derive(Clone, Copy, Debug, PartialEq, Eq, Structural)]
pub struct IdCounters {
    pub transaction: u64,
    pub event: u64,
    pub object: u64,
    pub call_trace: u64,
}

/// What every child row of one transaction repeats from it.
pub struct RowContext {
    pub transaction_id: u64,
    pub tx_index: u64,
    pub time_index: u64,
    pub tx_hash: Vec<u8>,
    pub time: u64,
    /// 0 for a system transaction, 1 otherwise.
    pub tx_type: u8,
}

pub struct RowContextView {
    pub transaction_id: u64,
    pub tx_index: u64,
    pub time_index: u64,
    pub tx_hash: Seq<u8>,
    pub time: u64,
    pub tx_type: u8,
}

impl View for RowContext {
    type V = RowContextView;

    open spec fn view(&self) -> RowContextView {
        RowContextView {
            transaction_id: self.transaction_id,
            tx_index: self.tx_index,
            time_index: self.time_index,
            tx_hash: self.tx_hash@,
            time: self.time,
            tx_type: self.tx_type,
        }
    }
}

/// The row of the event at position `j` of its transaction.
pub open spec fn event_row(ctx: RowContextView, id: u64, j: int, e: Event, decoded: Option<MoveStruct>) -> EventRowView {
    EventRowView {
        id,
        relation_transaction: ctx.transaction_id,
        record_version: 1,
        tx_index: ctx.tx_index,
        time_index: ctx.time_index,
        tx_event_id: j as u32,
        tx_hash: ctx.tx_hash,
        time: ctx.time,
        columns: event_columns(e, decoded),
    }
}

/// The row of an object delta under operation kind `op` (0 created, 1 mutated):
/// a reference with its owner leaves type, content and storage rebate null; a
/// full value fills them all.
pub open spec fn object_row(ctx: RowContextView, id: u64, op: u8, d: ObjectDelta) -> ObjectRowView {
    let base = ObjectRowView {
        id,
        relation_transaction: ctx.transaction_id,
        record_version: 1,
        tx_index: ctx.tx_index,
        time_index: ctx.time_index,
        tx_hash: ctx.tx_hash,
        time: ctx.time,
        operation_type: op,
        module_address: None,
        object_name: None,
        object_id: None,
        object_version: None,
        owner_type: None,
        owner_id: None,
        content: None,
        storage_rebate: None,
    };
    match d {
        ObjectDelta::Reference { object_ref, owner } => ObjectRowView {
            object_id: Some(object_ref.object_id@),
            object_version: Some(object_ref.version),
            owner_type: Some(owner_kind(owner)),
            owner_id: owner_key(owner),
            ..base
        },
        ObjectDelta::Full(o) => ObjectRowView {
            module_address: match o.struct_type {
                Some(t) => Some(t.module@),
                None => None,
            },
            object_name: match o.struct_type {
                Some(t) => Some(t.name@),
                None => None,
            },
            object_id: Some(o.object_id@),
            object_version: Some(o.version),
            owner_type: Some(owner_kind(o.owner)),
            owner_id: owner_key(o.owner),
            content: Some(o.content@),
            storage_rebate: Some(o.storage_rebate),
            ..base
        },
    }
}

/// The call-kind column: 1 for a direct call, 2 for a generic one.
pub open spec fn call_kind(c: CallType) -> u8 {
    match c {
        CallType::Call => 1,
        CallType::CallGeneric => 2,
    }
}

/// The row of one call-trace frame.
pub open spec fn call_trace_row(ctx: RowContextView, id: u64, f: CallTrace) -> CallTraceRowView {
    CallTraceRowView {
        id,
        relation_transaction: ctx.transaction_id,
        record_version: 1,
        tx_index: ctx.tx_index,
        time_index: ctx.time_index,
        tx_hash: ctx.tx_hash,
        tx_type: ctx.tx_type,
        depth: f.depth,
        call_type: call_kind(f.call_type),
        module_address: opt_bytes(f.module_id),
        method_name: f.function@,
        ty_args: byte_list(f.ty_args),
        gas_used: f.gas_used,
        err: opt_bytes(f.err),
    }
}

/// Builds the row of the event at position `j`.
pub fn event_row_of(ctx: &RowContext, id: u64, j: usize, e: &Event, decoded: Option<&MoveStruct>) -> (r: EventRow)
    ensures
        r@ == event_row(
            ctx@,
            id,
            j as int,
            *e,
            match decoded {
                Some(s) => Some(*s),
                None => None,
            },
        ),
{
    EventRow {
        id,
        relation_transaction: ctx.transaction_id,
        record_version: 1,
        tx_index: ctx.tx_index,
        time_index: ctx.time_index,
        tx_event_id: j as u32,
        tx_hash: copy_bytes(&ctx.tx_hash),
        time: ctx.time,
        columns: event_columns_of(e, decoded),
    }
}

/// Builds the row of one created or mutated object.
pub fn object_row_of(ctx: &RowContext, id: u64, op: u8, d: &ObjectDelta) -> (r: ObjectRow)
    ensures
        r@ == object_row(ctx@, id, op, *d),
{
    let mut row = ObjectRow {
        id,
        relation_transaction: ctx.transaction_id,
        record_version: 1,
        tx_index: ctx.tx_index,
        time_index: ctx.time_index,
        tx_hash: copy_bytes(&ctx.tx_hash),
        time: ctx.time,
        operation_type: op,
        module_address: None,
        object_name: None,
        object_id: None,
        object_version: None,
        owner_type: None,
        owner_id: None,
        content: None,
        storage_rebate: None,
    };
    match d {
        ObjectDelta::Reference { object_ref, owner } => {
            row.object_id = Some(copy_bytes(&object_ref.object_id));
            row.object_version = Some(object_ref.version);
            let (kind, key) = owner_columns(owner);
            row.owner_type = Some(kind);
            row.owner_id = key;
        },
        ObjectDelta::Full(o) => {
            match &o.struct_type {
                Some(t) => {
                    row.module_address = Some(copy_bytes(&t.module));
                    row.object_name = Some(copy_bytes(&t.name));
                },
                None => {},
            }
            row.object_id = Some(copy_bytes(&o.object_id));
            row.object_version = Some(o.version);
            let (kind, key) = owner_columns(&o.owner);
            row.owner_type = Some(kind);
            row.owner_id = key;
            row.content = Some(copy_bytes(&o.content));
            row.storage_rebate = Some(o.storage_rebate);
        },
    }
    row
}

/// A copy of a list of byte vectors.
pub fn copy_byte_list(v: &Vec<Vec<u8>>) -> (r: Vec<Vec<u8>>)
    ensures
        byte_list(r) == byte_list(*v),
{
    let mut r: Vec<Vec<u8>> = Vec::new();
    let mut i: usize = 0;
    while i < v.len()
        invariant
            i <= v.len(),
            byte_list(r) == v@.take(i as int).map_values(|b: Vec<u8>| b@),
        decreases v.len() - i,
    {
        let ghost old_r = r@;
        let b = copy_bytes(&v[i]);
        r.push(b);
        proof {
            lemma_take_next(v@, i as int);
            lemma_map_push(v@.take(i as int), v@[i as int], |b: Vec<u8>| b@);
            lemma_map_push(old_r, b, |b: Vec<u8>| b@);
        }
        i = i + 1;
    }
    proof {
        assert(v@.take(v.len() as int) =~= v@);
    }
    r
}

/// Builds the row of one call-trace frame.
pub fn call_trace_row_of(ctx: &RowContext, id: u64, f: &CallTrace) -> (r: CallTraceRow)
    ensures
        r@ == call_trace_row(ctx@, id, *f),
{
    CallTraceRow {
        id,
        relation_transaction: ctx.transaction_id,
        record_version: 1,
        tx_index: ctx.tx_index,
        time_index: ctx.time_index,
        tx_hash: copy_bytes(&ctx.tx_hash),
        tx_type: ctx.tx_type,
        depth: f.depth,
        call_type: match f.call_type {
            CallType::Call => 1,
            CallType::CallGeneric => 2,
        },
        module_address: match &f.module_id {
            Some(m) => Some(copy_bytes(m)),
            None => None,
        },
        method_name: copy_bytes(&f.function),
        ty_args: copy_byte_list(&f.ty_args),
        gas_used: f.gas_used,
        err: match &f.err {
            Some(e) => Some(copy_bytes(e)),
            None => None,
        },
    }
}

/// Whether every reference of a list can be serialized.
pub open spec fn refs_encodable(refs: Seq<ObjectRef>) -> bool {
    forall|i: int| 0 <= i < refs.len() ==> ref_encodable(#[trigger] refs[i])
}

/// The serialized reference list of one effect category.
pub open spec fn refs_bytes(refs: Seq<ObjectRef>) -> Seq<Seq<u8>> {
    refs.map_values(|r: ObjectRef| ref_bytes(r))
}

/// Serializes each reference of a list, in order.
pub fn serialize_refs(refs: &Vec<ObjectRef>) -> (r: Result<Vec<Vec<u8>>, MapError>)
    ensures
        r is Ok <==> refs_encodable(refs@),
        r matches Err(e) ==> e == MapError::Serialization,
        r matches Ok(v) ==> byte_list(v) == refs_bytes(refs@),
{
    let mut out: Vec<Vec<u8>> = Vec::new();
    let mut i: usize = 0;
    while i < refs.len()
        invariant
            i <= refs.len(),
            refs_encodable(refs@.take(i as int)),
            byte_list(out) == refs_bytes(refs@.take(i as int)),
        decreases refs.len() - i,
    {
        let ghost old_out = out@;
        match bcs_object_ref(&refs[i]) {
            Ok(b) => {
                out.push(b);
                proof {
                    lemma_take_next(refs@, i as int);
                    lemma_map_push(refs@.take(i as int), refs@[i as int], |r: ObjectRef| ref_bytes(r));
                    lemma_map_push(old_out, b, |b: Vec<u8>| b@);
                    assert(refs_encodable(refs@.take(i + 1))) by {
                        assert forall|k: int| 0 <= k < i + 1 implies ref_encodable(#[trigger] refs@.take(i + 1)[k]) by {
                            if k < i {
                                assert(refs@.take(i + 1)[k] == refs@.take(i as int)[k]);
                            }
                        }
                    }
                }
            },
            Err(_) => {
                return Err(MapError::Serialization);
            },
        }
        i = i + 1;
    }
    proof {
        assert(refs@.take(refs.len() as int) =~= refs@);
    }
    Ok(out)
}

/// The decoded payload supplied for the event at position `j`, if any.
pub open spec fn decoded_at(structs: Seq<Option<MoveStruct>>, j: int) -> Option<MoveStruct> {
    if 0 <= j < structs.len() {
        structs[j]
    } else {
        None
    }
}

/// Whether the event at position `j` is a module event with no decoded payload.
pub open spec fn lacks_payload(events: Seq<Event>, structs: Seq<Option<MoveStruct>>, j: int) -> bool {
    events[j] is MoveEvent && decoded_at(structs, j) is None
}

/// The positions, among the first `n` events, of module events with no decoded payload.
pub open spec fn missing_payloads(events: Seq<Event>, structs: Seq<Option<MoveStruct>>, n: nat) -> Seq<usize>
    decreases n,
{
    if n == 0 {
        Seq::empty()
    } else {
        let p = missing_payloads(events, structs, (n - 1) as nat);
        if lacks_payload(events, structs, n - 1) {
            p.push((n - 1) as usize)
        } else {
            p
        }
    }
}

/// `n` consecutive ids from `first`.
pub open spec fn id_run(first: u64, n: nat) -> Seq<u64> {
    Seq::new(n, |k: int| (first + k) as u64)
}

/// The deltas that are present, in order.
pub open spec fn present(s: Seq<Option<ObjectDelta>>) -> Seq<ObjectDelta>
    decreases s.len(),
{
    if s.len() == 0 {
        Seq::empty()
    } else {
        let p = present(s.drop_last());
        match s.last() {
            Some(d) => p.push(d),
            None => p,
        }
    }
}

/// The frames of all payload items, item by item, each item's in order.
pub open spec fn frames(s: Seq<Vec<CallTrace>>) -> Seq<CallTrace>
    decreases s.len(),
{
    if s.len() == 0 {
        Seq::empty()
    } else {
        frames(s.drop_last()) + s.last()@
    }
}

proof fn lemma_id_run_push(first: u64, n: nat)
    requires
        first + n < u64::MAX,
    ensures
        id_run(first, n + 1) == id_run(first, n).push((first + n) as u64),
{
    assert(id_run(first, n + 1) =~= id_run(first, n).push((first + n) as u64));
}

/// Maps the events of a transaction, with ids from `first`.
pub fn map_events(
    ctx: &RowContext,
    first: u64,
    events: &Vec<Event>,
    structs: &Vec<Option<MoveStruct>>,
) -> (r: Result<(Vec<EventRow>, Vec<u64>, Vec<usize>), MapError>)
    ensures
        r is Ok <==> first + events.len() <= u64::MAX,
        r matches Err(e) ==> e == MapError::IdExhausted,
        r matches Ok((rows, ids, missing)) ==> {
            &&& rows.len() == events.len()
            &&& forall|j: int|
                0 <= j < rows.len() ==> (#[trigger] rows[j])@ == event_row(
                    ctx@,
                    (first + j) as u64,
                    j,
                    events[j],
                    decoded_at(structs@, j),
                )
            &&& ids@ == id_run(first, events.len() as nat)
            &&& missing@ == missing_payloads(events@, structs@, events.len() as nat)
        },
{
    let mut rows: Vec<EventRow> = Vec::new();
    let mut ids: Vec<u64> = Vec::new();
    let mut missing: Vec<usize> = Vec::new();
    let mut next: u64 = first;
    let mut j: usize = 0;
    while j < events.len()
        invariant
            j <= events.len(),
            next == first + j,
            rows.len() == j,
            forall|k: int|
                0 <= k < j ==> (#[trigger] rows[k])@ == event_row(
                    ctx@,
                    (first + k) as u64,
                    k,
                    events[k],
                    decoded_at(structs@, k),
                ),
            ids@ == id_run(first, j as nat),
            missing@ == missing_payloads(events@, structs@, j as nat),
        decreases events.len() - j,
    {
        if next == u64::MAX {
            return Err(MapError::IdExhausted);
        }
        let e = &events[j];
        let decoded: Option<&MoveStruct> = if j < structs.len() {
            match &structs[j] {
                Some(s) => Some(s),
                None => None,
            }
        } else {
            None
        };
        let row = event_row_of(ctx, next, j, e, decoded);
        rows.push(row);
        proof {
            lemma_id_run_push(first, j as nat);
        }
        ids.push(next);
        let is_module_event = match e {
            Event::MoveEvent { .. } => true,
            _ => false,
        };
        if is_module_event && decoded.is_none() {
            missing.push(j);
        }
        next = next + 1;
        j = j + 1;
    }
    Ok((rows, ids, missing))
}

/// Maps the present deltas of one pass under operation kind `op`, with ids from `first`.
pub fn map_objects(
    ctx: &RowContext,
    first: u64,
    op: u8,
    deltas: &Vec<Option<ObjectDelta>>,
) -> (r: Result<(Vec<ObjectRow>, Vec<u64>), MapError>)
    ensures
        r is Ok <==> first + present(deltas@).len() <= u64::MAX,
        r matches Err(e) ==> e == MapError::IdExhausted,
        r matches Ok((rows, ids)) ==> {
            &&& rows.len() == present(deltas@).len()
            &&& forall|k: int|
                0 <= k < rows.len() ==> (#[trigger] rows[k])@ == object_row(
                    ctx@,
                    (first + k) as u64,
                    op,
                    present(deltas@)[k],
                )
            &&& ids@ == id_run(first, rows.len() as nat)
        },
{
    let mut rows: Vec<ObjectRow> = Vec::new();
    let mut ids: Vec<u64> = Vec::new();
    let mut next: u64 = first;
    let mut i: usize = 0;
    while i < deltas.len()
        invariant
            i <= deltas.len(),
            next == first + rows.len(),
            rows.len() == present(deltas@.take(i as int)).len(),
            forall|k: int|
                0 <= k < rows.len() ==> (#[trigger] rows[k])@ == object_row(
                    ctx@,
                    (first + k) as u64,
                    op,
                    present(deltas@.take(i as int))[k],
                ),
            ids@ == id_run(first, rows.len() as nat),
            first + present(deltas@.take(i as int)).len() <= u64::MAX,
        decreases deltas.len() - i,
    {
        proof {
            assert(deltas@.take(i + 1).drop_last() =~= deltas@.take(i as int));
        }
        match &deltas[i] {
            Some(d) => {
                if next == u64::MAX {
                    proof {
                        lemma_present_grows(deltas@, i as int + 1);
                    }
                    return Err(MapError::IdExhausted);
                }
                let row = object_row_of(ctx, next, op, d);
                rows.push(row);
                proof {
                    lemma_id_run_push(first, (rows.len() - 1) as nat);
                }
                ids.push(next);
                next = next + 1;
            },
            None => {},
        }
        i = i + 1;
    }
    proof {
        assert(deltas@.take(deltas.len() as int) =~= deltas@);
    }
    Ok((rows, ids))
}

/// A longer prefix has at least as many present deltas.
proof fn lemma_present_grows(s: Seq<Option<ObjectDelta>>, i: int)
    requires
        0 <= i <= s.len(),
    ensures
        present(s.take(i)).len() <= present(s).len(),
    decreases s.len() - i,
{
    if i < s.len() {
        lemma_present_grows(s, i + 1);
        assert(s.take(i + 1).drop_last() =~= s.take(i));
    } else {
        assert(s.take(i) =~= s);
    }
}

/// The frames of a longer prefix of payload items extend those of a shorter one.
proof fn lemma_frames_grow(s: Seq<Vec<CallTrace>>, i: int)
    requires
        0 <= i <= s.len(),
    ensures
        frames(s.take(i)).len() <= frames(s).len(),
    decreases s.len() - i,
{
    if i < s.len() {
        lemma_frames_grow(s, i + 1);
        assert(s.take(i + 1).drop_last() =~= s.take(i));
    } else {
        assert(s.take(i) =~= s);
    }
}

/// Maps the call-trace frames of all payload items, with ids from `first`.
pub fn map_call_traces(
    ctx: &RowContext,
    first: u64,
    traces: &Vec<Vec<CallTrace>>,
) -> (r: Result<(Vec<CallTraceRow>, Vec<u64>), MapError>)
    ensures
        r is Ok <==> first + frames(traces@).len() <= u64::MAX,
        r matches Err(e) ==> e == MapError::IdExhausted,
        r matches Ok((rows, ids)) ==> {
            &&& rows.len() == frames(traces@).len()
            &&& forall|k: int|
                0 <= k < rows.len() ==> (#[trigger] rows[k])@ == call_trace_row(
                    ctx@,
                    (first + k) as u64,
                    frames(traces@)[k],
                )
            &&& ids@ == id_run(first, rows.len() as nat)
        },
{
    let mut rows: Vec<CallTraceRow> = Vec::new();
    let mut ids: Vec<u64> = Vec::new();
    let mut next: u64 = first;
    let mut i: usize = 0;
    while i < traces.len()
        invariant
            i <= traces.len(),
            next == first + rows.len(),
            rows.len() == frames(traces@.take(i as int)).len(),
            forall|k: int|
                0 <= k < rows.len() ==> (#[trigger] rows[k])@ == call_trace_row(
                    ctx@,
                    (first + k) as u64,
                    frames(traces@.take(i as int))[k],
                ),
            ids@ == id_run(first, rows.len() as nat),
        decreases traces.len() - i,
    {
        let item = &traces[i];
        let ghost done = frames(traces@.take(i as int));
        proof {
            assert(traces@.take(i + 1).drop_last() =~= traces@.take(i as int));
        }
        let mut f: usize = 0;
        while f < item.len()
            invariant
                i < traces.len(),
                *item == traces@[i as int],
                done == frames(traces@.take(i as int)),
                f <= item.len(),
                next == first + rows.len(),
                rows.len() == done.len() + f,
                forall|k: int|
                    0 <= k < rows.len() ==> (#[trigger] rows[k])@ == call_trace_row(
                        ctx@,
                        (first + k) as u64,
                        (done + item@.take(f as int))[k],
                    ),
                ids@ == id_run(first, rows.len() as nat),
            decreases item.len() - f,
        {
            if next == u64::MAX {
                proof {
                    assert(traces@.take(i + 1).drop_last() =~= traces@.take(i as int));
                    assert(frames(traces@.take(i + 1)) == done + item@);
                    lemma_frames_grow(traces@, i + 1);
                }
                return Err(MapError::IdExhausted);
            }
            let row = call_trace_row_of(ctx, next, &item[f]);
            rows.push(row);
            proof {
                lemma_id_run_push(first, (rows.len() - 1) as nat);
                assert(done + item@.take(f + 1) =~= (done + item@.take(f as int)).push(item@[f as int]));
            }
            ids.push(next);
            next = next + 1;
            f = f + 1;
        }
        proof {
            assert(item@.take(f as int) =~= item@);
            assert(frames(traces@.take(i + 1)) == done + item@);
        }
        i = i + 1;
    }
    proof {
        assert(traces@.take(traces.len() as int) =~= traces@);
    }
    Ok((rows, ids))
}

/// The rows produced for one transaction, and the positions of module events
/// whose payload was not decoded (a diagnostic, not an error).
pub struct MappedTransaction {
    pub transaction: TransactionRow,
    pub events: Vec<EventRow>,
    pub objects: Vec<ObjectRow>,
    pub call_traces: Vec<CallTraceRow>,
    pub missing_payloads: Vec<usize>,
}

/// The context that the child rows of a transaction repeat.
pub open spec fn row_context(next: IdCounters, seq: u64, digest: Seq<u8>, cert: Certificate, timestamp_ms: u64) -> RowContextView {
    RowContextView {
        transaction_id: next.transaction,
        tx_index: seq,
        time_index: timestamp_ms / 1000,
        tx_hash: digest,
        time: timestamp_ms,
        tx_type: if cert.is_system_tx { 0 } else { 1 },
    }
}

/// The object deltas that yield rows, each with its operation kind: the
/// present created ones (0), then the present mutated ones (1).
pub open spec fn object_deltas(created: Seq<Option<ObjectDelta>>, mutated: Seq<Option<ObjectDelta>>) -> Seq<(u8, ObjectDelta)> {
    present(created).map_values(|d: ObjectDelta| (0u8, d)) + present(mutated).map_values(|d: ObjectDelta| (1u8, d))
}

/// Whether every reference that the transaction row serializes can be.
pub open spec fn all_refs_encodable(cert: Certificate, effects: Effects) -> bool {
    &&& refs_encodable(effects.shared_objects@)
    &&& refs_encodable(effects.created@)
    &&& refs_encodable(effects.mutated@)
    &&& refs_encodable(effects.deleted@)
    &&& refs_encodable(effects.unwrapped@)
    &&& refs_encodable(effects.wrapped@)
    &&& ref_encodable(cert.gas_payment)
}

/// The transaction-kind column: 0 for a single payload item, 1 for a batch.
pub open spec fn kind_code(k: TransactionKind) -> u8 {
    match k {
        TransactionKind::Single => 0,
        TransactionKind::Batch => 1,
    }
}

/// The transaction row, whose relation lists hold `n_events`, `n_objects` and
/// `n_frames` consecutive ids from the next id of each child entity.
pub open spec fn transaction_row(
    next: IdCounters,
    seq: u64,
    digest: Seq<u8>,
    cert: Certificate,
    effects: Effects,
    timestamp_ms: u64,
    chain_id: Option<u8>,
    n_events: nat,
    n_objects: nat,
    n_frames: nat,
) -> TransactionRowView {
    TransactionRowView {
        id: next.transaction,
        relation_events: id_run(next.event, n_events),
        relation_objects: id_run(next.object, n_objects),
        relation_call_traces: id_run(next.call_trace, n_frames),
        record_version: 1,
        tx_index: seq,
        time_index: timestamp_ms / 1000,
        certificate_epoch: cert.epoch,
        certificate_signature: cert.signature@,
        certificate_signers_map: cert.signers_map@,
        tx_hash: digest,
        epoch: cert.epoch,
        chain_id,
        sender: cert.sender@,
        shared_object_refs: refs_bytes(effects.shared_objects@),
        created_object_refs: refs_bytes(effects.created@),
        mutated_object_refs: refs_bytes(effects.mutated@),
        deleted_object_refs: refs_bytes(effects.deleted@),
        unwrapped_object_refs: refs_bytes(effects.unwrapped@),
        wrapped_object_refs: refs_bytes(effects.wrapped@),
        gas_object: ref_bytes(cert.gas_payment),
        gas_limit: cert.gas_budget,
        gas_price: cert.gas_price,
        gas_used: effects.gas_used,
        gas_computation_cost: effects.computation_cost,
        gas_storage_cost: effects.storage_cost,
        gas_storage_rebate: effects.storage_rebate,
        dependencies: byte_list(effects.dependencies),
        tx_type: kind_code(cert.kind),
        payload: byte_list(cert.payload),
        signature: cert.tx_signature@,
        success: effects.success,
        detailed_status: effects.detailed_status@,
        time: timestamp_ms,
        fee: (effects.gas_used * cert.gas_price) as u64,
        size: cert.size,
    }
}

/// Why mapping fails, if it does: no transaction id left; then a reference that
/// cannot be serialized; then a fee beyond 64 bits; then no child id left.
pub open spec fn map_error(
    next: IdCounters,
    cert: Certificate,
    effects: Effects,
    created: Seq<Option<ObjectDelta>>,
    mutated: Seq<Option<ObjectDelta>>,
    traces: Seq<Vec<CallTrace>>,
) -> Option<MapError> {
    if next.transaction == u64::MAX {
        Some(MapError::IdExhausted)
    } else if !all_refs_encodable(cert, effects) {
        Some(MapError::Serialization)
    } else if effects.gas_used * cert.gas_price > u64::MAX {
        Some(MapError::FeeOverflow)
    } else if next.event + effects.events.len() > u64::MAX || next.object + present(created).len()
        + present(mutated).len() > u64::MAX || next.call_trace + frames(traces).len() > u64::MAX {
        Some(MapError::IdExhausted)
    } else {
        None
    }
}

/// What a successful mapping produces: the transaction row, sealed with the
/// ids of its children; one event row per event in order; one object row per
/// present created then mutated delta; one call-trace row per frame, payload
/// item by payload item; ids consecutive from the next id of each entity.
pub open spec fn maps_to(
    m: MappedTransaction,
    next: IdCounters,
    seq: u64,
    digest: Seq<u8>,
    cert: Certificate,
    effects: Effects,
    structs: Seq<Option<MoveStruct>>,
    created: Seq<Option<ObjectDelta>>,
    mutated: Seq<Option<ObjectDelta>>,
    traces: Seq<Vec<CallTrace>>,
    timestamp_ms: u64,
    chain_id: Option<u8>,
) -> bool {
    let ctx = row_context(next, seq, digest, cert, timestamp_ms);
    let objects = object_deltas(created, mutated);
    let fr = frames(traces);
    &&& m.transaction@ == transaction_row(
        next,
        seq,
        digest,
        cert,
        effects,
        timestamp_ms,
        chain_id,
        effects.events.len() as nat,
        objects.len(),
        fr.len(),
    )
    &&& m.events.len() == effects.events.len()
    &&& forall|j: int|
        0 <= j < m.events.len() ==> (#[trigger] m.events[j])@ == event_row(
            ctx,
            (next.event + j) as u64,
            j,
            effects.events[j],
            decoded_at(structs, j),
        )
    &&& m.objects.len() == objects.len()
    &&& forall|k: int|
        0 <= k < m.objects.len() ==> (#[trigger] m.objects[k])@ == object_row(
            ctx,
            (next.object + k) as u64,
            objects[k].0,
            objects[k].1,
        )
    &&& m.call_traces.len() == fr.len()
    &&& forall|k: int|
        0 <= k < m.call_traces.len() ==> (#[trigger] m.call_traces[k])@ == call_trace_row(
            ctx,
            (next.call_trace + k) as u64,
            fr[k],
        )
    &&& m.missing_payloads@ == missing_payloads(effects.events@, structs, effects.events.len() as nat)
}

/// Maps one transaction onto its rows, taking ids from `next`. Nothing is
/// produced unless the whole transaction maps.
pub fn map_transaction(
    next: IdCounters,
    seq: u64,
    digest: &Vec<u8>,
    cert: &Certificate,
    effects: &Effects,
    event_move_structs: &Vec<Option<MoveStruct>>,
    created_objects: &Vec<Option<ObjectDelta>>,
    mutated_objects: &Vec<Option<ObjectDelta>>,
    call_traces_per_tx_payload: &Vec<Vec<CallTrace>>,
    timestamp_ms: u64,
    chain_id: Option<u8>,
) -> (r: Result<MappedTransaction, MapError>)
    ensures
        r is Ok <==> map_error(
            next,
            *cert,
            *effects,
            created_objects@,
            mutated_objects@,
            call_traces_per_tx_payload@,
        ) is None,
        r matches Err(e) ==> map_error(
            next,
            *cert,
            *effects,
            created_objects@,
            mutated_objects@,
            call_traces_per_tx_payload@,
        ) == Some(e),
        r matches Ok(m) ==> maps_to(
            m,
            next,
            seq,
            digest@,
            *cert,
            *effects,
            event_move_structs@,
            created_objects@,
            mutated_objects@,
            call_traces_per_tx_payload@,
            timestamp_ms,
            chain_id,
        ),
{
    if next.transaction == u64::MAX {
        return Err(MapError::IdExhausted);
    }
    let shared_object_refs = serialize_refs(&effects.shared_objects)?;
    let created_object_refs = serialize_refs(&effects.created)?;
    let mutated_object_refs = serialize_refs(&effects.mutated)?;
    let deleted_object_refs = serialize_refs(&effects.deleted)?;
    let unwrapped_object_refs = serialize_refs(&effects.unwrapped)?;
    let wrapped_object_refs = serialize_refs(&effects.wrapped)?;
    let gas_object = match bcs_object_ref(&cert.gas_payment) {
        Ok(b) => b,
        Err(_) => {
            return Err(MapError::Serialization);
        },
    };
    let fee = match effects.gas_used.checked_mul(cert.gas_price) {
        Some(f) => f,
        None => {
            return Err(MapError::FeeOverflow);
        },
    };
    let ctx = RowContext {
        transaction_id: next.transaction,
        tx_index: seq,
        time_index: timestamp_ms / 1000,
        tx_hash: copy_bytes(digest),
        time: timestamp_ms,
        tx_type: if cert.is_system_tx { 0 } else { 1 },
    };
    let ghost gctx = row_context(next, seq, digest@, *cert, timestamp_ms);
    assert(ctx@ == gctx);

    let (events, event_ids, missing_payloads) = match map_events(&ctx, next.event, &effects.events, event_move_structs) {
        Ok(t) => t,
        Err(e) => {
            return Err(e);
        },
    };

    let (mut objects, mut object_ids) = match map_objects(&ctx, next.object, 0, created_objects) {
        Ok(t) => t,
        Err(e) => {
            return Err(e);
        },
    };
    let n_created = objects.len();
    let (mut mutated_rows, mut mutated_ids) = match map_objects(&ctx, next.object + n_created as u64, 1, mutated_objects) {
        Ok(t) => t,
        Err(e) => {
            return Err(e);
        },
    };
    let ghost created_rows = objects@;
    let ghost m_rows = mutated_rows@;
    let ghost created_ids = object_ids@;
    let ghost m_ids = mutated_ids@;
    objects.append(&mut mutated_rows);
    object_ids.append(&mut mutated_ids);
    proof {
        let od = object_deltas(created_objects@, mutated_objects@);
        let pc = present(created_objects@);
        let pm = present(mutated_objects@);
        assert(objects@ == created_rows + m_rows);
        assert forall|k: int| 0 <= k < objects.len() implies (#[trigger] objects[k])@ == object_row(
            gctx,
            (next.object + k) as u64,
            od[k].0,
            od[k].1,
        ) by {
            if k < n_created {
                assert(objects[k] == created_rows[k]);
                assert(od[k] == (0u8, pc[k]));
            } else {
                assert(objects[k] == m_rows[k - n_created]);
                assert(od[k] == (1u8, pm[k - n_created]));
            }
        }
        assert(object_ids@ =~= id_run(next.object, objects.len() as nat));
    }

    let (call_traces, call_trace_ids) = match map_call_traces(&ctx, next.call_trace, call_traces_per_tx_payload) {
        Ok(t) => t,
        Err(e) => {
            return Err(e);
        },
    };

    let transaction = TransactionRow {
        id: next.transaction,
        relation_events: event_ids,
        relation_objects: object_ids,
        relation_call_traces: call_trace_ids,
        record_version: 1,
        tx_index: seq,
        time_index: timestamp_ms / 1000,
        certificate_epoch: cert.epoch,
        certificate_signature: copy_bytes(&cert.signature),
        certificate_signers_map: copy_bytes(&cert.signers_map),
        tx_hash: copy_bytes(digest),
        epoch: cert.epoch,
        chain_id,
        sender: copy_bytes(&cert.sender),
        shared_object_refs,
        created_object_refs,
        mutated_object_refs,
        deleted_object_refs,
        unwrapped_object_refs,
        wrapped_object_refs,
        gas_object,
        gas_limit: cert.gas_budget,
        gas_price: cert.gas_price,
        gas_used: effects.gas_used,
        gas_computation_cost: effects.computation_cost,
        gas_storage_cost: effects.storage_cost,
        gas_storage_rebate: effects.storage_rebate,
        dependencies: copy_byte_list(&effects.dependencies),
        tx_type: match cert.kind {
            TransactionKind::Single => 0,
            TransactionKind::Batch => 1,
        },
        payload: copy_byte_list(&cert.payload),
        signature: copy_bytes(&cert.tx_signature),
        success: effects.success,
        detailed_status: copy_bytes(&effects.detailed_status),
        time: timestamp_ms,
        fee,
        size: cert.size,
    };
    Ok(MappedTransaction { transaction, events, objects, call_traces, missing_payloads })
}

/// Every child row of a mapped transaction names the transaction row's id as
/// its parent, and each relation list of the transaction row holds exactly the
/// ids of its children of that entity, in the order they were produced.
pub proof fn lemma_relations_match_children(
    m: MappedTransaction,
    next: IdCounters,
    seq: u64,
    digest: Seq<u8>,
    cert: Certificate,
    effects: Effects,
    structs: Seq<Option<MoveStruct>>,
    created: Seq<Option<ObjectDelta>>,
    mutated: Seq<Option<ObjectDelta>>,
    traces: Seq<Vec<CallTrace>>,
    timestamp_ms: u64,
    chain_id: Option<u8>,
)
    requires
        maps_to(m, next, seq, digest, cert, effects, structs, created, mutated, traces, timestamp_ms, chain_id),
    ensures
        forall|j: int| 0 <= j < m.events.len() ==> (#[trigger] m.events[j]).relation_transaction == m.transaction.id,
        forall|k: int| 0 <= k < m.objects.len() ==> (#[trigger] m.objects[k]).relation_transaction == m.transaction.id,
        forall|k: int|
            0 <= k < m.call_traces.len() ==> (#[trigger] m.call_traces[k]).relation_transaction == m.transaction.id,
        m.transaction.relation_events@ == m.events@.map_values(|e: EventRow| e.id),
        m.transaction.relation_objects@ == m.objects@.map_values(|o: ObjectRow| o.id),
        m.transaction.relation_call_traces@ == m.call_traces@.map_values(|c: CallTraceRow| c.id),
{
    let ctx = row_context(next, seq, digest, cert, timestamp_ms);
    let objects = object_deltas(created, mutated);
    let fr = frames(traces);
    assert forall|j: int| 0 <= j < m.events.len() implies (#[trigger] m.events[j]).relation_transaction
        == m.transaction.id by {
        assert(m.events[j]@ == event_row(ctx, (next.event + j) as u64, j, effects.events[j], decoded_at(structs, j)));
    }
    assert forall|k: int| 0 <= k < m.objects.len() implies (#[trigger] m.objects[k]).relation_transaction
        == m.transaction.id by {
        assert(m.objects[k]@ == object_row(ctx, (next.object + k) as u64, objects[k].0, objects[k].1));
    }
    assert forall|k: int| 0 <= k < m.call_traces.len() implies (#[trigger] m.call_traces[k]).relation_transaction
        == m.transaction.id by {
        assert(m.call_traces[k]@ == call_trace_row(ctx, (next.call_trace + k) as u64, fr[k]));
    }
    assert forall|j: int| 0 <= j < m.events.len() implies #[trigger] m.transaction.relation_events@[j] == m.events@.map_values(|e: EventRow| e.id)[j] by {
        assert(m.events[j]@ == event_row(ctx, (next.event + j) as u64, j, effects.events[j], decoded_at(structs, j)));
    }
    assert(m.transaction.relation_events@ =~= m.events@.map_values(|e: EventRow| e.id));
    assert forall|k: int| 0 <= k < m.objects.len() implies #[trigger] m.transaction.relation_objects@[k] == m.objects@.map_values(|o: ObjectRow| o.id)[k] by {
        assert(m.objects[k]@ == object_row(ctx, (next.object + k) as u64, objects[k].0, objects[k].1));
    }
    assert(m.transaction.relation_objects@ =~= m.objects@.map_values(|o: ObjectRow| o.id));
    assert forall|k: int| 0 <= k < m.call_traces.len() implies #[trigger] m.transaction.relation_call_traces@[k] == m.call_traces@.map_values(|c: CallTraceRow| c.id)[k] by {
        assert(m.call_traces[k]@ == call_trace_row(ctx, (next.call_trace + k) as u64, fr[k]));
    }
    assert(m.transaction.relation_call_traces@ =~= m.call_traces@.map_values(|c: CallTraceRow| c.id));
}

/// A transaction with no events, no object deltas and no call-trace frames
/// still maps to one transaction row, whose three relation lists are empty,
/// and to no child rows.
pub proof fn lemma_empty_transaction(
    m: MappedTransaction,
    next: IdCounters,
    seq: u64,
    digest: Seq<u8>,
    cert: Certificate,
    effects: Effects,
    structs: Seq<Option<MoveStruct>>,
    created: Seq<Option<ObjectDelta>>,
    mutated: Seq<Option<ObjectDelta>>,
    traces: Seq<Vec<CallTrace>>,
    timestamp_ms: u64,
    chain_id: Option<u8>,
)
    requires
        maps_to(m, next, seq, digest, cert, effects, structs, created, mutated, traces, timestamp_ms, chain_id),
        effects.events.len() == 0,
        object_deltas(created, mutated).len() == 0,
        frames(traces).len() == 0,
    ensures
        m.events.len() == 0,
        m.objects.len() == 0,
        m.call_traces.len() == 0,
        m.transaction.id == next.transaction,
        m.transaction.relation_events@.len() == 0,
        m.transaction.relation_objects@.len() == 0,
        m.transaction.relation_call_traces@.len() == 0,
{
}

} // verus!
