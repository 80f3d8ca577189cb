use sui_queryable::buffer::RowCounts;
use sui_queryable::export::{ExportError, ExportOutcome, QueryableExporter};
use sui_queryable::mapper::MapError;
use sui_queryable::model::{
    BalanceChangeType, CallTrace, CallType, Certificate, Effects, Event, MoveStruct, MoveValue,
    Object, ObjectDelta, ObjectRef, Owner, StructTag, TransactionKind,
};
use sui_queryable::types::LastExportData;

fn obj_ref(id: u8, version: u64) -> ObjectRef {
    ObjectRef { object_id: vec![id; 4], version, digest: vec![id + 100; 2] }
}

fn cert() -> Certificate {
    Certificate {
        epoch: 7,
        signature: vec![1, 2, 3],
        signers_map: vec![4, 5],
        sender: vec![0xaa; 4],
        gas_payment: obj_ref(9, 3),
        gas_budget: 1000,
        gas_price: 2,
        kind: TransactionKind::Single,
        payload: vec![b"{\"Call\":1}".to_vec()],
        tx_signature: vec![6, 6],
        size: 321,
        is_system_tx: false,
    }
}

fn effects(events: Vec<Event>) -> Effects {
    Effects {
        shared_objects: vec![],
        created: vec![obj_ref(1, 1)],
        mutated: vec![obj_ref(2, 4), obj_ref(3, 5)],
        deleted: vec![],
        unwrapped: vec![],
        wrapped: vec![],
        gas_used: 50,
        computation_cost: 30,
        storage_cost: 25,
        storage_rebate: 5,
        dependencies: vec![vec![0xd1, 0xd2]],
        success: true,
        detailed_status: b"\"Success\"".to_vec(),
        events,
    }
}

fn move_event() -> Event {
    Event::MoveEvent {
        package_id: vec![0x02],
        transaction_module: b"coin".to_vec(),
        sender: vec![0xaa; 4],
        type_module: b"0x2::coin".to_vec(),
        struct_name: b"Minted".to_vec(),
    }
}

fn publish_event() -> Event {
    Event::Publish { sender: vec![0xaa; 4], package_id: vec![0x05] }
}

fn three_fields() -> MoveStruct {
    MoveStruct::WithFields(vec![
        (b"amount".to_vec(), MoveValue::U64(258)),
        (b"flag".to_vec(), MoveValue::Bool(true)),
        (b"owner".to_vec(), MoveValue::Address(vec![0xab, 0xcd])),
    ])
}

fn exporter() -> QueryableExporter {
    QueryableExporter::new(None, Some(1), 10)
}

fn ingest_empty(e: &mut QueryableExporter, seq: u64) -> Result<Vec<usize>, ExportError> {
    e.add_transaction(seq, &vec![seq as u8; 3], &cert(), &effects(vec![]), &vec![], &vec![], &vec![], &vec![], 1_500)
}

#[test]
fn rich_and_publish_events_then_export() {
    let mut e = exporter();
    let missing = e
        .add_transaction(
            5,
            &vec![0x55; 3],
            &cert(),
            &effects(vec![move_event(), publish_event()]),
            &vec![Some(three_fields()), None],
            &vec![],
            &vec![],
            &vec![],
            12_345,
        )
        .unwrap();
    assert!(missing.is_empty());
    let rows = e.buffer();
    assert_eq!(rows.transactions().len(), 1);
    assert_eq!(rows.transactions()[0].tx_index, 5);
    assert_eq!(rows.events().len(), 2);
    assert_eq!(rows.events()[0].columns.event_type, 0);
    assert_eq!(rows.events()[1].columns.event_type, 1);
    let rich = &rows.events()[0].columns;
    assert_eq!(rich.move_arg_names.as_ref().unwrap().len(), 3);
    assert_eq!(rich.move_arg_types.as_ref().unwrap().len(), 3);
    assert_eq!(rich.move_arg_values.as_ref().unwrap().len(), 3);
    assert_eq!(rich.move_arg_names.as_ref().unwrap()[0], b"amount".to_vec());
    assert_eq!(rich.move_arg_types.as_ref().unwrap()[0], b"u64".to_vec());
    assert_eq!(rich.move_arg_values.as_ref().unwrap()[0], vec![0, 0, 0, 0, 0, 0, 1, 2]);
    assert_eq!(rich.move_arg_types.as_ref().unwrap()[1], b"bool".to_vec());
    assert_eq!(rich.move_arg_values.as_ref().unwrap()[1], vec![1]);
    assert_eq!(rich.move_arg_types.as_ref().unwrap()[2], b"address".to_vec());
    assert_eq!(rich.move_arg_values.as_ref().unwrap()[2], vec![0xab, 0xcd]);
    let publish = &rows.events()[1].columns;
    assert_eq!(publish.common_package_id, Some(vec![0x05]));
    assert_eq!(publish.move_arg_types, None);
    let ticket = e.prepare_export();
    assert_eq!(ticket.through, 5);
    assert_eq!(e.export(ExportOutcome::Confirmed), Ok(()));
    assert_eq!(e.last_successful_export_tx_version(), 5);
    assert_eq!(e.buffer().transactions().len(), 0);
    assert_eq!(e.buffer().events().len(), 0);
}

#[test]
fn publish_failure_keeps_checkpoint_and_retries() {
    let mut e = exporter();
    ingest_empty(&mut e, 3).unwrap();
    assert_eq!(e.prepare_export().through, 3);
    assert_eq!(e.export(ExportOutcome::PublishFailed), Err(ExportError::PublishFailed));
    assert_eq!(e.last_successful_export_tx_version(), 0);
    assert_eq!(e.last_tx_version(), 3);
    assert!(e.pending_export().is_none());
    assert_eq!(e.buffer().transactions().len(), 1);
    let retry = e.prepare_export();
    assert_eq!(retry.through, 3);
    assert_eq!(retry.rows.transactions, 1);
    assert_eq!(e.export(ExportOutcome::Confirmed), Ok(()));
    assert_eq!(e.last_successful_export_tx_version(), 3);
}

#[test]
fn snapshot_and_confirm_failures_keep_checkpoint() {
    let mut e = exporter();
    ingest_empty(&mut e, 8).unwrap();
    e.prepare_export();
    assert_eq!(e.export(ExportOutcome::SnapshotFailed), Err(ExportError::SnapshotFailed));
    e.prepare_export();
    assert_eq!(e.export(ExportOutcome::ConfirmFailed), Err(ExportError::ConfirmFailed));
    assert_eq!(e.last_successful_export_tx_version(), 0);
    assert_eq!(e.buffer().transactions().len(), 1);
}

#[test]
fn export_without_prepared_cycle_is_refused() {
    let mut e = exporter();
    assert_eq!(e.export(ExportOutcome::Confirmed), Err(ExportError::NoExportPending));
}

#[test]
fn reference_only_object_leaves_content_null() {
    let mut e = exporter();
    let delta = ObjectDelta::Reference { object_ref: obj_ref(4, 11), owner: Owner::AddressOwner(vec![0xee; 4]) };
    e.add_transaction(1, &vec![1], &cert(), &effects(vec![]), &vec![], &vec![Some(delta)], &vec![], &vec![], 0)
        .unwrap();
    let row = &e.buffer().objects()[0];
    assert_eq!(row.object_id, Some(vec![4; 4]));
    assert_eq!(row.object_version, Some(11));
    assert_eq!(row.owner_type, Some(1));
    assert_eq!(row.owner_id, Some(vec![0xee; 4]));
    assert_eq!(row.content, None);
    assert_eq!(row.storage_rebate, None);
    assert_eq!(row.module_address, None);
    assert_eq!(row.operation_type, 0);
}

#[test]
fn full_object_fills_content_and_shared_owner() {
    let mut e = exporter();
    let full = Object {
        struct_type: Some(StructTag { module: b"0x2::coin".to_vec(), name: b"Coin".to_vec() }),
        object_id: vec![7; 4],
        version: 12,
        owner: Owner::Shared { initial_shared_version: 258 },
        content: vec![1, 2, 3],
        storage_rebate: 40,
    };
    e.add_transaction(
        1,
        &vec![1],
        &cert(),
        &effects(vec![]),
        &vec![],
        &vec![None],
        &vec![None, Some(ObjectDelta::Full(full))],
        &vec![],
        0,
    )
    .unwrap();
    let objects = e.buffer().objects();
    assert_eq!(objects.len(), 1);
    let row = &objects[0];
    assert_eq!(row.operation_type, 1);
    assert_eq!(row.module_address, Some(b"0x2::coin".to_vec()));
    assert_eq!(row.object_name, Some(b"Coin".to_vec()));
    assert_eq!(row.owner_type, Some(2));
    assert_eq!(row.owner_id, Some(vec![0, 0, 0, 0, 0, 0, 1, 2]));
    assert_eq!(row.content, Some(vec![1, 2, 3]));
    assert_eq!(row.storage_rebate, Some(40));
}

#[test]
fn empty_transaction_yields_one_row_with_empty_relations() {
    let mut e = exporter();
    ingest_empty(&mut e, 2).unwrap();
    let rows = e.buffer();
    assert_eq!(rows.transactions().len(), 1);
    let t = &rows.transactions()[0];
    assert!(t.relation_events.is_empty());
    assert!(t.relation_objects.is_empty());
    assert!(t.relation_call_traces.is_empty());
    assert_eq!(rows.events().len(), 0);
    assert_eq!(rows.objects().len(), 0);
    assert_eq!(rows.call_traces().len(), 0);
}

#[test]
fn relations_name_children_in_order() {
    let mut e = exporter();
    ingest_empty(&mut e, 1).unwrap();
    let frames = vec![
        vec![call(0), call(1)],
        vec![],
        vec![call(2)],
    ];
    let created = vec![
        Some(ObjectDelta::Reference { object_ref: obj_ref(1, 1), owner: Owner::Immutable }),
        None,
        Some(ObjectDelta::Reference { object_ref: obj_ref(2, 1), owner: Owner::ObjectOwner(vec![3]) }),
    ];
    e.add_transaction(
        2,
        &vec![2],
        &cert(),
        &effects(vec![publish_event(), Event::EpochChange(4), Event::Checkpoint(9)]),
        &vec![],
        &created,
        &vec![],
        &frames,
        0,
    )
    .unwrap();
    let rows = e.buffer();
    let t = &rows.transactions()[1];
    assert_eq!(t.id, 1);
    let event_ids: Vec<u64> = rows.events().iter().map(|r| r.id).collect();
    let object_ids: Vec<u64> = rows.objects().iter().map(|r| r.id).collect();
    let trace_ids: Vec<u64> = rows.call_traces().iter().map(|r| r.id).collect();
    assert_eq!(t.relation_events, event_ids);
    assert_eq!(t.relation_events, vec![0, 1, 2]);
    assert_eq!(t.relation_objects, object_ids);
    assert_eq!(t.relation_objects, vec![0, 1]);
    assert_eq!(t.relation_call_traces, trace_ids);
    assert_eq!(t.relation_call_traces, vec![0, 1, 2]);
    assert!(rows.events().iter().all(|r| r.relation_transaction == 1));
    assert!(rows.objects().iter().all(|r| r.relation_transaction == 1));
    assert!(rows.call_traces().iter().all(|r| r.relation_transaction == 1));
    let depths: Vec<u32> = rows.call_traces().iter().map(|r| r.depth).collect();
    assert_eq!(depths, vec![0, 1, 2]);
    assert_eq!(rows.objects()[0].owner_type, Some(3));
    assert_eq!(rows.objects()[0].owner_id, None);
    assert_eq!(rows.objects()[1].owner_type, Some(0));
    assert_eq!(rows.events()[1].columns.epoch_change_id, Some(4));
    assert_eq!(rows.events()[2].columns.checkpoint, Some(9));
    assert_eq!(rows.events()[2].tx_event_id, 2);
}

fn call(depth: u32) -> CallTrace {
    CallTrace {
        depth,
        call_type: if depth % 2 == 0 { CallType::Call } else { CallType::CallGeneric },
        module_id: if depth == 0 { None } else { Some(vec![0x02]) },
        function: b"transfer".to_vec(),
        ty_args: vec![b"0x2::sui::SUI".to_vec()],
        gas_used: 10 + depth as u64,
        err: None,
    }
}

#[test]
fn call_trace_row_columns() {
    let mut e = exporter();
    let mut failing = call(1);
    failing.err = Some(b"\"Abort\"".to_vec());
    e.add_transaction(4, &vec![4], &cert(), &effects(vec![]), &vec![], &vec![], &vec![], &vec![vec![call(0), failing]], 2_999)
        .unwrap();
    let rows = e.buffer().call_traces();
    assert_eq!(rows[0].call_type, 1);
    assert_eq!(rows[1].call_type, 2);
    assert_eq!(rows[0].module_address, None);
    assert_eq!(rows[1].module_address, Some(vec![0x02]));
    assert_eq!(rows[1].method_name, b"transfer".to_vec());
    assert_eq!(rows[1].ty_args, vec![b"0x2::sui::SUI".to_vec()]);
    assert_eq!(rows[1].gas_used, 11);
    assert_eq!(rows[1].err, Some(b"\"Abort\"".to_vec()));
    assert_eq!(rows[1].tx_type, 1);
    assert_eq!(rows[1].time_index, 2);
    assert_eq!(rows[1].tx_index, 4);
}

#[test]
fn n_ingests_then_export_confirms_last() {
    let mut e = exporter();
    for seq in [3u64, 4, 4, 9] {
        ingest_empty(&mut e, seq).unwrap();
    }
    assert_eq!(e.get_cached_transactions_count(), 4);
    e.prepare_export();
    assert_eq!(e.get_cached_transactions_count(), 0);
    e.export(ExportOutcome::Confirmed).unwrap();
    assert_eq!(e.last_successful_export_tx_version(), 9);
    assert_eq!(e.last_tx_version(), 9);
    assert_eq!(e.get_cached_transactions_count(), 0);
}

#[test]
fn rows_ingested_during_export_stay_buffered() {
    let mut e = exporter();
    ingest_empty(&mut e, 1).unwrap();
    let ticket = e.prepare_export();
    assert_eq!(ticket.rows, RowCounts { transactions: 1, events: 0, objects: 0, call_traces: 0 });
    ingest_empty(&mut e, 2).unwrap();
    e.export(ExportOutcome::Confirmed).unwrap();
    assert_eq!(e.last_successful_export_tx_version(), 1);
    assert_eq!(e.last_tx_version(), 2);
    assert_eq!(e.buffer().transactions().len(), 1);
    assert_eq!(e.buffer().transactions()[0].tx_index, 2);
}

#[test]
fn discard_twice_keeps_confirmed() {
    let mut e = QueryableExporter::new(Some(LastExportData { last_known_tx_version: 40 }), None, 5);
    assert_eq!(e.last_tx_version(), 40);
    ingest_empty(&mut e, 41).unwrap();
    ingest_empty(&mut e, 42).unwrap();
    e.reset_cached_data();
    assert_eq!(e.last_successful_export_tx_version(), 40);
    assert_eq!(e.last_tx_version(), 40);
    assert_eq!(e.buffer().transactions().len(), 0);
    e.reset_cached_data();
    assert_eq!(e.last_successful_export_tx_version(), 40);
    assert_eq!(e.last_tx_version(), 40);
    assert_eq!(e.get_cached_transactions_count(), 0);
}

#[test]
fn sequence_regression_is_refused() {
    let mut e = exporter();
    ingest_empty(&mut e, 10).unwrap();
    assert_eq!(ingest_empty(&mut e, 9), Err(ExportError::SequenceRegression));
    assert_eq!(e.last_tx_version(), 10);
    assert_eq!(e.buffer().transactions().len(), 1);
}

#[test]
fn fee_overflow_is_refused() {
    let mut e = exporter();
    let mut c = cert();
    c.gas_price = u64::MAX;
    let r = e.add_transaction(1, &vec![1], &c, &effects(vec![]), &vec![], &vec![], &vec![], &vec![], 0);
    assert_eq!(r, Err(ExportError::Mapping(MapError::FeeOverflow)));
    assert_eq!(e.buffer().transactions().len(), 0);
    assert_eq!(e.last_tx_version(), 0);
}

#[test]
fn missing_payload_is_reported_not_fatal() {
    let mut e = exporter();
    let missing = e
        .add_transaction(
            1,
            &vec![1],
            &cert(),
            &effects(vec![publish_event(), move_event(), move_event()]),
            &vec![None, None],
            &vec![],
            &vec![],
            &vec![],
            0,
        )
        .unwrap();
    assert_eq!(missing, vec![1, 2]);
    let cols = &e.buffer().events()[2].columns;
    assert_eq!(cols.move_arg_types, Some(vec![]));
    assert_eq!(cols.move_arg_names, Some(vec![]));
    assert_eq!(cols.move_arg_values, Some(vec![]));
    assert_eq!(cols.move_event_name, Some(b"Minted".to_vec()));
}

#[test]
fn transaction_row_scalars() {
    let mut e = exporter();
    e.add_transaction(6, &vec![0x66; 2], &cert(), &effects(vec![]), &vec![], &vec![], &vec![], &vec![], 7_250).unwrap();
    let t = &e.buffer().transactions()[0];
    assert_eq!(t.record_version, 1);
    assert_eq!(t.time_index, 7);
    assert_eq!(t.time, 7_250);
    assert_eq!(t.fee, 100);
    assert_eq!(t.chain_id, Some(1));
    assert_eq!(t.tx_hash, vec![0x66; 2]);
    assert_eq!(t.certificate_epoch, 7);
    assert_eq!(t.epoch, 7);
    assert_eq!(t.size, 321);
    assert_eq!(t.tx_type, 0);
    assert!(t.success);
    assert_eq!(t.dependencies, vec![vec![0xd1, 0xd2]]);
    assert_eq!(t.payload, vec![b"{\"Call\":1}".to_vec()]);
    // id 01010101, version 1, digest 6565: each byte vector prefixed by its length
    assert_eq!(t.created_object_refs, vec![vec![4, 1, 1, 1, 1, 1, 0, 0, 0, 0, 0, 0, 0, 2, 101, 101]]);
    assert_eq!(t.mutated_object_refs.len(), 2);
    assert_eq!(t.shared_object_refs.len(), 0);
    assert_eq!(t.gas_object, vec![4, 9, 9, 9, 9, 3, 0, 0, 0, 0, 0, 0, 0, 2, 109, 109]);
}

#[test]
fn coin_balance_change_columns() {
    let mut e = exporter();
    let ev = Event::CoinBalanceChange {
        package_id: vec![2],
        transaction_module: b"pay".to_vec(),
        sender: vec![0xaa],
        change_type: BalanceChangeType::Receive,
        owner: Owner::AddressOwner(vec![0xbb]),
        coin_type: b"0x2::sui::SUI".to_vec(),
        coin_object_id: vec![0xcc],
        version: 3,
        amount: -2,
    };
    e.add_transaction(1, &vec![1], &cert(), &effects(vec![ev]), &vec![], &vec![], &vec![], &vec![], 0).unwrap();
    let c = &e.buffer().events()[0].columns;
    assert_eq!(c.event_type, 2);
    assert_eq!(c.coin_balance_change_change_type, Some(2));
    assert_eq!(c.common_recipient_type, Some(1));
    assert_eq!(c.common_recipient, Some(vec![0xbb]));
    let mut amount = vec![0xff; 15];
    amount.push(0xfe);
    assert_eq!(c.coin_balance_change_amount, Some(amount));
    assert_eq!(c.coin_balance_change_version, Some(3));
    assert_eq!(c.common_object_id, None);
}

#[test]
fn runtime_payload_has_no_names() {
    let mut e = exporter();
    let payload = MoveStruct::Runtime(vec![
        MoveValue::U8(7),
        MoveValue::U16(0x0102),
        MoveValue::U32(1),
        MoveValue::U128(1),
        MoveValue::U256(vec![1; 32]),
        MoveValue::Signer(vec![5]),
        MoveValue::Vector(b"[1,2]".to_vec()),
        MoveValue::Struct(b"{}".to_vec()),
    ]);
    e.add_transaction(1, &vec![1], &cert(), &effects(vec![move_event()]), &vec![Some(payload)], &vec![], &vec![], &vec![], 0)
        .unwrap();
    let c = &e.buffer().events()[0].columns;
    assert_eq!(c.move_arg_names, Some(vec![]));
    let tags: Vec<String> =
        c.move_arg_types.as_ref().unwrap().iter().map(|t| String::from_utf8(t.clone()).unwrap()).collect();
    assert_eq!(tags, vec!["u8", "u16", "u32", "u128", "u256_le", "signer", "vec_json", "struct_json"]);
    let values = c.move_arg_values.as_ref().unwrap();
    assert_eq!(values[0], vec![7]);
    assert_eq!(values[1], vec![1, 2]);
    assert_eq!(values[2], vec![0, 0, 0, 1]);
    assert_eq!(values[3].len(), 16);
    assert_eq!(values[3][15], 1);
    assert_eq!(values[4], vec![1; 32]);
    assert_eq!(values[5], vec![5]);
    assert_eq!(values[6], b"[1,2]".to_vec());
}

#[test]
fn checkpoint_payload_is_json_record() {
    let mut e = exporter();
    ingest_empty(&mut e, 1234).unwrap();
    let ticket = e.prepare_export();
    assert_eq!(ticket.checkpoint_payload(), b"{\"last_known_tx_version\":1234}".to_vec());
    assert_eq!(LastExportData { last_known_tx_version: 0 }.to_json(), b"{\"last_known_tx_version\":0}".to_vec());
}

#[test]
fn ids_continue_across_transactions() {
    let mut e = exporter();
    e.add_transaction(1, &vec![1], &cert(), &effects(vec![publish_event()]), &vec![], &vec![], &vec![], &vec![], 0).unwrap();
    e.add_transaction(2, &vec![2], &cert(), &effects(vec![publish_event()]), &vec![], &vec![], &vec![], &vec![], 0).unwrap();
    let rows = e.buffer();
    assert_eq!(rows.transactions()[1].id, 1);
    assert_eq!(rows.events()[1].id, 1);
    assert_eq!(rows.events()[1].relation_transaction, 1);
    assert_eq!(rows.transactions()[1].relation_events, vec![1]);
    e.prepare_export();
    e.export(ExportOutcome::Confirmed).unwrap();
    e.add_transaction(3, &vec![3], &cert(), &effects(vec![publish_event()]), &vec![], &vec![], &vec![], &vec![], 0).unwrap();
    assert_eq!(e.buffer().transactions()[0].id, 2);
    assert_eq!(e.buffer().events()[0].id, 2);
}

#[test]
fn chain_id_and_batch_size() {
    let mut e = QueryableExporter::new(None, None, 25);
    assert_eq!(e.get_transactions_per_export(), 25);
    assert_eq!(e.chain_id(), None);
    e.set_chain_id(3);
    assert_eq!(e.chain_id(), Some(3));
    ingest_empty(&mut e, 0).unwrap();
    assert_eq!(e.buffer().transactions()[0].chain_id, Some(3));
}

#[test]
fn long_reference_gets_multi_byte_length_prefix() {
    let mut e = exporter();
    let mut fx = effects(vec![]);
    fx.deleted = vec![ObjectRef { object_id: vec![7; 200], version: 0x0102, digest: vec![] }];
    e.add_transaction(1, &vec![1], &cert(), &fx, &vec![], &vec![], &vec![], &vec![], 0).unwrap();
    let encoded = &e.buffer().transactions()[0].deleted_object_refs[0];
    assert_eq!(encoded.len(), 2 + 200 + 8 + 1);
    assert_eq!(&encoded[..2], &[0xc8, 0x01]);
    assert_eq!(&encoded[202..210], &[2, 1, 0, 0, 0, 0, 0, 0]);
    assert_eq!(encoded[210], 0);
}
