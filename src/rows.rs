//! The rows of the four entities, and their mathematical views.
use vstd::prelude::*;

verus! {

/// The bytes held by an optional byte column.
pub open spec fn opt_bytes(o: Option<Vec<u8>>) -> Option<Seq<u8>> {
    match o {
        Some(b) => Some(b@),
        None => None,
    }
}

/// The items of a list-of-bytes column.
pub open spec fn byte_list(v: Vec<Vec<u8>>) -> Seq<Seq<u8>> {
    v@.map_values(|b: Vec<u8>| b@)
}

/// The items of an optional list-of-bytes column.
pub open spec fn opt_byte_list(o: Option<Vec<Vec<u8>>>) -> Option<Seq<Seq<u8>>> {
    match o {
        Some(v) => Some(byte_list(v)),
        None => None,
    }
}

/// One row of the transactions entity.
pub struct TransactionRow {
    pub id: u64,
    pub relation_events: Vec<u64>,
    pub relation_objects: Vec<u64>,
    pub relation_call_traces: Vec<u64>,
    pub record_version: u8,
    pub tx_index: u64,
    pub time_index: u64,
    pub certificate_epoch: u64,
    pub certificate_signature: Vec<u8>,
    pub certificate_signers_map: Vec<u8>,
    pub tx_hash: Vec<u8>,
    pub epoch: u64,
    pub chain_id: Option<u8>,
    pub sender: Vec<u8>,
    pub shared_object_refs: Vec<Vec<u8>>,
    pub created_object_refs: Vec<Vec<u8>>,
    pub mutated_object_refs: Vec<Vec<u8>>,
    pub deleted_object_refs: Vec<Vec<u8>>,
    pub unwrapped_object_refs: Vec<Vec<u8>>,
    pub wrapped_object_refs: Vec<Vec<u8>>,
    pub gas_object: Vec<u8>,
    pub gas_limit: u64,
    pub gas_price: u64,
    pub gas_used: u64,
    pub gas_computation_cost: u64,
    pub gas_storage_cost: u64,
    pub gas_storage_rebate: u64,
    pub dependencies: Vec<Vec<u8>>,
    pub tx_type: u8,
    pub payload: Vec<Vec<u8>>,
    pub signature: Vec<u8>,
    pub success: bool,
    pub detailed_status: Vec<u8>,
    pub time: u64,
    pub fee: u64,
    pub size: u32,
}

pub struct TransactionRowView {
    pub id: u64,
    pub relation_events: Seq<u64>,
    pub relation_objects: Seq<u64>,
    pub relation_call_traces: Seq<u64>,
    pub record_version: u8,
    pub tx_index: u64,
    pub time_index: u64,
    pub certificate_epoch: u64,
    pub certificate_signature: Seq<u8>,
    pub certificate_signers_map: Seq<u8>,
    pub tx_hash: Seq<u8>,
    pub epoch: u64,
    pub chain_id: Option<u8>,
    pub sender: Seq<u8>,
    pub shared_object_refs: Seq<Seq<u8>>,
    pub created_object_refs: Seq<Seq<u8>>,
    pub mutated_object_refs: Seq<Seq<u8>>,
    pub deleted_object_refs: Seq<Seq<u8>>,
    pub unwrapped_object_refs: Seq<Seq<u8>>,
    pub wrapped_object_refs: Seq<Seq<u8>>,
    pub gas_object: Seq<u8>,
    pub gas_limit: u64,
    pub gas_price: u64,
    pub gas_used: u64,
    pub gas_computation_cost: u64,
    pub gas_storage_cost: u64,
    pub gas_storage_rebate: u64,
    pub dependencies: Seq<Seq<u8>>,
    pub tx_type: u8,
    pub payload: Seq<Seq<u8>>,
    pub signature: Seq<u8>,
    pub success: bool,
    pub detailed_status: Seq<u8>,
    pub time: u64,
    pub fee: u64,
    pub size: u32,
}

impl View for TransactionRow {
    type V = TransactionRowView;

    open spec fn view(&self) -> TransactionRowView {
        TransactionRowView {
            id: self.id,
            relation_events: self.relation_events@,
            relation_objects: self.relation_objects@,
            relation_call_traces: self.relation_call_traces@,
            record_version: self.record_version,
            tx_index: self.tx_index,
            time_index: self.time_index,
            certificate_epoch: self.certificate_epoch,
            certificate_signature: self.certificate_signature@,
            certificate_signers_map: self.certificate_signers_map@,
            tx_hash: self.tx_hash@,
            epoch: self.epoch,
            chain_id: self.chain_id,
            sender: self.sender@,
            shared_object_refs: byte_list(self.shared_object_refs),
            created_object_refs: byte_list(self.created_object_refs),
            mutated_object_refs: byte_list(self.mutated_object_refs),
            deleted_object_refs: byte_list(self.deleted_object_refs),
            unwrapped_object_refs: byte_list(self.unwrapped_object_refs),
            wrapped_object_refs: byte_list(self.wrapped_object_refs),
            gas_object: self.gas_object@,
            gas_limit: self.gas_limit,
            gas_price: self.gas_price,
            gas_used: self.gas_used,
            gas_computation_cost: self.gas_computation_cost,
            gas_storage_cost: self.gas_storage_cost,
            gas_storage_rebate: self.gas_storage_rebate,
            dependencies: byte_list(self.dependencies),
            tx_type: self.tx_type,
            payload: byte_list(self.payload),
            signature: self.signature@,
            success: self.success,
            detailed_status: self.detailed_status@,
            time: self.time,
            fee: self.fee,
            size: self.size,
        }
    }
}

/// One row of the events entity: the columns common to all kinds, the
/// discriminant, and the nullable superset of the kind-specific columns.
pub struct EventRow {
    pub id: u64,
    pub relation_transaction: u64,
    pub record_version: u8,
    pub tx_index: u64,
    pub time_index: u64,
    pub tx_event_id: u32,
    pub tx_hash: Vec<u8>,
    pub time: u64,
    pub columns: EventColumns,
}

/// The columns of an event row that depend on the event's kind.
pub struct EventColumns {
    pub event_type: u8,
    pub common_package_id: Option<Vec<u8>>,
    pub common_transaction_module: Option<Vec<u8>>,
    pub common_sender: Option<Vec<u8>>,
    pub common_recipient_type: Option<u8>,
    pub common_recipient: Option<Vec<u8>>,
    pub common_object_type: Option<Vec<u8>>,
    pub common_object_id: Option<Vec<u8>>,
    pub common_version: Option<u64>,
    pub move_module_id: Option<Vec<u8>>,
    pub move_event_name: Option<Vec<u8>>,
    pub move_arg_types: Option<Vec<Vec<u8>>>,
    pub move_arg_names: Option<Vec<Vec<u8>>>,
    pub move_arg_values: Option<Vec<Vec<u8>>>,
    pub coin_balance_change_change_type: Option<u8>,
    pub coin_balance_change_coin_type: Option<Vec<u8>>,
    pub coin_balance_change_coin_object_id: Option<Vec<u8>>,
    pub coin_balance_change_version: Option<u64>,
    pub coin_balance_change_amount: Option<Vec<u8>>,
    pub epoch_change_id: Option<u64>,
    pub checkpoint: Option<u64>,
}

pub struct EventColumnsView {
    pub event_type: u8,
    pub common_package_id: Option<Seq<u8>>,
    pub common_transaction_module: Option<Seq<u8>>,
    pub common_sender: Option<Seq<u8>>,
    pub common_recipient_type: Option<u8>,
    pub common_recipient: Option<Seq<u8>>,
    pub common_object_type: Option<Seq<u8>>,
    pub common_object_id: Option<Seq<u8>>,
    pub common_version: Option<u64>,
    pub move_module_id: Option<Seq<u8>>,
    pub move_event_name: Option<Seq<u8>>,
    pub move_arg_types: Option<Seq<Seq<u8>>>,
    pub move_arg_names: Option<Seq<Seq<u8>>>,
    pub move_arg_values: Option<Seq<Seq<u8>>>,
    pub coin_balance_change_change_type: Option<u8>,
    pub coin_balance_change_coin_type: Option<Seq<u8>>,
    pub coin_balance_change_coin_object_id: Option<Seq<u8>>,
    pub coin_balance_change_version: Option<u64>,
    pub coin_balance_change_amount: Option<Seq<u8>>,
    pub epoch_change_id: Option<u64>,
    pub checkpoint: Option<u64>,
}

impl View for EventColumns {
    type V = EventColumnsView;

    open spec fn view(&self) -> EventColumnsView {
        EventColumnsView {
            event_type: self.event_type,
            common_package_id: opt_bytes(self.common_package_id),
            common_transaction_module: opt_bytes(self.common_transaction_module),
            common_sender: opt_bytes(self.common_sender),
            common_recipient_type: self.common_recipient_type,
            common_recipient: opt_bytes(self.common_recipient),
            common_object_type: opt_bytes(self.common_object_type),
            common_object_id: opt_bytes(self.common_object_id),
            common_version: self.common_version,
            move_module_id: opt_bytes(self.move_module_id),
            move_event_name: opt_bytes(self.move_event_name),
            move_arg_types: opt_byte_list(self.move_arg_types),
            move_arg_names: opt_byte_list(self.move_arg_names),
            move_arg_values: opt_byte_list(self.move_arg_values),
            coin_balance_change_change_type: self.coin_balance_change_change_type,
            coin_balance_change_coin_type: opt_bytes(self.coin_balance_change_coin_type),
            coin_balance_change_coin_object_id: opt_bytes(self.coin_balance_change_coin_object_id),
            coin_balance_change_version: self.coin_balance_change_version,
            coin_balance_change_amount: opt_bytes(self.coin_balance_change_amount),
            epoch_change_id: self.epoch_change_id,
            checkpoint: self.checkpoint,
        }
    }
}

pub struct EventRowView {
    pub id: u64,
    pub relation_transaction: u64,
    pub record_version: u8,
    pub tx_index: u64,
    pub time_index: u64,
    pub tx_event_id: u32,
    pub tx_hash: Seq<u8>,
    pub time: u64,
    pub columns: EventColumnsView,
}

impl View for EventRow {
    type V = EventRowView;

    open spec fn view(&self) -> EventRowView {
        EventRowView {
            id: self.id,
            relation_transaction: self.relation_transaction,
            record_version: self.record_version,
            tx_index: self.tx_index,
            time_index: self.time_index,
            tx_event_id: self.tx_event_id,
            tx_hash: self.tx_hash@,
            time: self.time,
            columns: self.columns@,
        }
    }
}

/// One row of the objects entity.
pub struct ObjectRow {
    pub id: u64,
    pub relation_transaction: u64,
    pub record_version: u8,
    pub tx_index: u64,
    pub time_index: u64,
    pub tx_hash: Vec<u8>,
    pub time: u64,
    pub operation_type: u8,
    pub module_address: Option<Vec<u8>>,
    pub object_name: Option<Vec<u8>>,
    pub object_id: Option<Vec<u8>>,
    pub object_version: Option<u64>,
    pub owner_type: Option<u8>,
    pub owner_id: Option<Vec<u8>>,
    pub content: Option<Vec<u8>>,
    pub storage_rebate: Option<u64>,
}

pub struct ObjectRowView {
    pub id: u64,
    pub relation_transaction: u64,
    pub record_version: u8,
    pub tx_index: u64,
    pub time_index: u64,
    pub tx_hash: Seq<u8>,
    pub time: u64,
    pub operation_type: u8,
    pub module_address: Option<Seq<u8>>,
    pub object_name: Option<Seq<u8>>,
    pub object_id: Option<Seq<u8>>,
    pub object_version: Option<u64>,
    pub owner_type: Option<u8>,
    pub owner_id: Option<Seq<u8>>,
    pub content: Option<Seq<u8>>,
    pub storage_rebate: Option<u64>,
}

impl View for ObjectRow {
    type V = ObjectRowView;

    open spec fn view(&self) -> ObjectRowView {
        ObjectRowView {
            id: self.id,
            relation_transaction: self.relation_transaction,
            record_version: self.record_version,
            tx_index: self.tx_index,
            time_index: self.time_index,
            tx_hash: self.tx_hash@,
            time: self.time,
            operation_type: self.operation_type,
            module_address: opt_bytes(self.module_address),
            object_name: opt_bytes(self.object_name),
            object_id: opt_bytes(self.object_id),
            object_version: self.object_version,
            owner_type: self.owner_type,
            owner_id: opt_bytes(self.owner_id),
            content: opt_bytes(self.content),
            storage_rebate: self.storage_rebate,
        }
    }
}

/// One row of the call traces entity.
pub struct CallTraceRow {
    pub id: u64,
    pub relation_transaction: u64,
    pub record_version: u8,
    pub tx_index: u64,
    pub time_index: u64,
    pub tx_hash: Vec<u8>,
    pub tx_type: u8,
    pub depth: u32,
    pub call_type: u8,
    pub module_address: Option<Vec<u8>>,
    pub method_name: Vec<u8>,
    pub ty_args: Vec<Vec<u8>>,
    pub gas_used: u64,
    pub err: Option<Vec<u8>>,
}

pub struct CallTraceRowView {
    pub id: u64,
    pub relation_transaction: u64,
    pub record_version: u8,
    pub tx_index: u64,
    pub time_index: u64,
    pub tx_hash: Seq<u8>,
    pub tx_type: u8,
    pub depth: u32,
    pub call_type: u8,
    pub module_address: Option<Seq<u8>>,
    pub method_name: Seq<u8>,
    pub ty_args: Seq<Seq<u8>>,
    pub gas_used: u64,
    pub err: Option<Seq<u8>>,
}

impl View for CallTraceRow {
    type V = CallTraceRowView;

    open spec fn view(&self) -> CallTraceRowView {
        CallTraceRowView {
            id: self.id,
            relation_transaction: self.relation_transaction,
            record_version: self.record_version,
            tx_index: self.tx_index,
            time_index: self.time_index,
            tx_hash: self.tx_hash@,
            tx_type: self.tx_type,
            depth: self.depth,
            call_type: self.call_type,
            module_address: opt_bytes(self.module_address),
            method_name: self.method_name@,
            ty_args: byte_list(self.ty_args),
            gas_used: self.gas_used,
            err: opt_bytes(self.err),
        }
    }
}

} // verus!
