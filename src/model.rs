//! The ledger values that a transaction is mapped from, held as plain values:
//! addresses, identifiers and digests as bytes, versions as integers.
use vstd::prelude::*;

verus! {

/// A reference to one version of a state object.
pub struct ObjectRef {
    pub object_id: Vec<u8>,
    pub version: u64,
    pub digest: Vec<u8>,
}

/// Who owns an object, or receives one in an event.
pub enum Owner {
    /// Owned by another object, whose address is held.
    ObjectOwner(Vec<u8>),
    /// Owned by an account address.
    AddressOwner(Vec<u8>),
    /// Shared since the given version.
    Shared { initial_shared_version: u64 },
    /// Frozen; no owner.
    Immutable,
}

/// Why a coin balance changed.
pub enum BalanceChangeType {
    Gas,
    Pay,
    Receive,
}

/// A domain event emitted while executing a transaction.
pub enum Event {
    /// An event defined by a module, whose payload may be decoded separately.
    MoveEvent {
        package_id: Vec<u8>,
        transaction_module: Vec<u8>,
        sender: Vec<u8>,
        /// The module of the event's struct type, in its short textual form.
        type_module: Vec<u8>,
        /// The name of the event's struct type.
        struct_name: Vec<u8>,
    },
    Publish { sender: Vec<u8>, package_id: Vec<u8> },
    CoinBalanceChange {
        package_id: Vec<u8>,
        transaction_module: Vec<u8>,
        sender: Vec<u8>,
        change_type: BalanceChangeType,
        owner: Owner,
        coin_type: Vec<u8>,
        coin_object_id: Vec<u8>,
        version: u64,
        amount: i128,
    },
    EpochChange(u64),
    Checkpoint(u64),
    TransferObject {
        package_id: Vec<u8>,
        transaction_module: Vec<u8>,
        sender: Vec<u8>,
        recipient: Owner,
        object_type: Vec<u8>,
        object_id: Vec<u8>,
        version: u64,
    },
    MutateObject {
        package_id: Vec<u8>,
        transaction_module: Vec<u8>,
        sender: Vec<u8>,
        object_type: Vec<u8>,
        object_id: Vec<u8>,
        version: u64,
    },
    DeleteObject {
        package_id: Vec<u8>,
        transaction_module: Vec<u8>,
        sender: Vec<u8>,
        object_id: Vec<u8>,
        version: u64,
    },
    NewObject {
        package_id: Vec<u8>,
        transaction_module: Vec<u8>,
        sender: Vec<u8>,
        recipient: Owner,
        object_type: Vec<u8>,
        object_id: Vec<u8>,
        version: u64,
    },
}

/// One field value of a decoded event payload.
pub enum MoveValue {
    U8(u8),
    U64(u64),
    U128(u128),
    Bool(bool),
    Address(Vec<u8>),
    /// A vector, already serialized as JSON.
    Vector(Vec<u8>),
    /// A nested struct, already serialized as JSON.
    Struct(Vec<u8>),
    Signer(Vec<u8>),
    U16(u16),
    U32(u32),
    /// A 256-bit integer as its 32 little-endian bytes.
    U256(Vec<u8>),
}

/// A decoded event payload: its field values, with their names where known.
pub enum MoveStruct {
    Runtime(Vec<MoveValue>),
    WithFields(Vec<(Vec<u8>, MoveValue)>),
    WithTypes { struct_type: Vec<u8>, fields: Vec<(Vec<u8>, MoveValue)> },
}

/// The struct type of an object's content.
pub struct StructTag {
    /// The module, in its short textual form.
    pub module: Vec<u8>,
    pub name: Vec<u8>,
}

/// A full snapshot of a state object.
pub struct Object {
    /// `None` for a package.
    pub struct_type: Option<StructTag>,
    pub object_id: Vec<u8>,
    pub version: u64,
    pub owner: Owner,
    /// The object's data, serialized.
    pub content: Vec<u8>,
    pub storage_rebate: u64,
}

/// A created or mutated object, given either by reference and owner, or in full.
pub enum ObjectDelta {
    Reference { object_ref: ObjectRef, owner: Owner },
    Full(Object),
}

/// How a traced call was made.
pub enum CallType {
    Call,
    CallGeneric,
}

/// One recorded frame of an execution call.
pub struct CallTrace {
    pub depth: u32,
    pub call_type: CallType,
    pub module_id: Option<Vec<u8>>,
    pub function: Vec<u8>,
    pub ty_args: Vec<Vec<u8>>,
    pub gas_used: u64,
    /// The error the call ended with, serialized as JSON.
    pub err: Option<Vec<u8>>,
}

/// Whether a transaction carries one payload item or a batch of them.
pub enum TransactionKind {
    Single,
    Batch,
}

/// The signed certificate of a transaction, as far as the rows record it.
pub struct Certificate {
    pub epoch: u64,
    /// The authorities' aggregated signature.
    pub signature: Vec<u8>,
    /// The serialized bitmap of signing authorities.
    pub signers_map: Vec<u8>,
    pub sender: Vec<u8>,
    pub gas_payment: ObjectRef,
    pub gas_budget: u64,
    pub gas_price: u64,
    pub kind: TransactionKind,
    /// Each payload item, serialized as JSON.
    pub payload: Vec<Vec<u8>>,
    /// The sender's signature.
    pub tx_signature: Vec<u8>,
    /// The size of the serialized transaction data.
    pub size: u32,
    pub is_system_tx: bool,
}

/// The execution effects of a transaction.
pub struct Effects {
    pub shared_objects: Vec<ObjectRef>,
    pub created: Vec<ObjectRef>,
    pub mutated: Vec<ObjectRef>,
    pub deleted: Vec<ObjectRef>,
    pub unwrapped: Vec<ObjectRef>,
    pub wrapped: Vec<ObjectRef>,
    pub gas_used: u64,
    pub computation_cost: u64,
    pub storage_cost: u64,
    pub storage_rebate: u64,
    /// The digests of the transactions this one depends on.
    pub dependencies: Vec<Vec<u8>>,
    pub success: bool,
    /// The execution status, serialized as JSON.
    pub detailed_status: Vec<u8>,
    pub events: Vec<Event>,
}

} // verus!
