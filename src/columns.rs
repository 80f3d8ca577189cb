//! The variant tables: which columns each owner, field value and event kind fills.
use vstd::prelude::*;
use crate::encode::be_bytes;
use crate::encode::be_bytes_of;
use crate::model::{Event, MoveStruct, MoveValue, Owner, BalanceChangeType};
use crate::rows::{byte_list, EventColumns, EventColumnsView};

verus! {

/// A copy of a byte vector.
pub fn copy_bytes(b: &Vec<u8>) -> (r: Vec<u8>)
    ensures
        r@ == b@,
{
    let r = b.clone();
    proof {
        assert(r@ =~= b@);
    }
    r
}

/// The owner-kind column: object-owned, address-owned, shared, immutable.
pub open spec fn owner_kind(o: Owner) -> u8 {
    match o {
        Owner::ObjectOwner(_) => 0,
        Owner::AddressOwner(_) => 1,
        Owner::Shared { .. } => 2,
        Owner::Immutable => 3,
    }
}

/// The owner-id column: the owning address, or the big-endian initial shared
/// version, or nothing for an immutable object.
pub open spec fn owner_key(o: Owner) -> Option<Seq<u8>> {
    match o {
        Owner::ObjectOwner(a) => Some(a@),
        Owner::AddressOwner(a) => Some(a@),
        Owner::Shared { initial_shared_version } => Some(be_bytes(initial_shared_version as nat, 8)),
        Owner::Immutable => None,
    }
}

/// The two columns that record an owner.
pub fn owner_columns(o: &Owner) -> (r: (u8, Option<Vec<u8>>))
    ensures
        r.0 == owner_kind(*o),
        r.1 is Some <==> owner_key(*o) is Some,
        r.1 matches Some(b) ==> owner_key(*o) == Some(b@),
{
    match o {
        Owner::ObjectOwner(a) => (0, Some(copy_bytes(a))),
        Owner::AddressOwner(a) => (1, Some(copy_bytes(a))),
        Owner::Shared { initial_shared_version } => (2, Some(be_bytes_of(*initial_shared_version as u128, 8))),
        Owner::Immutable => (3, None),
    }
}

/// The scalar type tag recorded for a decoded field value.
pub open spec fn value_tag(v: MoveValue) -> Seq<u8> {
    match v {
        MoveValue::U8(_) => seq![117u8, 56],
        MoveValue::U16(_) => seq![117u8, 49, 54],
        MoveValue::U32(_) => seq![117u8, 51, 50],
        MoveValue::U64(_) => seq![117u8, 54, 52],
        MoveValue::U128(_) => seq![117u8, 49, 50, 56],
        MoveValue::U256(_) => seq![117u8, 50, 53, 54, 95, 108, 101],
        MoveValue::Bool(_) => seq![98u8, 111, 111, 108],
        MoveValue::Address(_) => seq![97u8, 100, 100, 114, 101, 115, 115],
        MoveValue::Signer(_) => seq![115u8, 105, 103, 110, 101, 114],
        MoveValue::Vector(_) => seq![118u8, 101, 99, 95, 106, 115, 111, 110],
        MoveValue::Struct(_) => seq![115u8, 116, 114, 117, 99, 116, 95, 106, 115, 111, 110],
    }
}

/// The serialized value recorded for a decoded field value: integers big-endian
/// (a 256-bit one as its little-endian bytes), a boolean as one byte 1 or 0,
/// addresses as they are, vectors and structs as their JSON.
pub open spec fn value_bytes(v: MoveValue) -> Seq<u8> {
    match v {
        MoveValue::U8(x) => be_bytes(x as nat, 1),
        MoveValue::U16(x) => be_bytes(x as nat, 2),
        MoveValue::U32(x) => be_bytes(x as nat, 4),
        MoveValue::U64(x) => be_bytes(x as nat, 8),
        MoveValue::U128(x) => be_bytes(x as nat, 16),
        MoveValue::U256(b) => b@,
        MoveValue::Bool(b) => if b { seq![1u8] } else { seq![0u8] },
        MoveValue::Address(a) => a@,
        MoveValue::Signer(a) => a@,
        MoveValue::Vector(j) => j@,
        MoveValue::Struct(j) => j@,
    }
}

pub fn value_tag_of(v: &MoveValue) -> (r: Vec<u8>)
    ensures
        r@ == value_tag(*v),
{
    let r = match v {
        MoveValue::U8(_) => vec![117u8, 56],
        MoveValue::U16(_) => vec![117u8, 49, 54],
        MoveValue::U32(_) => vec![117u8, 51, 50],
        MoveValue::U64(_) => vec![117u8, 54, 52],
        MoveValue::U128(_) => vec![117u8, 49, 50, 56],
        MoveValue::U256(_) => vec![117u8, 50, 53, 54, 95, 108, 101],
        MoveValue::Bool(_) => vec![98u8, 111, 111, 108],
        MoveValue::Address(_) => vec![97u8, 100, 100, 114, 101, 115, 115],
        MoveValue::Signer(_) => vec![115u8, 105, 103, 110, 101, 114],
        MoveValue::Vector(_) => vec![118u8, 101, 99, 95, 106, 115, 111, 110],
        MoveValue::Struct(_) => vec![115u8, 116, 114, 117, 99, 116, 95, 106, 115, 111, 110],
    };
    proof {
        assert(r@ =~= value_tag(*v));
    }
    r
}

pub fn value_bytes_of(v: &MoveValue) -> (r: Vec<u8>)
    ensures
        r@ == value_bytes(*v),
{
    match v {
        MoveValue::U8(x) => be_bytes_of(*x as u128, 1),
        MoveValue::U16(x) => be_bytes_of(*x as u128, 2),
        MoveValue::U32(x) => be_bytes_of(*x as u128, 4),
        MoveValue::U64(x) => be_bytes_of(*x as u128, 8),
        MoveValue::U128(x) => be_bytes_of(*x, 16),
        MoveValue::U256(b) => copy_bytes(b),
        MoveValue::Bool(b) => {
            let r = if *b { vec![1u8] } else { vec![0u8] };
            proof {
                assert(r@ =~= value_bytes(*v));
            }
            r
        },
        MoveValue::Address(a) => copy_bytes(a),
        MoveValue::Signer(a) => copy_bytes(a),
        MoveValue::Vector(j) => copy_bytes(j),
        MoveValue::Struct(j) => copy_bytes(j),
    }
}

/// The field values of a decoded payload, in order.
pub open spec fn struct_values(s: MoveStruct) -> Seq<MoveValue> {
    match s {
        MoveStruct::Runtime(vs) => vs@,
        MoveStruct::WithFields(fs) => fs@.map_values(|f: (Vec<u8>, MoveValue)| f.1),
        MoveStruct::WithTypes { fields, .. } => fields@.map_values(|f: (Vec<u8>, MoveValue)| f.1),
    }
}

/// The field names of a decoded payload, in order; none where the payload
/// carries its values alone.
pub open spec fn struct_names(s: MoveStruct) -> Seq<Seq<u8>> {
    match s {
        MoveStruct::Runtime(_) => Seq::empty(),
        MoveStruct::WithFields(fs) => fs@.map_values(|f: (Vec<u8>, MoveValue)| f.0@),
        MoveStruct::WithTypes { fields, .. } => fields@.map_values(|f: (Vec<u8>, MoveValue)| f.0@),
    }
}

/// The three flattened argument lists of a payload: names, type tags and
/// serialized values.
pub open spec fn flattened(s: MoveStruct) -> (Seq<Seq<u8>>, Seq<Seq<u8>>, Seq<Seq<u8>>) {
    (
        struct_names(s),
        struct_values(s).map_values(|v: MoveValue| value_tag(v)),
        struct_values(s).map_values(|v: MoveValue| value_bytes(v)),
    )
}

/// Mapping a sequence with one more element appends that element's image.
pub proof fn lemma_map_push<A, B>(s: Seq<A>, x: A, f: spec_fn(A) -> B)
    ensures
        s.push(x).map_values(f) == s.map_values(f).push(f(x)),
{
    assert(s.push(x).map_values(f) =~= s.map_values(f).push(f(x)));
}

/// The first `i + 1` elements are the first `i` and the element at `i`.
pub proof fn lemma_take_next<A>(s: Seq<A>, i: int)
    requires
        0 <= i < s.len(),
    ensures
        s.take(i + 1) == s.take(i).push(s[i]),
{
    assert(s.take(i + 1) =~= s.take(i).push(s[i]));
}

fn flatten_fields(
    fs: &Vec<(Vec<u8>, MoveValue)>,
) -> (r: (Vec<Vec<u8>>, Vec<Vec<u8>>, Vec<Vec<u8>>))
    ensures
        byte_list(r.0) == fs@.map_values(|f: (Vec<u8>, MoveValue)| f.0@),
        byte_list(r.1) == fs@.map_values(|f: (Vec<u8>, MoveValue)| f.1).map_values(
            |v: MoveValue| value_tag(v),
        ),
        byte_list(r.2) == fs@.map_values(|f: (Vec<u8>, MoveValue)| f.1).map_values(
            |v: MoveValue| value_bytes(v),
        ),
{
    let ghost vals = fs@.map_values(|f: (Vec<u8>, MoveValue)| f.1);
    let mut names: Vec<Vec<u8>> = Vec::new();
    let mut tags: Vec<Vec<u8>> = Vec::new();
    let mut values: Vec<Vec<u8>> = Vec::new();
    let mut i: usize = 0;
    while i < fs.len()
        invariant
            i <= fs.len(),
            vals == fs@.map_values(|f: (Vec<u8>, MoveValue)| f.1),
            byte_list(names) == fs@.take(i as int).map_values(|f: (Vec<u8>, MoveValue)| f.0@),
            byte_list(tags) == vals.take(i as int).map_values(|v: MoveValue| value_tag(v)),
            byte_list(values) == vals.take(i as int).map_values(|v: MoveValue| value_bytes(v)),
        decreases fs.len() - i,
    {
        let f = &fs[i];
        let ghost old_names = names@;
        let ghost old_tags = tags@;
        let ghost old_values = values@;
        let n = copy_bytes(&f.0);
        let t = value_tag_of(&f.1);
        let b = value_bytes_of(&f.1);
        names.push(n);
        tags.push(t);
        values.push(b);
        proof {
            assert(vals[i as int] == f.1);
            lemma_take_next(fs@, i as int);
            lemma_take_next(vals, i as int);
            lemma_map_push(fs@.take(i as int), fs@[i as int], |f: (Vec<u8>, MoveValue)| f.0@);
            lemma_map_push(vals.take(i as int), vals[i as int], |v: MoveValue| value_tag(v));
            lemma_map_push(vals.take(i as int), vals[i as int], |v: MoveValue| value_bytes(v));
            lemma_map_push(old_names, n, |b: Vec<u8>| b@);
            lemma_map_push(old_tags, t, |b: Vec<u8>| b@);
            lemma_map_push(old_values, b, |b: Vec<u8>| b@);
        }
        i = i + 1;
    }
    proof {
        assert(fs@.take(fs.len() as int) =~= fs@);
        assert(vals.take(fs.len() as int) =~= vals);
    }
    (names, tags, values)
}

fn flatten_values(vs: &Vec<MoveValue>) -> (r: (Vec<Vec<u8>>, Vec<Vec<u8>>))
    ensures
        byte_list(r.0) == vs@.map_values(|v: MoveValue| value_tag(v)),
        byte_list(r.1) == vs@.map_values(|v: MoveValue| value_bytes(v)),
{
    let mut tags: Vec<Vec<u8>> = Vec::new();
    let mut values: Vec<Vec<u8>> = Vec::new();
    let mut i: usize = 0;
    while i < vs.len()
        invariant
            i <= vs.len(),
            byte_list(tags) == vs@.take(i as int).map_values(|v: MoveValue| value_tag(v)),
            byte_list(values) == vs@.take(i as int).map_values(|v: MoveValue| value_bytes(v)),
        decreases vs.len() - i,
    {
        let ghost old_tags = tags@;
        let ghost old_values = values@;
        let t = value_tag_of(&vs[i]);
        let b = value_bytes_of(&vs[i]);
        tags.push(t);
        values.push(b);
        proof {
            lemma_take_next(vs@, i as int);
            lemma_map_push(vs@.take(i as int), vs@[i as int], |v: MoveValue| value_tag(v));
            lemma_map_push(vs@.take(i as int), vs@[i as int], |v: MoveValue| value_bytes(v));
            lemma_map_push(old_tags, t, |b: Vec<u8>| b@);
            lemma_map_push(old_values, b, |b: Vec<u8>| b@);
        }
        i = i + 1;
    }
    proof {
        assert(vs@.take(vs.len() as int) =~= vs@);
    }
    (tags, values)
}

/// Flattens a decoded payload into its three parallel lists.
pub fn flatten_struct(s: &MoveStruct) -> (r: (Vec<Vec<u8>>, Vec<Vec<u8>>, Vec<Vec<u8>>))
    ensures
        (byte_list(r.0), byte_list(r.1), byte_list(r.2)) == flattened(*s),
{
    match s {
        MoveStruct::Runtime(vs) => {
            let (tags, values) = flatten_values(vs);
            let names: Vec<Vec<u8>> = Vec::new();
            proof {
                assert(byte_list(names) =~= Seq::empty());
            }
            (names, tags, values)
        },
        MoveStruct::WithFields(fs) => flatten_fields(fs),
        MoveStruct::WithTypes { fields, .. } => flatten_fields(fields),
    }
}

/// The kind-specific columns all left null, under discriminant `t`.
pub open spec fn null_columns(t: u8) -> EventColumnsView {
    EventColumnsView {
        event_type: t,
        common_package_id: None,
        common_transaction_module: None,
        common_sender: None,
        common_recipient_type: None,
        common_recipient: None,
        common_object_type: None,
        common_object_id: None,
        common_version: None,
        move_module_id: None,
        move_event_name: None,
        move_arg_types: None,
        move_arg_names: None,
        move_arg_values: None,
        coin_balance_change_change_type: None,
        coin_balance_change_coin_type: None,
        coin_balance_change_coin_object_id: None,
        coin_balance_change_version: None,
        coin_balance_change_amount: None,
        epoch_change_id: None,
        checkpoint: None,
    }
}

/// The balance-change-type column.
pub open spec fn change_kind(c: BalanceChangeType) -> u8 {
    match c {
        BalanceChangeType::Gas => 0,
        BalanceChangeType::Pay => 1,
        BalanceChangeType::Receive => 2,
    }
}

/// A signed 128-bit amount as its 16 two's-complement bytes, most significant first.
pub open spec fn amount_bytes(a: i128) -> Seq<u8> {
    be_bytes((if a >= 0 { a as int } else { a + 0x1_0000_0000_0000_0000_0000_0000_0000_0000 }) as nat, 16)
}

/// The discriminant of an event kind, in the order generic module event,
/// publish, coin balance change, epoch change, checkpoint, transfer, mutate,
/// delete, new object.
pub open spec fn event_kind(e: Event) -> u8 {
    match e {
        Event::MoveEvent { .. } => 0,
        Event::Publish { .. } => 1,
        Event::CoinBalanceChange { .. } => 2,
        Event::EpochChange(_) => 3,
        Event::Checkpoint(_) => 4,
        Event::TransferObject { .. } => 5,
        Event::MutateObject { .. } => 6,
        Event::DeleteObject { .. } => 7,
        Event::NewObject { .. } => 8,
    }
}

/// The columns the kind of `e` fills: its discriminant, the common subset it
/// carries, and its own columns; a module event also gets the flattened
/// argument lists of its decoded payload, empty when none was decoded.
pub open spec fn event_columns(e: Event, decoded: Option<MoveStruct>) -> EventColumnsView {
    match e {
        Event::MoveEvent { package_id, transaction_module, sender, type_module, struct_name } => {
            let args = match decoded {
                Some(s) => flattened(s),
                None => (Seq::empty(), Seq::empty(), Seq::empty()),
            };
            EventColumnsView {
                common_package_id: Some(package_id@),
                common_transaction_module: Some(transaction_module@),
                common_sender: Some(sender@),
                move_module_id: Some(type_module@),
                move_event_name: Some(struct_name@),
                move_arg_names: Some(args.0),
                move_arg_types: Some(args.1),
                move_arg_values: Some(args.2),
                ..null_columns(0)
            }
        },
        Event::Publish { sender, package_id } => EventColumnsView {
            common_sender: Some(sender@),
            common_package_id: Some(package_id@),
            ..null_columns(1)
        },
        Event::CoinBalanceChange {
            package_id,
            transaction_module,
            sender,
            change_type,
            owner,
            coin_type,
            coin_object_id,
            version,
            amount,
        } => EventColumnsView {
            common_package_id: Some(package_id@),
            common_transaction_module: Some(transaction_module@),
            common_sender: Some(sender@),
            coin_balance_change_change_type: Some(change_kind(change_type)),
            common_recipient_type: Some(owner_kind(owner)),
            common_recipient: owner_key(owner),
            coin_balance_change_coin_type: Some(coin_type@),
            coin_balance_change_coin_object_id: Some(coin_object_id@),
            coin_balance_change_version: Some(version),
            coin_balance_change_amount: Some(amount_bytes(amount)),
            ..null_columns(2)
        },
        Event::EpochChange(epoch) => EventColumnsView { epoch_change_id: Some(epoch), ..null_columns(3) },
        Event::Checkpoint(seq) => EventColumnsView { checkpoint: Some(seq), ..null_columns(4) },
        Event::TransferObject {
            package_id,
            transaction_module,
            sender,
            recipient,
            object_type,
            object_id,
            version,
        } => EventColumnsView {
            common_package_id: Some(package_id@),
            common_transaction_module: Some(transaction_module@),
            common_sender: Some(sender@),
            common_recipient_type: Some(owner_kind(recipient)),
            common_recipient: owner_key(recipient),
            common_object_type: Some(object_type@),
            common_object_id: Some(object_id@),
            common_version: Some(version),
            ..null_columns(5)
        },
        Event::MutateObject { package_id, transaction_module, sender, object_type, object_id, version } =>
            EventColumnsView {
            common_package_id: Some(package_id@),
            common_transaction_module: Some(transaction_module@),
            common_sender: Some(sender@),
            common_object_type: Some(object_type@),
            common_object_id: Some(object_id@),
            common_version: Some(version),
            ..null_columns(6)
        },
        Event::DeleteObject { package_id, transaction_module, sender, object_id, version } =>
            EventColumnsView {
            common_package_id: Some(package_id@),
            common_transaction_module: Some(transaction_module@),
            common_sender: Some(sender@),
            common_object_id: Some(object_id@),
            common_version: Some(version),
            ..null_columns(7)
        },
        Event::NewObject {
            package_id,
            transaction_module,
            sender,
            recipient,
            object_type,
            object_id,
            version,
        } => EventColumnsView {
            common_package_id: Some(package_id@),
            common_transaction_module: Some(transaction_module@),
            common_sender: Some(sender@),
            common_recipient_type: Some(owner_kind(recipient)),
            common_recipient: owner_key(recipient),
            common_object_type: Some(object_type@),
            common_object_id: Some(object_id@),
            common_version: Some(version),
            ..null_columns(8)
        },
    }
}

fn null_columns_of(t: u8) -> (r: EventColumns)
    ensures
        r@ == null_columns(t),
{
    EventColumns {
        event_type: t,
        common_package_id: None,
        common_transaction_module: None,
        common_sender: None,
        common_recipient_type: None,
        common_recipient: None,
        common_object_type: None,
        common_object_id: None,
        common_version: None,
        move_module_id: None,
        move_event_name: None,
        move_arg_types: None,
        move_arg_names: None,
        move_arg_values: None,
        coin_balance_change_change_type: None,
        coin_balance_change_coin_type: None,
        coin_balance_change_coin_object_id: None,
        coin_balance_change_version: None,
        coin_balance_change_amount: None,
        epoch_change_id: None,
        checkpoint: None,
    }
}

fn amount_bytes_of(a: i128) -> (r: Vec<u8>)
    ensures
        r@ == amount_bytes(a),
{
    let u: u128 = if a >= 0 {
        a as u128
    } else {
        (0xffff_ffff_ffff_ffff_ffff_ffff_ffff_ffffu128 - ((-(a + 1)) as u128)) as u128
    };
    be_bytes_of(u, 16)
}

/// Fills the columns of one event by its kind.
pub fn event_columns_of(e: &Event, decoded: Option<&MoveStruct>) -> (r: EventColumns)
    ensures
        r@ == event_columns(
            *e,
            match decoded {
                Some(s) => Some(*s),
                None => None,
            },
        ),
{
    match e {
        Event::MoveEvent { package_id, transaction_module, sender, type_module, struct_name } => {
            let mut c = null_columns_of(0);
            c.common_package_id = Some(copy_bytes(package_id));
            c.common_transaction_module = Some(copy_bytes(transaction_module));
            c.common_sender = Some(copy_bytes(sender));
            c.move_module_id = Some(copy_bytes(type_module));
            c.move_event_name = Some(copy_bytes(struct_name));
            match decoded {
                Some(s) => {
                    let (names, tags, values) = flatten_struct(s);
                    c.move_arg_names = Some(names);
                    c.move_arg_types = Some(tags);
                    c.move_arg_values = Some(values);
                },
                None => {
                    let names: Vec<Vec<u8>> = Vec::new();
                    let tags: Vec<Vec<u8>> = Vec::new();
                    let values: Vec<Vec<u8>> = Vec::new();
                    proof {
                        assert(byte_list(names) =~= Seq::empty());
                        assert(byte_list(tags) =~= Seq::empty());
                        assert(byte_list(values) =~= Seq::empty());
                    }
                    c.move_arg_names = Some(names);
                    c.move_arg_types = Some(tags);
                    c.move_arg_values = Some(values);
                },
            }
            c
        },
        Event::Publish { sender, package_id } => {
            let mut c = null_columns_of(1);
            c.common_sender = Some(copy_bytes(sender));
            c.common_package_id = Some(copy_bytes(package_id));
            c
        },
        Event::CoinBalanceChange {
            package_id,
            transaction_module,
            sender,
            change_type,
            owner,
            coin_type,
            coin_object_id,
            version,
            amount,
        } => {
            let mut c = null_columns_of(2);
            c.common_package_id = Some(copy_bytes(package_id));
            c.common_transaction_module = Some(copy_bytes(transaction_module));
            c.common_sender = Some(copy_bytes(sender));
            c.coin_balance_change_change_type = Some(
                match change_type {
                    BalanceChangeType::Gas => 0,
                    BalanceChangeType::Pay => 1,
                    BalanceChangeType::Receive => 2,
                },
            );
            let (kind, key) = owner_columns(owner);
            c.common_recipient_type = Some(kind);
            c.common_recipient = key;
            c.coin_balance_change_coin_type = Some(copy_bytes(coin_type));
            c.coin_balance_change_coin_object_id = Some(copy_bytes(coin_object_id));
            c.coin_balance_change_version = Some(*version);
            c.coin_balance_change_amount = Some(amount_bytes_of(*amount));
            c
        },
        Event::EpochChange(epoch) => {
            let mut c = null_columns_of(3);
            c.epoch_change_id = Some(*epoch);
            c
        },
        Event::Checkpoint(seq) => {
            let mut c = null_columns_of(4);
            c.checkpoint = Some(*seq);
            c
        },
        Event::TransferObject {
            package_id,
            transaction_module,
            sender,
            recipient,
            object_type,
            object_id,
            version,
        } => {
            let mut c = null_columns_of(5);
            c.common_package_id = Some(copy_bytes(package_id));
            c.common_transaction_module = Some(copy_bytes(transaction_module));
            c.common_sender = Some(copy_bytes(sender));
            let (kind, key) = owner_columns(recipient);
            c.common_recipient_type = Some(kind);
            c.common_recipient = key;
            c.common_object_type = Some(copy_bytes(object_type));
            c.common_object_id = Some(copy_bytes(object_id));
            c.common_version = Some(*version);
            c
        },
        Event::MutateObject { package_id, transaction_module, sender, object_type, object_id, version } => {
            let mut c = null_columns_of(6);
            c.common_package_id = Some(copy_bytes(package_id));
            c.common_transaction_module = Some(copy_bytes(transaction_module));
            c.common_sender = Some(copy_bytes(sender));
            c.common_object_type = Some(copy_bytes(object_type));
            c.common_object_id = Some(copy_bytes(object_id));
            c.common_version = Some(*version);
            c
        },
        Event::DeleteObject { package_id, transaction_module, sender, object_id, version } => {
            let mut c = null_columns_of(7);
            c.common_package_id = Some(copy_bytes(package_id));
            c.common_transaction_module = Some(copy_bytes(transaction_module));
            c.common_sender = Some(copy_bytes(sender));
            c.common_object_id = Some(copy_bytes(object_id));
            c.common_version = Some(*version);
            c
        },
        Event::NewObject {
            package_id,
            transaction_module,
            sender,
            recipient,
            object_type,
            object_id,
            version,
        } => {
            let mut c = null_columns_of(8);
            c.common_package_id = Some(copy_bytes(package_id));
            c.common_transaction_module = Some(copy_bytes(transaction_module));
            c.common_sender = Some(copy_bytes(sender));
            let (kind, key) = owner_columns(recipient);
            c.common_recipient_type = Some(kind);
            c.common_recipient = key;
            c.common_object_type = Some(copy_bytes(object_type));
            c.common_object_id = Some(copy_bytes(object_id));
            c.common_version = Some(*version);
            c
        },
    }
}

} // verus!
