//! The library's general laws, stated over the spec functions that the
//! builders' contracts use and proved once for all inputs.

use vstd::prelude::*;
use crate::events::EventStructTag;
use crate::records::{
    MoveResource, MoveStructTag, built_from_delete, built_from_write, decomposes, params_view,
    positioned_at,
};
use crate::events::{DeleteResource, WriteResource};

verus! {

/// Law: a tag with zero generic arguments decomposes to an absent
/// generic-argument list, never to an empty one.
pub proof fn lemma_no_params_absent(src: EventStructTag, tag: MoveStructTag)
    requires
        decomposes(src, tag),
        src.generic_type_params@.len() == 0,
    ensures
        tag.generic_type_params is None,
{
}

/// Law: when every generic argument rendered successfully, the decomposed
/// list is present and matches the input arguments in order, exactly.
pub proof fn lemma_params_order_preserved(src: EventStructTag, tag: MoveStructTag)
    requires
        decomposes(src, tag),
        src.generic_type_params@.len() > 0,
        forall|i: int|
            0 <= i < src.generic_type_params@.len() ==> src.generic_type_params@[i] is Some,
    ensures
        tag.generic_type_params matches Some(v) && v@.len() == src.generic_type_params@.len()
            && (forall|i: int| 0 <= i < v@.len() ==> v@[i] == src.generic_type_params@[i]->0),
{
}

/// Law (all-or-nothing): if any single generic argument failed to render,
/// the whole decomposed list is absent, however many of the others
/// succeeded.
pub proof fn lemma_any_failed_param_absent(src: EventStructTag, tag: MoveStructTag, k: int)
    requires
        decomposes(src, tag),
        0 <= k < src.generic_type_params@.len(),
        src.generic_type_params@[k] is None,
    ensures
        tag.generic_type_params is None,
{
    assert(!(forall|i: int|
        0 <= i < src.generic_type_params@.len() ==> src.generic_type_params@[i] is Some));
}

/// The composite primary key of a record: its transaction position.
pub open spec fn record_key(r: MoveResource) -> (int, int) {
    (r.transaction_version as int, r.write_set_change_index as int)
}

/// Law (composite-key uniqueness): records built at distinct transaction
/// positions have distinct composite keys. Both build paths establish
/// `positioned_at`, so this covers any mix of write and delete records.
pub proof fn lemma_distinct_positions_distinct_keys(
    r1: MoveResource,
    v1: i64,
    i1: i64,
    r2: MoveResource,
    v2: i64,
    i2: i64,
)
    requires
        positioned_at(r1, v1, i1),
        positioned_at(r2, v2, i2),
        !(v1 == v2 && i1 == i2),
    ensures
        record_key(r1) != record_key(r2),
{
}

/// `r1` and `r2` agree in every field except `inserted_at`; the
/// generic-argument lists agree as mathematical sequences.
pub open spec fn same_except_inserted_at(r1: MoveResource, r2: MoveResource) -> bool {
    &&& r1.transaction_version == r2.transaction_version
    &&& r1.write_set_change_index == r2.write_set_change_index
    &&& r1.transaction_block_height == r2.transaction_block_height
    &&& r1.name@ == r2.name@
    &&& r1.type_@ == r2.type_@
    &&& r1.address@ == r2.address@
    &&& r1.module@ == r2.module@
    &&& params_view(r1.generic_type_params) == params_view(r2.generic_type_params)
    &&& r1.data == r2.data
    &&& r1.is_deleted == r2.is_deleted
}

/// Law (idempotent re-ingestion): building twice from the same write event
/// at the same position yields records identical in every field except
/// `inserted_at`.
pub proof fn lemma_rebuild_write_identical(
    w: WriteResource,
    write_set_change_index: i64,
    transaction_version: i64,
    transaction_block_height: i64,
    r1: MoveResource,
    r2: MoveResource,
)
    requires
        built_from_write(
            w,
            write_set_change_index,
            transaction_version,
            transaction_block_height,
            r1,
        ),
        built_from_write(
            w,
            write_set_change_index,
            transaction_version,
            transaction_block_height,
            r2,
        ),
    ensures
        same_except_inserted_at(r1, r2),
{
}

/// Law (idempotent re-ingestion): building twice from the same delete event
/// at the same position yields records identical in every field except
/// `inserted_at`.
pub proof fn lemma_rebuild_delete_identical(
    d: DeleteResource,
    write_set_change_index: i64,
    transaction_version: i64,
    transaction_block_height: i64,
    r1: MoveResource,
    r2: MoveResource,
)
    requires
        built_from_delete(
            d,
            write_set_change_index,
            transaction_version,
            transaction_block_height,
            r1,
        ),
        built_from_delete(
            d,
            write_set_change_index,
            transaction_version,
            transaction_block_height,
            r2,
        ),
    ensures
        same_except_inserted_at(r1, r2),
{
}

} // verus!
