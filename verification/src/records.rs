//! Decomposition of resource type tags and assembly of normalized resource
//! change records.

use vstd::prelude::*;
use crate::events::{DeleteResource, EventStructTag, WriteResource};
use crate::external::now_naive_utc;

verus! {

/// The generic-argument list that decomposition yields from the
/// per-argument renderings `params`: absent when the tag has no generic
/// arguments or when any single rendering failed (a malformed argument
/// taints the whole field — partial lists are never emitted); otherwise the
/// renderings, in declaration order.
pub open spec fn collapsed_params(
    params: Seq<Option<serde_json::Value>>,
) -> Option<Seq<serde_json::Value>> {
    if params.len() > 0 && (forall|i: int| 0 <= i < params.len() ==> params[i] is Some) {
        Some(Seq::new(params.len(), |i: int| params[i]->0))
    } else {
        None
    }
}

/// The mathematical value of an optional generic-argument list.
pub open spec fn params_view(
    params: Option<Vec<serde_json::Value>>,
) -> Option<Seq<serde_json::Value>> {
    match params {
        Some(v) => Some(v@),
        None => None,
    }
}

/// The decomposed structural parts of a fully-qualified resource type tag:
/// the defining module's simple name, the resource's simple type name, and
/// the (all-or-nothing) generic-argument list.
pub struct MoveStructTag {
    pub module: String,
    pub name: String,
    pub generic_type_params: Option<Vec<serde_json::Value>>,
}

impl MoveStructTag {
    /// Identity parts of a decomposed tag are never empty.
    pub open spec fn wf(&self) -> bool {
        self.module@.len() > 0 && self.name@.len() > 0
    }
}

/// `tag` holds exactly the structural parts of the event tag `src`: identity
/// parts copied verbatim, generic arguments collapsed all-or-nothing.
pub open spec fn decomposes(src: EventStructTag, tag: MoveStructTag) -> bool {
    &&& tag.module@ == src.module@
    &&& tag.name@ == src.name@
    &&& params_view(tag.generic_type_params) == collapsed_params(src.generic_type_params@)
}

/// The one error this component can raise: a write event's resource payload
/// had no structured rendering. Carries the failing type tag, verbatim, for
/// the caller to diagnose.
#[derive(Debug)]
pub struct PayloadConversionError {
    pub type_full: String,
}

/// One normalized resource mutation, keyed by transaction position.
#[derive(Debug)]
pub struct MoveResource {
    pub transaction_version: i64,
    pub write_set_change_index: i64,
    pub transaction_block_height: i64,
    pub name: String,
    pub type_: String,
    pub address: String,
    pub module: String,
    pub generic_type_params: Option<Vec<serde_json::Value>>,
    pub data: Option<serde_json::Value>,
    pub is_deleted: bool,
    pub inserted_at: chrono::NaiveDateTime,
}

/// `r` carries the transaction position it was built at.
pub open spec fn positioned_at(
    r: MoveResource,
    transaction_version: i64,
    write_set_change_index: i64,
) -> bool {
    r.transaction_version == transaction_version && r.write_set_change_index
        == write_set_change_index
}

/// Every field of `r` apart from `inserted_at` is exactly what the write
/// event `w` at the given transaction position determines.
pub open spec fn built_from_write(
    w: WriteResource,
    write_set_change_index: i64,
    transaction_version: i64,
    transaction_block_height: i64,
    r: MoveResource,
) -> bool {
    &&& positioned_at(r, transaction_version, write_set_change_index)
    &&& r.transaction_block_height == transaction_block_height
    &&& r.type_@ == w.typ.full@
    &&& r.name@ == w.typ.name@
    &&& r.module@ == w.typ.module@
    &&& r.address@ == w.address@
    &&& params_view(r.generic_type_params) == collapsed_params(w.typ.generic_type_params@)
    &&& r.data == w.data
    &&& r.data is Some
    &&& r.is_deleted == false
}

/// Every field of `r` apart from `inserted_at` is exactly what the delete
/// event `d` at the given transaction position determines.
pub open spec fn built_from_delete(
    d: DeleteResource,
    write_set_change_index: i64,
    transaction_version: i64,
    transaction_block_height: i64,
    r: MoveResource,
) -> bool {
    &&& positioned_at(r, transaction_version, write_set_change_index)
    &&& r.transaction_block_height == transaction_block_height
    &&& r.type_@ == d.resource.full@
    &&& r.name@ == d.resource.name@
    &&& r.module@ == d.resource.module@
    &&& r.address@ == d.address@
    &&& params_view(r.generic_type_params) == collapsed_params(d.resource.generic_type_params@)
    &&& r.data is None
    &&& r.is_deleted == true
}

impl MoveResource {
    /// Decompose a fully-qualified resource type tag into its structural
    /// parts. Always succeeds; a generic argument whose rendering failed
    /// upstream silently collapses the whole argument list to absent.
    pub fn convert_move_struct_tag(struct_tag: &EventStructTag) -> (tag: MoveStructTag)
        ensures
            decomposes(*struct_tag, tag),
            struct_tag.wf() ==> tag.wf(),
    {
        let n: usize = struct_tag.generic_type_params.len();
        let mut collected: Vec<serde_json::Value> = Vec::new();
        let mut all_ok: bool = true;
        let mut i: usize = 0;
        while i < n
            invariant
                n == struct_tag.generic_type_params@.len(),
                0 <= i <= n,
                all_ok <==> (forall|j: int|
                    0 <= j < i ==> struct_tag.generic_type_params@[j] is Some),
                all_ok ==> collected@.len() == i,
                all_ok ==> (forall|j: int|
                    0 <= j < i ==> collected@[j] == struct_tag.generic_type_params@[j]->0),
            decreases n - i,
        {
            match &struct_tag.generic_type_params[i] {
                Some(v) => {
                    if all_ok {
                        collected.push(v.clone());
                    }
                },
                None => {
                    all_ok = false;
                },
            }
            i += 1;
        }
        let generic_type_params: Option<Vec<serde_json::Value>> = if all_ok && n > 0 {
            Some(collected)
        } else {
            None
        };
        proof {
            if all_ok && n > 0 {
                assert(params_view(generic_type_params)->0 =~= collapsed_params(
                    struct_tag.generic_type_params@,
                )->0);
            }
        }
        MoveStructTag {
            module: struct_tag.module.clone(),
            name: struct_tag.name.clone(),
            generic_type_params,
        }
    }

    /// Build the normalized record for a resource-write event: identity
    /// fields from the decomposed type tag, the payload wrapped as present,
    /// `is_deleted` false, and the build-time wall clock as `inserted_at`.
    /// Fails — the component's only error — exactly when the event's payload
    /// has no structured rendering.
    pub fn from_write_resource(
        write_resource: &WriteResource,
        write_set_change_index: i64,
        transaction_version: i64,
        transaction_block_height: i64,
    ) -> (res: Result<MoveResource, PayloadConversionError>)
        ensures
            res is Ok <==> write_resource.data is Some,
            res matches Ok(r) ==> built_from_write(
                *write_resource,
                write_set_change_index,
                transaction_version,
                transaction_block_height,
                r,
            ),
            res matches Err(e) ==> e.type_full@ == write_resource.typ.full@,
    {
        let data: Option<serde_json::Value> = match &write_resource.data {
            Some(v) => Some(v.clone()),
            None => {
                return Err(
                    PayloadConversionError { type_full: write_resource.typ.full.clone() },
                );
            },
        };
        let parsed_data = Self::convert_move_struct_tag(&write_resource.typ);
        Ok(
            MoveResource {
                transaction_version,
                transaction_block_height,
                write_set_change_index,
                type_: write_resource.typ.full.clone(),
                name: parsed_data.name,
                address: write_resource.address.clone(),
                module: parsed_data.module,
                generic_type_params: parsed_data.generic_type_params,
                data,
                is_deleted: false,
                inserted_at: now_naive_utc(),
            },
        )
    }

    /// Build the normalized record for a resource-delete event: identity
    /// fields from the decomposed type tag, an absent payload, `is_deleted`
    /// true, and the build-time wall clock as `inserted_at`. Never fails.
    pub fn from_delete_resource(
        delete_resource: &DeleteResource,
        write_set_change_index: i64,
        transaction_version: i64,
        transaction_block_height: i64,
    ) -> (r: MoveResource)
        ensures
            built_from_delete(
                *delete_resource,
                write_set_change_index,
                transaction_version,
                transaction_block_height,
                r,
            ),
    {
        let parsed_data = Self::convert_move_struct_tag(&delete_resource.resource);
        MoveResource {
            transaction_version,
            transaction_block_height,
            write_set_change_index,
            type_: delete_resource.resource.full.clone(),
            name: parsed_data.name,
            address: delete_resource.address.clone(),
            module: parsed_data.module,
            generic_type_params: parsed_data.generic_type_params,
            data: None,
            is_deleted: true,
            inserted_at: now_naive_utc(),
        }
    }
}

} // verus!
