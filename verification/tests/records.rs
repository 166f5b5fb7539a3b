use move_resources::events::{DeleteResource, EventStructTag, WriteResource};
use move_resources::records::MoveResource;

fn coin_store_tag() -> EventStructTag {
    EventStructTag {
        full: "0x1::coin::CoinStore<0x1::aptos_coin::AptosCoin>".to_string(),
        module: "coin".to_string(),
        name: "CoinStore".to_string(),
        generic_type_params: vec![Some(serde_json::Value::String(
            "0x1::aptos_coin::AptosCoin".to_string(),
        ))],
    }
}

fn coin_store_write() -> WriteResource {
    WriteResource {
        address: "0xabc".to_string(),
        typ: coin_store_tag(),
        data: Some(serde_json::from_str("{\"value\":\"100\"}").unwrap()),
    }
}

#[test]
fn decompose_zero_params_absent() {
    let tag = EventStructTag {
        full: "0x1::account::Account".to_string(),
        module: "account".to_string(),
        name: "Account".to_string(),
        generic_type_params: vec![],
    };
    let parsed = MoveResource::convert_move_struct_tag(&tag);
    assert_eq!(parsed.module, "account");
    assert_eq!(parsed.name, "Account");
    assert!(parsed.generic_type_params.is_none());
}

#[test]
fn decompose_preserves_param_order() {
    let a = serde_json::Value::String("0x1::coin::A".to_string());
    let b = serde_json::Value::Bool(true);
    let c = serde_json::from_str::<serde_json::Value>("[1,2]").unwrap();
    let tag = EventStructTag {
        full: "0x1::pool::Pool<A, B, C>".to_string(),
        module: "pool".to_string(),
        name: "Pool".to_string(),
        generic_type_params: vec![Some(a.clone()), Some(b.clone()), Some(c.clone())],
    };
    let parsed = MoveResource::convert_move_struct_tag(&tag);
    assert_eq!(parsed.generic_type_params, Some(vec![a, b, c]));
}

#[test]
fn decompose_single_failure_collapses_whole_list() {
    let a = serde_json::Value::String("0x1::coin::A".to_string());
    let b = serde_json::Value::String("0x1::coin::B".to_string());
    let tag = EventStructTag {
        full: "0x1::pool::Pool<A, ?, B>".to_string(),
        module: "pool".to_string(),
        name: "Pool".to_string(),
        generic_type_params: vec![Some(a), None, Some(b)],
    };
    let parsed = MoveResource::convert_move_struct_tag(&tag);
    assert!(parsed.generic_type_params.is_none());
}

#[test]
fn write_record_has_all_fields() {
    let w = coin_store_write();
    let r = MoveResource::from_write_resource(&w, 0, 42, 10).unwrap();
    assert_eq!(r.transaction_version, 42);
    assert_eq!(r.write_set_change_index, 0);
    assert_eq!(r.transaction_block_height, 10);
    assert_eq!(r.type_, "0x1::coin::CoinStore<0x1::aptos_coin::AptosCoin>");
    assert_eq!(r.name, "CoinStore");
    assert_eq!(r.module, "coin");
    assert_eq!(r.address, "0xabc");
    assert_eq!(
        r.generic_type_params,
        Some(vec![serde_json::Value::String(
            "0x1::aptos_coin::AptosCoin".to_string(),
        )]),
    );
    assert_eq!(
        r.data,
        Some(serde_json::from_str("{\"value\":\"100\"}").unwrap()),
    );
    assert!(!r.is_deleted);
}

#[test]
fn write_without_convertible_payload_is_the_one_error() {
    let mut w = coin_store_write();
    w.data = None;
    let err = MoveResource::from_write_resource(&w, 0, 42, 10).unwrap_err();
    assert_eq!(
        err.type_full,
        "0x1::coin::CoinStore<0x1::aptos_coin::AptosCoin>"
    );
}

#[test]
fn delete_record_has_absent_data_and_deleted_flag() {
    let d = DeleteResource {
        address: "0xabc".to_string(),
        resource: coin_store_tag(),
    };
    let r = MoveResource::from_delete_resource(&d, 0, 43, 10);
    assert_eq!(r.transaction_version, 43);
    assert_eq!(r.write_set_change_index, 0);
    assert_eq!(r.transaction_block_height, 10);
    assert_eq!(r.type_, "0x1::coin::CoinStore<0x1::aptos_coin::AptosCoin>");
    assert_eq!(r.name, "CoinStore");
    assert_eq!(r.module, "coin");
    assert_eq!(r.address, "0xabc");
    assert!(r.data.is_none());
    assert!(r.is_deleted);
}

#[test]
fn rebuilding_same_write_differs_only_in_inserted_at() {
    let w = coin_store_write();
    let r1 = MoveResource::from_write_resource(&w, 0, 42, 10).unwrap();
    let r2 = MoveResource::from_write_resource(&w, 0, 42, 10).unwrap();
    assert_eq!(r1.transaction_version, r2.transaction_version);
    assert_eq!(r1.write_set_change_index, r2.write_set_change_index);
    assert_eq!(r1.transaction_block_height, r2.transaction_block_height);
    assert_eq!(r1.name, r2.name);
    assert_eq!(r1.type_, r2.type_);
    assert_eq!(r1.address, r2.address);
    assert_eq!(r1.module, r2.module);
    assert_eq!(r1.generic_type_params, r2.generic_type_params);
    assert_eq!(r1.data, r2.data);
    assert_eq!(r1.is_deleted, r2.is_deleted);
}

#[test]
fn distinct_positions_give_distinct_keys() {
    let w = coin_store_write();
    let d = DeleteResource {
        address: "0xabc".to_string(),
        resource: coin_store_tag(),
    };
    let r1 = MoveResource::from_write_resource(&w, 0, 42, 10).unwrap();
    let r2 = MoveResource::from_delete_resource(&d, 1, 42, 10);
    let r3 = MoveResource::from_delete_resource(&d, 0, 43, 10);
    assert_ne!(
        (r1.transaction_version, r1.write_set_change_index),
        (r2.transaction_version, r2.write_set_change_index),
    );
    assert_ne!(
        (r1.transaction_version, r1.write_set_change_index),
        (r3.transaction_version, r3.write_set_change_index),
    );
}

#[test]
fn type_full_is_verbatim_not_recomposed() {
    // The verbatim form is kept even where it disagrees in shape with the
    // decomposed identity parts.
    let tag = EventStructTag {
        full: "0x000000a::legacy_coin::Store<  u8 >".to_string(),
        module: "legacy_coin".to_string(),
        name: "Store".to_string(),
        generic_type_params: vec![Some(serde_json::Value::String("u8".to_string()))],
    };
    let d = DeleteResource {
        address: "0x1".to_string(),
        resource: tag,
    };
    let r = MoveResource::from_delete_resource(&d, 5, 7, 2);
    assert_eq!(r.type_, "0x000000a::legacy_coin::Store<  u8 >");
}
