use runtime::crypt::create_devices;
use runtime::prepare::{AddressInfo, ModelInfo, ShippingInfo};
use runtime::task_ng::{
    adjustment_shipping, apply_checkout_answer, checkout_session_id, default_sync,
    force_deselect_insurance, fsv_selection_infos_for, get_body_json, multi_product,
    platform_vouchers_for, promotion_data_for, recommend_orders_multi, replace_promotion_data,
    selected_preferred_delivery_time_option_id, shipping_orders_for, shop_vouchers_for,
    free_shipping_voucher_info, CheckoutAnswer, Insurance, PlaceOrderBody, ShippingOrder,
};
use runtime::voucher::Vouchers;

fn model(shop: i64, item: i64, modelid: i64, quantity: i32) -> ModelInfo {
    ModelInfo { name: format!("m{}", modelid), price: 0, stock: 1, modelid, promotionid: 0, shop_id: shop, item_id: item, quantity }
}

fn voucher(id: i64, code: &str, shop: Option<i64>) -> Vouchers {
    Vouchers { promotionid: id, voucher_code: code.to_string(), signature: String::new(), shop_id: shop }
}

#[test]
fn products_are_grouped_by_shop_in_first_appearance_order() {
    let products = vec![model(1, 10, 100, 1), model(2, 20, 200, 2), model(1, 11, 110, 3)];
    let orders = multi_product(&products);
    assert_eq!(orders.len(), 2);
    assert_eq!((orders[0].shop.shopid, orders[0].shipping_id), (1, 1));
    assert_eq!((orders[1].shop.shopid, orders[1].shipping_id), (2, 2));
    let first: Vec<(i64, i64, i32)> = orders[0].items.iter().map(|i| (i.itemid, i.modelid, i.quantity)).collect();
    assert_eq!(first, vec![(10, 100, 1), (11, 110, 3)]);
    assert_eq!(orders[1].items.len(), 1);
    assert!(orders[0].items[0].insurances.is_empty());
    assert_eq!(orders[0].items[0].channel_exclusive_info.token, "");
    assert!(multi_product(&[]).is_empty());
}

#[test]
fn every_product_lands_in_exactly_one_order() {
    let products: Vec<ModelInfo> = (0..12).map(|k| model(k % 4, 100 + k, 1000 + k, 1)).collect();
    let orders = multi_product(&products);
    assert_eq!(orders.len(), 4);
    let total: usize = orders.iter().map(|o| o.items.len()).sum();
    assert_eq!(total, products.len());
    for (k, o) in orders.iter().enumerate() {
        assert_eq!(o.shipping_id as usize, k + 1);
        assert!(o.items.iter().all(|i| products.iter().any(|p| p.item_id == i.itemid && p.shop_id == o.shop.shopid)));
    }
}

#[test]
fn insurance_is_deselected_on_objects_only() {
    let mut orders = multi_product(&[model(1, 10, 100, 1)]);
    orders[0].items[0].insurances = vec![
        Insurance { data: serde_json::Value::Null, is_object: true, deselected: false },
        Insurance { data: serde_json::Value::Bool(true), is_object: false, deselected: false },
    ];
    force_deselect_insurance(&mut orders);
    assert!(orders[0].items[0].insurances[0].deselected);
    assert!(!orders[0].items[0].insurances[1].deselected);
    force_deselect_insurance(&mut orders);
    assert!(orders[0].items[0].insurances[0].deselected);
    assert!(!orders[0].items[0].insurances[1].deselected);
}

fn ship(channel: i64, root: i64, cost: i64) -> ShippingInfo {
    ShippingInfo { original_cost: cost, channelid: channel, channelidroot: root, channel_name: String::new() }
}

fn shipping_order(sid: i32, channel: i64) -> ShippingOrder {
    let mut v = shipping_orders_for(9, 1);
    let mut o = v.pop().unwrap();
    o.shipping_id = sid;
    o.selected_logistic_channelid = channel;
    o
}

#[test]
fn couriers_follow_the_last_product_of_each_shipping_order() {
    let products = vec![model(1, 10, 100, 1), model(2, 20, 200, 1), model(1, 11, 110, 1)];
    let shoporders = multi_product(&products);
    let mut sos = vec![shipping_order(1, 0), shipping_order(2, 0), shipping_order(3, 77)];
    let shipping = vec![ship(501, 500, 0), ship(601, 600, 0), ship(701, 700, 0)];
    adjustment_shipping(&mut sos, &shoporders, &products, &shipping);
    assert_eq!(sos[0].selected_logistic_channelid, 701);
    assert_eq!(sos[1].selected_logistic_channelid, 601);
    assert_eq!(sos[2].selected_logistic_channelid, 77);
    assert_eq!(sos[0].buyer_address_data.addressid, 9);
    adjustment_shipping(&mut sos, &shoporders, &products, &shipping);
    let again: Vec<i64> = sos.iter().map(|s| s.selected_logistic_channelid).collect();
    assert_eq!(again, vec![701, 601, 77]);
}

#[test]
fn single_shipping_order_defaults() {
    assert!(shipping_orders_for(5, 0).is_empty());
    let v = shipping_orders_for(5, 8003);
    assert_eq!(v.len(), 1);
    assert_eq!((v[0].selected_logistic_channelid, v[0].shipping_id, v[0].buyer_address_data.addressid), (8003, 1, 5));
    assert_eq!(v[0].shoporder_indexes, vec![0]);
    assert_eq!(v[0].fulfillment_info.fulfillment_source, "IDE");
    assert_eq!(v[0].fulfillment_info.fulfillment_flag, 18);
    assert!(v[0].sync);
    assert_eq!(selected_preferred_delivery_time_option_id(), 0);
    assert!(default_sync());
}

#[test]
fn voucher_parts_of_a_checkout() {
    let fsv = Some(voucher(5, "FREE", None));
    let info = free_shipping_voucher_info(&fsv);
    assert_eq!(info.free_shipping_voucher_id, 5);
    assert_eq!(info.free_shipping_voucher_code.as_deref(), Some("FREE"));
    assert_eq!(info.banner_info.as_ref().unwrap().msg, "Berhasil mendapatkan Gratis Ongkir");
    let none = free_shipping_voucher_info(&None);
    assert_eq!(none.free_shipping_voucher_id, 0);
    assert_eq!(none.disabled_reason.as_deref(), Some(""));
    assert!(none.banner_info.is_none());
    let shops = shop_vouchers_for(&Some(vec![voucher(1, "S1", Some(10)), voucher(2, "S2", None)]));
    assert_eq!(shops.len(), 2);
    assert_eq!(shops[0].as_ref().unwrap().shopid, 10);
    assert_eq!(shops[1].as_ref().unwrap().shopid, 0);
    assert_eq!(shops[1].as_ref().unwrap().applied_voucher_code, "S2");
    assert!(shop_vouchers_for(&None).is_empty());
    assert_eq!(platform_vouchers_for(&Some(voucher(3, "P", None)))[0].as_ref().unwrap().promotionid, 3);
    assert!(platform_vouchers_for(&None).is_empty());
    let sel = fsv_selection_infos_for(&fsv);
    assert_eq!(sel[0].as_ref().unwrap().selected_shipping_ids, vec![1]);
    assert!(fsv_selection_infos_for(&None).is_empty());
    let p = promotion_data_for(&fsv, &None, &None, false);
    assert!(!p.use_coins && p.check_shop_voucher_entrances && !p.auto_apply_shop_voucher);
    assert_eq!(p.free_shipping_voucher_info.free_shipping_voucher_id, 5);
}

#[test]
fn session_ids() {
    assert_eq!(checkout_session_id("dev", 1700000000123, "0.5000000000000000"), "dev:1700000000123:17000000001230.5000000000000000");
}

fn body() -> PlaceOrderBody {
    let get = get_body_json(
        None,
        multi_product(&[model(1, 10, 100, 1)]),
        None,
        promotion_data_for(&None, &None, &None, true),
        Vec::new(),
        create_devices("sz"),
        "sid".to_string(),
        shipping_orders_for(1, 8003),
    );
    assert_eq!((get.cart_type, get.client_id), (1, 5));
    assert_eq!(get._cft, vec![4227792767, 36961919]);
    PlaceOrderBody::from_get_body(get)
}

#[test]
fn order_bodies() {
    let mut b = body();
    assert_eq!(b.timestamp, 0);
    assert_eq!(b.device_type, "mobile");
    assert_eq!(b.captcha_version, 1);
    assert!(b.can_checkout && !b.ignore_warnings);
    assert_eq!(b.checkout_session_id, "sid");
    assert_eq!(b.device_info.device_sz_fingerprint, "sz");
    b.insert("iof_info", Some(serde_json::Value::Bool(true)));
    assert_eq!(b.iof_info, Some(serde_json::Value::Bool(true)));
    b.insert("unknown_key", Some(serde_json::Value::Bool(false)));
    assert!(b.checkout_price_data.is_none());
    b.insert("checkout_price_data", Some(serde_json::Value::from(5)));
    assert_eq!(b.checkout_price_data, Some(serde_json::Value::from(5)));
    let answer = CheckoutAnswer {
        shoporders: None,
        shipping_orders: Some(vec![]),
        checkout_price_data: Some(serde_json::Value::from(9)),
        display_meta_data: None,
        buyer_txn_fee_info: None,
        disabled_checkout_info: None,
        buyer_service_fee_info: None,
        iof_info: None,
    };
    apply_checkout_answer(&mut b, answer, Some(serde_json::Value::from("pay")));
    assert_eq!(b.shoporders.len(), 1);
    assert!(b.shipping_orders.is_empty());
    assert_eq!(b.checkout_price_data, Some(serde_json::Value::from(9)));
    assert!(b.iof_info.is_none());
    assert_eq!(b.selected_payment_channel_data, Some(serde_json::Value::from("pay")));
    replace_promotion_data(&mut b, promotion_data_for(&None, &None, &None, false));
    assert!(!b.promotion_data.use_coins);
}

#[test]
fn multi_product_recommendation_orders() {
    let products = vec![model(1, 10, 100, 1), model(2, 20, 200, 2)];
    let shoporders = multi_product(&products);
    let sos = vec![shipping_order(1, 0), shipping_order(2, 0)];
    let shipping = vec![ship(501, 500, 0), ship(601, 600, 1234)];
    let address = AddressInfo { state: "S".to_string(), city: "C".to_string(), district: "D".to_string(), id: 3 };
    let orders = recommend_orders_multi(&products, &shipping, &address, &shoporders, &sos);
    assert_eq!(orders.len(), 2);
    assert_eq!((orders[0].shopid, orders[0].selected_carrier_id, orders[0].carrier_infos[0].esf), (1, 500, 1));
    assert_eq!((orders[1].shopid, orders[1].selected_carrier_id, orders[1].carrier_infos[0].esf), (2, 600, 1234));
    assert_eq!(orders[1].iteminfos[0].quantity, 2);
    assert_eq!(orders[1].carrier_infos[0].shippable_item_ids, vec![20]);
}
