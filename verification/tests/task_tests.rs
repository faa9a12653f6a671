use runtime::crypt::create_devices;
use runtime::prepare::{AddressInfo, ModelInfo, PaymentInfo, ProductInfo, ShippingInfo};
use runtime::task::{
    checkout_payment_channel, get_builder, get_wtoken_builder, order_payment_channel, recalculate_client_voucher,
    recalculate_shipping_subtotal, CheckoutPriceFields, PaymentChannelData,
};
use runtime::voucher::{VoucherDetail, Vouchers};

fn pay(channel_id: i64, get: Option<serde_json::Value>, place: Option<serde_json::Value>) -> PaymentInfo {
    PaymentInfo { name: "P".to_string(), channel_id, option_info: "opt".to_string(), version: 3, txn_fee: 0, selected_get: get, place_order: place }
}

#[test]
fn payment_channel_data() {
    match checkout_payment_channel(pay(7, None, None)) {
        PaymentChannelData::FromChannel { channel_id, version, option_info } => assert_eq!((channel_id, version, option_info.as_str()), (7, 3, "opt")),
        _ => panic!("built from the channel"),
    }
    assert!(matches!(checkout_payment_channel(pay(0, Some(serde_json::Value::from(1)), None)), PaymentChannelData::Empty));
    match checkout_payment_channel(pay(7, Some(serde_json::Value::from(1)), None)) {
        PaymentChannelData::Given(v) => assert_eq!(v, serde_json::Value::from(1)),
        _ => panic!("the file's data"),
    }
    assert!(matches!(order_payment_channel(pay(0, None, None)), PaymentChannelData::FromChannel { .. }));
    match order_payment_channel(pay(0, None, Some(serde_json::Value::from(2)))) {
        PaymentChannelData::Given(v) => assert_eq!(v, serde_json::Value::from(2)),
        _ => panic!("the file's data"),
    }
}

#[test]
fn checkout_lookup_content() {
    let models = vec![
        ModelInfo { name: "a".to_string(), price: 0, stock: 0, modelid: 1, promotionid: 0, shop_id: 5, item_id: 50, quantity: 1 },
    ];
    let address = AddressInfo { state: "S".to_string(), city: "C".to_string(), district: "D".to_string(), id: 42 };
    let ship = ShippingInfo { original_cost: 0, channelid: 8003, channelidroot: 8000, channel_name: "J".to_string() };
    let fsv = Vouchers { promotionid: 9, voucher_code: "F".to_string(), signature: String::new(), shop_id: None };
    let r = get_builder(create_devices("x"), &address, &models, pay(1, None, None), &ship, Some(fsv), None, None, 1700000000);
    assert_eq!(r.timestamp, 1700000000);
    assert_eq!(r.shoporders.len(), 1);
    assert_eq!(r.shoporders[0].shop.shopid, 5);
    assert_eq!(r.free_shipping_voucher, Some((9, "F".to_string())));
    assert_eq!(r.fsv_selection, Some(9));
    assert!(r.platform_voucher.is_none() && r.shop_voucher.is_none());
    assert_eq!(r.shipping_orders.len(), 1);
    assert_eq!(r.shipping_orders[0].buyer_address_data.addressid, 42);
}

fn fields(merch: i64) -> CheckoutPriceFields {
    CheckoutPriceFields {
        merchandise_subtotal: merch,
        shipping_subtotal: 1000,
        insurance_subtotal: 200,
        buyer_service_fee: 30,
        buyer_txn_fee: 4,
        promocode_applied: 500,
        shopee_coins_redeemed: 5,
    }
}

#[test]
fn shipping_subtotal_rewrite() {
    let r = recalculate_shipping_subtotal(&fields(0), 100_000);
    assert_eq!(r.merchandise_subtotal, Some(100_000));
    assert_eq!(r.total_payable, 100_000 + 1000 + 200 + 30 + 4 - 500 - 5);
    assert!(r.promocode_applied.is_none() && !r.clear_buyer_service_fee);
}

fn detail(pct: i32, cap: i64) -> VoucherDetail {
    VoucherDetail { min_spend: 0, start_time: 0, end_time: 0, reward_percentage: pct, reward_value: 0, reward_cap: cap }
}

#[test]
fn client_voucher_rewrite() {
    let r = recalculate_client_voucher(&fields(10_000), &detail(10, 500));
    assert_eq!(r.promocode_applied, Some(500));
    assert_eq!(r.total_payable, 10_000 + 1000 + 200 + 30 + 4 - 500 - 5);
    assert!(!r.clear_buyer_service_fee);
    let r = recalculate_client_voucher(&fields(10_000), &detail(3, 1_000_000));
    assert_eq!(r.promocode_applied, Some(300));
    let r = recalculate_client_voucher(&fields(10_000), &detail(100, 1_000_000));
    assert_eq!(r.promocode_applied, Some(10_000));
    assert_eq!(r.total_payable, 0);
    assert!(r.clear_buyer_service_fee);
    assert!(r.merchandise_subtotal.is_none());
    let r = recalculate_client_voucher(&fields(-250), &detail(10, 1_000));
    assert_eq!(r.promocode_applied, Some(-25));
    let r = recalculate_client_voucher(&fields(199), &detail(1, 1_000));
    assert_eq!(r.promocode_applied, Some(1));
}

#[test]
fn media_token_lookup_content() {
    let model = ModelInfo { name: "a".to_string(), price: 0, stock: 0, modelid: 11, promotionid: 0, shop_id: 5, item_id: 50, quantity: 1 };
    let address = AddressInfo { state: "S".to_string(), city: "C".to_string(), district: "D".to_string(), id: 42 };
    let ship = ShippingInfo { original_cost: 0, channelid: 8003, channelidroot: 8000, channel_name: "J".to_string() };
    let product = ProductInfo { shop_id: 5, item_id: 50 };
    let r = get_wtoken_builder("tok", create_devices("x"), &product, &address, 2, &model, &pay(7, None, None), &ship);
    assert_eq!((r.shop_id, r.item_id, r.modelid, r.quantity), (5, 50, 11, 2));
    assert_eq!(r.token, "tok");
    assert_eq!((r.channel_id, r.version, r.option_info.as_str()), (7, 3, "opt"));
    assert_eq!((r.address_id, r.channelid), (42, 8003));
    assert_eq!(r.device_info.device_sz_fingerprint, "x");
}
