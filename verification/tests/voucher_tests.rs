use runtime::prepare::{AddressInfo, ModelInfo, PaymentInfo, ProductInfo, ShippingInfo};
use runtime::voucher::{
    choose_recommended_vouchers, claim_step, collection_answer_rows, first_collection_voucher,
    food_claim_step, recommend_orders_single, recommend_platform_body, voucher_detail,
    vouchers_in_collection, ClaimStep, ClaimedVoucher, CollectionEntry, CollectionLookup,
    CollectionVoucher, DataOnRecomendPlatform, FsvVoucherCardUiInfo, RecomendPlatformResponse,
    VoucherOnRecomendPlatform,
};

fn entry(id: i64, err: Option<&str>, min: Option<i64>) -> VoucherOnRecomendPlatform {
    VoucherOnRecomendPlatform {
        promotionid: id,
        voucher_code: format!("C{}", id),
        signature: format!("S{}", id),
        fsv_error_message: err.map(|e| e.to_string()),
        fsv_voucher_card_ui_info: min.map(|m| FsvVoucherCardUiInfo { int_min_spend_fsv_ui_only: m }),
    }
}

fn response() -> RecomendPlatformResponse {
    RecomendPlatformResponse {
        data: Some(DataOnRecomendPlatform {
            freeshipping_vouchers: Some(vec![
                entry(1, Some("expired"), None),
                entry(2, None, Some(5_000_000)),
                entry(3, None, Some(1_000)),
            ]),
            vouchers: Some(vec![entry(10, Some("no"), None), entry(11, None, None)]),
        }),
    }
}

#[test]
fn first_usable_recommended_vouchers() {
    let (fsv, platform) = choose_recommended_vouchers(&response(), true, Some(2_000_000));
    let fsv = fsv.unwrap();
    assert_eq!((fsv.promotionid, fsv.voucher_code.as_str(), fsv.signature.as_str()), (3, "C3", "S3"));
    assert!(fsv.shop_id.is_none());
    assert_eq!(platform.unwrap().promotionid, 11);
    let (fsv, _) = choose_recommended_vouchers(&response(), true, None);
    assert_eq!(fsv.unwrap().promotionid, 2);
    let (fsv, platform) = choose_recommended_vouchers(&response(), false, None);
    assert!(fsv.is_none() && platform.is_none());
    let (fsv, platform) = choose_recommended_vouchers(&RecomendPlatformResponse { data: None }, true, None);
    assert!(fsv.is_none() && platform.is_none());
}

fn claimed() -> Option<ClaimedVoucher> {
    Some(ClaimedVoucher {
        promotionid: Some(77),
        voucher_code: Some("FROMAPI".to_string()),
        signature: None,
    })
}

#[test]
fn claim_answers() {
    assert!(matches!(claim_step(200, Some(3), claimed(), None, None), ClaimStep::Retry));
    assert!(matches!(claim_step(418, None, claimed(), None, None), ClaimStep::Retry));
    assert!(matches!(claim_step(500, None, claimed(), None, None), ClaimStep::Done(None)));
    assert!(matches!(claim_step(200, None, None, None, None), ClaimStep::Done(None)));
    match claim_step(200, Some(5), claimed(), Some("MYCODE"), Some(9)) {
        ClaimStep::Done(Some(v)) => {
            assert_eq!(v.promotionid, 77);
            assert_eq!(v.voucher_code, "MYCODE");
            assert_eq!(v.signature, "");
            assert_eq!(v.shop_id, Some(9));
        },
        _ => panic!("expected a voucher"),
    }
    match claim_step(200, Some(0), claimed(), None, None) {
        ClaimStep::Done(Some(v)) => assert_eq!(v.voucher_code, "FROMAPI"),
        _ => panic!("expected a voucher"),
    }
}

#[test]
fn food_claim_answers() {
    assert!(matches!(food_claim_step(200, Some(false), Some(0), 1, "X"), ClaimStep::Retry));
    assert!(matches!(food_claim_step(200, None, Some(7), 1, "X"), ClaimStep::Retry));
    assert!(matches!(food_claim_step(200, None, None, 1, "X"), ClaimStep::Done(None)));
    assert!(matches!(food_claim_step(404, None, Some(0), 1, "X"), ClaimStep::Done(None)));
    match food_claim_step(200, Some(true), Some(1), 42, "FOOD") {
        ClaimStep::Done(Some(v)) => {
            assert_eq!((v.promotionid, v.voucher_code.as_str(), v.signature.as_str()), (42, "FOOD", ""));
            assert!(v.shop_id.is_none());
        },
        _ => panic!("expected a voucher"),
    }
}

#[test]
fn voucher_details_default_to_zero() {
    let d = voucher_detail(Some(100), None, Some(5), Some(10), None, Some(50_000));
    assert_eq!((d.min_spend, d.start_time, d.end_time, d.reward_percentage, d.reward_value, d.reward_cap), (100, 0, 5, 10, 0, 50_000));
}

fn cv(id: Option<i64>, code: Option<&str>, sig: Option<&str>, icon: Option<&str>) -> CollectionVoucher {
    CollectionVoucher {
        promotion_id: id,
        voucher_code: code.map(|s| s.to_string()),
        signature: sig.map(|s| s.to_string()),
        icon_text: icon.map(|s| s.to_string()),
    }
}

#[test]
fn collection_lookups() {
    let entries = vec![
        CollectionEntry { vouchers: Some(vec![]) },
        CollectionEntry { vouchers: Some(vec![cv(Some(5), None, Some("sig"), None)]) },
    ];
    match first_collection_voucher(&entries, false) {
        CollectionLookup::Found(p, s) => assert_eq!((p, s.as_str()), (5, "sig")),
        _ => panic!("expected a voucher"),
    }
    let missing = vec![CollectionEntry { vouchers: None }, CollectionEntry { vouchers: Some(vec![cv(None, None, None, None)]) }];
    assert!(matches!(first_collection_voucher(&missing, true), CollectionLookup::AskFallback));
    match first_collection_voucher(&missing, false) {
        CollectionLookup::Found(p, s) => assert_eq!((p, s.as_str()), (0, "")),
        _ => panic!("expected a voucher"),
    }
    assert!(matches!(first_collection_voucher(&[], false), CollectionLookup::NotFound));
}

#[test]
fn collection_rows() {
    let entries = vec![
        CollectionEntry { vouchers: Some(vec![cv(Some(1), Some("A"), Some("s1"), Some("icon")), cv(None, None, None, None)]) },
        CollectionEntry { vouchers: None },
    ];
    let rows = vouchers_in_collection(&entries, 200);
    assert_eq!(rows.len(), 3);
    assert_eq!((rows[0].promotion_id, rows[0].voucher_code.as_str(), rows[0].signature.as_str(), rows[0].extra_data.as_str(), rows[0].bug), (1, "A", "s1", "icon", false));
    assert_eq!((rows[1].promotion_id, rows[1].voucher_code.as_str(), rows[1].bug), (0, "", false));
    assert!(rows[2].bug);
    assert_eq!(rows[2].status, 200);
    let none = collection_answer_rows(200, None);
    assert_eq!(none.len(), 1);
    assert_eq!(none[0].extra_data, "none");
    let failed = collection_answer_rows(403, Some(entries));
    assert_eq!(failed.len(), 1);
    assert_eq!((failed[0].extra_data.as_str(), failed[0].status, failed[0].bug), ("", 403, false));
}

#[test]
fn single_product_recommendation_request() {
    let product = ProductInfo { shop_id: 7, item_id: 70 };
    let model = ModelInfo { name: "M".to_string(), price: 1, stock: 1, modelid: 700, promotionid: 0, shop_id: 7, item_id: 70, quantity: 1 };
    let ship = ShippingInfo { original_cost: 0, channelid: 8003, channelidroot: 8000, channel_name: "JNE".to_string() };
    let address = AddressInfo { state: "S".to_string(), city: "C".to_string(), district: "D".to_string(), id: 3 };
    let orders = recommend_orders_single(&product, &model, 2, &ship, &address);
    assert_eq!(orders.len(), 1);
    let o = &orders[0];
    assert_eq!(o.shopid, 7);
    assert_eq!(o.carrier_ids, vec![8005, 8003, 80099, 80055, 8006, 80021]);
    assert!(o.auto_apply);
    assert_eq!(o.iteminfos.len(), 1);
    assert_eq!((o.iteminfos[0].itemid, o.iteminfos[0].modelid, o.iteminfos[0].quantity, o.iteminfos[0].shopid), (70, 700, 2, 7));
    assert_eq!(o.carrier_infos[0].carrier_id, 8000);
    assert_eq!(o.carrier_infos[0].esf, 1);
    assert_eq!(o.carrier_infos[0].shippable_item_ids, vec![70]);
    assert_eq!(o.carrier_infos[0].buyer_address.id, 3);
    assert_eq!(o.selected_carrier_id, 8000);
    let pay = PaymentInfo { name: "BCA".to_string(), channel_id: 5, option_info: "opt".to_string(), version: 2, txn_fee: 0, selected_get: None, place_order: None };
    let body = recommend_platform_body("[]".to_string(), &pay);
    assert_eq!(body.orders, "[]");
    assert_eq!(body.selected_payment_channel_data.channel_item_option_info.option_info, "opt");
    assert_eq!((body.spm_channel_id, body.sorting_flag, body.voucher_market_type), (5, 8, 1));
    assert!(body.payment_manual_change && !body.has_redeem_coins);
}
