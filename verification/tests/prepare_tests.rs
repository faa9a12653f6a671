use runtime::prepare::{
    address_from_response, cookie_from_file_content, create_cookie, custom_parse_i64,
    default_unknown, deserialize_txn_fee, extract_csrftoken, fs_items_request, get_payment,
    process_url, product_from_response, shipping_infos_from_response, url_to_voucher_data,
    user_from_response, AddressInfo, ChannelInfo, DataOnAddress, Entry, FSInfo, KurirResponse,
    NumberField, PaymentData, PaymentInfo, ProductData, ProductInfo, RawModelInfo, ShippingData,
    ShippingInfoRaw, UserData,
};

fn ids(url: &str) -> (i64, i64) {
    let p = process_url(url);
    (p.shop_id, p.item_id)
}

#[test]
fn product_links() {
    assert_eq!(ids("https://shopee.co.id/product/123/456?x=1"), (123, 456));
    assert_eq!(ids("https://shopee.co.id/product/123/456"), (123, 456));
    assert_eq!(ids("https://shopee.co.id/Some-Name-i.111.222?sp_atk=1"), (111, 222));
    assert_eq!(ids("https://shopee.co.id/product/abc/456"), (0, 456));
    assert_eq!(ids(""), (0, 0));
    assert_eq!(ids("nodots"), (0, 0));
    assert_eq!(ids("a.b"), (0, 0));
    assert_eq!(ids("x.5.6"), (5, 6));
}

#[test]
fn csrf_token_between_marker_and_semicolon() {
    assert_eq!(extract_csrftoken("a=1; csrftoken=XYZ; b=2"), "XYZ");
    assert_eq!(extract_csrftoken("csrftoken=abc"), " ");
    assert_eq!(extract_csrftoken("nothing here;"), " ");
    assert_eq!(extract_csrftoken("csrftoken=;"), "");
    let c = create_cookie("SPC=1; csrftoken=tok123; x=y");
    assert_eq!(c.csrftoken, "tok123");
    assert_eq!(c.cookie_content, "SPC=1; csrftoken=tok123; x=y");
}

#[test]
fn cookie_files_are_trimmed() {
    assert_eq!(cookie_from_file_content("  abc=1; \n"), "abc=1;");
    assert_eq!(cookie_from_file_content(" \n\t"), " ");
    assert_eq!(cookie_from_file_content(""), " ");
}

#[test]
fn voucher_links() {
    assert_eq!(
        url_to_voucher_data("https://shopee.co.id/voucher?promotionId=123&signature=abc"),
        ("123".to_string(), "abc".to_string())
    );
    assert_eq!(
        url_to_voucher_data("https://x/?signature=s&promotionid=9&other=1"),
        ("9".to_string(), "s".to_string())
    );
    assert_eq!(url_to_voucher_data("https://x/noquery"), (String::new(), String::new()));
    assert_eq!(url_to_voucher_data("https://x/?a=b?c&signature=z"), (String::new(), String::new()));
    assert_eq!(url_to_voucher_data("?promotionId=1&promotionId=2"), ("2".to_string(), String::new()));
    assert_eq!(url_to_voucher_data("?signature=a=b"), (String::new(), "a=b".to_string()));
}

#[test]
fn payment_numbers() {
    assert_eq!(default_unknown(), "Unknown");
    assert_eq!(custom_parse_i64("42"), Some(42));
    assert_eq!(custom_parse_i64("4x"), None);
    assert_eq!(deserialize_txn_fee(&NumberField::Text("1500".to_string())), 1500);
    assert_eq!(deserialize_txn_fee(&NumberField::Text("oops".to_string())), 0);
    assert_eq!(deserialize_txn_fee(&NumberField::Number(Some(7))), 7);
    assert_eq!(deserialize_txn_fee(&NumberField::Number(None)), 0);
    assert_eq!(deserialize_txn_fee(&NumberField::Other), 0);
}

fn payment(name: &str, id: i64) -> PaymentInfo {
    PaymentInfo {
        name: name.to_string(),
        channel_id: id,
        option_info: String::new(),
        version: 1,
        txn_fee: 0,
        selected_get: None,
        place_order: None,
    }
}

#[test]
fn payments_are_flattened_in_order() {
    let file = PaymentData {
        data: Some(vec![
            Entry { payment: vec![payment("A", 1), payment("B", 2)] },
            Entry { payment: vec![] },
            Entry { payment: vec![payment("C", 3)] },
        ]),
    };
    let all = get_payment(file).unwrap();
    let names: Vec<&str> = all.iter().map(|p| p.name.as_str()).collect();
    assert_eq!(names, vec!["A", "B", "C"]);
    assert!(get_payment(PaymentData { data: None }).is_none());
}

#[test]
fn couriers_from_a_response() {
    let resp = KurirResponse {
        data: Some(ShippingData {
            shipping_infos: Some(vec![
                ShippingInfoRaw {
                    original_cost: Some(1000),
                    channel: Some(ChannelInfo { channelid: Some(8003), name: Some("JNE".to_string()) }),
                },
                ShippingInfoRaw { original_cost: None, channel: None },
                ShippingInfoRaw {
                    original_cost: Some(5),
                    channel: Some(ChannelInfo { channelid: None, name: None }),
                },
            ]),
        }),
    };
    let out = shipping_infos_from_response(resp);
    assert_eq!(out.len(), 3);
    assert_eq!((out[0].original_cost, out[0].channelid, out[0].channelidroot), (1000, 8003, 8003));
    assert_eq!(out[0].channel_name, "JNE");
    assert_eq!((out[1].original_cost, out[1].channelid, out[1].channel_name.as_str()), (0, 0, "Unknown"));
    assert_eq!((out[2].original_cost, out[2].channelid, out[2].channel_name.as_str()), (5, 0, "Unknown"));
    assert!(shipping_infos_from_response(KurirResponse { data: None }).is_empty());
}

#[test]
fn products_from_a_response() {
    let info = ProductInfo { shop_id: 7, item_id: 8 };
    let data = ProductData {
        name: Some("Kaos".to_string()),
        models: Some(vec![RawModelInfo {
            name: "Merah".to_string(),
            price: 5_000_000,
            stock: 3,
            modelid: 99,
            promotionid: 0,
        }]),
        is_official_shop: Some(true),
        upcoming_flash_sale: Some(FSInfo { promotionid: 11, start_time: 100, end_time: 200 }),
    };
    let (name, models, official, fs) = product_from_response(Some(data), &info);
    assert_eq!(name, "Kaos");
    assert_eq!(models.len(), 1);
    assert_eq!((models[0].shop_id, models[0].item_id, models[0].quantity, models[0].modelid), (7, 8, 1, 99));
    assert!(official);
    assert_eq!((fs.promotionid, fs.start_time, fs.end_time), (11, 100, 200));
    let (name, models, official, fs) = product_from_response(None, &info);
    assert_eq!(name, "INVALID");
    assert!(models.is_empty());
    assert!(!official);
    assert_eq!(fs.promotionid, 0);
    let empty = ProductData { name: None, models: None, is_official_shop: None, upcoming_flash_sale: None };
    assert_eq!(product_from_response(Some(empty), &info).0, "Unknown");
}

#[test]
fn first_address_or_placeholder() {
    let a = AddressInfo { state: "JAWA".to_string(), city: "KOTA".to_string(), district: "D".to_string(), id: 5 };
    let got = address_from_response(Some(DataOnAddress { addresses: Some(vec![a]) }));
    assert_eq!(got.id, 5);
    assert_eq!(got.city, "KOTA");
    let none = address_from_response(None);
    assert_eq!(none.state, "LOGOUT (WARNING)");
    assert_eq!(none.id, 0);
    let empty = address_from_response(Some(DataOnAddress { addresses: Some(vec![]) }));
    assert_eq!(empty.district, "LOGOUT (WARNING)");
    let d = AddressInfo::default();
    assert_eq!(d.city, "LOGOUT (WARNING)");
    let copy = got.copy();
    assert_eq!(copy.state, "JAWA");
}

#[test]
fn account_or_placeholder() {
    let u = user_from_response(None);
    assert_eq!(u.username, "LOGOUT (WARNING)");
    assert_eq!(u.userid, 0);
    let d = UserData { username: "u".to_string(), email: "e".to_string(), phone: "p".to_string(), userid: 9 };
    assert_eq!(user_from_response(Some(d)).userid, 9);
}

#[test]
fn flash_sale_lookup_body() {
    let products = vec![ProductInfo { shop_id: 1, item_id: 10 }, ProductInfo { shop_id: 2, item_id: 20 }];
    let body = fs_items_request(&products, &FSInfo { promotionid: 77, start_time: 0, end_time: 0 });
    assert_eq!(body.limit, 16);
    assert_eq!(body.promotionid, 77);
    assert_eq!(body.itemids, vec![10, 20]);
    assert!(body.sort_soldout);
    assert!(!body.with_dp_items);
}
