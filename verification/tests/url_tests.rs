use runtime::prepare::{AddressInfo, ProductInfo};
use runtime::url::{
    flash_sale_itemids_url, payment_link, product_get_url, product_page_url, qrcode_status_url,
    shipping_info_url, telegram_send_url,
};

#[test]
fn percent_encoding_keeps_unreserved_bytes() {
    let p = ProductInfo { shop_id: 1, item_id: 2 };
    let a = AddressInfo { state: "a-b_c.d~".to_string(), city: "Kota Jakarta/Selatan é~".to_string(), district: String::new(), id: 0 };
    assert_eq!(
        shipping_info_url(&p, &a),
        "https://shopee.co.id/api/v4/pdp/get_shipping_info?city=Kota%20Jakarta%2FSelatan%20%C3%A9~&district=&itemid=2&shopid=1&state=a-b_c.d~"
    );
}

#[test]
fn shopee_addresses() {
    let p = ProductInfo { shop_id: 12, item_id: 34 };
    let a = AddressInfo {
        state: "DKI JAKARTA".to_string(),
        city: "KOTA JAKARTA SELATAN".to_string(),
        district: "KEBAYORAN BARU".to_string(),
        id: 1,
    };
    assert_eq!(
        shipping_info_url(&p, &a),
        "https://shopee.co.id/api/v4/pdp/get_shipping_info?city=KOTA%20JAKARTA%20SELATAN&district=KEBAYORAN%20BARU&itemid=34&shopid=12&state=DKI%20JAKARTA"
    );
    assert_eq!(product_get_url(&p), "https://shopee.co.id/api/v4/item/get?itemid=34&shopid=12");
    assert_eq!(product_page_url(&p), "https://shopee.co.id/product/12/34");
    assert_eq!(
        flash_sale_itemids_url(99),
        "https://shopee.co.id/api/v4/flash_sale/get_all_itemids?need_personalize=true&promotionid=99&sort_soldout=true"
    );
    assert_eq!(payment_link(123456), "https://shopee.co.id/mpp/123456?flow_source=3");
    assert_eq!(payment_link(-1), "https://shopee.co.id/mpp/-1?flow_source=3");
}

#[test]
fn telegram_and_login_addresses() {
    assert_eq!(
        telegram_send_url("TOKEN", "42", "Halo dunia!"),
        "https://api.telegram.org/botTOKEN/sendMessage?chat_id=42&text=Halo%20dunia%21"
    );
    assert_eq!(
        qrcode_status_url("abc%3D"),
        "https://shopee.co.id/api/v2/authentication/qrcode_status?qrcode_id=abc%3D"
    );
}
