//! The web addresses the programs call, built from their parts.
use vstd::prelude::*;
use crate::prepare::{AddressInfo, ProductInfo};
use crate::text::{i64_decimal, push_all, push_str_chars, signed_decimal, string_of};

verus! {

/// Bytes that percent-encoding leaves as they are: ASCII letters, digits,
/// `-`, `.`, `_` and `~`.
pub open spec fn is_unreserved(b: u8) -> bool {
    (48 <= b && b <= 57) || (65 <= b && b <= 90) || (97 <= b && b <= 122) || b == 45 || b == 46
        || b == 95 || b == 126
}

/// The upper-case hex digit for `d < 16`.
pub open spec fn hex_upper(d: nat) -> char {
    if d < 10 {
        ('0' as nat + d) as char
    } else {
        ('A' as nat + d - 10) as char
    }
}

/// Percent-encoding of bytes: unreserved bytes stay, every other byte
/// becomes `%` and two upper-case hex digits.
pub open spec fn percent_encoded(bytes: Seq<u8>) -> Seq<char>
    decreases bytes.len(),
{
    if bytes.len() == 0 {
        Seq::empty()
    } else {
        let b = bytes.last();
        percent_encoded(bytes.drop_last()) + if is_unreserved(b) {
            seq![b as char]
        } else {
            seq!['%', hex_upper((b / 16) as nat), hex_upper((b % 16) as nat)]
        }
    }
}

/// The percent-encoding of a text's UTF-8 bytes.
pub open spec fn url_encoded(s: Seq<char>) -> Seq<char> {
    percent_encoded(vstd::utf8::encode_utf8(s))
}

/// `urlencoding::encode`: percent-encodes every byte of the UTF-8 text
/// except ASCII letters, digits and `-`, `.`, `_`, `~` (the crate's
/// documented rule, with upper-case hex digits as its source writes them).
#[verifier::external_body]
pub(crate) fn url_encode(s: &str) -> (r: String)
    ensures
        r@ == url_encoded(s@),
{
    urlencoding::encode(s).into_owned()
}

/// The shipping-info address for a product delivered to an address.
pub open spec fn shipping_info_url_text(product: ProductInfo, address: AddressInfo) -> Seq<char> {
    "https://shopee.co.id/api/v4/pdp/get_shipping_info?city="@ + url_encoded(address.city@)
        + "&district="@ + url_encoded(address.district@) + "&itemid="@ + signed_decimal(
        product.item_id as int,
    ) + "&shopid="@ + signed_decimal(product.shop_id as int) + "&state="@ + url_encoded(
        address.state@,
    )
}

pub fn shipping_info_url(product: &ProductInfo, address: &AddressInfo) -> (url: String)
    ensures
        url@ == shipping_info_url_text(*product, *address),
{
    let city = url_encode(address.city.as_str());
    let district = url_encode(address.district.as_str());
    let state = url_encode(address.state.as_str());
    let mut out: Vec<char> = Vec::new();
    push_str_chars(&mut out, "https://shopee.co.id/api/v4/pdp/get_shipping_info?city=");
    push_str_chars(&mut out, city.as_str());
    push_str_chars(&mut out, "&district=");
    push_str_chars(&mut out, district.as_str());
    push_str_chars(&mut out, "&itemid=");
    push_all(&mut out, &i64_decimal(product.item_id));
    push_str_chars(&mut out, "&shopid=");
    push_all(&mut out, &i64_decimal(product.shop_id));
    push_str_chars(&mut out, "&state=");
    push_str_chars(&mut out, state.as_str());
    string_of(out.as_slice())
}

/// The product-details address of a product.
pub open spec fn product_get_url_text(product: ProductInfo) -> Seq<char> {
    "https://shopee.co.id/api/v4/item/get?itemid="@ + signed_decimal(product.item_id as int)
        + "&shopid="@ + signed_decimal(product.shop_id as int)
}

pub fn product_get_url(product: &ProductInfo) -> (url: String)
    ensures
        url@ == product_get_url_text(*product),
{
    let mut out: Vec<char> = Vec::new();
    push_str_chars(&mut out, "https://shopee.co.id/api/v4/item/get?itemid=");
    push_all(&mut out, &i64_decimal(product.item_id));
    push_str_chars(&mut out, "&shopid=");
    push_all(&mut out, &i64_decimal(product.shop_id));
    string_of(out.as_slice())
}

/// The public page of a product, `/product/<shop>/<item>`.
pub open spec fn product_page_url_text(product: ProductInfo) -> Seq<char> {
    "https://shopee.co.id/product/"@ + signed_decimal(product.shop_id as int) + "/"@
        + signed_decimal(product.item_id as int)
}

pub fn product_page_url(product: &ProductInfo) -> (url: String)
    ensures
        url@ == product_page_url_text(*product),
{
    let mut out: Vec<char> = Vec::new();
    push_str_chars(&mut out, "https://shopee.co.id/product/");
    push_all(&mut out, &i64_decimal(product.shop_id));
    push_str_chars(&mut out, "/");
    push_all(&mut out, &i64_decimal(product.item_id));
    string_of(out.as_slice())
}

/// The address listing the item ids of a flash sale.
pub open spec fn flash_sale_itemids_url_text(promotionid: i64) -> Seq<char> {
    "https://shopee.co.id/api/v4/flash_sale/get_all_itemids?need_personalize=true&promotionid="@
        + signed_decimal(promotionid as int) + "&sort_soldout=true"@
}

pub fn flash_sale_itemids_url(promotionid: i64) -> (url: String)
    ensures
        url@ == flash_sale_itemids_url_text(promotionid),
{
    let mut out: Vec<char> = Vec::new();
    push_str_chars(
        &mut out,
        "https://shopee.co.id/api/v4/flash_sale/get_all_itemids?need_personalize=true&promotionid=",
    );
    push_all(&mut out, &i64_decimal(promotionid));
    push_str_chars(&mut out, "&sort_soldout=true");
    string_of(out.as_slice())
}

/// The payment page of a placed order.
pub open spec fn payment_link_text(checkout_id: i64) -> Seq<char> {
    "https://shopee.co.id/mpp/"@ + signed_decimal(checkout_id as int) + "?flow_source=3"@
}

pub fn payment_link(checkout_id: i64) -> (url: String)
    ensures
        url@ == payment_link_text(checkout_id),
{
    let mut out: Vec<char> = Vec::new();
    push_str_chars(&mut out, "https://shopee.co.id/mpp/");
    push_all(&mut out, &i64_decimal(checkout_id));
    push_str_chars(&mut out, "?flow_source=3");
    string_of(out.as_slice())
}

/// The Telegram `sendMessage` call for a bot, a chat and a message.
pub open spec fn telegram_send_url_text(token: Seq<char>, chat_id: Seq<char>, msg: Seq<char>) -> Seq<
    char,
> {
    "https://api.telegram.org/bot"@ + token + "/sendMessage?chat_id="@ + chat_id + "&text="@
        + url_encoded(msg)
}

pub fn telegram_send_url(token: &str, chat_id: &str, msg: &str) -> (url: String)
    ensures
        url@ == telegram_send_url_text(token@, chat_id@, msg@),
{
    let encoded = url_encode(msg);
    let mut out: Vec<char> = Vec::new();
    push_str_chars(&mut out, "https://api.telegram.org/bot");
    push_str_chars(&mut out, token);
    push_str_chars(&mut out, "/sendMessage?chat_id=");
    push_str_chars(&mut out, chat_id);
    push_str_chars(&mut out, "&text=");
    push_str_chars(&mut out, encoded.as_str());
    string_of(out.as_slice())
}

/// The address that polls the status of a login QR code.
pub open spec fn qrcode_status_url_text(qrcode_id_encoded: Seq<char>) -> Seq<char> {
    "https://shopee.co.id/api/v2/authentication/qrcode_status?qrcode_id="@ + qrcode_id_encoded
}

pub fn qrcode_status_url(qrcode_id_encoded: &str) -> (url: String)
    ensures
        url@ == qrcode_status_url_text(qrcode_id_encoded@),
{
    let mut out: Vec<char> = Vec::new();
    push_str_chars(&mut out, "https://shopee.co.id/api/v2/authentication/qrcode_status?qrcode_id=");
    push_str_chars(&mut out, qrcode_id_encoded);
    string_of(out.as_slice())
}

} // verus!
