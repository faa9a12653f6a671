//! Preparing a purchase: product links, cookies, account and address data,
//! shipping channels, payment channels and product models.
use vstd::prelude::*;
use vstd::string::StrSliceExecFns;
use crate::text::{
    chars_eq, chars_of, find, find_chars_from, index_of_char_from, index_of_from,
    last_index_of, last_index_of_char, lemma_find_from_facts, lemma_index_of_from_facts,
    lemma_last_index_of_facts, owned, parse_i64, parse_i64_chars, slice_chars, string_of, trim,
    trimmed,
};

verus! {

pub struct FSItems {
    pub itemid: i64,
    pub shopid: i64,
    pub modelids: Option<Vec<i64>>,
    pub raw_discount: i64,
    pub price_before_discount: i64,
    pub stock: i64,
    pub hidden_price_display: Option<String>,
    pub name: String,
}

/// The body of a flash-sale item lookup.
pub struct BodyGetFSItems {
    pub limit: i64,
    pub promotionid: i64,
    pub itemids: Vec<i64>,
    pub sort_soldout: bool,
    pub with_dp_items: bool,
}

pub struct RawModelInfo {
    pub name: String,
    pub price: i64,
    pub stock: i64,
    pub modelid: i64,
    pub promotionid: i64,
}

pub struct ModelInfo {
    pub name: String,
    pub price: i64,
    pub stock: i64,
    pub modelid: i64,
    pub promotionid: i64,
    pub shop_id: i64,
    pub item_id: i64,
    pub quantity: i32,
}

pub struct CookieData {
    pub cookie_content: String,
    pub csrftoken: String,
}

/// What a product page reports.
pub struct ProductData {
    pub name: Option<String>,
    pub models: Option<Vec<RawModelInfo>>,
    pub is_official_shop: Option<bool>,
    pub upcoming_flash_sale: Option<FSInfo>,
}

pub struct FSInfo {
    pub promotionid: i64,
    pub start_time: i64,
    pub end_time: i64,
}

pub struct ShippingInfo {
    pub original_cost: i64,
    pub channelid: i64,
    pub channelidroot: i64,
    pub channel_name: String,
}

pub struct KurirResponse {
    pub data: Option<ShippingData>,
}

pub struct ShippingData {
    pub shipping_infos: Option<Vec<ShippingInfoRaw>>,
}

pub struct ShippingInfoRaw {
    pub original_cost: Option<i64>,
    pub channel: Option<ChannelInfo>,
}

pub struct ChannelInfo {
    pub channelid: Option<i64>,
    pub name: Option<String>,
}

/// A payment channel. `selected_get` and `place_order` are the channel data
/// sent with a checkout lookup and with an order; `None` stands for JSON
/// `null` (also where the payment file leaves them out).
pub struct PaymentInfo {
    pub name: String,
    pub channel_id: i64,
    pub option_info: String,
    pub version: i64,
    pub txn_fee: i64,
    pub selected_get: Option<serde_json::Value>,
    pub place_order: Option<serde_json::Value>,
}

/// One entry of the payment file: its payment channels.
pub struct Entry {
    pub payment: Vec<PaymentInfo>,
}

/// The payment file.
pub struct PaymentData {
    pub data: Option<Vec<Entry>>,
}

pub struct ProductInfo {
    pub shop_id: i64,
    pub item_id: i64,
}

pub struct UserData {
    pub username: String,
    pub email: String,
    pub phone: String,
    pub userid: i64,
}

/// The addresses an account lists.
pub struct DataOnAddress {
    pub addresses: Option<Vec<AddressInfo>>,
}

pub struct AddressInfo {
    pub state: String,
    pub city: String,
    pub district: String,
    pub id: i64,
}

/// A JSON field that may hold a number as a string or as a number.
pub enum NumberField {
    /// A JSON string.
    Text(String),
    /// A JSON number, with its value where it is an `i64`.
    Number(Option<i64>),
    /// Any other JSON value.
    Other,
}

// ---------------------------------------------------------------------------
// Defaults
// ---------------------------------------------------------------------------

/// The text an address carries when the account is logged out.
pub open spec fn logout_warning() -> Seq<char> {
    "LOGOUT (WARNING)"@
}

/// Two addresses with the same texts and id.
pub open spec fn same_address(a: AddressInfo, b: AddressInfo) -> bool {
    a.state@ == b.state@ && a.city@ == b.city@ && a.district@ == b.district@ && a.id == b.id
}

impl AddressInfo {
    /// A copy of the address.
    pub fn copy(&self) -> (a: AddressInfo)
        ensures
            same_address(a, *self),
    {
        AddressInfo {
            state: self.state.clone(),
            city: self.city.clone(),
            district: self.district.clone(),
            id: self.id,
        }
    }

}

impl Default for AddressInfo {
    /// The placeholder address: every text field is the logout warning, id 0.
    fn default() -> (a: AddressInfo)
        ensures
            a.state@ == logout_warning(),
            a.city@ == logout_warning(),
            a.district@ == logout_warning(),
            a.id == 0,
    {
        AddressInfo {
            state: owned("LOGOUT (WARNING)"),
            city: owned("LOGOUT (WARNING)"),
            district: owned("LOGOUT (WARNING)"),
            id: 0,
        }
    }
}

/// The name given to payment fields that are missing.
pub fn default_unknown() -> (s: String)
    ensures
        s@ == "Unknown"@,
{
    owned("Unknown")
}

/// The numeric fields of a payment channel are strings holding an `i64`.
pub fn custom_parse_i64(s: &str) -> (r: Option<i64>)
    ensures
        r == parse_i64(s@),
{
    let cs = chars_of(s);
    parse_i64_chars(&cs)
}

/// The transaction fee of a payment channel: a string holding an `i64`, or
/// an `i64` number; anything else counts as 0.
pub open spec fn txn_fee_value(field: NumberField) -> i64 {
    match field {
        NumberField::Text(s) => match parse_i64(s@) {
            Some(v) => v,
            None => 0,
        },
        NumberField::Number(n) => match n {
            Some(v) => v,
            None => 0,
        },
        NumberField::Other => 0,
    }
}

pub fn deserialize_txn_fee(field: &NumberField) -> (fee: i64)
    ensures
        fee == txn_fee_value(*field),
{
    match field {
        NumberField::Text(s) => match custom_parse_i64(s.as_str()) {
            Some(v) => v,
            None => 0,
        },
        NumberField::Number(n) => match n {
            Some(v) => *v,
            None => 0,
        },
        NumberField::Other => 0,
    }
}

// ---------------------------------------------------------------------------
// Product links
// ---------------------------------------------------------------------------

/// The number a link segment holds, or 0 where it holds none.
pub open spec fn id_or_zero(s: Seq<char>) -> i64 {
    match parse_i64(s) {
        Some(v) => v,
        None => 0,
    }
}

/// `s` up to its first `?`.
pub open spec fn before_question(s: Seq<char>) -> Seq<char> {
    match index_of_from(s, '?', 0) {
        Some(i) => s.take(i),
        None => s,
    }
}

/// Shop and item id of a product link. A link with `/product/` in it ends
/// in `/<shop>/<item>`, any other in `.<shop>.<item>`; a query after the
/// item is ignored, and a segment that is not a number counts as 0.
pub open spec fn url_ids(url: Seq<char>) -> (i64, i64) {
    if url.len() == 0 {
        (0, 0)
    } else {
        let sep = if find(url, "/product/"@) is Some {
            '/'
        } else {
            '.'
        };
        match last_index_of(url, sep) {
            None => (0, 0),
            Some(j) => {
                let head = url.take(j);
                let prev = match last_index_of(head, sep) {
                    Some(k) => head.skip(k + 1),
                    None => head,
                };
                (id_or_zero(prev), id_or_zero(before_question(url.skip(j + 1))))
            },
        }
    }
}

fn id_or_zero_chars(s: &[char]) -> (v: i64)
    ensures
        v == id_or_zero(s@),
{
    match parse_i64_chars(s) {
        Some(v) => v,
        None => 0,
    }
}

/// The shop and item ids of a product link.
pub fn process_url(url: &str) -> (info: ProductInfo)
    ensures
        (info.shop_id, info.item_id) == url_ids(url@),
{
    let chars = chars_of(url);
    if chars.len() == 0 {
        return ProductInfo { shop_id: 0, item_id: 0 };
    }
    let marker = chars_of("/product/");
    let sep = if find_chars_from(&chars, &marker, 0).is_some() {
        '/'
    } else {
        '.'
    };
    match last_index_of_char(&chars, sep) {
        None => ProductInfo { shop_id: 0, item_id: 0 },
        Some(j) => {
            proof {
                lemma_last_index_of_facts(chars@, sep);
            }
            let clen = chars.len();
            let head = slice_chars(&chars, 0, j);
            assert(head@ == chars@.take(j as int));
            proof {
                lemma_last_index_of_facts(head@, sep);
            }
            let hlen = head.len();
            let prev = match last_index_of_char(&head, sep) {
                Some(k) => slice_chars(&head, k + 1, hlen),
                None => head.clone(),
            };
            let last = slice_chars(&chars, j + 1, clen);
            assert(last@ == chars@.skip(j + 1));
            let item_part = match index_of_char_from(&last, '?', 0) {
                Some(q) => {
                    proof {
                        lemma_index_of_from_facts(last@, '?', 0);
                    }
                    slice_chars(&last, 0, q)
                },
                None => last.clone(),
            };
            assert(item_part@ == before_question(last@));
            ProductInfo { shop_id: id_or_zero_chars(&prev), item_id: id_or_zero_chars(&item_part) }
        },
    }
}

// ---------------------------------------------------------------------------
// Cookies
// ---------------------------------------------------------------------------

/// The csrf token of a cookie: the text between the first `csrftoken=` and
/// the `;` after it; a single space where either is missing.
pub open spec fn csrftoken_of(cookie: Seq<char>) -> Seq<char> {
    match find(cookie, "csrftoken="@) {
        Some(i) => match index_of_from(cookie, ';', i + 10) {
            Some(e) => cookie.subrange(i + 10, e),
            None => " "@,
        },
        None => " "@,
    }
}

/// The csrf token that a cookie carries.
pub fn extract_csrftoken(cookie_string: &str) -> (token: &str)
    ensures
        token@ == csrftoken_of(cookie_string@),
{
    proof {
        reveal_strlit("csrftoken=");
    }
    let chars = chars_of(cookie_string);
    let pat = chars_of("csrftoken=");
    let clen = chars.len();
    assert(pat@.len() == 10);
    match find_chars_from(&chars, &pat, 0) {
        Some(i) => {
            proof {
                lemma_find_from_facts(chars@, pat@, 0);
            }
            let start = i + 10;
            match index_of_char_from(&chars, ';', start) {
                Some(e) => {
                    proof {
                        lemma_index_of_from_facts(chars@, ';', start as int);
                    }
                    cookie_string.substring_char(start, e)
                },
                None => " ",
            }
        },
        None => " ",
    }
}

/// Cookie data from a cookie: the cookie itself and its csrf token.
pub fn create_cookie(cookie_content: &str) -> (data: CookieData)
    ensures
        data.cookie_content@ == cookie_content@,
        data.csrftoken@ == csrftoken_of(cookie_content@),
{
    let csrftoken = extract_csrftoken(cookie_content);
    CookieData { cookie_content: owned(cookie_content), csrftoken: owned(csrftoken) }
}

/// The cookie a cookie file holds: its text trimmed, or a single space when
/// nothing is left.
pub open spec fn cookie_file_value(content: Seq<char>) -> Seq<char> {
    if trim(content).len() == 0 {
        " "@
    } else {
        trim(content)
    }
}

/// The cookie in the text of a cookie file.
pub fn cookie_from_file_content(content: &str) -> (cookie: String)
    ensures
        cookie@ == cookie_file_value(content@),
{
    let t = trimmed(content);
    if t.len() == 0 {
        owned(" ")
    } else {
        string_of(t.as_slice())
    }
}

// ---------------------------------------------------------------------------
// Voucher links
// ---------------------------------------------------------------------------

/// The query of a link: what lies after its first `?`, up to a second one.
pub open spec fn query_of(url: Seq<char>) -> Option<Seq<char>> {
    match index_of_from(url, '?', 0) {
        None => None,
        Some(q) => {
            let rest = url.skip(q + 1);
            Some(
                match index_of_from(rest, '?', 0) {
                    Some(e) => rest.take(e),
                    None => rest,
                },
            )
        },
    }
}

/// One `key=value` parameter applied to the (promotion id, signature) found
/// so far: `promotionId` or `promotionid` sets the first, `signature` the
/// second; a parameter without `=`, or with another key, changes nothing.
pub open spec fn apply_param(param: Seq<char>, acc: (Seq<char>, Seq<char>)) -> (
    Seq<char>,
    Seq<char>,
) {
    match index_of_from(param, '=', 0) {
        None => acc,
        Some(e) => {
            let key = param.take(e);
            let value = param.skip(e + 1);
            if key == "promotionId"@ || key == "promotionid"@ {
                (value, acc.1)
            } else if key == "signature"@ {
                (acc.0, value)
            } else {
                acc
            }
        },
    }
}

/// The `&`-separated parameters of `q`, applied left to right.
pub open spec fn scan_params(q: Seq<char>, acc: (Seq<char>, Seq<char>)) -> (Seq<char>, Seq<char>)
    decreases q.len(),
{
    match index_of_from(q, '&', 0) {
        None => apply_param(q, acc),
        Some(a) => if 0 <= a < q.len() {
            scan_params(q.skip(a + 1), apply_param(q.take(a), acc))
        } else {
            acc
        },
    }
}

/// Promotion id and signature of a voucher link; empty where absent.
pub open spec fn voucher_link_data(url: Seq<char>) -> (Seq<char>, Seq<char>) {
    match query_of(url) {
        None => (Seq::empty(), Seq::empty()),
        Some(q) => scan_params(q, (Seq::empty(), Seq::empty())),
    }
}

fn apply_param_chars(param: &[char], acc: (Vec<char>, Vec<char>)) -> (r: (Vec<char>, Vec<char>))
    ensures
        (r.0@, r.1@) == apply_param(param@, (acc.0@, acc.1@)),
{
    match index_of_char_from(param, '=', 0) {
        None => acc,
        Some(e) => {
            proof {
                lemma_index_of_from_facts(param@, '=', 0);
                assert(index_of_from(param@, '=', 0) == Some(e as int));
                assert(e < param@.len());
            }
            let plen = param.len();
            let key = slice_chars(param, 0, e);
            let value = slice_chars(param, e + 1, plen);
            assert(key@ == param@.take(e as int));
            assert(value@ == param@.skip(e + 1));
            let k1 = chars_of("promotionId");
            let k2 = chars_of("promotionid");
            let k3 = chars_of("signature");
            if chars_eq(&key, &k1) || chars_eq(&key, &k2) {
                (value, acc.1)
            } else if chars_eq(&key, &k3) {
                (acc.0, value)
            } else {
                acc
            }
        },
    }
}

/// Promotion id and signature from a voucher link.
pub fn url_to_voucher_data(url: &str) -> (r: (String, String))
    ensures
        (r.0@, r.1@) == voucher_link_data(url@),
{
    let chars = chars_of(url);
    let q_at = match index_of_char_from(&chars, '?', 0) {
        None => {
            return (String::new(), String::new());
        },
        Some(q) => q,
    };
    proof {
        lemma_index_of_from_facts(chars@, '?', 0);
    }
    let clen = chars.len();
    let rest = slice_chars(&chars, q_at + 1, clen);
    assert(rest@ == chars@.skip(q_at + 1));
    let query = match index_of_char_from(&rest, '?', 0) {
        Some(e) => {
            proof {
                lemma_index_of_from_facts(rest@, '?', 0);
            }
            slice_chars(&rest, 0, e)
        },
        None => rest.clone(),
    };
    assert(Some(query@) == query_of(chars@));
    let mut acc: (Vec<char>, Vec<char>) = (Vec::new(), Vec::new());
    let mut remaining = query;
    loop
        invariant
            scan_params(query_of(chars@)->0, (Seq::empty(), Seq::empty())) == scan_params(
                remaining@,
                (acc.0@, acc.1@),
            ),
        ensures
            scan_params(query_of(chars@)->0, (Seq::empty(), Seq::empty())) == (acc.0@, acc.1@),
        decreases remaining@.len(),
    {
        match index_of_char_from(&remaining, '&', 0) {
            None => {
                acc = apply_param_chars(&remaining, acc);
                break ;
            },
            Some(a) => {
                proof {
                    lemma_index_of_from_facts(remaining@, '&', 0);
                }
                let rlen = remaining.len();
                let param = slice_chars(&remaining, 0, a);
                assert(param@ == remaining@.take(a as int));
                acc = apply_param_chars(&param, acc);
                let next = slice_chars(&remaining, a + 1, rlen);
                assert(next@ == remaining@.skip(a + 1));
                remaining = next;
            },
        }
    }
    (string_of(acc.0.as_slice()), string_of(acc.1.as_slice()))
}

// ---------------------------------------------------------------------------
// Responses
// ---------------------------------------------------------------------------

/// A shipping channel as the courier list reports it: a missing cost, id or
/// name becomes 0, 0 or `Unknown`, and the root channel is the channel itself.
pub open spec fn shipping_from_raw(raw: ShippingInfoRaw) -> (i64, i64, i64, Seq<char>) {
    let cost = match raw.original_cost {
        Some(c) => c,
        None => 0,
    };
    match raw.channel {
        Some(ch) => {
            let id = match ch.channelid {
                Some(i) => i,
                None => 0,
            };
            let name = match ch.name {
                Some(n) => n@,
                None => "Unknown"@,
            };
            (cost, id, id, name)
        },
        None => (cost, 0, 0, "Unknown"@),
    }
}

pub open spec fn shipping_view(s: ShippingInfo) -> (i64, i64, i64, Seq<char>) {
    (s.original_cost, s.channelid, s.channelidroot, s.channel_name@)
}

/// The raw courier entries a courier response holds (none where absent).
pub open spec fn raw_shippings(resp: KurirResponse) -> Seq<ShippingInfoRaw> {
    match resp.data {
        Some(d) => match d.shipping_infos {
            Some(v) => v@,
            None => Seq::empty(),
        },
        None => Seq::empty(),
    }
}

fn shipping_info_from_raw(raw: ShippingInfoRaw) -> (s: ShippingInfo)
    ensures
        shipping_view(s) == shipping_from_raw(raw),
{
    let original_cost = match raw.original_cost {
        Some(c) => c,
        None => 0,
    };
    match raw.channel {
        Some(channel) => {
            let channelid = match channel.channelid {
                Some(i) => i,
                None => 0,
            };
            let channel_name = match channel.name {
                Some(n) => n,
                None => owned("Unknown"),
            };
            ShippingInfo { original_cost, channelid, channelidroot: channelid, channel_name }
        },
        None => ShippingInfo {
            original_cost,
            channelid: 0,
            channelidroot: 0,
            channel_name: owned("Unknown"),
        },
    }
}

/// The shipping channels a courier response lists, in order.
pub fn shipping_infos_from_response(resp: KurirResponse) -> (out: Vec<ShippingInfo>)
    ensures
        out@.len() == raw_shippings(resp).len(),
        forall|i: int|
            0 <= i < out@.len() ==> shipping_view(#[trigger] out@[i]) == shipping_from_raw(
                raw_shippings(resp)[i],
            ),
{
    let ghost raws = raw_shippings(resp);
    let mut infos: Vec<ShippingInfoRaw> = match resp.data {
        Some(d) => match d.shipping_infos {
            Some(v) => v,
            None => Vec::new(),
        },
        None => Vec::new(),
    };
    assert(infos@ == raws);
    let mut out: Vec<ShippingInfo> = Vec::new();
    let mut taken: usize = 0;
    let n = infos.len();
    while taken < n
        invariant
            taken <= n,
            n == raws.len(),
            infos@ == raws.skip(taken as int),
            out@.len() == taken,
            forall|i: int|
                0 <= i < taken ==> shipping_view(#[trigger] out@[i]) == shipping_from_raw(raws[i]),
        decreases n - taken,
    {
        let raw = infos.remove(0);
        assert(infos@ == raws.skip(taken + 1));
        out.push(shipping_info_from_raw(raw));
        taken = taken + 1;
    }
    out
}

/// A product page's summary: its name (`Unknown` where absent), its models
/// (none where absent), whether the shop is official, and its upcoming
/// flash sale (all zero where absent). A missing page reads as `INVALID`
/// with no models.
pub open spec fn product_summary(data: Option<ProductData>) -> (Seq<char>, Seq<RawModelInfo>, bool, (i64, i64, i64)) {
    match data {
        Some(d) => (
            match d.name {
                Some(n) => n@,
                None => "Unknown"@,
            },
            match d.models {
                Some(m) => m@,
                None => Seq::empty(),
            },
            match d.is_official_shop {
                Some(b) => b,
                None => false,
            },
            match d.upcoming_flash_sale {
                Some(f) => (f.promotionid, f.start_time, f.end_time),
                None => (0, 0, 0),
            },
        ),
        None => ("INVALID"@, Seq::empty(), false, (0, 0, 0)),
    }
}

/// A model of the product as the checkout wants it: the raw model with the
/// product's shop and item and a quantity of 1.
pub open spec fn model_from_raw(raw: RawModelInfo, product: ProductInfo) -> ModelInfo {
    ModelInfo {
        name: raw.name,
        price: raw.price,
        stock: raw.stock,
        modelid: raw.modelid,
        promotionid: raw.promotionid,
        shop_id: product.shop_id,
        item_id: product.item_id,
        quantity: 1,
    }
}

/// The summary of a product page and its models for checkout.
pub fn product_from_response(data: Option<ProductData>, product_info: &ProductInfo) -> (r: (
    String,
    Vec<ModelInfo>,
    bool,
    FSInfo,
))
    ensures
        r.0@ == product_summary(data).0,
        r.1@.len() == product_summary(data).1.len(),
        forall|i: int|
            0 <= i < r.1@.len() ==> #[trigger] r.1@[i] == model_from_raw(
                product_summary(data).1[i],
                *product_info,
            ),
        r.2 == product_summary(data).2,
        (r.3.promotionid, r.3.start_time, r.3.end_time) == product_summary(data).3,
{
    let ghost summary = product_summary(data);
    let (name, mut raw_models, is_official_shop, fs_info) = match data {
        Some(d) => (
            match d.name {
                Some(n) => n,
                None => owned("Unknown"),
            },
            match d.models {
                Some(m) => m,
                None => Vec::new(),
            },
            match d.is_official_shop {
                Some(b) => b,
                None => false,
            },
            match d.upcoming_flash_sale {
                Some(f) => f,
                None => FSInfo { promotionid: 0, start_time: 0, end_time: 0 },
            },
        ),
        None => (
            owned("INVALID"),
            Vec::new(),
            false,
            FSInfo { promotionid: 0, start_time: 0, end_time: 0 },
        ),
    };
    assert(raw_models@ == summary.1);
    let n = raw_models.len();
    let mut models: Vec<ModelInfo> = Vec::new();
    let mut i: usize = 0;
    while i < n
        invariant
            i <= n,
            n == summary.1.len(),
            raw_models@ == summary.1.skip(i as int),
            models@.len() == i,
            forall|k: int|
                0 <= k < i ==> #[trigger] models@[k] == model_from_raw(summary.1[k], *product_info),
        decreases n - i,
    {
        let m = raw_models.remove(0);
        assert(raw_models@ == summary.1.skip(i + 1));
        models.push(
            ModelInfo {
                name: m.name,
                price: m.price,
                stock: m.stock,
                modelid: m.modelid,
                promotionid: m.promotionid,
                shop_id: product_info.shop_id,
                item_id: product_info.item_id,
                quantity: 1,
            },
        );
        i = i + 1;
    }
    (name, models, is_official_shop, fs_info)
}

/// The first address an account lists, or the placeholder where it lists none.
pub fn address_from_response(data: Option<DataOnAddress>) -> (a: AddressInfo)
    ensures
        match data {
            Some(d) => match d.addresses {
                Some(list) => if list@.len() > 0 {
                    a == list@[0]
                } else {
                    a.state@ == logout_warning() && a.city@ == logout_warning() && a.district@
                        == logout_warning() && a.id == 0
                },
                None => a.state@ == logout_warning() && a.city@ == logout_warning()
                    && a.district@ == logout_warning() && a.id == 0,
            },
            None => a.state@ == logout_warning() && a.city@ == logout_warning() && a.district@
                == logout_warning() && a.id == 0,
        },
{
    if let Some(d) = data {
        if let Some(mut list) = d.addresses {
            if list.len() > 0 {
                return list.swap_remove(0);
            }
        }
    }
    AddressInfo::default()
}

/// The account data, or placeholders where the response has none.
pub fn user_from_response(data: Option<UserData>) -> (u: UserData)
    ensures
        match data {
            Some(d) => u == d,
            None => u.username@ == logout_warning() && u.email@ == logout_warning() && u.phone@
                == logout_warning() && u.userid == 0,
        },
{
    match data {
        Some(d) => d,
        None => UserData {
            username: owned("LOGOUT (WARNING)"),
            email: owned("LOGOUT (WARNING)"),
            phone: owned("LOGOUT (WARNING)"),
            userid: 0,
        },
    }
}

/// The payment channels of a payment file, entry after entry; `None` where
/// the file has no data (the caller then stops, as the programs do).
pub open spec fn flattened_payments(entries: Seq<Entry>) -> Seq<PaymentInfo>
    decreases entries.len(),
{
    if entries.len() == 0 {
        Seq::empty()
    } else {
        flattened_payments(entries.drop_last()) + entries.last().payment@
    }
}

pub fn get_payment(file: PaymentData) -> (r: Option<Vec<PaymentInfo>>)
    ensures
        match file.data {
            Some(entries) => r matches Some(v) && v@ == flattened_payments(entries@),
            None => r is None,
        },
{
    match file.data {
        None => None,
        Some(entries) => {
            let ghost all = entries@;
            let mut entries = entries;
            let n = entries.len();
            let mut out: Vec<PaymentInfo> = Vec::new();
            let mut i: usize = 0;
            while i < n
                invariant
                    i <= n,
                    n == all.len(),
                    entries@ == all.skip(i as int),
                    out@ == flattened_payments(all.take(i as int)),
                decreases n - i,
            {
                let mut e = entries.remove(0);
                assert(entries@ == all.skip(i + 1));
                let ghost ep = e.payment@;
                let mut j: usize = 0;
                let m = e.payment.len();
                let ghost base = out@;
                while j < m
                    invariant
                        j <= m,
                        m == ep.len(),
                        e.payment@ == ep.skip(j as int),
                        out@ == base + ep.take(j as int),
                    decreases m - j,
                {
                    let p = e.payment.remove(0);
                    assert(e.payment@ == ep.skip(j + 1));
                    out.push(p);
                    j = j + 1;
                    assert(ep.take(j as int) == ep.take(j - 1).push(ep[j - 1]));
                }
                assert(ep.take(m as int) == ep);
                assert(all.take(i + 1).drop_last() == all.take(i as int));
                i = i + 1;
            }
            assert(all.take(n as int) == all);
            Some(out)
        },
    }
}

/// The flash-sale item lookup for some products: up to 16 items of the sale,
/// sold-out ones last, for the products' item ids in order.
pub fn fs_items_request(product_info: &[ProductInfo], fs_info: &FSInfo) -> (b: BodyGetFSItems)
    ensures
        b.limit == 16,
        b.promotionid == fs_info.promotionid,
        b.itemids@.len() == product_info@.len(),
        forall|i: int| 0 <= i < product_info@.len() ==> b.itemids@[i] == #[trigger] product_info@[i].item_id,
        b.sort_soldout,
        !b.with_dp_items,
{
    let mut itemids: Vec<i64> = Vec::new();
    let mut i: usize = 0;
    while i < product_info.len()
        invariant
            i <= product_info.len(),
            itemids@.len() == i,
            forall|k: int| 0 <= k < i ==> itemids@[k] == #[trigger] product_info@[k].item_id,
        decreases product_info.len() - i,
    {
        itemids.push(product_info[i].item_id);
        i = i + 1;
    }
    BodyGetFSItems {
        limit: 16,
        promotionid: fs_info.promotionid,
        itemids,
        sort_soldout: true,
        with_dp_items: false,
    }
}

} // verus!
