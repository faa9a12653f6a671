//! The checkout of several products at once: the shop orders that group the
//! products by shop, the shipping orders, and the bodies of the checkout
//! lookup and of the order.
use vstd::prelude::*;
use crate::crypt::DeviceInfo;
use crate::prepare::{ModelInfo, ShippingInfo};
use crate::text::{chars_eq, chars_of, owned, push_all, push_str_chars, string_of, i64_decimal};
use crate::text::signed_decimal;
use crate::voucher::{Orders, Vouchers, is_recommend_order, recommend_order};
use crate::prepare::AddressInfo;

verus! {

// ---------------------------------------------------------------------------
// Shop orders
// ---------------------------------------------------------------------------

/// The products of one shop in a checkout, with the shipping order they go
/// with.
pub struct ShopOrder {
    pub shop: Shop,
    pub items: Vec<Item>,
    pub shipping_id: i32,
}

pub struct Shop {
    pub shopid: i64,
}

/// One product (a model of an item) in a shop order.
pub struct Item {
    pub itemid: i64,
    pub modelid: i64,
    pub quantity: i32,
    pub add_on_deal_id: i64,
    pub is_add_on_sub_item: bool,
    pub item_group_id: Option<String>,
    pub insurances: Vec<Insurance>,
    pub channel_exclusive_info: ChannelExclusiveInfo,
    pub stream_info: StreamInfo,
    pub supports_free_returns: bool,
}

/// An insurance offer of an item as the checkout answer sends it: the JSON
/// value, whether it is a JSON object, and whether this library has marked
/// it not selected (its `selected` field set to `false`).
pub struct Insurance {
    pub data: serde_json::Value,
    pub is_object: bool,
    pub deselected: bool,
}

pub struct ChannelExclusiveInfo {
    pub source_id: i32,
    pub token: String,
    pub is_live_stream: bool,
    pub is_short_video: bool,
}

pub struct StreamInfo {
    pub streamer_id_live_stream: i64,
    pub streamer_id_short_video: i64,
}

/// `item` is the shop-order item made for product `p`: its ids and
/// quantity, and nothing else set.
pub open spec fn is_item_for(item: Item, p: ModelInfo) -> bool {
    &&& item.itemid == p.item_id
    &&& item.modelid == p.modelid
    &&& item.quantity == p.quantity
    &&& item.add_on_deal_id == 0
    &&& !item.is_add_on_sub_item
    &&& item.item_group_id is None
    &&& item.insurances@.len() == 0
    &&& item.channel_exclusive_info.source_id == 0
    &&& item.channel_exclusive_info.token@ == Seq::<char>::empty()
    &&& !item.channel_exclusive_info.is_live_stream
    &&& !item.channel_exclusive_info.is_short_video
    &&& item.stream_info.streamer_id_live_stream == 0
    &&& item.stream_info.streamer_id_short_video == 0
    &&& !item.supports_free_returns
}

/// The shops of the products, each once, in the order they first appear.
pub open spec fn distinct_shops(products: Seq<ModelInfo>) -> Seq<i64>
    decreases products.len(),
{
    if products.len() == 0 {
        Seq::empty()
    } else {
        let before = distinct_shops(products.drop_last());
        if before.contains(products.last().shop_id) {
            before
        } else {
            before.push(products.last().shop_id)
        }
    }
}

/// The products of one shop, in their order.
pub open spec fn products_of_shop(products: Seq<ModelInfo>, shop: i64) -> Seq<ModelInfo>
    decreases products.len(),
{
    if products.len() == 0 {
        Seq::empty()
    } else {
        let before = products_of_shop(products.drop_last(), shop);
        if products.last().shop_id == shop {
            before.push(products.last())
        } else {
            before
        }
    }
}

/// `orders` groups `products` by shop: one order per shop, in the order the
/// shops first appear, numbered 1, 2, ... as shipping ids, each holding the
/// items of its shop's products in their order.
pub open spec fn groups_products(orders: Seq<ShopOrder>, products: Seq<ModelInfo>) -> bool {
    let shops = distinct_shops(products);
    &&& orders.len() == shops.len()
    &&& forall|k: int|
        #![trigger orders[k]]
        0 <= k < orders.len() ==> {
            let o = orders[k];
            let ps = products_of_shop(products, shops[k]);
            &&& o.shop.shopid == shops[k]
            &&& o.shipping_id == #[verifier::truncate] ((k + 1) as i32)
            &&& o.items@.len() == ps.len()
            &&& forall|j: int| 0 <= j < ps.len() ==> is_item_for(#[trigger] o.items@[j], ps[j])
        }
}

fn item_for(p: &ModelInfo) -> (item: Item)
    ensures
        is_item_for(item, *p),
{
    Item {
        itemid: p.item_id,
        modelid: p.modelid,
        quantity: p.quantity,
        add_on_deal_id: 0,
        is_add_on_sub_item: false,
        item_group_id: None,
        insurances: Vec::new(),
        channel_exclusive_info: ChannelExclusiveInfo {
            source_id: 0,
            token: String::new(),
            is_live_stream: false,
            is_short_video: false,
        },
        stream_info: StreamInfo { streamer_id_live_stream: 0, streamer_id_short_video: 0 },
        supports_free_returns: false,
    }
}

/// The index of the order of shop `shop`, if there is one.
fn order_of_shop(orders: &Vec<ShopOrder>, shop: i64) -> (r: Option<usize>)
    ensures
        match r {
            Some(k) => k < orders@.len() && orders@[k as int].shop.shopid == shop,
            None => forall|k: int| 0 <= k < orders@.len() ==> orders@[k].shop.shopid != shop,
        },
{
    let n = orders.len();
    let mut k: usize = 0;
    while k < n
        invariant
            n == orders@.len(),
            k <= n,
            forall|j: int| 0 <= j < k ==> orders@[j].shop.shopid != shop,
        decreases n - k,
    {
        if orders[k].shop.shopid == shop {
            return Some(k);
        }
        k = k + 1;
    }
    None
}

/// The shop orders for a list of products: the products grouped by shop,
/// one order per shop in the order the shops first appear, with shipping
/// ids 1, 2, ... in that order.
pub fn multi_product(products: &[ModelInfo]) -> (orders: Vec<ShopOrder>)
    ensures
        groups_products(orders@, products@),
        forall|k1: int, k2: int|
            0 <= k1 < k2 < orders@.len() ==> orders@[k1].shop.shopid != orders@[k2].shop.shopid,
{
    let n = products.len();
    let mut out: Vec<ShopOrder> = Vec::new();
    let mut i: usize = 0;
    while i < n
        invariant
            n == products@.len(),
            i <= n,
            groups_products(out@, products@.take(i as int)),
        decreases n - i,
    {
        let p = &products[i];
        let ghost pre = products@.take(i as int);
        let ghost post = products@.take(i + 1);
        let ghost old_out = out@;
        assert(post.drop_last() == pre);
        assert(post.last() == *p);
        let found = order_of_shop(&out, p.shop_id);
        match found {
            Some(k) => {
                assert(distinct_shops(pre)[k as int] == p.shop_id);
                assert(distinct_shops(pre).contains(p.shop_id));
                let item = item_for(p);
                out[k].items.push(item);
                assert forall|m: int| 0 <= m < out@.len() implies {
                    let o = #[trigger] out@[m];
                    let ps = products_of_shop(post, distinct_shops(post)[m]);
                    &&& o.shop.shopid == distinct_shops(post)[m]
                    &&& o.shipping_id == (m + 1) as i32
                    &&& o.items@.len() == ps.len()
                    &&& forall|j: int| 0 <= j < ps.len() ==> is_item_for(#[trigger] o.items@[j], ps[j])
                } by {
                    if m != k {
                        assert(old_out[m] == out@[m]);
                        assert(old_out[m].shop.shopid != p.shop_id) by {
                            assert(distinct_shops(pre).no_duplicates()) by {
                                lemma_distinct_shops_unique(pre);
                            }
                        }
                    }
                }
            },
            None => {
                assert(!distinct_shops(pre).contains(p.shop_id)) by {
                    if distinct_shops(pre).contains(p.shop_id) {
                        let m = choose|m: int| 0 <= m < distinct_shops(pre).len() && distinct_shops(pre)[m] == p.shop_id;
                        assert(old_out[m].shop.shopid == p.shop_id);
                    }
                }
                let mut items: Vec<Item> = Vec::new();
                items.push(item_for(p));
                let len = out.len();
                proof {
                    lemma_distinct_shops_len(pre);
                }
                #[verifier::truncate]
                let sid = (len + 1) as i32;
                out.push(ShopOrder { shop: Shop { shopid: p.shop_id }, items, shipping_id: sid });
                assert forall|m: int| 0 <= m < out@.len() implies {
                    let o = #[trigger] out@[m];
                    let ps = products_of_shop(post, distinct_shops(post)[m]);
                    &&& o.shop.shopid == distinct_shops(post)[m]
                    &&& o.shipping_id == (m + 1) as i32
                    &&& o.items@.len() == ps.len()
                    &&& forall|j: int| 0 <= j < ps.len() ==> is_item_for(#[trigger] o.items@[j], ps[j])
                } by {
                    if m < old_out.len() {
                        assert(old_out[m] == out@[m]);
                        assert(distinct_shops(pre)[m] != p.shop_id);
                    } else {
                        lemma_products_of_new_shop(pre, p.shop_id);
                    }
                }
            },
        }
        i = i + 1;
    }
    assert(products@.take(n as int) == products@);
    proof {
        lemma_distinct_shops_unique(products@);
    }
    out
}

/// An insurance offer after it has been marked not selected, where it is a
/// JSON object (other values are left as they are).
pub open spec fn deselected(x: Insurance) -> Insurance {
    (Insurance { deselected: x.deselected || x.is_object, ..x })
}

/// `a` is `b` with every insurance offer marked not selected.
pub open spec fn item_deselected(a: Item, b: Item) -> bool {
    &&& a == (Item { insurances: a.insurances, ..b })
    &&& a.insurances@.len() == b.insurances@.len()
    &&& forall|k: int|
        0 <= k < b.insurances@.len() ==> #[trigger] a.insurances@[k] == deselected(b.insurances@[k])
}

/// `a` is `b` with every insurance offer of every item marked not selected.
pub open spec fn order_deselected(a: ShopOrder, b: ShopOrder) -> bool {
    &&& a.shop == b.shop
    &&& a.shipping_id == b.shipping_id
    &&& a.items@.len() == b.items@.len()
    &&& forall|j: int| 0 <= j < b.items@.len() ==> item_deselected(#[trigger] a.items@[j], b.items@[j])
}

fn deselect_item(item: &mut Item)
    ensures
        item_deselected(*final(item), *old(item)),
{
    let n = item.insurances.len();
    let mut k: usize = 0;
    while k < n
        invariant
            n == item.insurances@.len(),
            n == old(item).insurances@.len(),
            k <= n,
            *item == (Item { insurances: item.insurances, ..*old(item) }),
            forall|k2: int| 0 <= k2 < k ==> #[trigger] item.insurances@[k2] == deselected(old(item).insurances@[k2]),
            forall|k2: int| k <= k2 < n ==> #[trigger] item.insurances@[k2] == old(item).insurances@[k2],
        decreases n - k,
    {
        if item.insurances[k].is_object {
            item.insurances[k].deselected = true;
        }
        k = k + 1;
    }
}

fn deselect_order(order: &mut ShopOrder)
    ensures
        order_deselected(*final(order), *old(order)),
{
    let n = order.items.len();
    let mut j: usize = 0;
    while j < n
        invariant
            n == order.items@.len(),
            n == old(order).items@.len(),
            j <= n,
            order.shop == old(order).shop,
            order.shipping_id == old(order).shipping_id,
            forall|j2: int| 0 <= j2 < j ==> item_deselected(#[trigger] order.items@[j2], old(order).items@[j2]),
            forall|j2: int| j <= j2 < n ==> #[trigger] order.items@[j2] == old(order).items@[j2],
        decreases n - j,
    {
        deselect_item(&mut order.items[j]);
        j = j + 1;
    }
}

/// Marks every insurance offer of every item not selected, so that the
/// order is placed without insurance.
pub fn force_deselect_insurance(shoporders: &mut [ShopOrder])
    ensures
        final(shoporders)@.len() == old(shoporders)@.len(),
        forall|i: int|
            0 <= i < old(shoporders)@.len() ==> order_deselected(
                #[trigger] final(shoporders)@[i],
                old(shoporders)@[i],
            ),
{
    let n = shoporders.len();
    let mut i: usize = 0;
    while i < n
        invariant
            n == shoporders@.len(),
            n == old(shoporders)@.len(),
            i <= n,
            forall|i2: int| 0 <= i2 < i ==> order_deselected(#[trigger] shoporders@[i2], old(shoporders)@[i2]),
            forall|i2: int| i <= i2 < n ==> #[trigger] shoporders@[i2] == old(shoporders)@[i2],
        decreases n - i,
    {
        deselect_order(&mut shoporders[i]);
        i = i + 1;
    }
}

// ---------------------------------------------------------------------------
// Shipping orders
// ---------------------------------------------------------------------------

/// How one group of shop orders is shipped.
pub struct ShippingOrder {
    pub sync: bool,
    pub buyer_address_data: BuyerAddressData,
    pub selected_logistic_channelid: i64,
    pub shipping_id: i32,
    pub shoporder_indexes: Vec<i32>,
    pub selected_preferred_delivery_time_option_id: i32,
    pub prescription_info: PrescriptionInfo,
    pub fulfillment_info: FulfillmentInfo,
    pub selected_logistic_channel_data: SelectedLogisticChannelData,
}

/// The value a shipping order's `selected_preferred_delivery_time_option_id`
/// takes where the answer leaves it out.
pub fn selected_preferred_delivery_time_option_id() -> (v: i32)
    ensures
        v == 0,
{
    0
}

/// The value a shipping order's `sync` takes where the answer leaves it out.
pub fn default_sync() -> (v: bool)
    ensures
        v,
{
    true
}

pub struct BuyerAddressData {
    pub addressid: i64,
    pub address_type: i32,
    pub tax_address: String,
}

pub struct PrescriptionInfo {
    pub images: Vec<String>,
}

pub struct FulfillmentInfo {
    pub fulfillment_flag: i32,
    pub fulfillment_source: String,
    pub managed_by_sbs: bool,
    pub order_fulfillment_type: i32,
    pub warehouse_address_id: i64,
    pub is_from_overseas: bool,
}

pub struct SelectedLogisticChannelData {
    pub support_advance_booking: bool,
    pub selected_from: i32,
    pub fulfillment_shipping_order_channel_data: Option<String>,
}

/// Product `p` is an item of a shop order of its shop whose shipping id is
/// `sid`.
pub open spec fn ships_with(shoporders: Seq<ShopOrder>, p: ModelInfo, sid: i32) -> bool {
    exists|k: int, j: int|
        #![trigger shoporders[k].items@[j]]
        0 <= k < shoporders.len() && 0 <= j < shoporders[k].items@.len()
            && shoporders[k].shop.shopid == p.shop_id && shoporders[k].shipping_id == sid
            && shoporders[k].items@[j].itemid == p.item_id
            && shoporders[k].items@[j].modelid == p.modelid
}

/// The index of the last of the first `n` products that ships with `sid`.
pub open spec fn last_product_shipping(
    shoporders: Seq<ShopOrder>,
    products: Seq<ModelInfo>,
    sid: i32,
    n: int,
) -> Option<int>
    decreases n,
{
    if n <= 0 {
        None
    } else if ships_with(shoporders, products[n - 1], sid) {
        Some(n - 1)
    } else {
        last_product_shipping(shoporders, products, sid, n - 1)
    }
}

/// The courier a shipping order ends with: that of the last product that
/// ships with it, or the one it had.
pub open spec fn adjusted_channel(
    order: ShippingOrder,
    shoporders: Seq<ShopOrder>,
    products: Seq<ModelInfo>,
    shipping: Seq<ShippingInfo>,
) -> i64 {
    match last_product_shipping(shoporders, products, order.shipping_id, products.len() as int) {
        Some(i) => shipping[i].channelid,
        None => order.selected_logistic_channelid,
    }
}

fn ships_with_exec(shoporders: &[ShopOrder], p: &ModelInfo, sid: i32) -> (r: bool)
    ensures
        r == ships_with(shoporders@, *p, sid),
{
    let n = shoporders.len();
    let mut k: usize = 0;
    while k < n
        invariant
            n == shoporders@.len(),
            k <= n,
            forall|k2: int, j: int|
                #![trigger shoporders@[k2].items@[j]]
                0 <= k2 < k && 0 <= j < shoporders@[k2].items@.len() ==> !(
                shoporders@[k2].shop.shopid == p.shop_id && shoporders@[k2].shipping_id == sid
                    && shoporders@[k2].items@[j].itemid == p.item_id
                    && shoporders@[k2].items@[j].modelid == p.modelid),
        decreases n - k,
    {
        let order = &shoporders[k];
        if order.shop.shopid == p.shop_id && order.shipping_id == sid {
            let m = order.items.len();
            let mut j: usize = 0;
            while j < m
                invariant
                    n == shoporders@.len(),
                    k < n,
                    *order == shoporders@[k as int],
                    order.shop.shopid == p.shop_id,
                    order.shipping_id == sid,
                    m == order.items@.len(),
                    j <= m,
                    forall|j2: int|
                        0 <= j2 < j ==> !(order.items@[j2].itemid == p.item_id
                            && order.items@[j2].modelid == p.modelid),
                decreases m - j,
            {
                if order.items[j].itemid == p.item_id && order.items[j].modelid == p.modelid {
                    assert(shoporders@[k as int].items@[j as int] == order.items@[j as int]);
                    assert(shoporders@[k as int].items@[j as int].itemid == p.item_id);
                    assert(shoporders@[k as int].items@[j as int].modelid == p.modelid);
                    assert(ships_with(shoporders@, *p, sid));
                    return true;
                }
                j = j + 1;
            }
            assert forall|j2: int|
                #![trigger shoporders@[k as int].items@[j2]]
                0 <= j2 < shoporders@[k as int].items@.len() implies !(
                shoporders@[k as int].items@[j2].itemid == p.item_id
                    && shoporders@[k as int].items@[j2].modelid == p.modelid) by {
                assert(shoporders@[k as int].items@[j2] == order.items@[j2]);
            }
        }
        k = k + 1;
    }
    false
}

/// Sets the courier of each shipping order to that of the last product
/// (in the order of `products`) that is an item of a shop order shipped
/// with it: `shipping[i]` is the courier chosen for `products[i]`. Shipping
/// orders that no product ships with keep their courier.
pub fn adjustment_shipping(
    shipping_orders: &mut [ShippingOrder],
    shoporders: &[ShopOrder],
    products: &[ModelInfo],
    shipping: &[ShippingInfo],
)
    requires
        forall|i: int, k: int|
            0 <= i < products@.len() && 0 <= k < old(shipping_orders)@.len() && ships_with(
                shoporders@,
                products@[i],
                old(shipping_orders)@[k].shipping_id,
            ) ==> i < shipping@.len(),
    ensures
        final(shipping_orders)@.len() == old(shipping_orders)@.len(),
        forall|k: int|
            0 <= k < old(shipping_orders)@.len() ==> #[trigger] final(shipping_orders)@[k]
                == (ShippingOrder {
                selected_logistic_channelid: adjusted_channel(
                    old(shipping_orders)@[k],
                    shoporders@,
                    products@,
                    shipping@,
                ),
                ..old(shipping_orders)@[k]
            }),
{
    let n = shipping_orders.len();
    let mut k: usize = 0;
    while k < n
        invariant
            n == shipping_orders@.len(),
            n == old(shipping_orders)@.len(),
            k <= n,
            forall|i: int, k2: int|
                0 <= i < products@.len() && 0 <= k2 < old(shipping_orders)@.len() && ships_with(
                    shoporders@,
                    products@[i],
                    old(shipping_orders)@[k2].shipping_id,
                ) ==> i < shipping@.len(),
            forall|k2: int|
                0 <= k2 < k ==> #[trigger] shipping_orders@[k2] == (ShippingOrder {
                    selected_logistic_channelid: adjusted_channel(
                        old(shipping_orders)@[k2],
                        shoporders@,
                        products@,
                        shipping@,
                    ),
                    ..old(shipping_orders)@[k2]
                }),
            forall|k2: int| k <= k2 < n ==> #[trigger] shipping_orders@[k2] == old(shipping_orders)@[k2],
        decreases n - k,
    {
        let sid = shipping_orders[k].shipping_id;
        let mut i: usize = products.len();
        let mut found: Option<usize> = None;
        while i > 0
            invariant_except_break
                i <= products@.len(),
                found is None,
                last_product_shipping(shoporders@, products@, sid, products@.len() as int)
                    == last_product_shipping(shoporders@, products@, sid, i as int),
            ensures
                match found {
                    Some(f) => last_product_shipping(shoporders@, products@, sid, products@.len() as int) == Some(f as int),
                    None => last_product_shipping(shoporders@, products@, sid, products@.len() as int) is None,
                },
            decreases i,
        {
            if ships_with_exec(shoporders, &products[i - 1], sid) {
                found = Some(i - 1);
                break;
            }
            i = i - 1;
        }
        match found {
            Some(f) => {
                proof {
                    lemma_last_product_shipping(shoporders@, products@, sid, products@.len() as int);
                    assert(sid == old(shipping_orders)@[k as int].shipping_id);
                }
                let c = shipping[f].channelid;
                shipping_orders[k].selected_logistic_channelid = c;
            },
            None => {},
        }
        k = k + 1;
    }
}

proof fn lemma_last_product_shipping(
    shoporders: Seq<ShopOrder>,
    products: Seq<ModelInfo>,
    sid: i32,
    n: int,
)
    ensures
        last_product_shipping(shoporders, products, sid, n) matches Some(i) ==> 0 <= i < n
            && ships_with(shoporders, products[i], sid),
    decreases n,
{
    if n > 0 {
        lemma_last_product_shipping(shoporders, products, sid, n - 1);
    }
}


// ---------------------------------------------------------------------------
// Vouchers and the promotion part of a checkout
// ---------------------------------------------------------------------------

pub struct PromotionData {
    pub use_coins: bool,
    pub free_shipping_voucher_info: FreeShippingVoucherInfo,
    pub platform_vouchers: Vec<Option<PlatformVoucher>>,
    pub shop_vouchers: Vec<Option<ShopVoucher>>,
    pub check_shop_voucher_entrances: bool,
    pub auto_apply_shop_voucher: bool,
}

pub struct ShopVoucher {
    pub shopid: i64,
    pub promotionid: i64,
    pub voucher_code: String,
    pub applied_voucher_code: String,
    pub invalid_message_code: i32,
    pub reward_type: i32,
    pub shipping_order_distributions: Vec<()>,
}

pub struct PlatformVoucher {
    pub voucher_code: String,
    pub promotionid: i64,
}

pub struct FreeShippingVoucherInfo {
    pub free_shipping_voucher_id: i64,
    pub free_shipping_voucher_code: Option<String>,
    pub disabled_reason: Option<String>,
    pub disabled_reason_code: i64,
    pub banner_info: Option<BannerInfo>,
    pub required_be_channel_ids: Option<Vec<String>>,
    pub required_spm_channels: Option<Vec<String>>,
}

pub struct BannerInfo {
    pub banner_type: i64,
    pub learn_more_msg: String,
    pub msg: String,
}

pub struct FsvSelectionInfo {
    pub fsv_id: i64,
    pub selected_shipping_ids: Vec<i64>,
    pub potentially_applied_shipping_ids: Vec<i64>,
}

/// The banner shown when a free-shipping voucher applies.
pub open spec fn fsv_banner_text() -> Seq<char> {
    "Berhasil mendapatkan Gratis Ongkir"@
}

/// The free-shipping part of a checkout: the voucher where there is one,
/// otherwise an empty entry with an empty disabled reason.
pub open spec fn is_free_shipping_info_for(info: FreeShippingVoucherInfo, voucher: Option<Vouchers>) -> bool {
    match voucher {
        Some(v) => {
            &&& info.free_shipping_voucher_id == v.promotionid
            &&& info.free_shipping_voucher_code matches Some(c) && c@ == v.voucher_code@
            &&& info.disabled_reason is None
            &&& info.disabled_reason_code == 0
            &&& info.banner_info matches Some(b) && b.banner_type == 5
                && b.learn_more_msg@ == Seq::<char>::empty() && b.msg@ == fsv_banner_text()
            &&& info.required_be_channel_ids matches Some(l) && l@.len() == 0
            &&& info.required_spm_channels matches Some(l) && l@.len() == 0
        },
        None => {
            &&& info.free_shipping_voucher_id == 0
            &&& info.free_shipping_voucher_code is None
            &&& info.disabled_reason matches Some(r) && r@ == Seq::<char>::empty()
            &&& info.disabled_reason_code == 0
            &&& info.banner_info is None
            &&& info.required_be_channel_ids is None
            &&& info.required_spm_channels is None
        },
    }
}

pub fn free_shipping_voucher_info(voucher: &Option<Vouchers>) -> (info: FreeShippingVoucherInfo)
    ensures
        is_free_shipping_info_for(info, *voucher),
{
    match voucher {
        Some(v) => FreeShippingVoucherInfo {
            free_shipping_voucher_id: v.promotionid,
            free_shipping_voucher_code: Some(v.voucher_code.clone()),
            disabled_reason: None,
            disabled_reason_code: 0,
            banner_info: Some(
                BannerInfo {
                    banner_type: 5,
                    learn_more_msg: String::new(),
                    msg: owned("Berhasil mendapatkan Gratis Ongkir"),
                },
            ),
            required_be_channel_ids: Some(Vec::new()),
            required_spm_channels: Some(Vec::new()),
        },
        None => FreeShippingVoucherInfo {
            free_shipping_voucher_id: 0,
            free_shipping_voucher_code: None,
            disabled_reason: Some(String::new()),
            disabled_reason_code: 0,
            banner_info: None,
            required_be_channel_ids: None,
            required_spm_channels: None,
        },
    }
}

/// `sv` applies shop voucher `v`.
pub open spec fn is_shop_voucher_for(sv: Option<ShopVoucher>, v: Vouchers) -> bool {
    sv matches Some(x) && {
        &&& x.shopid == match v.shop_id {
            Some(id) => id,
            None => 0,
        }
        &&& x.promotionid == v.promotionid
        &&& x.voucher_code@ == v.voucher_code@
        &&& x.applied_voucher_code@ == v.voucher_code@
        &&& x.invalid_message_code == 0
        &&& x.reward_type == 0
        &&& x.shipping_order_distributions@.len() == 0
    }
}

/// The shop vouchers of a checkout: one entry per voucher, in order (a
/// voucher without a shop id gets shop 0).
pub open spec fn is_shop_vouchers_for(out: Seq<Option<ShopVoucher>>, targets: Option<Vec<Vouchers>>) -> bool {
    match targets {
        Some(list) => out.len() == list@.len() && forall|i: int|
            0 <= i < list@.len() ==> is_shop_voucher_for(#[trigger] out[i], list@[i]),
        None => out.len() == 0,
    }
}

pub fn shop_vouchers_for(targets: &Option<Vec<Vouchers>>) -> (out: Vec<Option<ShopVoucher>>)
    ensures
        is_shop_vouchers_for(out@, *targets),
{
    let mut out: Vec<Option<ShopVoucher>> = Vec::new();
    match targets {
        None => {},
        Some(list) => {
            let n = list.len();
            let mut i: usize = 0;
            while i < n
                invariant
                    n == list@.len(),
                    i <= n,
                    out@.len() == i,
                    forall|j: int| 0 <= j < i ==> is_shop_voucher_for(#[trigger] out@[j], list@[j]),
                decreases n - i,
            {
                let v = &list[i];
                let shopid = match v.shop_id {
                    Some(id) => id,
                    None => 0,
                };
                out.push(
                    Some(
                        ShopVoucher {
                            shopid,
                            promotionid: v.promotionid,
                            voucher_code: v.voucher_code.clone(),
                            applied_voucher_code: v.voucher_code.clone(),
                            invalid_message_code: 0,
                            reward_type: 0,
                            shipping_order_distributions: Vec::new(),
                        },
                    ),
                );
                i = i + 1;
            }
        },
    }
    out
}

/// The platform vouchers of a checkout: the voucher where there is one.
pub open spec fn is_platform_vouchers_for(out: Seq<Option<PlatformVoucher>>, target: Option<Vouchers>) -> bool {
    match target {
        Some(v) => out.len() == 1 && (out[0] matches Some(p) && p.voucher_code@ == v.voucher_code@
            && p.promotionid == v.promotionid),
        None => out.len() == 0,
    }
}

pub fn platform_vouchers_for(target: &Option<Vouchers>) -> (out: Vec<Option<PlatformVoucher>>)
    ensures
        is_platform_vouchers_for(out@, *target),
{
    let mut out: Vec<Option<PlatformVoucher>> = Vec::new();
    if let Some(v) = target {
        out.push(Some(PlatformVoucher { voucher_code: v.voucher_code.clone(), promotionid: v.promotionid }));
    }
    out
}

/// The free-shipping selection of a checkout: the voucher, applied to
/// shipping order 1, where there is one.
pub fn fsv_selection_infos_for(voucher: &Option<Vouchers>) -> (out: Vec<Option<FsvSelectionInfo>>)
    ensures
        match voucher {
            Some(v) => out@.len() == 1 && (out@[0] matches Some(f) && f.fsv_id == v.promotionid
                && f.selected_shipping_ids@ == seq![1i64] && f.potentially_applied_shipping_ids@
                == seq![1i64]),
            None => out@.len() == 0,
        },
{
    let mut out: Vec<Option<FsvSelectionInfo>> = Vec::new();
    if let Some(v) = voucher {
        let mut a: Vec<i64> = Vec::new();
        a.push(1);
        let mut b: Vec<i64> = Vec::new();
        b.push(1);
        out.push(Some(FsvSelectionInfo { fsv_id: v.promotionid, selected_shipping_ids: a, potentially_applied_shipping_ids: b }));
    }
    proof {
        if voucher is Some {
            assert(out@[0]->0.selected_shipping_ids@ =~= seq![1i64]);
            assert(out@[0]->0.potentially_applied_shipping_ids@ =~= seq![1i64]);
        }
    }
    out
}

/// The promotion part of a checkout.
pub fn promotion_data_for(
    freeshipping_voucher: &Option<Vouchers>,
    platform_voucher: &Option<Vouchers>,
    shop_vouchers: &Option<Vec<Vouchers>>,
    use_coins: bool,
) -> (p: PromotionData)
    ensures
        p.use_coins == use_coins,
        p.check_shop_voucher_entrances,
        !p.auto_apply_shop_voucher,
        is_free_shipping_info_for(p.free_shipping_voucher_info, *freeshipping_voucher),
        is_platform_vouchers_for(p.platform_vouchers@, *platform_voucher),
        is_shop_vouchers_for(p.shop_vouchers@, *shop_vouchers),
{
    PromotionData {
        use_coins,
        free_shipping_voucher_info: free_shipping_voucher_info(freeshipping_voucher),
        platform_vouchers: platform_vouchers_for(platform_voucher),
        shop_vouchers: shop_vouchers_for(shop_vouchers),
        check_shop_voucher_entrances: true,
        auto_apply_shop_voucher: false,
    }
}

/// The single shipping order of a checkout of one delivery address: none
/// where no courier is chosen (channel 0), otherwise shipping order 1 for
/// the first shop order, with the chosen courier.
pub open spec fn is_shipping_orders_for(out: Seq<ShippingOrder>, address_id: i64, channelid: i64) -> bool {
    &&& channelid == 0 ==> out.len() == 0
    &&& channelid != 0 ==> out.len() == 1 && {
        let s = out[0];
        &&& s.sync
        &&& s.buyer_address_data.addressid == address_id
        &&& s.buyer_address_data.address_type == 0
        &&& s.buyer_address_data.tax_address@ == Seq::<char>::empty()
        &&& s.selected_logistic_channelid == channelid
        &&& s.shipping_id == 1
        &&& s.shoporder_indexes@ == seq![0i32]
        &&& s.selected_preferred_delivery_time_option_id == 0
        &&& s.prescription_info.images@.len() == 0
        &&& s.fulfillment_info.fulfillment_flag == 18
        &&& s.fulfillment_info.fulfillment_source@ == "IDE"@
        &&& !s.fulfillment_info.managed_by_sbs
        &&& s.fulfillment_info.order_fulfillment_type == 1
        &&& s.fulfillment_info.warehouse_address_id == 0
        &&& !s.fulfillment_info.is_from_overseas
        &&& !s.selected_logistic_channel_data.support_advance_booking
        &&& s.selected_logistic_channel_data.selected_from == 1
        &&& s.selected_logistic_channel_data.fulfillment_shipping_order_channel_data is None
    }
}

pub fn shipping_orders_for(address_id: i64, channelid: i64) -> (out: Vec<ShippingOrder>)
    ensures
        is_shipping_orders_for(out@, address_id, channelid),
{
    let mut out: Vec<ShippingOrder> = Vec::new();
    if channelid != 0 {
        let mut indexes: Vec<i32> = Vec::new();
        indexes.push(0);
        out.push(
            ShippingOrder {
                sync: true,
                buyer_address_data: BuyerAddressData {
                    addressid: address_id,
                    address_type: 0,
                    tax_address: String::new(),
                },
                selected_logistic_channelid: channelid,
                shipping_id: 1,
                shoporder_indexes: indexes,
                selected_preferred_delivery_time_option_id: 0,
                prescription_info: PrescriptionInfo { images: Vec::new() },
                fulfillment_info: FulfillmentInfo {
                    fulfillment_flag: 18,
                    fulfillment_source: owned("IDE"),
                    managed_by_sbs: false,
                    order_fulfillment_type: 1,
                    warehouse_address_id: 0,
                    is_from_overseas: false,
                },
                selected_logistic_channel_data: SelectedLogisticChannelData {
                    support_advance_booking: false,
                    selected_from: 1,
                    fulfillment_shipping_order_channel_data: None,
                },
            },
        );
        assert(out@[0].shoporder_indexes@ =~= seq![0i32]);
    }
    out
}

/// The checkout session id: the device id, then the time in milliseconds
/// twice, the second time followed by the fraction of the current second
/// (as the caller wrote it).
pub open spec fn checkout_session_id_text(device_id: Seq<char>, millis: i64, fraction: Seq<char>) -> Seq<char> {
    device_id + ":"@ + signed_decimal(millis as int) + ":"@ + signed_decimal(millis as int) + fraction
}

pub fn checkout_session_id(device_id: &str, millis: i64, fraction: &str) -> (id: String)
    ensures
        id@ == checkout_session_id_text(device_id@, millis, fraction@),
{
    let digits = i64_decimal(millis);
    let mut out: Vec<char> = Vec::new();
    push_str_chars(&mut out, device_id);
    push_str_chars(&mut out, ":");
    push_all(&mut out, &digits);
    push_str_chars(&mut out, ":");
    push_all(&mut out, &digits);
    push_str_chars(&mut out, fraction);
    string_of(out.as_slice())
}

// ---------------------------------------------------------------------------
// The bodies of the checkout lookup and of the order
// ---------------------------------------------------------------------------

pub struct ExtraData {
    pub snack_click_id: Option<String>,
}

pub struct BuyerInfo {
    pub kyc_info: Option<String>,
    pub checkout_email: String,
}

pub struct TaxInfo {
    pub tax_id: String,
}

pub struct ClientEventInfo {
    pub is_fsv_changed: bool,
    pub is_platform_voucher_changed: bool,
}

pub struct AddToCartInfo {}

pub struct DropshippingInfo {}

pub struct OrderUpdateInfo {}

pub struct ChannelItemOptionInfo {
    pub option_info: String,
}

/// The payment channel data of a checkout lookup.
pub struct SelectedGet {
    pub page: String,
    pub removed_vouchers: Vec<String>,
    pub channel_id: i64,
    pub version: i64,
    pub group_id: u64,
    pub channel_item_option_info: ChannelItemOptionInfo,
    pub additional_info: serde_json::Value,
}

/// The payment channel data of an order.
pub struct SelectedPlaceOrder {
    pub channel_id: i64,
    pub channel_item_option_info: ChannelItemOptionInfo,
    pub version: i64,
}

/// The body of a checkout lookup. `selected_payment_channel_data` of `None`
/// is sent as JSON `null`.
pub struct GetBodyJson {
    pub timestamp: Option<i64>,
    pub shoporders: Vec<ShopOrder>,
    pub selected_payment_channel_data: Option<serde_json::Value>,
    pub promotion_data: PromotionData,
    pub fsv_selection_infos: Vec<Option<FsvSelectionInfo>>,
    pub device_info: DeviceInfo,
    pub buyer_info: BuyerInfo,
    pub cart_type: i32,
    pub client_id: i32,
    pub tax_info: TaxInfo,
    pub client_event_info: ClientEventInfo,
    pub add_to_cart_info: AddToCartInfo,
    pub _cft: Vec<i64>,
    pub checkout_session_id: String,
    pub dropshipping_info: DropshippingInfo,
    pub shipping_orders: Vec<ShippingOrder>,
    pub order_update_info: OrderUpdateInfo,
}

/// The body of an order.
pub struct PlaceOrderBody {
    pub client_id: i32,
    pub cart_type: i32,
    pub timestamp: i64,
    pub checkout_price_data: Option<serde_json::Value>,
    pub order_update_info: OrderUpdateInfo,
    pub dropshipping_info: DropshippingInfo,
    pub promotion_data: PromotionData,
    pub selected_payment_channel_data: Option<serde_json::Value>,
    pub shoporders: Vec<ShopOrder>,
    pub shipping_orders: Vec<ShippingOrder>,
    pub display_meta_data: Option<serde_json::Value>,
    pub fsv_selection_infos: Vec<Option<FsvSelectionInfo>>,
    pub buyer_info: BuyerInfo,
    pub client_event_info: ClientEventInfo,
    pub captcha_id: String,
    pub buyer_txn_fee_info: Option<serde_json::Value>,
    pub disabled_checkout_info: Option<serde_json::Value>,
    pub can_checkout: bool,
    pub buyer_service_fee_info: Option<serde_json::Value>,
    pub iof_info: Option<serde_json::Value>,
    pub add_to_cart_info: AddToCartInfo,
    pub ignored_errors: Vec<i64>,
    pub ignore_warnings: bool,
    pub captcha_version: i64,
    pub captcha_signature: String,
    pub extra_data: ExtraData,
    pub checkout_session_id: String,
    pub device_info: DeviceInfo,
    pub device_type: String,
    pub _cft: Vec<i64>,
}

/// The fixed `_cft` list of a checkout lookup.
pub open spec fn cft_values() -> Seq<i64> {
    seq![4227792767i64, 36961919i64]
}

/// A checkout lookup body. The shop orders, the shipping orders and the
/// payment channel data are moved in as given.
pub fn get_body_json(
    timestamp: Option<i64>,
    shoporders: Vec<ShopOrder>,
    selected_payment_channel_data: Option<serde_json::Value>,
    promotion_data: PromotionData,
    fsv_selection_infos: Vec<Option<FsvSelectionInfo>>,
    device_info: DeviceInfo,
    checkout_session_id: String,
    shipping_orders: Vec<ShippingOrder>,
) -> (b: GetBodyJson)
    ensures
        b.timestamp == timestamp,
        b.shoporders == shoporders,
        b.selected_payment_channel_data == selected_payment_channel_data,
        b.promotion_data == promotion_data,
        b.fsv_selection_infos == fsv_selection_infos,
        b.device_info == device_info,
        b.buyer_info.kyc_info is None,
        b.buyer_info.checkout_email@ == Seq::<char>::empty(),
        b.cart_type == 1,
        b.client_id == 5,
        b.tax_info.tax_id@ == Seq::<char>::empty(),
        !b.client_event_info.is_fsv_changed,
        !b.client_event_info.is_platform_voucher_changed,
        b._cft@ == cft_values(),
        b.checkout_session_id == checkout_session_id,
        b.shipping_orders == shipping_orders,
{
    let mut cft: Vec<i64> = Vec::new();
    cft.push(4227792767);
    cft.push(36961919);
    assert(cft@ =~= cft_values());
    GetBodyJson {
        timestamp,
        shoporders,
        selected_payment_channel_data,
        promotion_data,
        fsv_selection_infos,
        device_info,
        buyer_info: BuyerInfo { kyc_info: None, checkout_email: String::new() },
        cart_type: 1,
        client_id: 5,
        tax_info: TaxInfo { tax_id: String::new() },
        client_event_info: ClientEventInfo { is_fsv_changed: false, is_platform_voucher_changed: false },
        add_to_cart_info: AddToCartInfo {  },
        _cft: cft,
        checkout_session_id,
        dropshipping_info: DropshippingInfo {  },
        shipping_orders,
        order_update_info: OrderUpdateInfo {  },
    }
}

impl PlaceOrderBody {
    /// The order body that a checkout lookup body becomes: its parts carried
    /// over, a missing timestamp as 0, the answer's parts still empty, and
    /// the fixed order fields.
    pub fn from_get_body(get: GetBodyJson) -> (p: PlaceOrderBody)
        ensures
            p.client_id == get.client_id,
            p.cart_type == get.cart_type,
            p.timestamp == match get.timestamp {
                Some(t) => t,
                None => 0,
            },
            p.checkout_price_data is None,
            p.promotion_data == get.promotion_data,
            p.selected_payment_channel_data == get.selected_payment_channel_data,
            p.shoporders == get.shoporders,
            p.shipping_orders == get.shipping_orders,
            p.display_meta_data is None,
            p.fsv_selection_infos == get.fsv_selection_infos,
            p.buyer_info == get.buyer_info,
            p.client_event_info == get.client_event_info,
            p.captcha_id@ == Seq::<char>::empty(),
            p.buyer_txn_fee_info is None,
            p.disabled_checkout_info is None,
            p.can_checkout,
            p.buyer_service_fee_info is None,
            p.iof_info is None,
            p.ignored_errors@.len() == 0,
            !p.ignore_warnings,
            p.captcha_version == 1,
            p.captcha_signature@ == Seq::<char>::empty(),
            p.extra_data.snack_click_id is None,
            p.checkout_session_id == get.checkout_session_id,
            p.device_info == get.device_info,
            p.device_type@ == "mobile"@,
            p._cft == get._cft,
    {
        PlaceOrderBody {
            client_id: get.client_id,
            cart_type: get.cart_type,
            timestamp: match get.timestamp {
                Some(t) => t,
                None => 0,
            },
            checkout_price_data: None,
            order_update_info: get.order_update_info,
            dropshipping_info: get.dropshipping_info,
            promotion_data: get.promotion_data,
            selected_payment_channel_data: get.selected_payment_channel_data,
            shoporders: get.shoporders,
            shipping_orders: get.shipping_orders,
            display_meta_data: None,
            fsv_selection_infos: get.fsv_selection_infos,
            buyer_info: get.buyer_info,
            client_event_info: get.client_event_info,
            captcha_id: String::new(),
            buyer_txn_fee_info: None,
            disabled_checkout_info: None,
            can_checkout: true,
            buyer_service_fee_info: None,
            iof_info: None,
            add_to_cart_info: get.add_to_cart_info,
            ignored_errors: Vec::new(),
            ignore_warnings: false,
            captcha_version: 1,
            captcha_signature: String::new(),
            extra_data: ExtraData { snack_click_id: None },
            checkout_session_id: get.checkout_session_id,
            device_info: get.device_info,
            device_type: owned("mobile"),
            _cft: get._cft,
        }
    }

    /// Sets the part of the order named `key` to `value`; a key that names
    /// no such part changes nothing.
    pub fn insert(&mut self, key: &str, value: Option<serde_json::Value>)
        ensures
            key@ == "checkout_price_data"@ ==> *final(self) == (PlaceOrderBody { checkout_price_data: value, ..*old(self) }),
            key@ == "selected_payment_channel_data"@ ==> *final(self) == (PlaceOrderBody { selected_payment_channel_data: value, ..*old(self) }),
            key@ == "display_meta_data"@ ==> *final(self) == (PlaceOrderBody { display_meta_data: value, ..*old(self) }),
            key@ == "buyer_txn_fee_info"@ ==> *final(self) == (PlaceOrderBody { buyer_txn_fee_info: value, ..*old(self) }),
            key@ == "disabled_checkout_info"@ ==> *final(self) == (PlaceOrderBody { disabled_checkout_info: value, ..*old(self) }),
            key@ == "buyer_service_fee_info"@ ==> *final(self) == (PlaceOrderBody { buyer_service_fee_info: value, ..*old(self) }),
            key@ == "iof_info"@ ==> *final(self) == (PlaceOrderBody { iof_info: value, ..*old(self) }),
            !is_order_part_key(key@) ==> *final(self) == *old(self),
    {
        proof {
            reveal_strlit("checkout_price_data");
            reveal_strlit("selected_payment_channel_data");
            reveal_strlit("display_meta_data");
            reveal_strlit("buyer_txn_fee_info");
            reveal_strlit("disabled_checkout_info");
            reveal_strlit("buyer_service_fee_info");
            reveal_strlit("iof_info");
            assert("checkout_price_data"@.len() == 19);
            assert("selected_payment_channel_data"@.len() == 29);
            assert("display_meta_data"@.len() == 17);
            assert("buyer_txn_fee_info"@.len() == 18);
            assert("disabled_checkout_info"@.len() == 22);
            assert("buyer_service_fee_info"@.len() == 22);
            assert("iof_info"@.len() == 8);
            assert("disabled_checkout_info"@[0] != "buyer_service_fee_info"@[0]);
        }
        let k = chars_of(key);
        if chars_eq(&k, &chars_of("checkout_price_data")) {
            self.checkout_price_data = value;
        } else if chars_eq(&k, &chars_of("selected_payment_channel_data")) {
            self.selected_payment_channel_data = value;
        } else if chars_eq(&k, &chars_of("display_meta_data")) {
            self.display_meta_data = value;
        } else if chars_eq(&k, &chars_of("buyer_txn_fee_info")) {
            self.buyer_txn_fee_info = value;
        } else if chars_eq(&k, &chars_of("disabled_checkout_info")) {
            self.disabled_checkout_info = value;
        } else if chars_eq(&k, &chars_of("buyer_service_fee_info")) {
            self.buyer_service_fee_info = value;
        } else if chars_eq(&k, &chars_of("iof_info")) {
            self.iof_info = value;
        }
    }
}

/// The names of the order parts that `PlaceOrderBody::insert` sets.
pub open spec fn is_order_part_key(key: Seq<char>) -> bool {
    ||| key == "checkout_price_data"@
    ||| key == "selected_payment_channel_data"@
    ||| key == "display_meta_data"@
    ||| key == "buyer_txn_fee_info"@
    ||| key == "disabled_checkout_info"@
    ||| key == "buyer_service_fee_info"@
    ||| key == "iof_info"@
}

/// The parts of a checkout answer that an order carries over (`None` where
/// the answer lacks the part).
pub struct CheckoutAnswer {
    pub shoporders: Option<Vec<ShopOrder>>,
    pub shipping_orders: Option<Vec<ShippingOrder>>,
    pub checkout_price_data: Option<serde_json::Value>,
    pub display_meta_data: Option<serde_json::Value>,
    pub buyer_txn_fee_info: Option<serde_json::Value>,
    pub disabled_checkout_info: Option<serde_json::Value>,
    pub buyer_service_fee_info: Option<serde_json::Value>,
    pub iof_info: Option<serde_json::Value>,
}

/// Fills an order from a checkout answer: the answer's shop orders and
/// shipping orders where it has them, its price data and the other answer
/// parts (left empty where the answer lacks them), and the payment
/// channel's order data.
pub fn apply_checkout_answer(
    order: &mut PlaceOrderBody,
    answer: CheckoutAnswer,
    place_order_channel: Option<serde_json::Value>,
)
    ensures
        final(order).shoporders == match answer.shoporders {
            Some(s) => s,
            None => old(order).shoporders,
        },
        final(order).shipping_orders == match answer.shipping_orders {
            Some(s) => s,
            None => old(order).shipping_orders,
        },
        *final(order) == (PlaceOrderBody {
            shoporders: final(order).shoporders,
            shipping_orders: final(order).shipping_orders,
            checkout_price_data: answer.checkout_price_data,
            display_meta_data: answer.display_meta_data,
            buyer_txn_fee_info: answer.buyer_txn_fee_info,
            disabled_checkout_info: answer.disabled_checkout_info,
            buyer_service_fee_info: answer.buyer_service_fee_info,
            iof_info: answer.iof_info,
            selected_payment_channel_data: place_order_channel,
            ..*old(order)
        }),
{
    if let Some(s) = answer.shoporders {
        order.shoporders = s;
    }
    if let Some(s) = answer.shipping_orders {
        order.shipping_orders = s;
    }
    order.checkout_price_data = answer.checkout_price_data;
    order.display_meta_data = answer.display_meta_data;
    order.buyer_txn_fee_info = answer.buyer_txn_fee_info;
    order.disabled_checkout_info = answer.disabled_checkout_info;
    order.buyer_service_fee_info = answer.buyer_service_fee_info;
    order.iof_info = answer.iof_info;
    order.selected_payment_channel_data = place_order_channel;
}

/// Takes the promotion part of `source` into `target`.
pub fn replace_promotion_data(target: &mut PlaceOrderBody, source: PromotionData)
    ensures
        *final(target) == (PlaceOrderBody { promotion_data: source, ..*old(target) }),
{
    target.promotion_data = source;
}


// ---------------------------------------------------------------------------
// Asking for recommended platform vouchers for several products
// ---------------------------------------------------------------------------

/// (item, model, quantity) of each item of a shop order.
pub open spec fn order_items(order: ShopOrder) -> Seq<(i64, i64, i32)> {
    order.items@.map_values(|it: Item| (it.itemid, it.modelid, it.quantity))
}

/// `key` repeated `c` times.
pub open spec fn repeat_key(key: (int, int), c: nat) -> Seq<(int, int)> {
    Seq::new(c, |t: int| key)
}

/// How many shipping orders have shipping id `sid`.
pub open spec fn so_count(sos: Seq<ShippingOrder>, sid: i32) -> nat
    decreases sos.len(),
{
    if sos.len() == 0 {
        0
    } else {
        so_count(sos.drop_last(), sid) + if sos.last().shipping_id == sid {
            1nat
        } else {
            0nat
        }
    }
}

/// One `key` for each item of `items` that is product `p`, repeated `c`
/// times.
pub open spec fn item_keys(items: Seq<Item>, p: ModelInfo, key: (int, int), c: nat) -> Seq<(int, int)>
    decreases items.len(),
{
    if items.len() == 0 {
        Seq::empty()
    } else {
        item_keys(items.drop_last(), p, key, c) + if items.last().itemid == p.item_id
            && items.last().modelid == p.modelid {
            repeat_key(key, c)
        } else {
            Seq::empty()
        }
    }
}

/// The keys (product `i`, shop order) that the first `k` shop orders give
/// for product `p`.
pub open spec fn order_keys(
    shoporders: Seq<ShopOrder>,
    p: ModelInfo,
    i: int,
    sos: Seq<ShippingOrder>,
    k: int,
) -> Seq<(int, int)>
    decreases k,
{
    if k <= 0 {
        Seq::empty()
    } else {
        order_keys(shoporders, p, i, sos, k - 1) + if shoporders[k - 1].shop.shopid == p.shop_id {
            item_keys(
                shoporders[k - 1].items@,
                p,
                (i, k - 1),
                so_count(sos, shoporders[k - 1].shipping_id),
            )
        } else {
            Seq::empty()
        }
    }
}

/// For each recommendation order, the product whose courier it uses and
/// the shop order it describes, in the order they are listed: for each
/// product, each shop order of its shop, each item of that order that is
/// the product, and each shipping order of that shop order's shipping id.
pub open spec fn recommend_keys(
    products: Seq<ModelInfo>,
    shoporders: Seq<ShopOrder>,
    sos: Seq<ShippingOrder>,
    n: int,
) -> Seq<(int, int)>
    decreases n,
{
    if n <= 0 {
        Seq::empty()
    } else {
        recommend_keys(products, shoporders, sos, n - 1) + order_keys(
            shoporders,
            products[n - 1],
            n - 1,
            sos,
            shoporders.len() as int,
        )
    }
}

/// `out` holds, for each key, the recommendation order of the key's shop
/// order shipped by the key's product's courier.
pub open spec fn orders_for_keys(
    out: Seq<Orders>,
    keys: Seq<(int, int)>,
    shoporders: Seq<ShopOrder>,
    shipping: Seq<ShippingInfo>,
    address: AddressInfo,
) -> bool {
    &&& out.len() == keys.len()
    &&& forall|t: int|
        0 <= t < keys.len() ==> is_recommend_order(
            #[trigger] out[t],
            shoporders[keys[t].1].shop.shopid,
            order_items(shoporders[keys[t].1]),
            shipping[keys[t].0],
            address,
        )
}

fn item_triples(items: &Vec<Item>) -> (out: Vec<(i64, i64, i32)>)
    ensures
        out@ == items@.map_values(|it: Item| (it.itemid, it.modelid, it.quantity)),
{
    let n = items.len();
    let mut out: Vec<(i64, i64, i32)> = Vec::new();
    let mut j: usize = 0;
    while j < n
        invariant
            n == items@.len(),
            j <= n,
            out@ == items@.take(j as int).map_values(|it: Item| (it.itemid, it.modelid, it.quantity)),
        decreases n - j,
    {
        out.push((items[j].itemid, items[j].modelid, items[j].quantity));
        assert(items@.take(j + 1).map_values(|it: Item| (it.itemid, it.modelid, it.quantity))
            =~= items@.take(j as int).map_values(|it: Item| (it.itemid, it.modelid, it.quantity)).push(
            (items@[j as int].itemid, items@[j as int].modelid, items@[j as int].quantity),
        ));
        j = j + 1;
    }
    assert(items@.take(n as int) =~= items@);
    out
}

/// The recommendation orders of a multi-product checkout (see
/// `recommend_keys`): `shipping[i]` is the courier chosen for
/// `products[i]`.
pub fn recommend_orders_multi(
    products: &[ModelInfo],
    shipping: &[ShippingInfo],
    buyer_address: &AddressInfo,
    shoporders: &[ShopOrder],
    shipping_orders: &[ShippingOrder],
) -> (out: Vec<Orders>)
    requires
        forall|i: int, s: int|
            0 <= i < products@.len() && 0 <= s < shipping_orders@.len() && ships_with(
                shoporders@,
                products@[i],
                shipping_orders@[s].shipping_id,
            ) ==> i < shipping@.len(),
    ensures
        orders_for_keys(
            out@,
            recommend_keys(products@, shoporders@, shipping_orders@, products@.len() as int),
            shoporders@,
            shipping@,
            *buyer_address,
        ),
{
    let n = products.len();
    let kn = shoporders.len();
    let sn = shipping_orders.len();
    let mut out: Vec<Orders> = Vec::new();
    let ghost mut keys: Seq<(int, int)> = Seq::empty();
    let mut i: usize = 0;
    while i < n
        invariant
            n == products@.len(),
            kn == shoporders@.len(),
            sn == shipping_orders@.len(),
            i <= n,
            forall|i2: int, s: int|
                0 <= i2 < products@.len() && 0 <= s < shipping_orders@.len() && ships_with(
                    shoporders@,
                    products@[i2],
                    shipping_orders@[s].shipping_id,
                ) ==> i2 < shipping@.len(),
            keys == recommend_keys(products@, shoporders@, shipping_orders@, i as int),
            orders_for_keys(out@, keys, shoporders@, shipping@, *buyer_address),
        decreases n - i,
    {
        let p = &products[i];
        let ghost base_i = keys;
        let mut k: usize = 0;
        while k < kn
            invariant
                n == products@.len(),
                kn == shoporders@.len(),
                sn == shipping_orders@.len(),
                i < n,
                *p == products@[i as int],
                k <= kn,
                forall|i2: int, s: int|
                    0 <= i2 < products@.len() && 0 <= s < shipping_orders@.len() && ships_with(
                        shoporders@,
                        products@[i2],
                        shipping_orders@[s].shipping_id,
                    ) ==> i2 < shipping@.len(),
                keys == base_i + order_keys(shoporders@, *p, i as int, shipping_orders@, k as int),
                orders_for_keys(out@, keys, shoporders@, shipping@, *buyer_address),
            decreases kn - k,
        {
            let order = &shoporders[k];
            let ghost base_k = keys;
            if order.shop.shopid == p.shop_id {
                let sid = order.shipping_id;
                let ghost c = so_count(shipping_orders@, sid);
                let jn = order.items.len();
                let mut j: usize = 0;
                while j < jn
                    invariant
                        n == products@.len(),
                        kn == shoporders@.len(),
                        sn == shipping_orders@.len(),
                        i < n,
                        k < kn,
                        *p == products@[i as int],
                        *order == shoporders@[k as int],
                        order.shop.shopid == p.shop_id,
                        sid == order.shipping_id,
                        c == so_count(shipping_orders@, sid),
                        jn == order.items@.len(),
                        j <= jn,
                        forall|i2: int, s: int|
                            0 <= i2 < products@.len() && 0 <= s < shipping_orders@.len() && ships_with(
                                shoporders@,
                                products@[i2],
                                shipping_orders@[s].shipping_id,
                            ) ==> i2 < shipping@.len(),
                        keys == base_k + item_keys(order.items@.take(j as int), *p, (i as int, k as int), c),
                        orders_for_keys(out@, keys, shoporders@, shipping@, *buyer_address),
                    decreases jn - j,
                {
                    let ghost base_j = keys;
                    let item = &order.items[j];
                    if item.itemid == p.item_id && item.modelid == p.modelid {
                        let triples = item_triples(&order.items);
                        let mut s: usize = 0;
                        while s < sn
                            invariant
                                n == products@.len(),
                                kn == shoporders@.len(),
                                sn == shipping_orders@.len(),
                                i < n,
                                k < kn,
                                j < jn,
                                *p == products@[i as int],
                                *order == shoporders@[k as int],
                                order.shop.shopid == p.shop_id,
                                sid == order.shipping_id,
                                jn == order.items@.len(),
                                *item == order.items@[j as int],
                                item.itemid == p.item_id && item.modelid == p.modelid,
                                triples@ == order_items(*order),
                                s <= sn,
                                forall|i2: int, s2: int|
                                    0 <= i2 < products@.len() && 0 <= s2 < shipping_orders@.len()
                                        && ships_with(
                                        shoporders@,
                                        products@[i2],
                                        shipping_orders@[s2].shipping_id,
                                    ) ==> i2 < shipping@.len(),
                                keys == base_j + repeat_key(
                                    (i as int, k as int),
                                    so_count(shipping_orders@.take(s as int), sid),
                                ),
                                orders_for_keys(out@, keys, shoporders@, shipping@, *buyer_address),
                            decreases sn - s,
                        {
                            assert(shipping_orders@.take(s + 1).drop_last() =~= shipping_orders@.take(s as int));
                            if shipping_orders[s].shipping_id == sid {
                                assert(shoporders@[k as int].items@[j as int] == *item);
                                assert(ships_with(shoporders@, products@[i as int], shipping_orders@[s as int].shipping_id));
                                let o = recommend_order(order.shop.shopid, triples.as_slice(), &shipping[i], buyer_address);
                                out.push(o);
                                proof {
                                    keys = keys.push((i as int, k as int));
                                    assert(repeat_key((i as int, k as int), so_count(shipping_orders@.take(s + 1), sid))
                                        =~= repeat_key((i as int, k as int), so_count(shipping_orders@.take(s as int), sid)).push((i as int, k as int)));
                                }
                            }
                            s = s + 1;
                        }
                        assert(shipping_orders@.take(sn as int) =~= shipping_orders@);
                    }
                    proof {
                        assert(order.items@.take(j + 1).drop_last() =~= order.items@.take(j as int));
                    }
                    j = j + 1;
                }
                assert(order.items@.take(jn as int) =~= order.items@);
            }
            k = k + 1;
        }
        i = i + 1;
    }
    out
}

/// Marking the insurance offers not selected a second time changes nothing
/// more: an order deselected twice is the order deselected once.
pub proof fn law_deselect_twice_is_once(a: ShopOrder, b: ShopOrder, c: ShopOrder)
    requires
        order_deselected(b, a),
        order_deselected(c, b),
    ensures
        order_deselected(c, a),
{
    assert forall|j: int| 0 <= j < a.items@.len() implies item_deselected(#[trigger] c.items@[j], a.items@[j]) by {
        let (x, y, z) = (a.items@[j], b.items@[j], c.items@[j]);
        assert(item_deselected(y, x));
        assert(item_deselected(z, y));
        assert forall|k: int| 0 <= k < x.insurances@.len() implies #[trigger] z.insurances@[k] == deselected(x.insurances@[k]) by {
            assert(y.insurances@[k] == deselected(x.insurances@[k]));
            assert(z.insurances@[k] == deselected(y.insurances@[k]));
        }
    }
}

/// Adjusting the couriers a second time changes nothing more: the courier a
/// shipping order ends with after one adjustment is the one a second
/// adjustment gives it.
pub proof fn law_adjust_shipping_twice_is_once(
    order: ShippingOrder,
    shoporders: Seq<ShopOrder>,
    products: Seq<ModelInfo>,
    shipping: Seq<ShippingInfo>,
)
    ensures
        adjusted_channel(
            ShippingOrder {
                selected_logistic_channelid: adjusted_channel(order, shoporders, products, shipping),
                ..order
            },
            shoporders,
            products,
            shipping,
        ) == adjusted_channel(order, shoporders, products, shipping),
{
}

/// The shops listed by `distinct_shops` are distinct.
pub proof fn lemma_distinct_shops_unique(products: Seq<ModelInfo>)
    ensures
        distinct_shops(products).no_duplicates(),
    decreases products.len(),
{
    if products.len() > 0 {
        lemma_distinct_shops_unique(products.drop_last());
    }
}

/// A shop that no product belongs to has no products.
proof fn lemma_products_of_new_shop(products: Seq<ModelInfo>, shop: i64)
    requires
        !distinct_shops(products).contains(shop),
    ensures
        products_of_shop(products, shop).len() == 0,
    decreases products.len(),
{
    if products.len() > 0 {
        let before = distinct_shops(products.drop_last());
        if before.contains(shop) {
            let m = choose|m: int| 0 <= m < before.len() && before[m] == shop;
            assert(distinct_shops(products)[m] == shop);
        }
        if products.last().shop_id == shop {
            if !before.contains(shop) {
                assert(distinct_shops(products)[before.len() as int] == shop);
            }
        }
        lemma_products_of_new_shop(products.drop_last(), shop);
    }
}

/// There are no more shops than products.
proof fn lemma_distinct_shops_len(products: Seq<ModelInfo>)
    ensures
        distinct_shops(products).len() <= products.len(),
    decreases products.len(),
{
    if products.len() > 0 {
        lemma_distinct_shops_len(products.drop_last());
    }
}

} // verus!
