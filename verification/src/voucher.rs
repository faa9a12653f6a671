//! Vouchers: what the voucher endpoints answer and how the programs pick
//! and claim vouchers from those answers.
use vstd::prelude::*;
use crate::prepare::{AddressInfo, ModelInfo, PaymentInfo, ProductInfo, ShippingInfo, same_address};
use crate::text::{i64_decimal, owned, parse_i64, parse_i64_chars, signed_decimal, string_of, trim, trimmed};

verus! {

pub struct Vouchers {
    pub promotionid: i64,
    pub voucher_code: String,
    pub signature: String,
    pub shop_id: Option<i64>,
}

pub struct VoucherDetail {
    pub min_spend: i64,
    pub start_time: i32,
    pub end_time: i32,
    pub reward_percentage: i32,
    pub reward_value: i64,
    pub reward_cap: i64,
}

pub struct RecomendPlatformResponse {
    pub data: Option<DataOnRecomendPlatform>,
}

pub struct DataOnRecomendPlatform {
    pub freeshipping_vouchers: Option<Vec<VoucherOnRecomendPlatform>>,
    pub vouchers: Option<Vec<VoucherOnRecomendPlatform>>,
}

pub struct VoucherOnRecomendPlatform {
    pub promotionid: i64,
    pub voucher_code: String,
    pub signature: String,
    pub fsv_error_message: Option<String>,
    pub fsv_voucher_card_ui_info: Option<FsvVoucherCardUiInfo>,
}

pub struct FsvVoucherCardUiInfo {
    pub int_min_spend_fsv_ui_only: i64,
}

/// One collection lookup of the microsite voucher list.
pub struct VoucherCollectionRequest {
    pub collection_id: String,
    pub component_type: i64,
    pub component_id: i64,
    pub limit: i64,
    pub microsite_id: i64,
    pub offset: i64,
    pub number_of_vouchers_per_row: i64,
}

pub struct JsonCollectionRequest {
    pub voucher_collection_request_list: Vec<VoucherCollectionRequest>,
}

pub struct Orders {
    pub shopid: i64,
    pub carrier_ids: Vec<i64>,
    pub shop_vouchers: Vec<ShopVoucher>,
    pub auto_apply: bool,
    pub iteminfos: Vec<ItemInfo>,
    pub carrier_infos: Vec<CarrierInfo>,
    pub selected_carrier_id: i64,
}

pub struct ShopVoucher;

pub struct ItemInfo {
    pub itemid: i64,
    pub modelid: i64,
    pub quantity: i32,
    pub item_group_id: Option<i64>,
    pub insurances: Vec<Insurance>,
    pub shopid: i64,
    pub shippable: bool,
    pub non_shippable_err: String,
    pub none_shippable_reason: String,
    pub none_shippable_full_reason: String,
    pub add_on_deal_id: i64,
    pub is_add_on_sub_item: bool,
    pub is_pre_order: bool,
    pub is_streaming_price: bool,
    pub checkout: bool,
    pub is_spl_zero_interest: bool,
    pub is_prescription: bool,
    pub offerid: i64,
    pub supports_free_returns: bool,
    pub user_path: i64,
    pub models: Option<Models>,
    pub tier_variations: Option<TierVariations>,
}

pub struct CarrierInfo {
    pub carrier_id: i64,
    pub esf: i64,
    pub shippable_item_ids: Vec<i64>,
    pub buyer_address: AddressInfo,
}

pub struct Insurance;

pub struct Models;

pub struct TierVariations;

pub struct SelectedPaymentChannelDataOnRecommendPlatform {
    pub version: i64,
    pub option_info: String,
    pub channel_id: i64,
    pub channel_item_option_info: ChannelItemOptionInfoOnRecommendPlatform,
    pub text_info: TextInfo,
}

pub struct ChannelItemOptionInfoOnRecommendPlatform {
    pub option_info: String,
}

pub struct TextInfo {}

pub struct RecommendPlatform {
    pub orders: String,
    pub voucher_market_type: i64,
    pub check_voucher_payment_criteria: bool,
    pub selected_payment_channel_data: SelectedPaymentChannelDataOnRecommendPlatform,
    pub spm_channel_id: i64,
    pub need_wallet_active_info: bool,
    pub sorting_flag: i64,
    pub priority_promotion_ids: Vec<i64>,
    pub has_redeem_coins: bool,
    pub payment_manual_change: bool,
}

pub struct FoodVoucherRequest {
    pub cmd: String,
    pub req_data: String,
}

/// A voucher entry of a microsite collection, with the identifier fields it
/// carries.
pub struct CollectionVoucher {
    pub promotion_id: Option<i64>,
    pub voucher_code: Option<String>,
    pub signature: Option<String>,
    pub icon_text: Option<String>,
}

/// One data entry of a microsite collection answer: `None` where the entry
/// has no voucher list; otherwise the vouchers that carry an identifier.
pub struct CollectionEntry {
    pub vouchers: Option<Vec<CollectionVoucher>>,
}

/// A voucher found in a collection, as the voucher-collection tool lists it.
pub struct VoucherInfo {
    pub promotion_id: i64,
    pub voucher_code: String,
    pub signature: String,
    pub extra_data: String,
    pub bug: bool,
    pub status: u16,
}

// ---------------------------------------------------------------------------
// Choosing vouchers from a recommendation
// ---------------------------------------------------------------------------

/// A free-shipping voucher can be used: it carries no error, and its minimum
/// spend, where it states one and a price limit is set, is within the limit.
pub open spec fn fsv_usable(v: VoucherOnRecomendPlatform, max: Option<i64>) -> bool {
    v.fsv_error_message is None && match v.fsv_voucher_card_ui_info {
        Some(info) => match max {
            Some(m) => info.int_min_spend_fsv_ui_only <= m,
            None => true,
        },
        None => true,
    }
}

/// A platform voucher can be used when it carries no error.
pub open spec fn voucher_usable(v: VoucherOnRecomendPlatform) -> bool {
    v.fsv_error_message is None
}

/// The voucher a recommendation entry stands for.
pub open spec fn voucher_of(v: VoucherOnRecomendPlatform) -> Vouchers {
    Vouchers {
        promotionid: v.promotionid,
        voucher_code: v.voucher_code,
        signature: v.signature,
        shop_id: None,
    }
}

/// Index of the first usable free-shipping voucher at or after `i`.
pub open spec fn first_fsv(s: Seq<VoucherOnRecomendPlatform>, max: Option<i64>, i: int) -> Option<int>
    decreases s.len() - i,
{
    if i < 0 || i >= s.len() {
        None
    } else if fsv_usable(s[i], max) {
        Some(i)
    } else {
        first_fsv(s, max, i + 1)
    }
}

/// Index of the first usable platform voucher at or after `i`.
pub open spec fn first_voucher(s: Seq<VoucherOnRecomendPlatform>, i: int) -> Option<int>
    decreases s.len() - i,
{
    if i < 0 || i >= s.len() {
        None
    } else if voucher_usable(s[i]) {
        Some(i)
    } else {
        first_voucher(s, i + 1)
    }
}

fn fsv_usable_exec(v: &VoucherOnRecomendPlatform, max: Option<i64>) -> (r: bool)
    ensures
        r == fsv_usable(*v, max),
{
    v.fsv_error_message.is_none() && match &v.fsv_voucher_card_ui_info {
        Some(info) => match max {
            Some(m) => info.int_min_spend_fsv_ui_only <= m,
            None => true,
        },
        None => true,
    }
}

fn voucher_from_entry(v: &VoucherOnRecomendPlatform) -> (out: Vouchers)
    ensures
        out.promotionid == v.promotionid,
        out.voucher_code@ == v.voucher_code@,
        out.signature@ == v.signature@,
        out.shop_id is None,
{
    Vouchers {
        promotionid: v.promotionid,
        voucher_code: v.voucher_code.clone(),
        signature: v.signature.clone(),
        shop_id: None,
    }
}

/// Equal as vouchers (texts compared by their characters).
pub open spec fn same_voucher(a: Vouchers, b: Vouchers) -> bool {
    a.promotionid == b.promotionid && a.voucher_code@ == b.voucher_code@ && a.signature@
        == b.signature@ && a.shop_id == b.shop_id
}

/// What a recommendation offers: the first usable free-shipping voucher and
/// the first usable platform voucher. Nothing is taken from an answer whose
/// status is not 200.
pub open spec fn recommended(resp: RecomendPlatformResponse, status_ok: bool, max: Option<i64>) -> (
    Option<VoucherOnRecomendPlatform>,
    Option<VoucherOnRecomendPlatform>,
) {
    if !status_ok {
        (None, None)
    } else {
        match resp.data {
            None => (None, None),
            Some(d) => (
                match d.freeshipping_vouchers {
                    None => None,
                    Some(list) => match first_fsv(list@, max, 0) {
                        Some(i) => Some(list@[i]),
                        None => None,
                    },
                },
                match d.vouchers {
                    None => None,
                    Some(list) => match first_voucher(list@, 0) {
                        Some(i) => Some(list@[i]),
                        None => None,
                    },
                },
            ),
        }
    }
}

pub open spec fn matches_choice(r: Option<Vouchers>, c: Option<VoucherOnRecomendPlatform>) -> bool {
    match c {
        None => r is None,
        Some(v) => r matches Some(x) && same_voucher(x, voucher_of(v)),
    }
}

/// The free-shipping voucher and the platform voucher that a recommendation
/// answer offers (see `recommended`).
pub fn choose_recommended_vouchers(
    resp: &RecomendPlatformResponse,
    status_ok: bool,
    adjusted_max_price: Option<i64>,
) -> (r: (Option<Vouchers>, Option<Vouchers>))
    ensures
        matches_choice(r.0, recommended(*resp, status_ok, adjusted_max_price).0),
        matches_choice(r.1, recommended(*resp, status_ok, adjusted_max_price).1),
{
    if !status_ok {
        return (None, None);
    }
    match &resp.data {
        None => (None, None),
        Some(d) => {
            let freeshipping_voucher = match &d.freeshipping_vouchers {
                None => None,
                Some(list) => match find_fsv(list, adjusted_max_price) {
                    Some(i) => {
                        let v = voucher_from_entry(&list[i]);
                        assert(same_voucher(v, voucher_of(list@[i as int])));
                        Some(v)
                    },
                    None => None,
                },
            };
            let vouchers = match &d.vouchers {
                None => None,
                Some(list) => match find_voucher(list) {
                    Some(i) => {
                        let v = voucher_from_entry(&list[i]);
                        assert(same_voucher(v, voucher_of(list@[i as int])));
                        Some(v)
                    },
                    None => None,
                },
            };
            (freeshipping_voucher, vouchers)
        },
    }
}

fn find_fsv(list: &Vec<VoucherOnRecomendPlatform>, max: Option<i64>) -> (r: Option<usize>)
    ensures
        match first_fsv(list@, max, 0) {
            Some(i) => r == Some(i as usize) && 0 <= i < list.len(),
            None => r is None,
        },
        r matches Some(j) ==> j < list.len(),
{
    let n = list.len();
    let mut i: usize = 0;
    while i < n
        invariant
            n == list.len(),
            i <= n,
            first_fsv(list@, max, 0) == first_fsv(list@, max, i as int),
        decreases n - i,
    {
        if fsv_usable_exec(&list[i], max) {
            return Some(i);
        }
        i = i + 1;
    }
    None
}

fn find_voucher(list: &Vec<VoucherOnRecomendPlatform>) -> (r: Option<usize>)
    ensures
        match first_voucher(list@, 0) {
            Some(i) => r == Some(i as usize) && 0 <= i < list.len(),
            None => r is None,
        },
        r matches Some(j) ==> j < list.len(),
{
    let n = list.len();
    let mut i: usize = 0;
    while i < n
        invariant
            n == list.len(),
            i <= n,
            first_voucher(list@, 0) == first_voucher(list@, i as int),
        decreases n - i,
    {
        if list[i].fsv_error_message.is_none() {
            return Some(i);
        }
        i = i + 1;
    }
    None
}


proof fn lemma_first_fsv(s: Seq<VoucherOnRecomendPlatform>, max: Option<i64>, i: int)
    requires
        0 <= i,
    ensures
        first_fsv(s, max, i) matches Some(k) ==> i <= k < s.len() && fsv_usable(s[k], max),
        first_fsv(s, max, i) is None ==> forall|k: int| i <= k < s.len() ==> !fsv_usable(#[trigger] s[k], max),
    decreases s.len() - i,
{
    if i < s.len() {
        lemma_first_fsv(s, max, i + 1);
    }
}

proof fn lemma_first_voucher(s: Seq<VoucherOnRecomendPlatform>, i: int)
    requires
        0 <= i,
    ensures
        first_voucher(s, i) matches Some(k) ==> i <= k < s.len() && voucher_usable(s[k]),
        first_voucher(s, i) is None ==> forall|k: int| i <= k < s.len() ==> !voucher_usable(#[trigger] s[k]),
    decreases s.len() - i,
{
    if i < s.len() {
        lemma_first_voucher(s, i + 1);
    }
}

/// The vouchers taken from a recommendation can be used: the free-shipping
/// voucher carries no error and its minimum spend is within the price limit,
/// the platform voucher carries no error; and where none is taken, the
/// answer offers no usable one.
pub proof fn law_recommended_vouchers_usable(resp: RecomendPlatformResponse, max: Option<i64>)
    ensures
        recommended(resp, true, max).0 matches Some(v) ==> fsv_usable(v, max),
        recommended(resp, true, max).1 matches Some(v) ==> voucher_usable(v),
        match resp.data {
            Some(d) => match d.freeshipping_vouchers {
                Some(list) => recommended(resp, true, max).0 is None ==> forall|k: int|
                    0 <= k < list@.len() ==> !fsv_usable(#[trigger] list@[k], max),
                None => true,
            },
            None => true,
        },
        match resp.data {
            Some(d) => match d.vouchers {
                Some(list) => recommended(resp, true, max).1 is None ==> forall|k: int|
                    0 <= k < list@.len() ==> !voucher_usable(#[trigger] list@[k]),
                None => true,
            },
            None => true,
        },
{
    if let Some(d) = resp.data {
        if let Some(list) = d.freeshipping_vouchers {
            lemma_first_fsv(list@, max, 0);
        }
        if let Some(list) = d.vouchers {
            lemma_first_voucher(list@, 0);
        }
    }
}

proof fn lemma_first_voucher_is(s: Seq<VoucherOnRecomendPlatform>, i: int, k: int)
    requires
        0 <= i <= k < s.len(),
        voucher_usable(s[k]),
        forall|j: int| i <= j < k ==> !voucher_usable(#[trigger] s[j]),
    ensures
        first_voucher(s, i) == Some(k),
    decreases k - i,
{
    if i < k {
        lemma_first_voucher_is(s, i + 1, k);
    }
}

proof fn lemma_first_fsv_is(s: Seq<VoucherOnRecomendPlatform>, max: Option<i64>, i: int, k: int)
    requires
        0 <= i <= k < s.len(),
        fsv_usable(s[k], max),
        forall|j: int| i <= j < k ==> !fsv_usable(#[trigger] s[j], max),
    ensures
        first_fsv(s, max, i) == Some(k),
    decreases k - i,
{
    if i < k {
        lemma_first_fsv_is(s, max, i + 1, k);
    }
}

/// The platform voucher taken from a recommendation (status 200) is the
/// first one in the answer's list that carries no error: where entry `k`
/// is usable and every entry before it carries an error, entry `k` is
/// taken, whatever usable entries follow it.
pub proof fn law_recommended_platform_voucher_is_first_usable(
    resp: RecomendPlatformResponse,
    max: Option<i64>,
    k: int,
)
    requires
        resp.data is Some,
        resp.data->0.vouchers is Some,
        0 <= k < resp.data->0.vouchers->0@.len(),
        resp.data->0.vouchers->0@[k].fsv_error_message is None,
        forall|j: int|
            0 <= j < k ==> (#[trigger] resp.data->0.vouchers->0@[j]).fsv_error_message is Some,
    ensures
        recommended(resp, true, max).1 == Some(resp.data->0.vouchers->0@[k]),
{
    let list = resp.data->0.vouchers->0@;
    assert forall|j: int| 0 <= j < k implies !voucher_usable(#[trigger] list[j]) by {
        assert(list[j].fsv_error_message is Some);
    }
    lemma_first_voucher_is(list, 0, k);
}

/// The free-shipping voucher taken from a recommendation (status 200) is
/// the first one in the answer's list that carries no error and whose
/// minimum spend (where given) is within the price limit (where given).
pub proof fn law_recommended_free_shipping_is_first_usable(
    resp: RecomendPlatformResponse,
    max: Option<i64>,
    k: int,
)
    requires
        resp.data is Some,
        resp.data->0.freeshipping_vouchers is Some,
        0 <= k < resp.data->0.freeshipping_vouchers->0@.len(),
        resp.data->0.freeshipping_vouchers->0@[k].fsv_error_message is None,
        resp.data->0.freeshipping_vouchers->0@[k].fsv_voucher_card_ui_info matches Some(info)
            ==> (max matches Some(m) ==> info.int_min_spend_fsv_ui_only <= m),
        forall|j: int|
            0 <= j < k ==> {
                let e = #[trigger] resp.data->0.freeshipping_vouchers->0@[j];
                e.fsv_error_message is Some || (e.fsv_voucher_card_ui_info matches Some(info)
                    && max matches Some(m) && info.int_min_spend_fsv_ui_only > m)
            },
    ensures
        recommended(resp, true, max).0 == Some(resp.data->0.freeshipping_vouchers->0@[k]),
{
    let list = resp.data->0.freeshipping_vouchers->0@;
    assert forall|j: int| 0 <= j < k implies !fsv_usable(#[trigger] list[j], max) by {
        let e = list[j];
        assert(e.fsv_error_message is Some || (e.fsv_voucher_card_ui_info matches Some(info)
            && max matches Some(m) && info.int_min_spend_fsv_ui_only > m));
    }
    lemma_first_fsv_is(list, max, 0, k);
}

/// An answer whose status is not 200 gives no voucher, whatever it holds.
pub proof fn law_recommended_needs_status_ok(resp: RecomendPlatformResponse, max: Option<i64>)
    ensures
        recommended(resp, false, max).0 is None,
        recommended(resp, false, max).1 is None,
{
}

// ---------------------------------------------------------------------------
// Asking for recommended platform vouchers
// ---------------------------------------------------------------------------

/// The couriers every recommendation request lists.
pub open spec fn recommend_carrier_ids() -> Seq<i64> {
    seq![8005i64, 8003, 80099, 80055, 8006, 80021]
}

/// The shipping fee a recommendation request states for a courier: its
/// original cost, or 1 where that is 0.
pub open spec fn estimated_fee(s: ShippingInfo) -> i64 {
    if s.original_cost == 0 {
        1
    } else {
        s.original_cost
    }
}

/// `ii` describes the given product for a recommendation request.
pub open spec fn is_item_info(ii: ItemInfo, itemid: i64, modelid: i64, quantity: i32, shopid: i64) -> bool {
    &&& ii.itemid == itemid
    &&& ii.modelid == modelid
    &&& ii.quantity == quantity
    &&& ii.item_group_id is None
    &&& ii.insurances@.len() == 0
    &&& ii.shopid == shopid
    &&& ii.shippable
    &&& ii.non_shippable_err@ == Seq::<char>::empty()
    &&& ii.none_shippable_reason@ == Seq::<char>::empty()
    &&& ii.none_shippable_full_reason@ == Seq::<char>::empty()
    &&& ii.add_on_deal_id == 0
    &&& !ii.is_add_on_sub_item
    &&& !ii.is_pre_order
    &&& !ii.is_streaming_price
    &&& ii.checkout
    &&& !ii.is_spl_zero_interest
    &&& !ii.is_prescription
    &&& ii.offerid == 0
    &&& !ii.supports_free_returns
    &&& ii.user_path == 1
    &&& ii.models is None
    &&& ii.tier_variations is None
}

/// `o` is the recommendation order of a shop whose products `items`
/// (item, model, quantity) are shipped by courier `s` to `address`.
pub open spec fn is_recommend_order(
    o: Orders,
    shopid: i64,
    items: Seq<(i64, i64, i32)>,
    s: ShippingInfo,
    address: AddressInfo,
) -> bool {
    &&& o.shopid == shopid
    &&& o.carrier_ids@ == recommend_carrier_ids()
    &&& o.shop_vouchers@.len() == 0
    &&& o.auto_apply
    &&& o.iteminfos@.len() == items.len()
    &&& forall|j: int|
        0 <= j < items.len() ==> is_item_info(
            #[trigger] o.iteminfos@[j],
            items[j].0,
            items[j].1,
            items[j].2,
            shopid,
        )
    &&& o.carrier_infos@.len() == 1
    &&& o.carrier_infos@[0].carrier_id == s.channelidroot
    &&& o.carrier_infos@[0].esf == estimated_fee(s)
    &&& o.carrier_infos@[0].shippable_item_ids@ == items.map_values(|t: (i64, i64, i32)| t.0)
    &&& same_address(o.carrier_infos@[0].buyer_address, address)
    &&& o.selected_carrier_id == s.channelidroot
}

pub fn item_info(itemid: i64, modelid: i64, quantity: i32, shopid: i64) -> (ii: ItemInfo)
    ensures
        is_item_info(ii, itemid, modelid, quantity, shopid),
{
    ItemInfo {
        itemid,
        modelid,
        quantity,
        item_group_id: None,
        insurances: Vec::new(),
        shopid,
        shippable: true,
        non_shippable_err: String::new(),
        none_shippable_reason: String::new(),
        none_shippable_full_reason: String::new(),
        add_on_deal_id: 0,
        is_add_on_sub_item: false,
        is_pre_order: false,
        is_streaming_price: false,
        checkout: true,
        is_spl_zero_interest: false,
        is_prescription: false,
        offerid: 0,
        supports_free_returns: false,
        user_path: 1,
        models: None,
        tier_variations: None,
    }
}

/// The recommendation order of a shop: `items` are (item, model, quantity)
/// of its products, shipped by courier `s` to `address`.
pub fn recommend_order(
    shopid: i64,
    items: &[(i64, i64, i32)],
    s: &ShippingInfo,
    address: &AddressInfo,
) -> (o: Orders)
    ensures
        is_recommend_order(o, shopid, items@, *s, *address),
{
    let mut carrier_ids: Vec<i64> = Vec::new();
    carrier_ids.push(8005);
    carrier_ids.push(8003);
    carrier_ids.push(80099);
    carrier_ids.push(80055);
    carrier_ids.push(8006);
    carrier_ids.push(80021);
    assert(carrier_ids@ =~= recommend_carrier_ids());
    let n = items.len();
    let mut infos: Vec<ItemInfo> = Vec::new();
    let mut ids: Vec<i64> = Vec::new();
    let mut j: usize = 0;
    while j < n
        invariant
            n == items@.len(),
            j <= n,
            infos@.len() == j,
            ids@ == items@.take(j as int).map_values(|t: (i64, i64, i32)| t.0),
            forall|k: int|
                0 <= k < j ==> is_item_info(
                    #[trigger] infos@[k],
                    items@[k].0,
                    items@[k].1,
                    items@[k].2,
                    shopid,
                ),
        decreases n - j,
    {
        let (itemid, modelid, quantity) = items[j];
        infos.push(item_info(itemid, modelid, quantity, shopid));
        ids.push(itemid);
        assert(items@.take(j + 1).map_values(|t: (i64, i64, i32)| t.0) =~= items@.take(
            j as int,
        ).map_values(|t: (i64, i64, i32)| t.0).push(itemid));
        j = j + 1;
    }
    assert(items@.take(n as int) =~= items@);
    let esf = if s.original_cost == 0 {
        1
    } else {
        s.original_cost
    };
    let mut carriers: Vec<CarrierInfo> = Vec::new();
    carriers.push(
        CarrierInfo {
            carrier_id: s.channelidroot,
            esf,
            shippable_item_ids: ids,
            buyer_address: address.copy(),
        },
    );
    Orders {
        shopid,
        carrier_ids,
        shop_vouchers: Vec::new(),
        auto_apply: true,
        iteminfos: infos,
        carrier_infos: carriers,
        selected_carrier_id: s.channelidroot,
    }
}

/// The recommendation order of a single product: the chosen model and
/// quantity, shipped by the chosen courier.
pub fn recommend_orders_single(
    product_info: &ProductInfo,
    chosen_model: &ModelInfo,
    quantity: i32,
    chosen_shipping: &ShippingInfo,
    buyer_address: &AddressInfo,
) -> (orders: Vec<Orders>)
    ensures
        orders@.len() == 1,
        is_recommend_order(
            orders@[0],
            product_info.shop_id,
            seq![(product_info.item_id, chosen_model.modelid, quantity)],
            *chosen_shipping,
            *buyer_address,
        ),
{
    let mut items: Vec<(i64, i64, i32)> = Vec::new();
    items.push((product_info.item_id, chosen_model.modelid, quantity));
    assert(items@ =~= seq![(product_info.item_id, chosen_model.modelid, quantity)]);
    let mut orders: Vec<Orders> = Vec::new();
    orders.push(recommend_order(product_info.shop_id, items.as_slice(), chosen_shipping, buyer_address));
    orders
}

/// The body of a recommendation request: the orders (as the JSON text the
/// caller made of them) and the chosen payment channel.
pub fn recommend_platform_body(orders: String, chosen_payment: &PaymentInfo) -> (b: RecommendPlatform)
    ensures
        b.orders == orders,
        b.voucher_market_type == 1,
        b.check_voucher_payment_criteria,
        b.selected_payment_channel_data.version == chosen_payment.version,
        b.selected_payment_channel_data.option_info@ == Seq::<char>::empty(),
        b.selected_payment_channel_data.channel_id == chosen_payment.channel_id,
        b.selected_payment_channel_data.channel_item_option_info.option_info@
            == chosen_payment.option_info@,
        b.spm_channel_id == chosen_payment.channel_id,
        b.need_wallet_active_info,
        b.sorting_flag == 8,
        b.priority_promotion_ids@.len() == 0,
        !b.has_redeem_coins,
        b.payment_manual_change,
{
    RecommendPlatform {
        orders,
        voucher_market_type: 1,
        check_voucher_payment_criteria: true,
        selected_payment_channel_data: SelectedPaymentChannelDataOnRecommendPlatform {
            version: chosen_payment.version,
            option_info: String::new(),
            channel_id: chosen_payment.channel_id,
            channel_item_option_info: ChannelItemOptionInfoOnRecommendPlatform {
                option_info: chosen_payment.option_info.clone(),
            },
            text_info: TextInfo {  },
        },
        spm_channel_id: chosen_payment.channel_id,
        need_wallet_active_info: true,
        sorting_flag: 8,
        priority_promotion_ids: Vec::new(),
        has_redeem_coins: false,
        payment_manual_change: true,
    }
}

// ---------------------------------------------------------------------------
// Claiming a voucher
// ---------------------------------------------------------------------------

/// The voucher fields an answer to a claim carries.
pub struct ClaimedVoucher {
    pub promotionid: Option<i64>,
    pub voucher_code: Option<String>,
    pub signature: Option<String>,
}

/// What the claim loop does with one answer.
pub enum ClaimStep {
    /// Ask again.
    Retry,
    /// Stop with this result.
    Done(Option<Vouchers>),
}

/// The voucher built from a claimed answer: missing fields become 0 or empty
/// text; where `code` is given it is the voucher code, whatever the answer says.
pub open spec fn claimed_voucher(v: ClaimedVoucher, code: Option<Seq<char>>, shop_id: Option<i64>) -> (
    i64,
    Seq<char>,
    Seq<char>,
    Option<i64>,
) {
    (
        match v.promotionid {
            Some(p) => p,
            None => 0,
        },
        match code {
            Some(c) => c,
            None => match v.voucher_code {
                Some(c) => c@,
                None => Seq::empty(),
            },
        },
        match v.signature {
            Some(s) => s@,
            None => Seq::empty(),
        },
        shop_id,
    )
}

pub open spec fn voucher_tuple(v: Vouchers) -> (i64, Seq<char>, Seq<char>, Option<i64>) {
    (v.promotionid, v.voucher_code@, v.signature@, v.shop_id)
}

/// The decision the voucher-claiming loops take on an answer: with status
/// 200, an `error` other than 0 or 5 asks again, otherwise the loop stops
/// with the voucher the answer carries (none where it carries none); status
/// 418 asks again; any other status stops with no voucher.
pub fn claim_step(
    status: u16,
    error: Option<i64>,
    voucher: Option<ClaimedVoucher>,
    code: Option<&str>,
    shop_id: Option<i64>,
) -> (step: ClaimStep)
    ensures
        status == 200 && (error matches Some(e) && e != 0 && e != 5) ==> step is Retry,
        status == 200 && !(error matches Some(e) && e != 0 && e != 5) ==> match voucher {
            None => (step matches ClaimStep::Done(r) && r is None),
            Some(v) => (step matches ClaimStep::Done(r) && r matches Some(x) && voucher_tuple(x)
                == claimed_voucher(
                v,
                match code {
                    Some(c) => Some(c@),
                    None => None,
                },
                shop_id,
            )),
        },
        status == 418 ==> step is Retry,
        status != 200 && status != 418 ==> (step matches ClaimStep::Done(r) && r is None),
{
    if status == 200 {
        if let Some(e) = error {
            if e != 0 && e != 5 {
                return ClaimStep::Retry;
            }
        }
        match voucher {
            None => ClaimStep::Done(None),
            Some(v) => {
                let promotionid = match v.promotionid {
                    Some(p) => p,
                    None => 0,
                };
                let voucher_code = match code {
                    Some(c) => owned(c),
                    None => match v.voucher_code {
                        Some(c) => c,
                        None => String::new(),
                    },
                };
                let signature = match v.signature {
                    Some(s) => s,
                    None => String::new(),
                };
                ClaimStep::Done(Some(Vouchers { promotionid, voucher_code, signature, shop_id }))
            },
        }
    } else if status == 418 {
        ClaimStep::Retry
    } else {
        ClaimStep::Done(None)
    }
}

/// The details of a voucher as the detail endpoint reports them: missing
/// fields are 0; the times and the percentage keep the low 32 bits.
pub open spec fn detail_from(
    min_spend: Option<i64>,
    start_time: Option<i64>,
    end_time: Option<i64>,
    reward_percentage: Option<i64>,
    reward_value: Option<i64>,
    reward_cap: Option<i64>,
) -> VoucherDetail {
    VoucherDetail {
        min_spend: or_zero(min_spend),
        start_time: or_zero(start_time) as i32,
        end_time: or_zero(end_time) as i32,
        reward_percentage: or_zero(reward_percentage) as i32,
        reward_value: or_zero(reward_value),
        reward_cap: or_zero(reward_cap),
    }
}

pub open spec fn or_zero(v: Option<i64>) -> i64 {
    match v {
        Some(x) => x,
        None => 0,
    }
}

fn or_zero_exec(v: Option<i64>) -> (r: i64)
    ensures
        r == or_zero(v),
{
    match v {
        Some(x) => x,
        None => 0,
    }
}

pub fn voucher_detail(
    min_spend: Option<i64>,
    start_time: Option<i64>,
    end_time: Option<i64>,
    reward_percentage: Option<i64>,
    reward_value: Option<i64>,
    reward_cap: Option<i64>,
) -> (d: VoucherDetail)
    ensures
        d == detail_from(min_spend, start_time, end_time, reward_percentage, reward_value, reward_cap),
{
    #[verifier::truncate]
    let start = or_zero_exec(start_time) as i32;
    #[verifier::truncate]
    let end = or_zero_exec(end_time) as i32;
    #[verifier::truncate]
    let pct = or_zero_exec(reward_percentage) as i32;
    VoucherDetail {
        min_spend: or_zero_exec(min_spend),
        start_time: start,
        end_time: end,
        reward_percentage: pct,
        reward_value: or_zero_exec(reward_value),
        reward_cap: or_zero_exec(reward_cap),
    }
}

/// What the food-voucher claim loop does with an answer: with status 200, a
/// `msg` other than `success` asks again; a `claim_error` of 0 or 1 gives the
/// voucher, another one asks again, none stops with no voucher; any other
/// status stops with no voucher.
pub fn food_claim_step(
    status: u16,
    msg_is_success: Option<bool>,
    claim_error: Option<i64>,
    promotion_id: i64,
    code: &str,
) -> (step: ClaimStep)
    ensures
        status == 200 && msg_is_success == Some(false) ==> step is Retry,
        status == 200 && msg_is_success != Some(false) && (claim_error matches Some(e) && (e == 0
            || e == 1)) ==> (step matches ClaimStep::Done(r) && r matches Some(x) && voucher_tuple(x)
            == (promotion_id, code@, Seq::<char>::empty(), None::<i64>)),
        status == 200 && msg_is_success != Some(false) && (claim_error matches Some(e) && e != 0
            && e != 1) ==> step is Retry,
        status == 200 && msg_is_success != Some(false) && claim_error is None ==> (step matches ClaimStep::Done(r) && r is None),
        status != 200 ==> (step matches ClaimStep::Done(r) && r is None),
{
    if status == 200 {
        if msg_is_success == Some(false) {
            return ClaimStep::Retry;
        }
        match claim_error {
            Some(e) => if e == 0 || e == 1 {
                ClaimStep::Done(
                    Some(
                        Vouchers {
                            promotionid: promotion_id,
                            voucher_code: owned(code),
                            signature: String::new(),
                            shop_id: None,
                        },
                    ),
                )
            } else {
                ClaimStep::Retry
            },
            None => ClaimStep::Done(None),
        }
    } else {
        ClaimStep::Done(None)
    }
}

// ---------------------------------------------------------------------------
// Collections
// ---------------------------------------------------------------------------

/// What the first collection lookup finds: the identifier of the first
/// voucher of the first entry that lists vouchers; an entry without a list,
/// met before any voucher, sends the lookup to the second endpoint.
pub enum CollectionLookup {
    Found(i64, String),
    AskFallback,
    NotFound,
}

/// The identifier of a collection voucher: its promotion id (0 where
/// missing) and signature (empty where missing).
pub open spec fn identifier_of(v: CollectionVoucher) -> (i64, Seq<char>) {
    (
        match v.promotion_id {
            Some(p) => p,
            None => 0,
        },
        match v.signature {
            Some(s) => s@,
            None => Seq::empty(),
        },
    )
}

/// The outcome of scanning collection entries from `i` on.
pub open spec fn collection_scan(entries: Seq<CollectionEntry>, i: int, fallback: bool) -> Option<
    Option<(i64, Seq<char>)>,
>
    decreases entries.len() - i,
{
    if i < 0 || i >= entries.len() {
        Some(None)
    } else {
        match entries[i].vouchers {
            Some(list) => if list@.len() > 0 {
                Some(Some(identifier_of(list@[0])))
            } else {
                collection_scan(entries, i + 1, fallback)
            },
            None => if fallback {
                None
            } else {
                collection_scan(entries, i + 1, fallback)
            },
        }
    }
}

/// The first lookup by collection id (`None` of `collection_scan` means:
/// ask the second endpoint).
pub fn first_collection_voucher(entries: &[CollectionEntry], fallback: bool) -> (r: CollectionLookup)
    ensures
        match collection_scan(entries@, 0, fallback) {
            None => r is AskFallback,
            Some(None) => r is NotFound,
            Some(Some((p, s))) => r matches CollectionLookup::Found(p2, s2) && p2 == p && s2@ == s,
        },
{
    let mut i: usize = 0;
    while i < entries.len()
        invariant
            i <= entries.len(),
            collection_scan(entries@, 0, fallback) == collection_scan(entries@, i as int, fallback),
        decreases entries.len() - i,
    {
        match &entries[i].vouchers {
            Some(list) => {
                if list.len() > 0 {
                    let v = &list[0];
                    let p = match v.promotion_id {
                        Some(p) => p,
                        None => 0,
                    };
                    let s = match &v.signature {
                        Some(s) => s.clone(),
                        None => String::new(),
                    };
                    return CollectionLookup::Found(p, s);
                }
            },
            None => {
                if fallback {
                    return CollectionLookup::AskFallback;
                }
            },
        }
        i = i + 1;
    }
    CollectionLookup::NotFound
}

/// The vouchers a collection lists, as the collection tool reports them:
/// each voucher of each entry with its identifier (missing texts empty,
/// missing id 0) and icon text; an entry without a voucher list gives one
/// marked bug entry.
pub open spec fn collection_rows(entries: Seq<CollectionEntry>, status: u16) -> Seq<(i64, Seq<char>, Seq<char>, Seq<char>, bool, u16)>
    decreases entries.len(),
{
    if entries.len() == 0 {
        Seq::empty()
    } else {
        collection_rows(entries.drop_last(), status) + match entries.last().vouchers {
            Some(list) => list@.map_values(|v: CollectionVoucher| collection_row(v, status)),
            None => seq![(0i64, Seq::<char>::empty(), Seq::<char>::empty(), Seq::<char>::empty(), true, status)],
        }
    }
}

/// The row of one voucher of a collection.
pub open spec fn collection_row(v: CollectionVoucher, status: u16) -> (i64, Seq<char>, Seq<char>, Seq<char>, bool, u16) {
    (
        identifier_of(v).0,
        match v.voucher_code {
            Some(c) => c@,
            None => Seq::<char>::empty(),
        },
        identifier_of(v).1,
        match v.icon_text {
            Some(t) => t@,
            None => Seq::<char>::empty(),
        },
        false,
        status,
    )
}

pub open spec fn row_of(v: VoucherInfo) -> (i64, Seq<char>, Seq<char>, Seq<char>, bool, u16) {
    (v.promotion_id, v.voucher_code@, v.signature@, v.extra_data@, v.bug, v.status)
}

fn text_or_empty(t: &Option<String>) -> (s: String)
    ensures
        s@ == match t {
            Some(x) => x@,
            None => Seq::<char>::empty(),
        },
{
    match t {
        Some(x) => x.clone(),
        None => String::new(),
    }
}

/// The rows of a collection answer (see `collection_rows`).
pub fn vouchers_in_collection(entries: &[CollectionEntry], status: u16) -> (out: Vec<VoucherInfo>)
    ensures
        out@.map_values(|v: VoucherInfo| row_of(v)) == collection_rows(entries@, status),
{
    let mut out: Vec<VoucherInfo> = Vec::new();
    let mut i: usize = 0;
    while i < entries.len()
        invariant
            i <= entries.len(),
            out@.map_values(|v: VoucherInfo| row_of(v)) == collection_rows(
                entries@.take(i as int),
                status,
            ),
        decreases entries.len() - i,
    {
        let ghost before = out@;
        assert(entries@.take(i + 1).drop_last() == entries@.take(i as int));
        match &entries[i].vouchers {
            Some(list) => {
                let m = list.len();
                let mut j: usize = 0;
                while j < m
                    invariant
                        m == list.len(),
                        j <= m,
                        out@.len() == before.len() + j,
                        forall|k: int| 0 <= k < before.len() ==> out@[k] == before[k],
                        forall|k: int|
                            before.len() <= k < out@.len() ==> row_of(#[trigger] out@[k])
                                == collection_row(list@[k - before.len()], status),
                    decreases m - j,
                {
                    let v = &list[j];
                    out.push(
                        VoucherInfo {
                            promotion_id: match v.promotion_id {
                                Some(p) => p,
                                None => 0,
                            },
                            voucher_code: text_or_empty(&v.voucher_code),
                            signature: text_or_empty(&v.signature),
                            extra_data: text_or_empty(&v.icon_text),
                            bug: false,
                            status,
                        },
                    );
                    j = j + 1;
                }
                assert(out@.map_values(|v: VoucherInfo| row_of(v)) =~= before.map_values(
                    |v: VoucherInfo| row_of(v),
                ) + list@.map_values(|v: CollectionVoucher| collection_row(v, status)));
            },
            None => {
                out.push(
                    VoucherInfo {
                        promotion_id: 0,
                        voucher_code: String::new(),
                        signature: String::new(),
                        extra_data: String::new(),
                        bug: true,
                        status,
                    },
                );
                assert(out@.map_values(|v: VoucherInfo| row_of(v)) =~= before.map_values(
                    |v: VoucherInfo| row_of(v),
                ) + seq![
                    (0i64, Seq::<char>::empty(), Seq::<char>::empty(), Seq::<char>::empty(), true, status),
                ]);
            },
        }
        i = i + 1;
    }
    assert(entries@.take(entries.len() as int) == entries@);
    out
}

/// The rows the collection tool lists for an answer: the collection's rows
/// where the status is 200 and the answer has a data list; one row with
/// extra data `none` where it has no data list; one empty row otherwise.
pub fn collection_answer_rows(status: u16, data: Option<Vec<CollectionEntry>>) -> (out: Vec<VoucherInfo>)
    ensures
        status == 200 && data is Some ==> out@.map_values(|v: VoucherInfo| row_of(v))
            == collection_rows(data->0@, status),
        status == 200 && data is None ==> out@.map_values(|v: VoucherInfo| row_of(v))
            == seq![(0i64, Seq::<char>::empty(), Seq::<char>::empty(), "none"@, false, status)],
        status != 200 ==> out@.map_values(|v: VoucherInfo| row_of(v)) == seq![
            (0i64, Seq::<char>::empty(), Seq::<char>::empty(), Seq::<char>::empty(), false, status),
        ],
{
    if status == 200 {
        match data {
            Some(entries) => vouchers_in_collection(entries.as_slice(), status),
            None => {
                let mut out: Vec<VoucherInfo> = Vec::new();
                out.push(
                    VoucherInfo {
                        promotion_id: 0,
                        voucher_code: String::new(),
                        signature: String::new(),
                        extra_data: owned("none"),
                        bug: false,
                        status,
                    },
                );
                assert(out@.map_values(|v: VoucherInfo| row_of(v)) =~= seq![
                    (0i64, Seq::<char>::empty(), Seq::<char>::empty(), "none"@, false, status),
                ]);
                out
            },
        }
    } else {
        let mut out: Vec<VoucherInfo> = Vec::new();
        out.push(
            VoucherInfo {
                promotion_id: 0,
                voucher_code: String::new(),
                signature: String::new(),
                extra_data: String::new(),
                bug: false,
                status,
            },
        );
        assert(out@.map_values(|v: VoucherInfo| row_of(v)) =~= seq![
            (0i64, Seq::<char>::empty(), Seq::<char>::empty(), Seq::<char>::empty(), false, status),
        ]);
        out
    }
}

// ---------------------------------------------------------------------------
// Requests
// ---------------------------------------------------------------------------

/// The body that claims the voucher of a promotion.
pub struct SaveVoucherRequest {
    pub voucher_promotionid: i64,
    pub signature: String,
    pub security_device_fingerprint: String,
    pub signature_source: String,
}

/// The body that reads the voucher of a promotion.
pub struct GetVoucherRequest {
    pub promotionid: i64,
    pub voucher_code: String,
    pub signature: String,
    pub need_basic_info: bool,
    pub need_user_voucher_status: bool,
}

/// The promotion id typed by the user: the trimmed text read as an `i64`
/// (`None` where it is no number; the programs stop there).
pub open spec fn promotion_id_value(start: Seq<char>) -> Option<i64> {
    parse_i64(trim(start))
}

fn promotion_id_of(start: &str) -> (r: Option<i64>)
    ensures
        r == promotion_id_value(start@),
{
    parse_i64_chars(&trimmed(start))
}

pub fn save_voucher_request(start: &str, end: &str) -> (r: Option<SaveVoucherRequest>)
    ensures
        match promotion_id_value(start@) {
            None => r is None,
            Some(p) => r matches Some(b) && b.voucher_promotionid == p && b.signature@ == end@
                && b.security_device_fingerprint@ == Seq::<char>::empty() && b.signature_source@
                == "0"@,
        },
{
    match promotion_id_of(start) {
        None => None,
        Some(p) => Some(
            SaveVoucherRequest {
                voucher_promotionid: p,
                signature: owned(end),
                security_device_fingerprint: String::new(),
                signature_source: owned("0"),
            },
        ),
    }
}

pub fn get_voucher_request(start: &str, end: &str) -> (r: Option<GetVoucherRequest>)
    ensures
        match promotion_id_value(start@) {
            None => r is None,
            Some(p) => r matches Some(b) && b.promotionid == p && b.voucher_code@ == "-"@
                && b.signature@ == end@ && b.need_basic_info && b.need_user_voucher_status,
        },
{
    match promotion_id_of(start) {
        None => None,
        Some(p) => Some(
            GetVoucherRequest {
                promotionid: p,
                voucher_code: owned("-"),
                signature: owned(end),
                need_basic_info: true,
                need_user_voucher_status: true,
            },
        ),
    }
}

/// The microsite lookup of a collection: the first lookup, or the second
/// one (`second`), which the first sends collections without a voucher list to.
pub fn collection_request(collection_id: &str, second: bool) -> (r: JsonCollectionRequest)
    ensures
        r.voucher_collection_request_list@.len() == 1,
        ({
            let q = r.voucher_collection_request_list@[0];
            &&& q.collection_id@ == collection_id@
            &&& q.component_type == if second { 1i64 } else { 2i64 }
            &&& q.component_id == if second { 1708068524282i64 } else { 1712077200i64 }
            &&& q.limit == 100
            &&& q.microsite_id == if second { 62902i64 } else { 63749i64 }
            &&& q.offset == 0
            &&& q.number_of_vouchers_per_row == if second { 1i64 } else { 2i64 }
        }),
{
    let q = if second {
        VoucherCollectionRequest {
            collection_id: owned(collection_id),
            component_type: 1,
            component_id: 1708068524282,
            limit: 100,
            microsite_id: 62902,
            offset: 0,
            number_of_vouchers_per_row: 1,
        }
    } else {
        VoucherCollectionRequest {
            collection_id: owned(collection_id),
            component_type: 2,
            component_id: 1712077200,
            limit: 100,
            microsite_id: 63749,
            offset: 0,
            number_of_vouchers_per_row: 2,
        }
    };
    let mut list: Vec<VoucherCollectionRequest> = Vec::new();
    list.push(q);
    JsonCollectionRequest { voucher_collection_request_list: list }
}

/// The promotion id and signature a collection lookup reports: the found
/// voucher's id in decimal and its signature, or two empty texts.
pub fn lookup_texts(r: CollectionLookup) -> (t: (String, String))
    requires
        !(r is AskFallback),
    ensures
        match r {
            CollectionLookup::Found(p, s) => t.0@ == signed_decimal(p as int) && t.1@ == s@,
            _ => t.0@ == Seq::<char>::empty() && t.1@ == Seq::<char>::empty(),
        },
{
    match r {
        CollectionLookup::Found(p, s) => (string_of(i64_decimal(p).as_slice()), s),
        _ => (String::new(), String::new()),
    }
}

/// The body that claims a food voucher: the claim command and the request
/// data as the caller encoded it.
pub fn food_voucher_request(req_data: String) -> (b: FoodVoucherRequest)
    ensures
        b.cmd@ == "voucher.core.claim_shopee_food_voucher"@,
        b.req_data == req_data,
{
    FoodVoucherRequest { cmd: owned("voucher.core.claim_shopee_food_voucher"), req_data }
}

} // verus!
