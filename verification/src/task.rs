//! The single-product checkout: the payment channel data sent with the
//! checkout lookup and with the order, the content of the checkout lookup,
//! and the rewriting of the price data before an order is placed.
use vstd::prelude::*;
use crate::crypt::DeviceInfo;
use crate::prepare::{AddressInfo, ModelInfo, PaymentInfo, ProductInfo, ShippingInfo};
use crate::task_ng::{ShopOrder, ShippingOrder, groups_products, is_shipping_orders_for, multi_product, shipping_orders_for};
use crate::voucher::{VoucherDetail, Vouchers};

verus! {

// ---------------------------------------------------------------------------
// Payment channel data
// ---------------------------------------------------------------------------

/// The payment channel data of a request.
pub enum PaymentChannelData {
    /// Built from the channel: its id, version and option info (with the
    /// payment-selection page fields in a checkout lookup).
    FromChannel { channel_id: i64, version: i64, option_info: String },
    /// An empty JSON object.
    Empty,
    /// The JSON the payment file gives for the channel.
    Given(serde_json::Value),
}

/// The payment channel data of a checkout lookup: built from the channel
/// where the payment file gives none, empty for channel 0, otherwise the
/// file's data.
pub fn checkout_payment_channel(chosen_payment: PaymentInfo) -> (d: PaymentChannelData)
    ensures
        match chosen_payment.selected_get {
            None => d matches PaymentChannelData::FromChannel { channel_id, version, option_info }
                && channel_id == chosen_payment.channel_id && version == chosen_payment.version
                && option_info == chosen_payment.option_info,
            Some(v) => if chosen_payment.channel_id == 0 {
                d is Empty
            } else {
                d == PaymentChannelData::Given(v)
            },
        },
{
    match chosen_payment.selected_get {
        None => PaymentChannelData::FromChannel {
            channel_id: chosen_payment.channel_id,
            version: chosen_payment.version,
            option_info: chosen_payment.option_info,
        },
        Some(v) => if chosen_payment.channel_id == 0 {
            PaymentChannelData::Empty
        } else {
            PaymentChannelData::Given(v)
        },
    }
}

/// The payment channel data of an order: built from the channel where the
/// payment file gives none, otherwise the file's data.
pub fn order_payment_channel(chosen_payment: PaymentInfo) -> (d: PaymentChannelData)
    ensures
        match chosen_payment.place_order {
            None => d matches PaymentChannelData::FromChannel { channel_id, version, option_info }
                && channel_id == chosen_payment.channel_id && version == chosen_payment.version
                && option_info == chosen_payment.option_info,
            Some(v) => d == PaymentChannelData::Given(v),
        },
{
    match chosen_payment.place_order {
        None => PaymentChannelData::FromChannel {
            channel_id: chosen_payment.channel_id,
            version: chosen_payment.version,
            option_info: chosen_payment.option_info,
        },
        Some(v) => PaymentChannelData::Given(v),
    }
}

// ---------------------------------------------------------------------------
// The checkout lookup
// ---------------------------------------------------------------------------

/// What a single-product checkout lookup sends: the products grouped by
/// shop, the payment channel data, the vouchers, and the shipping order.
pub struct CheckoutGetRequest {
    pub timestamp: i64,
    pub shoporders: Vec<ShopOrder>,
    pub selected_payment_channel_data: PaymentChannelData,
    /// The free-shipping voucher: (promotion id, code).
    pub free_shipping_voucher: Option<(i64, String)>,
    /// The platform voucher: (code, promotion id).
    pub platform_voucher: Option<(String, i64)>,
    /// The shop voucher: (shop id, promotion id, code).
    pub shop_voucher: Option<(Option<i64>, i64, String)>,
    /// The free-shipping voucher applied to shipping order 1.
    pub fsv_selection: Option<i64>,
    pub device_info: DeviceInfo,
    pub shipping_orders: Vec<ShippingOrder>,
}

/// The content of a checkout lookup for the chosen models, payment channel
/// and courier at the given time.
pub fn get_builder(
    device_info: DeviceInfo,
    address_info: &AddressInfo,
    chosen_model: &[ModelInfo],
    chosen_payment: PaymentInfo,
    chosen_shipping: &ShippingInfo,
    freeshipping_voucher: Option<Vouchers>,
    platform_vouchers_target: Option<Vouchers>,
    shop_vouchers_target: Option<Vouchers>,
    timestamp: i64,
) -> (r: CheckoutGetRequest)
    ensures
        r.timestamp == timestamp,
        groups_products(r.shoporders@, chosen_model@),
        r.selected_payment_channel_data == match chosen_payment.selected_get {
            None => PaymentChannelData::FromChannel {
                channel_id: chosen_payment.channel_id,
                version: chosen_payment.version,
                option_info: chosen_payment.option_info,
            },
            Some(v) => if chosen_payment.channel_id == 0 {
                PaymentChannelData::Empty
            } else {
                PaymentChannelData::Given(v)
            },
        },
        r.free_shipping_voucher == match freeshipping_voucher {
            Some(v) => Some((v.promotionid, v.voucher_code)),
            None => None,
        },
        r.platform_voucher == match platform_vouchers_target {
            Some(v) => Some((v.voucher_code, v.promotionid)),
            None => None,
        },
        r.shop_voucher == match shop_vouchers_target {
            Some(v) => Some((v.shop_id, v.promotionid, v.voucher_code)),
            None => None,
        },
        r.fsv_selection == match freeshipping_voucher {
            Some(v) => Some(v.promotionid),
            None => None,
        },
        r.device_info == device_info,
        is_shipping_orders_for(r.shipping_orders@, address_info.id, chosen_shipping.channelid),
{
    let shoporders = multi_product(chosen_model);
    let selected = checkout_payment_channel(chosen_payment);
    let fsv_selection = match &freeshipping_voucher {
        Some(v) => Some(v.promotionid),
        None => None,
    };
    let free_shipping_voucher = match freeshipping_voucher {
        Some(v) => Some((v.promotionid, v.voucher_code)),
        None => None,
    };
    let platform_voucher = match platform_vouchers_target {
        Some(v) => Some((v.voucher_code, v.promotionid)),
        None => None,
    };
    let shop_voucher = match shop_vouchers_target {
        Some(v) => Some((v.shop_id, v.promotionid, v.voucher_code)),
        None => None,
    };
    CheckoutGetRequest {
        timestamp,
        shoporders,
        selected_payment_channel_data: selected,
        free_shipping_voucher,
        platform_voucher,
        shop_voucher,
        fsv_selection,
        device_info,
        shipping_orders: shipping_orders_for(address_info.id, chosen_shipping.channelid),
    }
}

/// What a checkout lookup with a media token sends: one item of one shop,
/// bought through the token, the payment channel, and one shipping order
/// to the address with the chosen courier.
pub struct TokenCheckoutRequest {
    pub shop_id: i64,
    pub item_id: i64,
    pub modelid: i64,
    pub quantity: i32,
    pub token: String,
    pub channel_id: i64,
    pub version: i64,
    pub option_info: String,
    pub device_info: DeviceInfo,
    pub address_id: i64,
    pub channelid: i64,
}

/// The content of a checkout lookup with a media token.
pub fn get_wtoken_builder(
    token: &str,
    device_info: DeviceInfo,
    product_info: &ProductInfo,
    address_info: &AddressInfo,
    quantity: i32,
    chosen_model: &ModelInfo,
    chosen_payment: &PaymentInfo,
    chosen_shipping: &ShippingInfo,
) -> (r: TokenCheckoutRequest)
    ensures
        r.shop_id == product_info.shop_id,
        r.item_id == product_info.item_id,
        r.modelid == chosen_model.modelid,
        r.quantity == quantity,
        r.token@ == token@,
        r.channel_id == chosen_payment.channel_id,
        r.version == chosen_payment.version,
        r.option_info@ == chosen_payment.option_info@,
        r.device_info == device_info,
        r.address_id == address_info.id,
        r.channelid == chosen_shipping.channelid,
{
    TokenCheckoutRequest {
        shop_id: product_info.shop_id,
        item_id: product_info.item_id,
        modelid: chosen_model.modelid,
        quantity,
        token: token.to_string(),
        channel_id: chosen_payment.channel_id,
        version: chosen_payment.version,
        option_info: chosen_payment.option_info.clone(),
        device_info,
        address_id: address_info.id,
        channelid: chosen_shipping.channelid,
    }
}

// ---------------------------------------------------------------------------
// Rewriting the price data
// ---------------------------------------------------------------------------

/// The numbers of a checkout answer's price data that the rewrites read
/// (0 where the answer has no such integer).
pub struct CheckoutPriceFields {
    pub merchandise_subtotal: i64,
    pub shipping_subtotal: i64,
    pub insurance_subtotal: i64,
    pub buyer_service_fee: i64,
    pub buyer_txn_fee: i64,
    pub promocode_applied: i64,
    pub shopee_coins_redeemed: i64,
}

/// How the price data is rewritten: `price_breakdown` and `total_savings`
/// are removed, `total_payable` is set, and the other fields are set where
/// they are `Some` (`clear_buyer_service_fee`: the fee becomes JSON `null`).
pub struct PriceRewrite {
    pub merchandise_subtotal: Option<i64>,
    pub total_payable: i64,
    pub promocode_applied: Option<i64>,
    pub clear_buyer_service_fee: bool,
}

/// `base + shipping + insurance + service fee + transaction fee - promo -
/// coins`, added up left to right.
pub open spec fn payable(f: CheckoutPriceFields, base: int, promo: int) -> int {
    base + f.shipping_subtotal + f.insurance_subtotal + f.buyer_service_fee + f.buyer_txn_fee - promo
        - f.shopee_coins_redeemed
}

pub open spec fn in_i64(x: int) -> bool {
    i64::MIN <= x <= i64::MAX
}

/// Every partial sum of `payable` fits in an `i64`.
pub open spec fn payable_fits(f: CheckoutPriceFields, base: int, promo: int) -> bool {
    &&& in_i64(base + f.shipping_subtotal)
    &&& in_i64(base + f.shipping_subtotal + f.insurance_subtotal)
    &&& in_i64(base + f.shipping_subtotal + f.insurance_subtotal + f.buyer_service_fee)
    &&& in_i64(base + f.shipping_subtotal + f.insurance_subtotal + f.buyer_service_fee + f.buyer_txn_fee)
    &&& in_i64(base + f.shipping_subtotal + f.insurance_subtotal + f.buyer_service_fee + f.buyer_txn_fee - promo)
    &&& in_i64(payable(f, base, promo))
}

fn payable_exec(f: &CheckoutPriceFields, base: i64, promo: i64) -> (r: i64)
    requires
        payable_fits(*f, base as int, promo as int),
    ensures
        r == payable(*f, base as int, promo as int),
{
    base + f.shipping_subtotal + f.insurance_subtotal + f.buyer_service_fee + f.buyer_txn_fee - promo
        - f.shopee_coins_redeemed
}

/// The price data of an order whose merchandise is priced at the chosen
/// maximum price: the merchandise subtotal becomes that price and the total
/// is recomputed from it.
pub fn recalculate_shipping_subtotal(f: &CheckoutPriceFields, adjusted_max_price: i64) -> (r: PriceRewrite)
    requires
        payable_fits(*f, adjusted_max_price as int, f.promocode_applied as int),
    ensures
        r.merchandise_subtotal == Some(adjusted_max_price),
        r.total_payable == payable(*f, adjusted_max_price as int, f.promocode_applied as int),
        r.promocode_applied is None,
        !r.clear_buyer_service_fee,
{
    let total = payable_exec(f, adjusted_max_price, f.promocode_applied);
    PriceRewrite {
        merchandise_subtotal: Some(adjusted_max_price),
        total_payable: total,
        promocode_applied: None,
        clear_buyer_service_fee: false,
    }
}

/// Division that rounds toward zero, as Rust's integer `/` does.
pub open spec fn div_toward_zero(a: int, b: int) -> int {
    if a >= 0 {
        a / b
    } else {
        -((-a) / b)
    }
}

/// The discount a voucher gives on a merchandise subtotal: its percentage
/// of the subtotal (rounded toward zero), at most its cap.
pub open spec fn voucher_discount(merchandise: int, detail: VoucherDetail) -> int {
    let normal = div_toward_zero(merchandise * detail.reward_percentage, 100);
    if normal <= detail.reward_cap {
        normal
    } else {
        detail.reward_cap as int
    }
}

/// The price data of an order with a voucher applied on the client side:
/// the discount becomes the promotion amount and the total is recomputed;
/// where the discount covers the whole merchandise subtotal the total is 0
/// and the service fee is cleared.
pub fn recalculate_client_voucher(f: &CheckoutPriceFields, detail: &VoucherDetail) -> (r: PriceRewrite)
    requires
        in_i64(f.merchandise_subtotal * detail.reward_percentage),
        f.merchandise_subtotal != voucher_discount(f.merchandise_subtotal as int, *detail)
            ==> payable_fits(
            *f,
            f.merchandise_subtotal as int,
            voucher_discount(f.merchandise_subtotal as int, *detail),
        ),
    ensures
        r.merchandise_subtotal is None,
        r.promocode_applied == Some(voucher_discount(f.merchandise_subtotal as int, *detail) as i64),
        r.total_payable == if f.merchandise_subtotal == voucher_discount(
            f.merchandise_subtotal as int,
            *detail,
        ) {
            0
        } else {
            payable(
                *f,
                f.merchandise_subtotal as int,
                voucher_discount(f.merchandise_subtotal as int, *detail),
            )
        },
        r.clear_buyer_service_fee == (r.total_payable == 0),
{
    let product: i64 = f.merchandise_subtotal * (detail.reward_percentage as i64);
    let normal: i64 = if product >= 0 {
        product / 100
    } else {
        let magnitude: i64 = if product == i64::MIN {
            92233720368547758
        } else {
            (-product) / 100
        };
        -magnitude
    };
    let promo: i64 = if normal <= detail.reward_cap {
        normal
    } else {
        detail.reward_cap
    };
    let total: i64 = if f.merchandise_subtotal == promo {
        0
    } else {
        payable_exec(f, f.merchandise_subtotal, promo)
    };
    PriceRewrite {
        merchandise_subtotal: None,
        total_payable: total,
        promocode_applied: Some(promo),
        clear_buyer_service_fee: total == 0,
    }
}

/// A client-side voucher never takes off more than its cap.
pub proof fn law_voucher_discount_capped(merchandise: int, detail: VoucherDetail)
    ensures
        voucher_discount(merchandise, detail) <= detail.reward_cap,
{
}

/// A client-side voucher on a non-negative subtotal with a percentage of at
/// most 100 never takes off more than the subtotal.
pub proof fn law_voucher_discount_within_subtotal(merchandise: int, detail: VoucherDetail)
    requires
        merchandise >= 0,
        0 <= detail.reward_percentage <= 100,
    ensures
        voucher_discount(merchandise, detail) <= merchandise,
{
    assert(merchandise * detail.reward_percentage <= merchandise * 100) by (nonlinear_arith)
        requires
            merchandise >= 0,
            detail.reward_percentage <= 100,
    ;
    assert(merchandise * detail.reward_percentage >= 0) by (nonlinear_arith)
        requires
            merchandise >= 0,
            detail.reward_percentage >= 0,
    ;
}

} // verus!
