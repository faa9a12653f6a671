use runtime::cli::{
    adjusted_max_price, args_checking, check_price, choose_model, choose_payment, choose_shipping,
    console_attempt_step, cookie_file_choice, default_task_time, div_trunc, format_duration,
    format_thousands, fs_estimate, fs_item_for_model, get_or_prompt, index_from_input,
    model_needs_input, multi_attempt_step, platform_voucher_action, price_units, report_message,
    select_mode, thread_count, wants_next_day, ArgError, ArgFlags, AttemptStep, Mode, PriceCheck,
    PlatformVoucherAction, VoucherFlags,
};
use runtime::prepare::{FSItems, ModelInfo, PaymentInfo, ShippingInfo};
use runtime::voucher::Vouchers;

#[test]
fn thousands_separators() {
    assert_eq!(format_thousands(0), "0");
    assert_eq!(format_thousands(999), "999");
    assert_eq!(format_thousands(1000), "1.000");
    assert_eq!(format_thousands(1234567), "1.234.567");
    assert_eq!(format_thousands(-12345), "-12.345");
    assert_eq!(format_thousands(-123456), "-.123.456");
    assert_eq!(format_thousands(i64::MIN), "-9.223.372.036.854.775.808");
    for n in [0i64, 7, 1000, -1, 123456789, i64::MAX] {
        assert_eq!(format_thousands(n).replace('.', ""), n.to_string());
    }
}

#[test]
fn countdown_lines() {
    assert_eq!(format_duration(0), "00:00:00.000");
    assert_eq!(format_duration(3_723_045), "01:02:03.045");
    assert_eq!(format_duration(100 * 3_600_000), "100:00:00.000");
    assert_eq!(format_duration(-1_500), "00:00:-1.-500");
    assert_eq!(format_duration(-3_723_045), "-1:-2:-3.-45");
}

#[test]
fn thread_counts() {
    assert_eq!(thread_count(None, 2), (4, false));
    assert_eq!(thread_count(None, 8), (8, false));
    assert_eq!(thread_count(Some("16"), 2), (16, false));
    assert_eq!(thread_count(Some("x"), 12), (12, true));
    assert_eq!(thread_count(Some(" 3"), 1), (4, true));
}

fn flags() -> ArgFlags {
    ArgFlags {
        pro_id: false,
        sign: false,
        claim_platform_vouchers: false,
        code_platform: false,
        platform_vouchers: false,
        code_shop: false,
        shop_vouchers: false,
        no_fsv: false,
    }
}

#[test]
fn command_line_rules() {
    assert!(args_checking(&flags()).is_ok());
    let mut f = flags();
    f.pro_id = true;
    f.sign = true;
    assert!(matches!(args_checking(&f), Err(ArgError::ProIdAndSignNeedClaim)));
    f.claim_platform_vouchers = true;
    assert!(args_checking(&f).is_ok());
    f.sign = false;
    assert!(matches!(args_checking(&f), Err(ArgError::ProIdNeedsSign)));
    let mut f = flags();
    f.pro_id = true;
    assert!(matches!(args_checking(&f), Err(ArgError::ProIdNeedsClaim)));
    let mut f = flags();
    f.sign = true;
    assert!(matches!(args_checking(&f), Err(ArgError::SignNeedsClaim)));
    f.claim_platform_vouchers = true;
    assert!(matches!(args_checking(&f), Err(ArgError::SignNeedsProId)));
    let mut f = flags();
    f.code_platform = true;
    assert!(matches!(args_checking(&f), Err(ArgError::CodePlatformNeedsPlatform)));
    let mut f = flags();
    f.code_shop = true;
    assert!(matches!(args_checking(&f), Err(ArgError::CodeShopNeedsShop)));
    let mut f = flags();
    f.no_fsv = true;
    let e = args_checking(&f).unwrap_err();
    assert!(matches!(e, ArgError::NoFsvNeedsVoucher));
    assert!(e.message().starts_with("Error: The --no-fsv argument"));
    f.shop_vouchers = true;
    assert!(args_checking(&f).is_ok());
    assert_eq!(ArgError::CodeShopNeedsShop.message(), "Error: The --code-shop argument requires --shop-vouchers to be enabled.");
}

fn model(name: &str) -> ModelInfo {
    ModelInfo { name: name.to_string(), price: 0, stock: 0, modelid: 0, promotionid: 0, shop_id: 0, item_id: 0, quantity: 1 }
}

#[test]
fn choosing_entries() {
    assert_eq!(index_from_input(" 2 ", 3), Some(1));
    assert_eq!(index_from_input("4", 3), None);
    assert_eq!(index_from_input("x", 3), None);
    let models = vec![model("Merah"), model("Biru"), model("Merah")];
    assert_eq!(choose_model(&models, Some("Merah"), None), Some(0));
    assert_eq!(choose_model(&models, Some("Hijau"), Some("1")), None);
    assert_eq!(choose_model(&models, None, Some("3")), Some(2));
    assert_eq!(choose_model(&models, None, None), None);
    assert_eq!(choose_model(&models[..1], Some("nope"), None), Some(0));
    assert!(model_needs_input(3, false));
    assert!(!model_needs_input(1, false));
    assert!(!model_needs_input(3, true));
    let ships = vec![ShippingInfo { original_cost: 0, channelid: 1, channelidroot: 1, channel_name: "JNE".to_string() }];
    assert_eq!(choose_shipping(&ships, Some("JNE"), None), Some(0));
    assert_eq!(choose_shipping(&ships, None, Some("1")), Some(0));
    assert_eq!(choose_shipping(&ships, None, Some("N")), None);
    let pays = vec![PaymentInfo { name: "BCA".to_string(), channel_id: 1, option_info: String::new(), version: 0, txn_fee: 0, selected_get: None, place_order: None }];
    assert_eq!(choose_payment(&pays, Some("BCA"), None), Some(0));
    assert_eq!(choose_payment(&pays, Some("BRI"), None), None);
    assert_eq!(cookie_file_choice("0", 3), None);
    assert_eq!(cookie_file_choice("3", 3), Some(2));
    assert_eq!(get_or_prompt(Some("given"), "typed"), "given");
    assert_eq!(get_or_prompt(None, "typed"), "typed");
}

#[test]
fn flash_sale_prices() {
    let items = vec![
        FSItems { itemid: 1, shopid: 1, modelids: None, raw_discount: 0, price_before_discount: 0, stock: 0, hidden_price_display: None, name: String::new() },
        FSItems { itemid: 2, shopid: 1, modelids: Some(vec![5, 6]), raw_discount: 0, price_before_discount: 0, stock: 0, hidden_price_display: None, name: String::new() },
    ];
    assert_eq!(fs_item_for_model(&items, 6), Some(1));
    assert_eq!(fs_item_for_model(&items, 7), None);
    assert_eq!(fs_estimate(2_000_000_000, 50), 10_000);
    assert_eq!(price_units(-150_000), -1);
    assert_eq!(div_trunc(-7, 2), -3);
    assert_eq!(div_trunc(i64::MIN, 1), i64::MIN);
    assert_eq!(div_trunc(7, 2), 3);
}

#[test]
fn price_limits() {
    assert_eq!(adjusted_max_price(""), None);
    assert_eq!(adjusted_max_price("1,500 "), Some(150_000_000));
    assert_eq!(adjusted_max_price("abc"), None);
    assert!(matches!(check_price("100", false, None), PriceCheck::NoPriceData));
    assert!(matches!(check_price("100", true, None), PriceCheck::NoSubtotal));
    assert!(matches!(check_price("x", true, Some(1)), PriceCheck::BadLimit));
    assert!(matches!(check_price("100", true, Some(10_000_000)), PriceCheck::Within));
    assert!(matches!(check_price("100", true, Some(10_000_001)), PriceCheck::TooHigh));
}

fn vflags() -> VoucherFlags {
    VoucherFlags {
        claim_platform_vouchers: false,
        platform_vouchers: false,
        collection_vouchers: false,
        fsv_only: false,
        shop_vouchers: false,
        no_fsv: false,
        no_claim_platform_vouchers: false,
    }
}

fn v(id: i64) -> Option<Vouchers> {
    Some(Vouchers { promotionid: id, voucher_code: String::new(), signature: String::new(), shop_id: None })
}

#[test]
fn vouchers_to_use() {
    let mut f = vflags();
    assert!(!f.uses_vouchers());
    f.platform_vouchers = true;
    assert!(f.uses_vouchers());
    assert_eq!(f.final_platform_voucher(v(1), v(2)).unwrap().promotionid, 1);
    assert_eq!(f.final_platform_voucher(None, v(2)).unwrap().promotionid, 2);
    let mut g = vflags();
    g.shop_vouchers = true;
    assert!(g.final_platform_voucher(v(1), v(2)).is_none());
    let mut h = vflags();
    h.fsv_only = true;
    h.platform_vouchers = true;
    assert!(h.final_platform_voucher(v(1), v(2)).is_none());
    assert!(matches!(platform_voucher_action("1", "s", "", true), PlatformVoucherAction::ReadPromotion));
    assert!(matches!(platform_voucher_action("1", "s", "C", false), PlatformVoucherAction::ClaimPromotion));
    assert!(matches!(platform_voucher_action("1", "", "C", false), PlatformVoucherAction::ClaimCode));
    assert!(matches!(platform_voucher_action("", "", "", false), PlatformVoucherAction::Nothing));
}

#[test]
fn order_attempts() {
    assert!(matches!(console_attempt_step(0, Some(5)), AttemptStep::Paid(5)));
    assert!(matches!(console_attempt_step(2, None), AttemptStep::Retry(3)));
    assert!(matches!(console_attempt_step(3, None), AttemptStep::GiveUp));
    assert!(matches!(multi_attempt_step(0, Some("error_fraud"), Some(5)), AttemptStep::Refused));
    assert!(matches!(multi_attempt_step(1, Some("error_freeze"), None), AttemptStep::Refused));
    assert!(matches!(multi_attempt_step(1, Some("other"), Some(9)), AttemptStep::Paid(9)));
    assert!(matches!(multi_attempt_step(1, None, None), AttemptStep::Retry(2)));
    assert!(matches!(multi_attempt_step(2, None, None), AttemptStep::GiveUp));
    assert_eq!(
        report_message("1.0.0", "user", "Kaos", "Merah", "https://x"),
        "Auto Buy Shopee 1.0.0\nREPORT!!!\nUsername     : user\nProduct      : Kaos\nVariant      : Merah\nLink Payment : https://x\nCheckout berhasil!"
    );
}

#[test]
fn task_times_and_answers() {
    assert_eq!(default_task_time(9, 0), "09:14:59.900");
    assert_eq!(default_task_time(13, 15), "13:29:59.900");
    assert_eq!(default_task_time(13, 44), "13:44:59.900");
    assert_eq!(default_task_time(23, 59), "23:59:59.900");
    assert!(wants_next_day(" YeS "));
    assert!(wants_next_day("y"));
    assert!(!wants_next_day("no"));
    assert!(!wants_next_day("yess"));
    assert!(matches!(select_mode(" 1 ", false), Some(Mode::Normal)));
    assert!(matches!(select_mode("2", false), Some(Mode::Collection)));
    assert!(select_mode("3", false).is_none());
    assert!(matches!(select_mode("3", true), Some(Mode::Food)));
    assert!(select_mode("4", true).is_none());
}
