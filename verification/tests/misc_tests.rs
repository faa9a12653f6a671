use runtime::login::{qrcode_from_answer, qrcode_login_step, qrcode_status_from_answer, QrLoginStep};
use runtime::prepare::FSInfo;
use runtime::product::{current_sessions, products_from_itemids};
use runtime::telegram::get_data;
use runtime::telemetry::Telemetry;
use runtime::video::{
    claim_url, config_url, draw_message, first_reward, last_completed_reward, report_url,
    reward_cookie, reward_step, RewardAction, RewardEntry,
};

#[test]
fn telegram_settings_start_off() {
    let t = get_data("a", "b");
    assert!(!t.telegram_notif);
    assert_eq!(t.telegram_token, "a");
    assert_eq!(t.telegram_chat_id, "b");
}

#[test]
fn run_log() {
    let off = Telemetry::default();
    assert!(!off.enabled);
    assert_eq!(off.name, "");
    assert!(off.line_for("hi").is_none());
    let on = Telemetry::enabled_for("abs", "1.0.0", "2024-01-02_03-04-05");
    assert_eq!(on.name, "logs/abs-1.0.0-2024-01-02_03-04-05.log");
    assert_eq!(on.line_for("hi").as_deref(), Some("[Telemetry] hi"));
    assert_eq!(Telemetry::header("1.0.0"), "runtime version : 1.0.0");
}

#[test]
fn login_qr_codes() {
    let q = qrcode_from_answer(Some("a b=="), Some("PNG"));
    assert_eq!(q.qrcode_id, "a b==");
    assert_eq!(q.qrcode_id_encoded, "a%20b%3D%3D");
    assert_eq!(q.qrcode_base64, "PNG");
    let empty = qrcode_from_answer(None, None);
    assert_eq!((empty.qrcode_id.as_str(), empty.qrcode_id_encoded.as_str(), empty.qrcode_base64.as_str()), ("", "", ""));
    assert_eq!(qrcode_status_from_answer(Some("CONFIRMED"), None), ("CONFIRMED".to_string(), String::new()));
}

#[test]
fn flash_sale_sessions_and_items() {
    assert!(current_sessions(None).is_empty());
    let s = current_sessions(Some(vec![FSInfo { promotionid: 1, start_time: 2, end_time: 3 }]));
    assert_eq!(s[0].promotionid, 1);
    let p = products_from_itemids(Some(vec![5, 6]));
    assert_eq!(p.iter().map(|x| (x.item_id, x.shop_id)).collect::<Vec<_>>(), vec![(5, 0), (6, 0)]);
    assert!(products_from_itemids(None).is_empty());
}

#[test]
fn video_rewards() {
    let rewards = vec![
        RewardEntry { completed: Some(true), reward_id: Some(3) },
        RewardEntry { completed: Some(true), reward_id: Some(4) },
        RewardEntry { completed: Some(false), reward_id: None },
        RewardEntry { completed: None, reward_id: None },
    ];
    assert_eq!(last_completed_reward(&rewards), 4);
    assert_eq!(last_completed_reward(&rewards[2..]), 0);
    assert_eq!(first_reward(4), 5);
    assert!(matches!(reward_step(61), RewardAction::Finish));
    assert!(matches!(reward_step(5), RewardAction::Report { claim: true, next: 6 }));
    assert!(matches!(reward_step(6), RewardAction::Report { claim: false, next: 7 }));
    assert!(matches!(reward_step(60), RewardAction::Report { claim: true, next: 61 }));
    assert_eq!(reward_cookie("a=1", 17), "a=1; shopee_rn_version=17");
    assert_eq!(claim_url(1), "https://ug-api.sv.shopee.co.id/api/v2/biz/reward/claim?_timestamp=1&version=1");
    assert_eq!(report_url(2), "https://ug-api.sv.shopee.co.id/api/v2/biz/reward/report/time/round?_timestamp=2&version=1");
    assert_eq!(config_url(3, "df"), "https://ug-api.sv.shopee.co.id/api/v2/reward/config?_timestamp=3&version=1&from_source=app_auto_streaming&shopee_df=df&engine_type=2&source=1");
    assert_eq!(draw_message("u", "isi"), "Username: u\nIsi: isi");
}

#[test]
fn login_poll_decisions() {
    assert!(matches!(qrcode_login_step("CONFIRMED", "tok"), QrLoginStep::LogIn));
    assert!(matches!(qrcode_login_step("CONFIRMED", ""), QrLoginStep::Renew));
    assert!(matches!(qrcode_login_step("EXPIRED", "tok"), QrLoginStep::Renew));
    assert!(matches!(qrcode_login_step("SCANNED", ""), QrLoginStep::Poll));
    assert!(matches!(qrcode_login_step("", ""), QrLoginStep::Poll));
    assert!(matches!(qrcode_login_step("confirmed", "tok"), QrLoginStep::Poll));
}
