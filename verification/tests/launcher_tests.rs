use runtime::launcher::{
    batch_bounds, batch_count, collect_gui_input, core_generate_cmd, core_vouc_mode, format_eta_secs,
    fs_row, generate_struct, generate_vouc, launcabs_vouc_mode, manager_generate_cmd,
    model_ids_text, time_arg, AbsInput, CoreInput, ManagerInput, ProductRow, VoucInput, VoucMode,
};
use runtime::prepare::FSItems;

fn st(v: &[&str]) -> Vec<String> {
    v.iter().map(|s| s.to_string()).collect()
}

fn abs_input() -> AbsInput {
    AbsInput {
        url: "  https://shopee.co.id/product/12/34?x=1 ".to_string(),
        payment: "BCA".to_string(),
        harga_checked: false,
        harga: "99".to_string(),
        file: "akun1".to_string(),
        variasi: "Merah".to_string(),
        variasi_count: 2,
        kurir: "JNE".to_string(),
        jam: "12".to_string(),
        menit: "00".to_string(),
        detik: "00".to_string(),
        mili: "500".to_string(),
        kuan: "1".to_string(),
        token: "".to_string(),
        code_text: "CODE".to_string(),
        promotionid_text: "111".to_string(),
        signature_text: "sig".to_string(),
        collectionid: "col".to_string(),
        code_checked: false,
        shop_checked: false,
        voucher_checked: true,
        cid_checked: true,
    }
}

#[test]
fn first_launcher_commands() {
    assert_eq!(time_arg("1", "2", "3", "4"), "1:2:3.4");
    let cmd = collect_gui_input(&abs_input());
    assert_eq!(
        cmd,
        st(&[
            "start", "abs.exe", "--file", "akun1", "--url", "https://shopee.co.id/product/12/34",
            "--time", "12:00:00.500", "--kurir", "JNE", "--payment", "BCA", "--harga", "",
            "--quantity", "1", "--token", "", "--product", "Merah", "--claim-platform-vouchers",
            "--pro-id", "111", "--sign", "sig",
        ])
    );
    let mut i = abs_input();
    i.variasi_count = 1;
    i.harga_checked = true;
    i.code_checked = true;
    i.shop_checked = true;
    let cmd = collect_gui_input(&i);
    assert_eq!(&cmd[12..14], &st(&["--harga", "99"])[..]);
    assert_eq!(&cmd[18..], &st(&["--shop-vouchers", "--code-shop", "CODE"])[..]);
}

#[test]
fn saver_commands() {
    let i = VoucInput {
        file: "f".to_string(),
        jam: "1".to_string(),
        menit: "2".to_string(),
        detik: "3".to_string(),
        mili: "4".to_string(),
        promotionid_text: "p".to_string(),
        signature_text: "s".to_string(),
        collectionid: "c".to_string(),
    };
    assert_eq!(generate_vouc(&i, VoucMode::Claim), st(&["start", "savevoucher.exe", "--file", "f", "--time", "1:2:3.4", "--mode", "1", "--pro-id", "p", "--sign", "s"]));
    assert_eq!(generate_vouc(&i, VoucMode::Collection), st(&["start", "savevoucher.exe", "--file", "f", "--time", "1:2:3.4", "--mode", "2", "--collectionid", "c"]));
    assert_eq!(generate_vouc(&i, VoucMode::Neither).len(), 6);
    assert!(matches!(launcabs_vouc_mode(true, true), VoucMode::Claim));
    assert!(matches!(launcabs_vouc_mode(false, true), VoucMode::Collection));
    assert!(matches!(launcabs_vouc_mode(false, false), VoucMode::Neither));
    assert!(matches!(core_vouc_mode(true, Some(0)), VoucMode::Claim));
    assert!(matches!(core_vouc_mode(true, Some(2)), VoucMode::Collection));
    assert!(matches!(core_vouc_mode(true, Some(1)), VoucMode::Neither));
    assert!(matches!(core_vouc_mode(false, Some(0)), VoucMode::Neither));
}

#[test]
fn second_launcher_command() {
    let i = CoreInput {
        refe: "https://shopee.co.id/product/1/2".to_string(),
        payment: "P".to_string(),
        harga_checked: true,
        harga: "10".to_string(),
        file: "f".to_string(),
        variasi: "v".to_string(),
        variasi_count: 1,
        kurir: "k".to_string(),
        jam: "0".to_string(),
        menit: "0".to_string(),
        detik: "0".to_string(),
        mili: "0".to_string(),
        kuan: "2".to_string(),
        code_platform_text: "CP".to_string(),
        code_shop_text: "CS".to_string(),
        promotionid_text: "p".to_string(),
        signature_text: "s".to_string(),
        collectionid: "c".to_string(),
        fsv_checked: true,
        coins_checked: false,
        platform_checked: true,
        platform_selected: Some(1),
        shop_checked: true,
    };
    let cmd = core_generate_cmd(&i);
    assert_eq!(&cmd[..6], &st(&["start", "abs.exe", "--file", "f", "--url", "https://shopee.co.id/product/1/2"])[..]);
    assert_eq!(&cmd[16..18], &st(&["--token", ""])[..]);
    assert_eq!(&cmd[18..], &st(&["--fsv-only", "--no-coins", "--platform-vouchers", "--code-platform", "CP", "--shop-vouchers", "--code-shop", "CS"])[..]);
}

fn row(u: &str, q: &str, v: &str, k: &str, c: &str) -> ProductRow {
    ProductRow { url: u.to_string(), quantity: q.to_string(), variasi: v.to_string(), kurir: k.to_string(), code_shop: c.to_string() }
}

#[test]
fn multi_launcher_command() {
    let mut i = ManagerInput {
        rows: vec![row("u1", "1", "v1", "k1", "c1"), row("u2", "2", "v2", "k2", "")],
        payment: "P".to_string(),
        harga_checked: false,
        harga: "5".to_string(),
        file: "f".to_string(),
        jam: "1".to_string(),
        menit: "2".to_string(),
        detik: "3".to_string(),
        mili: "4".to_string(),
        fsv_checked: false,
        platform_checked: true,
        platform_selected: Some(3),
        proid_text: String::new(),
        signature_text: String::new(),
        code_text: String::new(),
        collection_text: String::new(),
        link_text: "https://s/?promotionId=7&signature=g".to_string(),
    };
    let cmd = manager_generate_cmd(&i).unwrap();
    assert_eq!(
        cmd,
        st(&[
            "--file", "f", "--time", "1:2:3.4", "--payment", "P", "--harga", "", "--no-coins",
            "--dump", "--token", "", "--url", "u1", "u2", "--kurir", "k1", "k2", "--quantity", "1",
            "2", "--product", "v1", "v2", "--claim-platform-vouchers", "--pro-id", "7", "--sign",
            "g", "--shop-vouchers", "--code-shop", "c1", "",
        ])
    );
    i.rows.clear();
    assert!(manager_generate_cmd(&i).is_none());
}

#[test]
fn logged_commands_are_quoted() {
    assert_eq!(generate_struct(&st(&["start", "", " ", "a b"])), "\"start\" \" \" \" \" \"a b\"");
    assert_eq!(generate_struct(&Vec::new()), "");
}

#[test]
fn flash_sale_browser() {
    assert_eq!(batch_count(0), 0);
    assert_eq!(batch_count(16), 1);
    assert_eq!(batch_count(17), 2);
    assert_eq!(batch_bounds(17, 0), (0, 16));
    assert_eq!(batch_bounds(17, 1), (16, 17));
    assert_eq!(model_ids_text(&vec![1, -2, 3]), "[1, -2, 3]");
    assert_eq!(model_ids_text(&vec![]), "[]");
    let item = FSItems {
        itemid: 34,
        shopid: 12,
        modelids: None,
        raw_discount: 50,
        price_before_discount: 2_000_000_000,
        stock: 9,
        hidden_price_display: None,
        name: "N".to_string(),
    };
    let r = fs_row(&item);
    assert_eq!((r.name.as_str(), r.model_ids.as_str(), r.estimate.as_str(), r.hidden_price.as_str(), r.stock.as_str()), ("N", "[]", "10.000", "No Hide", "9"));
    assert_eq!(r.link, "https://shopee.co.id/product/12/34");
    assert_eq!(format_eta_secs(5), "5s");
    assert_eq!(format_eta_secs(65), "1m 5s");
    assert_eq!(format_eta_secs(3600), "1h 0m 0s");
    assert_eq!(format_eta_secs(7325), "2h 2m 5s");
}
