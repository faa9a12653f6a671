//! The command lines the launchers start the programs with, built from what
//! the launcher forms hold, and the quoted form in which they are logged.
use vstd::prelude::*;
use crate::prepare::{process_url, url_ids, url_to_voucher_data, voucher_link_data};
use crate::text::{owned, push_str_chars, string_of, trim, trimmed};
use crate::url::{product_page_url, product_page_url_text};
use crate::prepare::{FSItems, ProductInfo};
use crate::cli::{fs_estimate, fs_estimate_value, format_thousands, thousands_text};
use crate::task::in_i64;
use crate::text::{i64_decimal, push_all, signed_decimal, u64_decimal, decimal};

verus! {

/// The texts of a list of strings.
pub open spec fn texts(v: Seq<String>) -> Seq<Seq<char>> {
    v.map_values(|s: String| s@)
}

fn push_text(out: &mut Vec<String>, s: &str)
    ensures
        texts(final(out)@) == texts(old(out)@).push(s@),
{
    out.push(owned(s));
    assert(texts(out@) =~= texts(old(out)@).push(s@));
}

fn push_string(out: &mut Vec<String>, s: String)
    ensures
        texts(final(out)@) == texts(old(out)@).push(s@),
{
    let ghost v = s@;
    out.push(s);
    assert(texts(out@) =~= texts(old(out)@).push(v));
}

/// The task time argument `jam:menit:detik.mili`.
pub open spec fn time_arg_text(jam: Seq<char>, menit: Seq<char>, detik: Seq<char>, mili: Seq<char>) -> Seq<char> {
    jam + ":"@ + menit + ":"@ + detik + "."@ + mili
}

pub fn time_arg(jam: &str, menit: &str, detik: &str, mili: &str) -> (t: String)
    ensures
        t@ == time_arg_text(jam@, menit@, detik@, mili@),
{
    let mut out: Vec<char> = Vec::new();
    push_str_chars(&mut out, jam);
    push_str_chars(&mut out, ":");
    push_str_chars(&mut out, menit);
    push_str_chars(&mut out, ":");
    push_str_chars(&mut out, detik);
    push_str_chars(&mut out, ".");
    push_str_chars(&mut out, mili);
    string_of(out.as_slice())
}

// ---------------------------------------------------------------------------
// The single-product buyer
// ---------------------------------------------------------------------------

/// The start of a command that runs the single-product buyer.
pub open spec fn abs_base_text(
    file: Seq<char>,
    refe: Seq<char>,
    time: Seq<char>,
    kurir: Seq<char>,
    payment: Seq<char>,
    harga: Seq<char>,
    kuan: Seq<char>,
    token: Seq<char>,
    product: Option<Seq<char>>,
) -> Seq<Seq<char>> {
    seq![
        "start"@,
        "abs.exe"@,
        "--file"@,
        file,
        "--url"@,
        refe,
        "--time"@,
        time,
        "--kurir"@,
        kurir,
        "--payment"@,
        payment,
        "--harga"@,
        harga,
        "--quantity"@,
        kuan,
        "--token"@,
        token,
    ] + match product {
        Some(p) => seq!["--product"@, p],
        None => Seq::empty(),
    }
}

fn abs_base(
    file: &str,
    refe: &str,
    time: &str,
    kurir: &str,
    payment: &str,
    harga: &str,
    kuan: &str,
    token: &str,
    product: Option<&str>,
) -> (out: Vec<String>)
    ensures
        texts(out@) == abs_base_text(
            file@,
            refe@,
            time@,
            kurir@,
            payment@,
            harga@,
            kuan@,
            token@,
            match product {
                Some(p) => Some(p@),
                None => None,
            },
        ),
{
    let mut out: Vec<String> = Vec::new();
    push_text(&mut out, "start");
    push_text(&mut out, "abs.exe");
    push_text(&mut out, "--file");
    push_text(&mut out, file);
    push_text(&mut out, "--url");
    push_text(&mut out, refe);
    push_text(&mut out, "--time");
    push_text(&mut out, time);
    push_text(&mut out, "--kurir");
    push_text(&mut out, kurir);
    push_text(&mut out, "--payment");
    push_text(&mut out, payment);
    push_text(&mut out, "--harga");
    push_text(&mut out, harga);
    push_text(&mut out, "--quantity");
    push_text(&mut out, kuan);
    push_text(&mut out, "--token");
    push_text(&mut out, token);
    if let Some(p) = product {
        push_text(&mut out, "--product");
        push_text(&mut out, p);
    }
    assert(texts(out@) =~= abs_base_text(
        file@,
        refe@,
        time@,
        kurir@,
        payment@,
        harga@,
        kuan@,
        token@,
        match product {
            Some(p) => Some(p@),
            None => None,
        },
    ));
    out
}

/// What the first launcher's form holds.
pub struct AbsInput {
    pub url: String,
    pub payment: String,
    pub harga_checked: bool,
    pub harga: String,
    pub file: String,
    pub variasi: String,
    /// How many variations the variation list offers.
    pub variasi_count: usize,
    pub kurir: String,
    pub jam: String,
    pub menit: String,
    pub detik: String,
    pub mili: String,
    pub kuan: String,
    pub token: String,
    pub code_text: String,
    pub promotionid_text: String,
    pub signature_text: String,
    pub collectionid: String,
    pub code_checked: bool,
    pub shop_checked: bool,
    pub voucher_checked: bool,
    pub cid_checked: bool,
}

/// The product page that a link stands for (after trimming it).
pub open spec fn reference_text(url: Seq<char>) -> Seq<char> {
    product_page_url_text(ProductInfo { shop_id: url_ids(trim(url)).0, item_id: url_ids(trim(url)).1 })
}

fn reference_of(url: &str) -> (r: String)
    ensures
        r@ == reference_text(url@),
{
    let t = string_of(trimmed(url).as_slice());
    let info = process_url(t.as_str());
    product_page_url(&info)
}

/// The voucher arguments of the first launcher: a code (for the shop where
/// the shop box is ticked, otherwise for the platform), else a promotion to
/// claim, else a collection.
pub open spec fn abs_voucher_args_text(i: AbsInput) -> Seq<Seq<char>> {
    if i.code_checked {
        if i.shop_checked {
            seq!["--shop-vouchers"@, "--code-shop"@, i.code_text@]
        } else {
            seq!["--platform-vouchers"@, "--code-platform"@, i.code_text@]
        }
    } else if i.voucher_checked {
        seq!["--claim-platform-vouchers"@, "--pro-id"@, i.promotionid_text@, "--sign"@, i.signature_text@]
    } else if i.cid_checked {
        seq!["--collection-vouchers"@, "--collectionid"@, i.collectionid@]
    } else {
        Seq::empty()
    }
}

/// The command the first launcher starts the single-product buyer with.
pub open spec fn collect_gui_input_text(i: AbsInput) -> Seq<Seq<char>> {
    abs_base_text(
        i.file@,
        reference_text(i.url@),
        time_arg_text(i.jam@, i.menit@, i.detik@, i.mili@),
        i.kurir@,
        i.payment@,
        if i.harga_checked {
            i.harga@
        } else {
            Seq::empty()
        },
        i.kuan@,
        i.token@,
        if i.variasi_count > 1 {
            Some(i.variasi@)
        } else {
            None
        },
    ) + abs_voucher_args_text(i)
}

pub fn collect_gui_input(i: &AbsInput) -> (out: Vec<String>)
    ensures
        texts(out@) == collect_gui_input_text(*i),
{
    let refe = reference_of(i.url.as_str());
    let time = time_arg(i.jam.as_str(), i.menit.as_str(), i.detik.as_str(), i.mili.as_str());
    let harga: &str = if i.harga_checked {
        i.harga.as_str()
    } else {
        ""
    };
    proof {
        reveal_strlit("");
    }
    let product: Option<&str> = if i.variasi_count > 1 {
        Some(i.variasi.as_str())
    } else {
        None
    };
    let mut out = abs_base(
        i.file.as_str(),
        refe.as_str(),
        time.as_str(),
        i.kurir.as_str(),
        i.payment.as_str(),
        harga,
        i.kuan.as_str(),
        i.token.as_str(),
        product,
    );
    let ghost base = texts(out@);
    assert(refe@ == reference_text(i.url@));
    assert(time@ == time_arg_text(i.jam@, i.menit@, i.detik@, i.mili@));
    assert(harga@ == if i.harga_checked {
        i.harga@
    } else {
        Seq::<char>::empty()
    });
    assert(base == abs_base_text(
        i.file@,
        reference_text(i.url@),
        time_arg_text(i.jam@, i.menit@, i.detik@, i.mili@),
        i.kurir@,
        i.payment@,
        if i.harga_checked {
            i.harga@
        } else {
            Seq::empty()
        },
        i.kuan@,
        i.token@,
        if i.variasi_count > 1 {
            Some(i.variasi@)
        } else {
            None
        },
    ));
    if i.code_checked {
        if i.shop_checked {
            push_text(&mut out, "--shop-vouchers");
            push_text(&mut out, "--code-shop");
        } else {
            push_text(&mut out, "--platform-vouchers");
            push_text(&mut out, "--code-platform");
        }
        push_text(&mut out, i.code_text.as_str());
    } else if i.voucher_checked {
        push_text(&mut out, "--claim-platform-vouchers");
        push_text(&mut out, "--pro-id");
        push_text(&mut out, i.promotionid_text.as_str());
        push_text(&mut out, "--sign");
        push_text(&mut out, i.signature_text.as_str());
    } else if i.cid_checked {
        push_text(&mut out, "--collection-vouchers");
        push_text(&mut out, "--collectionid");
        push_text(&mut out, i.collectionid.as_str());
    }
    assert(texts(out@) =~= base + abs_voucher_args_text(*i));
    out
}

// ---------------------------------------------------------------------------
// The voucher saver
// ---------------------------------------------------------------------------

/// The start of a command that runs the voucher saver.
pub open spec fn vouc_base_text(file: Seq<char>, time: Seq<char>) -> Seq<Seq<char>> {
    seq!["start"@, "savevoucher.exe"@, "--file"@, file, "--time"@, time]
}

/// What a voucher-saver form holds.
pub struct VoucInput {
    pub file: String,
    pub jam: String,
    pub menit: String,
    pub detik: String,
    pub mili: String,
    pub promotionid_text: String,
    pub signature_text: String,
    pub collectionid: String,
}

/// The voucher saver's arguments: a promotion to claim (mode 1) or a
/// collection (mode 2), or neither.
pub enum VoucMode {
    Claim,
    Collection,
    Neither,
}

/// The command the launchers start the voucher saver with.
pub open spec fn generate_vouc_text(i: VoucInput, mode: VoucMode) -> Seq<Seq<char>> {
    vouc_base_text(i.file@, time_arg_text(i.jam@, i.menit@, i.detik@, i.mili@)) + match mode {
        VoucMode::Claim => seq!["--mode"@, "1"@, "--pro-id"@, i.promotionid_text@, "--sign"@, i.signature_text@],
        VoucMode::Collection => seq!["--mode"@, "2"@, "--collectionid"@, i.collectionid@],
        VoucMode::Neither => Seq::empty(),
    }
}

pub fn generate_vouc(i: &VoucInput, mode: VoucMode) -> (out: Vec<String>)
    ensures
        texts(out@) == generate_vouc_text(*i, mode),
{
    let time = time_arg(i.jam.as_str(), i.menit.as_str(), i.detik.as_str(), i.mili.as_str());
    let mut out: Vec<String> = Vec::new();
    push_text(&mut out, "start");
    push_text(&mut out, "savevoucher.exe");
    push_text(&mut out, "--file");
    push_text(&mut out, i.file.as_str());
    push_text(&mut out, "--time");
    push_string(&mut out, time);
    match mode {
        VoucMode::Claim => {
            push_text(&mut out, "--mode");
            push_text(&mut out, "1");
            push_text(&mut out, "--pro-id");
            push_text(&mut out, i.promotionid_text.as_str());
            push_text(&mut out, "--sign");
            push_text(&mut out, i.signature_text.as_str());
        },
        VoucMode::Collection => {
            push_text(&mut out, "--mode");
            push_text(&mut out, "2");
            push_text(&mut out, "--collectionid");
            push_text(&mut out, i.collectionid.as_str());
        },
        VoucMode::Neither => {},
    }
    assert(texts(out@) =~= generate_vouc_text(*i, mode));
    out
}

/// The saver mode of the first launcher's check boxes: the promotion box
/// first, then the collection box.
pub fn launcabs_vouc_mode(voucher_checked: bool, cid_checked: bool) -> (m: VoucMode)
    ensures
        voucher_checked ==> m is Claim,
        !voucher_checked && cid_checked ==> m is Collection,
        !voucher_checked && !cid_checked ==> m is Neither,
{
    if voucher_checked {
        VoucMode::Claim
    } else if cid_checked {
        VoucMode::Collection
    } else {
        VoucMode::Neither
    }
}

/// The saver mode of the second launcher: with the platform box ticked,
/// entry 0 of its list claims a promotion and entry 2 reads a collection.
pub fn core_vouc_mode(platform_checked: bool, selected: Option<usize>) -> (m: VoucMode)
    ensures
        platform_checked && selected == Some(0usize) ==> m is Claim,
        platform_checked && selected == Some(2usize) ==> m is Collection,
        !(platform_checked && (selected == Some(0usize) || selected == Some(2usize))) ==> m is Neither,
{
    if platform_checked {
        match selected {
            Some(0) => VoucMode::Claim,
            Some(2) => VoucMode::Collection,
            _ => VoucMode::Neither,
        }
    } else {
        VoucMode::Neither
    }
}

// ---------------------------------------------------------------------------
// The second launcher
// ---------------------------------------------------------------------------

/// What the second launcher's form holds (the product link already turned
/// into the product page address `refe`).
pub struct CoreInput {
    pub refe: String,
    pub payment: String,
    pub harga_checked: bool,
    pub harga: String,
    pub file: String,
    pub variasi: String,
    pub variasi_count: usize,
    pub kurir: String,
    pub jam: String,
    pub menit: String,
    pub detik: String,
    pub mili: String,
    pub kuan: String,
    pub code_platform_text: String,
    pub code_shop_text: String,
    pub promotionid_text: String,
    pub signature_text: String,
    pub collectionid: String,
    pub fsv_checked: bool,
    pub coins_checked: bool,
    pub platform_checked: bool,
    pub platform_selected: Option<usize>,
    pub shop_checked: bool,
}

/// The platform-voucher arguments for an entry of the platform list: claim
/// a promotion, a code, a collection.
pub open spec fn platform_args_text(
    selected: Option<usize>,
    promotionid: Seq<char>,
    signature: Seq<char>,
    code: Seq<char>,
    collectionid: Seq<char>,
) -> Seq<Seq<char>> {
    match selected {
        Some(0usize) => seq!["--claim-platform-vouchers"@, "--pro-id"@, promotionid, "--sign"@, signature],
        Some(1usize) => seq!["--platform-vouchers"@, "--code-platform"@, code],
        Some(2usize) => seq!["--collection-vouchers"@, "--collectionid"@, collectionid],
        _ => Seq::empty(),
    }
}

/// The arguments the second launcher adds after the base command.
pub open spec fn core_extra_text(i: CoreInput) -> Seq<Seq<char>> {
    (if i.fsv_checked {
        seq!["--fsv-only"@]
    } else {
        Seq::empty()
    }) + (if !i.coins_checked {
        seq!["--no-coins"@]
    } else {
        Seq::empty()
    }) + (if i.platform_checked {
        platform_args_text(
            i.platform_selected,
            i.promotionid_text@,
            i.signature_text@,
            i.code_platform_text@,
            i.collectionid@,
        )
    } else {
        Seq::empty()
    }) + (if i.shop_checked {
        seq!["--shop-vouchers"@, "--code-shop"@, i.code_shop_text@]
    } else {
        Seq::empty()
    })
}

/// The command the second launcher starts the single-product buyer with.
pub open spec fn core_generate_cmd_text(i: CoreInput) -> Seq<Seq<char>> {
    abs_base_text(
        i.file@,
        i.refe@,
        time_arg_text(i.jam@, i.menit@, i.detik@, i.mili@),
        i.kurir@,
        i.payment@,
        if i.harga_checked {
            i.harga@
        } else {
            Seq::empty()
        },
        i.kuan@,
        Seq::empty(),
        if i.variasi_count > 1 {
            Some(i.variasi@)
        } else {
            None
        },
    ) + core_extra_text(i)
}

fn push_platform_args(
    out: &mut Vec<String>,
    selected: Option<usize>,
    promotionid: &str,
    signature: &str,
    code: &str,
    collectionid: &str,
)
    ensures
        texts(final(out)@) == texts(old(out)@) + platform_args_text(
            selected,
            promotionid@,
            signature@,
            code@,
            collectionid@,
        ),
{
    match selected {
        Some(0) => {
            push_text(out, "--claim-platform-vouchers");
            push_text(out, "--pro-id");
            push_text(out, promotionid);
            push_text(out, "--sign");
            push_text(out, signature);
        },
        Some(1) => {
            push_text(out, "--platform-vouchers");
            push_text(out, "--code-platform");
            push_text(out, code);
        },
        Some(2) => {
            push_text(out, "--collection-vouchers");
            push_text(out, "--collectionid");
            push_text(out, collectionid);
        },
        _ => {},
    }
    assert(texts(out@) =~= texts(old(out)@) + platform_args_text(
        selected,
        promotionid@,
        signature@,
        code@,
        collectionid@,
    ));
}

fn push_core_extra(out: &mut Vec<String>, i: &CoreInput)
    ensures
        texts(final(out)@) == texts(old(out)@) + core_extra_text(*i),
{
    let ghost base = texts(out@);
    if i.fsv_checked {
        push_text(out, "--fsv-only");
    }
    let ghost after_fsv = texts(out@);
    assert(after_fsv =~= base + if i.fsv_checked {
        seq!["--fsv-only"@]
    } else {
        Seq::<Seq<char>>::empty()
    });
    if !i.coins_checked {
        push_text(out, "--no-coins");
    }
    let ghost after_coins = texts(out@);
    assert(after_coins =~= after_fsv + if !i.coins_checked {
        seq!["--no-coins"@]
    } else {
        Seq::<Seq<char>>::empty()
    });
    if i.platform_checked {
        push_platform_args(
            out,
            i.platform_selected,
            i.promotionid_text.as_str(),
            i.signature_text.as_str(),
            i.code_platform_text.as_str(),
            i.collectionid.as_str(),
        );
    }
    let ghost after_platform = texts(out@);
    assert(after_platform =~= after_coins + if i.platform_checked {
        platform_args_text(
            i.platform_selected,
            i.promotionid_text@,
            i.signature_text@,
            i.code_platform_text@,
            i.collectionid@,
        )
    } else {
        Seq::<Seq<char>>::empty()
    });
    if i.shop_checked {
        push_text(out, "--shop-vouchers");
        push_text(out, "--code-shop");
        push_text(out, i.code_shop_text.as_str());
    }
    assert(texts(out@) =~= after_platform + if i.shop_checked {
        seq!["--shop-vouchers"@, "--code-shop"@, i.code_shop_text@]
    } else {
        Seq::<Seq<char>>::empty()
    });
    assert(texts(out@) =~= base + core_extra_text(*i));
}

#[verifier::rlimit(60)]
pub fn core_generate_cmd(i: &CoreInput) -> (out: Vec<String>)
    ensures
        texts(out@) == core_generate_cmd_text(*i),
{
    let time = time_arg(i.jam.as_str(), i.menit.as_str(), i.detik.as_str(), i.mili.as_str());
    proof {
        reveal_strlit("");
    }
    let harga: &str = if i.harga_checked {
        i.harga.as_str()
    } else {
        ""
    };
    let product: Option<&str> = if i.variasi_count > 1 {
        Some(i.variasi.as_str())
    } else {
        None
    };
    let mut out = abs_base(
        i.file.as_str(),
        i.refe.as_str(),
        time.as_str(),
        i.kurir.as_str(),
        i.payment.as_str(),
        harga,
        i.kuan.as_str(),
        "",
        product,
    );
    let ghost base = texts(out@);
    assert(time@ == time_arg_text(i.jam@, i.menit@, i.detik@, i.mili@));
    assert(harga@ == if i.harga_checked {
        i.harga@
    } else {
        Seq::<char>::empty()
    });
    assert(""@ == Seq::<char>::empty());
    assert(base == abs_base_text(
        i.file@,
        i.refe@,
        time_arg_text(i.jam@, i.menit@, i.detik@, i.mili@),
        i.kurir@,
        i.payment@,
        if i.harga_checked {
            i.harga@
        } else {
            Seq::empty()
        },
        i.kuan@,
        Seq::empty(),
        if i.variasi_count > 1 {
            Some(i.variasi@)
        } else {
            None
        },
    ));
    push_core_extra(&mut out, i);
    assert(texts(out@) =~= base + core_extra_text(*i));
    out
}

// ---------------------------------------------------------------------------
// The multi-product launcher
// ---------------------------------------------------------------------------

/// One row of the multi-product list: link, quantity, variation, courier
/// and shop voucher code.
pub struct ProductRow {
    pub url: String,
    pub quantity: String,
    pub variasi: String,
    pub kurir: String,
    pub code_shop: String,
}

/// What the multi-product launcher's form holds.
pub struct ManagerInput {
    pub rows: Vec<ProductRow>,
    pub payment: String,
    pub harga_checked: bool,
    pub harga: String,
    pub file: String,
    pub jam: String,
    pub menit: String,
    pub detik: String,
    pub mili: String,
    pub fsv_checked: bool,
    pub platform_checked: bool,
    pub platform_selected: Option<usize>,
    pub proid_text: String,
    pub signature_text: String,
    pub code_text: String,
    pub collection_text: String,
    pub link_text: String,
}

/// Field `field` of a row: 0 the link, 1 the quantity, 2 the variation,
/// 3 the courier, otherwise the shop voucher code.
pub open spec fn row_field(r: ProductRow, field: u8) -> Seq<char> {
    if field == 0 {
        r.url@
    } else if field == 1 {
        r.quantity@
    } else if field == 2 {
        r.variasi@
    } else if field == 3 {
        r.kurir@
    } else {
        r.code_shop@
    }
}

/// Field `field` of every row, in order.
pub open spec fn row_fields(rows: Seq<ProductRow>, field: u8) -> Seq<Seq<char>> {
    rows.map_values(|r: ProductRow| row_field(r, field))
}

/// The platform arguments of the multi-product launcher; entry 3 claims
/// the promotion of a voucher link.
pub open spec fn manager_platform_text(i: ManagerInput) -> Seq<Seq<char>> {
    if !i.platform_checked {
        Seq::empty()
    } else if i.platform_selected == Some(3usize) {
        seq![
            "--claim-platform-vouchers"@,
            "--pro-id"@,
            voucher_link_data(i.link_text@).0,
            "--sign"@,
            voucher_link_data(i.link_text@).1,
        ]
    } else {
        platform_args_text(
            i.platform_selected,
            i.proid_text@,
            i.signature_text@,
            i.code_text@,
            i.collection_text@,
        )
    }
}

/// The command the multi-product launcher starts the multi-product buyer
/// with: `None` when the list is empty.
pub open spec fn manager_generate_cmd_text(i: ManagerInput) -> Option<Seq<Seq<char>>> {
    if i.rows@.len() == 0 {
        None
    } else {
        Some(
            manager_head_text(
                i.file@,
                time_arg_text(i.jam@, i.menit@, i.detik@, i.mili@),
                i.payment@,
                if i.harga_checked {
                    i.harga@
                } else {
                    Seq::empty()
                },
            ) + row_fields(i.rows@, 0) + seq!["--kurir"@] + row_fields(i.rows@, 3) + seq!["--quantity"@]
                + row_fields(i.rows@, 1) + seq!["--product"@] + row_fields(i.rows@, 2) + (if i.harga_checked {
                seq!["--bypass"@]
            } else {
                Seq::empty()
            }) + (if i.fsv_checked {
                seq!["--fsv-only"@]
            } else {
                Seq::empty()
            }) + manager_platform_text(i) + seq!["--shop-vouchers"@, "--code-shop"@] + row_fields(i.rows@, 4),
        )
    }
}

fn push_row_field(out: &mut Vec<String>, rows: &Vec<ProductRow>, field: u8)
    ensures
        texts(final(out)@) == texts(old(out)@) + row_fields(rows@, field),
{
    let n = rows.len();
    let mut k: usize = 0;
    while k < n
        invariant
            n == rows@.len(),
            k <= n,
            texts(out@) == texts(old(out)@) + row_fields(rows@.take(k as int), field),
        decreases n - k,
    {
        let r = &rows[k];
        let s: &str = if field == 0 {
            r.url.as_str()
        } else if field == 1 {
            r.quantity.as_str()
        } else if field == 2 {
            r.variasi.as_str()
        } else if field == 3 {
            r.kurir.as_str()
        } else {
            r.code_shop.as_str()
        };
        assert(s@ == row_field(rows@[k as int], field));
        push_text(out, s);
        assert(row_fields(rows@.take(k + 1), field) =~= row_fields(rows@.take(k as int), field).push(s@));
        k = k + 1;
    }
    assert(rows@.take(n as int) =~= rows@);
}

/// The fixed start of a multi-product command, up to `--url`.
pub open spec fn manager_head_text(file: Seq<char>, time: Seq<char>, payment: Seq<char>, harga: Seq<char>) -> Seq<Seq<char>> {
    seq![
        "--file"@,
        file,
        "--time"@,
        time,
        "--payment"@,
        payment,
        "--harga"@,
        harga,
        "--no-coins"@,
        "--dump"@,
        "--token"@,
        Seq::empty(),
        "--url"@,
    ]
}

fn manager_head(file: &str, time: &str, payment: &str, harga: &str) -> (out: Vec<String>)
    ensures
        texts(out@) == manager_head_text(file@, time@, payment@, harga@),
{
    proof {
        reveal_strlit("");
    }
    let mut out: Vec<String> = Vec::new();
    push_text(&mut out, "--file");
    push_text(&mut out, file);
    push_text(&mut out, "--time");
    push_text(&mut out, time);
    push_text(&mut out, "--payment");
    push_text(&mut out, payment);
    push_text(&mut out, "--harga");
    push_text(&mut out, harga);
    push_text(&mut out, "--no-coins");
    push_text(&mut out, "--dump");
    push_text(&mut out, "--token");
    push_text(&mut out, "");
    push_text(&mut out, "--url");
    assert(""@ =~= Seq::<char>::empty());
    assert(texts(out@) =~= manager_head_text(file@, time@, payment@, harga@));
    out
}

#[verifier::rlimit(60)]
pub fn manager_generate_cmd(i: &ManagerInput) -> (out: Option<Vec<String>>)
    ensures
        match manager_generate_cmd_text(*i) {
            None => out is None,
            Some(t) => out matches Some(v) && texts(v@) == t,
        },
{
    if i.rows.len() == 0 {
        return None;
    }
    proof {
        reveal_strlit("");
    }
    let time = time_arg(i.jam.as_str(), i.menit.as_str(), i.detik.as_str(), i.mili.as_str());
    let harga: &str = if i.harga_checked {
        i.harga.as_str()
    } else {
        ""
    };
    assert(time@ == time_arg_text(i.jam@, i.menit@, i.detik@, i.mili@));
    assert(harga@ == if i.harga_checked {
        i.harga@
    } else {
        Seq::<char>::empty()
    });
    let mut out = manager_head(i.file.as_str(), time.as_str(), i.payment.as_str(), harga);
    let ghost head = texts(out@);
    push_row_field(&mut out, &i.rows, 0);
    push_text(&mut out, "--kurir");
    let ghost g1 = texts(out@);
    assert(g1 =~= head + row_fields(i.rows@, 0) + seq!["--kurir"@]);
    push_row_field(&mut out, &i.rows, 3);
    push_text(&mut out, "--quantity");
    let ghost g2 = texts(out@);
    assert(g2 =~= g1 + row_fields(i.rows@, 3) + seq!["--quantity"@]);
    push_row_field(&mut out, &i.rows, 1);
    push_text(&mut out, "--product");
    let ghost g3 = texts(out@);
    assert(g3 =~= g2 + row_fields(i.rows@, 1) + seq!["--product"@]);
    push_row_field(&mut out, &i.rows, 2);
    let ghost g4 = texts(out@);
    if i.harga_checked {
        push_text(&mut out, "--bypass");
    }
    let ghost before_options = texts(out@);
    assert(before_options =~= g4 + if i.harga_checked {
        seq!["--bypass"@]
    } else {
        Seq::<Seq<char>>::empty()
    });
    if i.fsv_checked {
        push_text(&mut out, "--fsv-only");
    }
    let ghost before_platform = texts(out@);
    assert(before_platform =~= before_options + if i.fsv_checked {
        seq!["--fsv-only"@]
    } else {
        Seq::<Seq<char>>::empty()
    });
    if i.platform_checked {
        if i.platform_selected == Some(3usize) {
            let (proid, sign) = url_to_voucher_data(i.link_text.as_str());
            push_text(&mut out, "--claim-platform-vouchers");
            push_text(&mut out, "--pro-id");
            push_string(&mut out, proid);
            push_text(&mut out, "--sign");
            push_string(&mut out, sign);
            assert(texts(out@) =~= before_platform + manager_platform_text(*i));
        } else {
            push_platform_args(
                &mut out,
                i.platform_selected,
                i.proid_text.as_str(),
                i.signature_text.as_str(),
                i.code_text.as_str(),
                i.collection_text.as_str(),
            );
        }
    }
    assert(texts(out@) =~= before_platform + manager_platform_text(*i));
    let ghost g5 = texts(out@);
    push_text(&mut out, "--shop-vouchers");
    push_text(&mut out, "--code-shop");
    push_row_field(&mut out, &i.rows, 4);
    assert(texts(out@) =~= g5 + seq!["--shop-vouchers"@, "--code-shop"@] + row_fields(i.rows@, 4));
    assert(texts(out@) =~= manager_generate_cmd_text(*i)->0);
    Some(out)
}

// ---------------------------------------------------------------------------
// The logged form of a command
// ---------------------------------------------------------------------------

/// An argument as the launchers log it: in double quotes, a blank argument
/// as a quoted space.
pub open spec fn quoted(s: Seq<char>) -> Seq<char> {
    if trim(s).len() == 0 {
        "\" \""@
    } else {
        "\""@ + s + "\""@
    }
}

/// The quoted arguments joined by single spaces.
pub open spec fn joined(args: Seq<Seq<char>>) -> Seq<char>
    decreases args.len(),
{
    if args.len() == 0 {
        Seq::empty()
    } else if args.len() == 1 {
        quoted(args[0])
    } else {
        joined(args.drop_last()) + " "@ + quoted(args.last())
    }
}

pub fn generate_struct(command: &Vec<String>) -> (line: String)
    ensures
        line@ == joined(texts(command@)),
{
    let n = command.len();
    let mut out: Vec<char> = Vec::new();
    let mut i: usize = 0;
    while i < n
        invariant
            n == command@.len(),
            i <= n,
            out@ == joined(texts(command@.take(i as int))),
        decreases n - i,
    {
        let s = command[i].as_str();
        if i > 0 {
            push_str_chars(&mut out, " ");
        }
        let t = trimmed(s);
        if t.len() == 0 {
            push_str_chars(&mut out, "\" \"");
        } else {
            push_str_chars(&mut out, "\"");
            push_str_chars(&mut out, s);
            push_str_chars(&mut out, "\"");
        }
        proof {
            let prev = texts(command@.take(i as int));
            let next = texts(command@.take(i + 1));
            assert(next =~= prev.push(s@));
            assert(next.drop_last() =~= prev);
        }
        i = i + 1;
    }
    assert(command@.take(n as int) =~= command@);
    string_of(out.as_slice())
}

// ---------------------------------------------------------------------------
// The flash-sale browser
// ---------------------------------------------------------------------------

/// How many lookups of at most 16 items a list of `len` items takes.
pub open spec fn batch_count_value(len: int) -> int {
    (len + 15) / 16
}

pub fn batch_count(len: usize) -> (n: usize)
    requires
        len <= usize::MAX - 15,
    ensures
        n == batch_count_value(len as int),
{
    (len + 15) / 16
}

/// The items of lookup `k`: positions `16k` up to `16k + 16` (fewer in
/// the last lookup).
pub fn batch_bounds(len: usize, k: usize) -> (r: (usize, usize))
    requires
        k < batch_count_value(len as int),
    ensures
        r.0 == 16 * k,
        r.1 == if 16 * k + 16 <= len {
            16 * k + 16
        } else {
            len as int
        },
        r.0 < r.1 <= len,
{
    assert(16 * k < len) by (nonlinear_arith)
        requires
            k < (len + 15) / 16,
    ;
    let start = 16 * k;
    let end = if len - start >= 16 {
        start + 16
    } else {
        len
    };
    (start, end)
}

/// The list of model ids as `{:?}` writes it: `[1, 2, 3]`.
pub open spec fn ids_text(ids: Seq<i64>) -> Seq<char> {
    "["@ + ids_joined(ids) + "]"@
}

pub open spec fn ids_joined(ids: Seq<i64>) -> Seq<char>
    decreases ids.len(),
{
    if ids.len() == 0 {
        Seq::empty()
    } else if ids.len() == 1 {
        signed_decimal(ids[0] as int)
    } else {
        ids_joined(ids.drop_last()) + ", "@ + signed_decimal(ids.last() as int)
    }
}

pub fn model_ids_text(ids: &Vec<i64>) -> (t: String)
    ensures
        t@ == ids_text(ids@),
{
    let n = ids.len();
    let mut out: Vec<char> = Vec::new();
    push_str_chars(&mut out, "[");
    let mut i: usize = 0;
    while i < n
        invariant
            n == ids@.len(),
            i <= n,
            out@ == "["@ + ids_joined(ids@.take(i as int)),
        decreases n - i,
    {
        if i > 0 {
            push_str_chars(&mut out, ", ");
        }
        push_all(&mut out, &i64_decimal(ids[i]));
        proof {
            assert(ids@.take(i + 1).drop_last() =~= ids@.take(i as int));
        }
        i = i + 1;
    }
    assert(ids@.take(n as int) =~= ids@);
    push_str_chars(&mut out, "]");
    string_of(out.as_slice())
}

/// One row of the flash-sale list: name, model ids, estimated price,
/// hidden price, stock and product link.
pub struct FsRow {
    pub name: String,
    pub model_ids: String,
    pub estimate: String,
    pub hidden_price: String,
    pub stock: String,
    pub link: String,
}

/// The row of a flash-sale item (no model ids read as an empty list, no
/// hidden price as `No Hide`).
pub fn fs_row(item: &FSItems) -> (row: FsRow)
    requires
        in_i64(100 - item.raw_discount),
        in_i64(item.price_before_discount * (100 - item.raw_discount)),
    ensures
        row.name@ == item.name@,
        row.model_ids@ == ids_text(match item.modelids {
            Some(v) => v@,
            None => Seq::empty(),
        }),
        row.estimate@ == thousands_text(fs_estimate_value(item.price_before_discount as int, item.raw_discount as int)),
        row.hidden_price@ == match item.hidden_price_display {
            Some(h) => h@,
            None => "No Hide"@,
        },
        row.stock@ == signed_decimal(item.stock as int),
        row.link@ == product_page_url_text(ProductInfo { shop_id: item.shopid, item_id: item.itemid }),
{
    let ids = match &item.modelids {
        Some(v) => model_ids_text(v),
        None => {
            let empty: Vec<i64> = Vec::new();
            assert(empty@ =~= Seq::<i64>::empty());
            model_ids_text(&empty)
        },
    };
    let hidden = match &item.hidden_price_display {
        Some(h) => h.clone(),
        None => owned("No Hide"),
    };
    FsRow {
        name: item.name.clone(),
        model_ids: ids,
        estimate: format_thousands(fs_estimate(item.price_before_discount, item.raw_discount)),
        hidden_price: hidden,
        stock: string_of(i64_decimal(item.stock).as_slice()),
        link: product_page_url(&ProductInfo { shop_id: item.shopid, item_id: item.itemid }),
    }
}

/// A remaining time in whole seconds as the progress line shows it:
/// `Ns`, `Mm Ns` or `Hh Mm Ns`.
pub open spec fn eta_text(total: nat) -> Seq<char> {
    let h = total / 3600;
    let m = (total % 3600) / 60;
    let s = total % 60;
    if h == 0 && m == 0 {
        decimal(s) + "s"@
    } else if h == 0 {
        decimal(m) + "m "@ + decimal(s) + "s"@
    } else {
        decimal(h) + "h "@ + decimal(m) + "m "@ + decimal(s) + "s"@
    }
}

pub fn format_eta_secs(total: u64) -> (t: String)
    ensures
        t@ == eta_text(total as nat),
{
    let h = total / 3600;
    let m = (total % 3600) / 60;
    let s = total % 60;
    let mut out: Vec<char> = Vec::new();
    if h == 0 && m == 0 {
        push_all(&mut out, &u64_decimal(s));
        push_str_chars(&mut out, "s");
    } else if h == 0 {
        push_all(&mut out, &u64_decimal(m));
        push_str_chars(&mut out, "m ");
        push_all(&mut out, &u64_decimal(s));
        push_str_chars(&mut out, "s");
    } else {
        push_all(&mut out, &u64_decimal(h));
        push_str_chars(&mut out, "h ");
        push_all(&mut out, &u64_decimal(m));
        push_str_chars(&mut out, "m ");
        push_all(&mut out, &u64_decimal(s));
        push_str_chars(&mut out, "s");
    }
    string_of(out.as_slice())
}

} // verus!
