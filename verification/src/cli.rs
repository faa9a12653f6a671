//! What the command-line buyers show and decide: prices with thousands
//! separators, the countdown, the thread count, the checks on the command
//! line, the choice of variation, courier and payment, the price limit, the
//! voucher to use, and the retries of an order.
use vstd::prelude::*;
use crate::prepare::{FSItems, ModelInfo, PaymentInfo, ShippingInfo};
use crate::task::{div_toward_zero, in_i64};
use crate::text::{
    chars_of, chars_eq, decimal, i64_decimal, is_digit, lemma_decimal_facts, parse_i64,
    parse_i64_chars, parse_usize, parse_usize_chars, push_all, push_str_chars, remove_char,
    remove_char_chars, signed_decimal, string_of, trim, trim_chars, trimmed, u64_decimal,
};
use crate::voucher::Vouchers;

verus! {

// ---------------------------------------------------------------------------
// Thousands separators
// ---------------------------------------------------------------------------

/// A dot goes before position `i` of a text of length `len` when a multiple
/// of three characters follows from there.
pub open spec fn dot_before(len: int, i: int) -> bool {
    i > 0 && (len - i) % 3 == 0
}

/// The first `i` characters of `d`, each preceded by a dot where
/// `dot_before` says so.
pub open spec fn grouped_prefix(d: Seq<char>, i: int) -> Seq<char>
    decreases i,
{
    if i <= 0 {
        Seq::empty()
    } else {
        grouped_prefix(d, i - 1) + (if dot_before(d.len() as int, i - 1) {
            seq!['.']
        } else {
            Seq::empty()
        }) + seq![d[i - 1]]
    }
}

/// The decimal text of `num` with a dot before each group of three
/// characters counted from the end (the sign counts as a character).
pub open spec fn thousands_text(num: int) -> Seq<char> {
    grouped_prefix(signed_decimal(num), signed_decimal(num).len() as int)
}

pub fn format_thousands(num: i64) -> (s: String)
    ensures
        s@ == thousands_text(num as int),
{
    let d = i64_decimal(num);
    let len = d.len();
    let mut out: Vec<char> = Vec::new();
    let mut i: usize = 0;
    while i < len
        invariant
            len == d@.len(),
            d@ == signed_decimal(num as int),
            i <= len,
            out@ == grouped_prefix(d@, i as int),
        decreases len - i,
    {
        if i > 0 && (len - i) % 3 == 0 {
            out.push('.');
        }
        out.push(d[i]);
        proof {
            let sep = if dot_before(len as int, i as int) {
                seq!['.']
            } else {
                Seq::<char>::empty()
            };
            assert(out@ =~= grouped_prefix(d@, i as int) + sep + seq![d@[i as int]]);
        }
        i = i + 1;
    }
    string_of(out.as_slice())
}

/// The decimal text of a number holds no dot.
proof fn lemma_signed_decimal_no_dot(n: int)
    ensures
        forall|k: int| 0 <= k < signed_decimal(n).len() ==> #[trigger] signed_decimal(n)[k] != '.',
{
    let m: nat = if n < 0 {
        (-n) as nat
    } else {
        n as nat
    };
    lemma_decimal_facts(m);
    assert forall|k: int| 0 <= k < signed_decimal(n).len() implies #[trigger] signed_decimal(n)[k] != '.' by {
        if n < 0 {
            if k > 0 {
                assert(signed_decimal(n)[k] == decimal(m)[k - 1]);
                assert(is_digit(decimal(m)[k - 1]));
            }
        } else {
            assert(is_digit(decimal(m)[k]));
        }
    }
}

proof fn lemma_grouped_prefix_undotted(d: Seq<char>, i: int)
    requires
        0 <= i <= d.len(),
        forall|k: int| 0 <= k < d.len() ==> #[trigger] d[k] != '.',
    ensures
        remove_char(grouped_prefix(d, i), '.') == d.take(i),
    decreases i,
{
    broadcast use Seq::filter_distributes_over_add;
    if i > 0 {
        lemma_grouped_prefix_undotted(d, i - 1);
        let sep = if dot_before(d.len() as int, i - 1) {
            seq!['.']
        } else {
            Seq::<char>::empty()
        };
        reveal_with_fuel(Seq::filter, 2);
        assert(sep.filter(|x: char| x != '.') =~= Seq::<char>::empty());
        assert(seq![d[i - 1]].filter(|x: char| x != '.') =~= seq![d[i - 1]]) by {
            assert(seq![d[i - 1]].drop_last() =~= Seq::<char>::empty());
        }
        assert(d.take(i) =~= d.take(i - 1) + seq![d[i - 1]]);
    } else {
        reveal_with_fuel(Seq::filter, 1);
        assert(d.take(0) =~= Seq::<char>::empty());
    }
}

/// The separators are all that `format_thousands` adds: taking the dots out
/// gives back the decimal text of the number.
pub proof fn law_format_thousands_only_adds_dots(num: int)
    ensures
        remove_char(thousands_text(num), '.') == signed_decimal(num),
{
    lemma_signed_decimal_no_dot(num);
    let d = signed_decimal(num);
    lemma_grouped_prefix_undotted(d, d.len() as int);
    assert(d.take(d.len() as int) =~= d);
}

// ---------------------------------------------------------------------------
// The countdown
// ---------------------------------------------------------------------------

/// `k` zeros (none when `k` is not positive).
pub open spec fn zeros(k: int) -> Seq<char> {
    Seq::new(if k > 0 { k as nat } else { 0 }, |j: int| '0')
}

/// `n` written with at least `width` characters, zeros after the sign, as
/// `{:0width$}` writes it.
pub open spec fn padded(n: int, width: int) -> Seq<char> {
    if n < 0 {
        seq!['-'] + zeros(width - 1 - decimal((-n) as nat).len()) + decimal((-n) as nat)
    } else {
        zeros(width - decimal(n as nat).len()) + decimal(n as nat)
    }
}

/// A duration of `ms` milliseconds as `HH:MM:SS.mmm` (hours, minutes
/// and seconds with at least two digits, milliseconds with three); each
/// part of a negative duration is negative or zero.
pub open spec fn duration_text(ms: int) -> Seq<char> {
    let a = if ms < 0 {
        -ms
    } else {
        ms
    };
    let s = a / 1000;
    padded(signed_part(ms < 0, s / 3600), 2) + ":"@ + padded(signed_part(ms < 0, (s / 60) % 60), 2)
        + ":"@ + padded(signed_part(ms < 0, s % 60), 2) + "."@ + padded(
        signed_part(ms < 0, a % 1000),
        3,
    )
}

/// `v` with the sign of the duration.
pub open spec fn signed_part(neg: bool, v: int) -> int {
    if neg {
        -v
    } else {
        v
    }
}

fn push_zeros(out: &mut Vec<char>, k: usize)
    ensures
        final(out)@ == old(out)@ + zeros(k as int),
{
    let mut j: usize = 0;
    while j < k
        invariant
            j <= k,
            out@ == old(out)@ + zeros(j as int),
        decreases k - j,
    {
        out.push('0');
        proof {
            assert(zeros(j + 1) =~= zeros(j as int).push('0'));
        }
        j = j + 1;
    }
}

/// Appends `n` as `padded` writes it, for a width of at most 3.
fn push_padded(out: &mut Vec<char>, n: i64, width: usize)
    requires
        n > i64::MIN,
        width <= 3,
    ensures
        final(out)@ == old(out)@ + padded(n as int, width as int),
{
    if n < 0 {
        out.push('-');
        let digits = u64_decimal((-n) as u64);
        let k: usize = if width >= 1 && digits.len() < width - 1 {
            width - 1 - digits.len()
        } else {
            0
        };
        assert(zeros(k as int) =~= zeros(width - 1 - digits@.len()));
        push_zeros(out, k);
        push_all(out, &digits);
        assert(out@ =~= old(out)@ + padded(n as int, width as int));
    } else {
        let digits = u64_decimal(n as u64);
        let k: usize = if width > digits.len() {
            width - digits.len()
        } else {
            0
        };
        assert(zeros(k as int) =~= zeros(width - digits@.len()));
        push_zeros(out, k);
        push_all(out, &digits);
        assert(out@ =~= old(out)@ + padded(n as int, width as int));
    }
}

/// The countdown line for a duration of `ms` milliseconds.
pub fn format_duration(ms: i64) -> (s: String)
    ensures
        s@ == duration_text(ms as int),
{
    let neg = ms < 0;
    let a: u64 = if neg {
        if ms == i64::MIN {
            9223372036854775808u64
        } else {
            (-ms) as u64
        }
    } else {
        ms as u64
    };
    let secs: u64 = a / 1000;
    let hours: u64 = secs / 3600;
    let minutes: u64 = (secs / 60) % 60;
    let seconds: u64 = secs % 60;
    let millis: u64 = a % 1000;
    assert(secs <= 9223372036854775);
    assert(hours <= secs);
    let h: i64 = if neg { -(hours as i64) } else { hours as i64 };
    let m: i64 = if neg { -(minutes as i64) } else { minutes as i64 };
    let sec: i64 = if neg { -(seconds as i64) } else { seconds as i64 };
    let mi: i64 = if neg { -(millis as i64) } else { millis as i64 };
    let mut out: Vec<char> = Vec::new();
    push_padded(&mut out, h, 2);
    push_str_chars(&mut out, ":");
    push_padded(&mut out, m, 2);
    push_str_chars(&mut out, ":");
    push_padded(&mut out, sec, 2);
    push_str_chars(&mut out, ".");
    push_padded(&mut out, mi, 3);
    string_of(out.as_slice())
}

// ---------------------------------------------------------------------------
// Threads
// ---------------------------------------------------------------------------

/// The default number of buying threads: the logical CPUs, at least 4.
pub open spec fn default_threads(cpus: usize) -> usize {
    if cpus > 4 {
        cpus
    } else {
        4
    }
}

/// The number of buying threads for a `--job` value and the machine's
/// logical CPUs, and whether the value was invalid (then the default is
/// used).
pub fn thread_count(job: Option<&str>, cpus: usize) -> (r: (usize, bool))
    ensures
        match job {
            None => r == (default_threads(cpus), false),
            Some(j) => match parse_usize(j@) {
                Some(v) => r == (v, false),
                None => r == (default_threads(cpus), true),
            },
        },
{
    let default = if cpus > 4 {
        cpus
    } else {
        4
    };
    match job {
        None => (default, false),
        Some(j) => match parse_usize_chars(&chars_of(j)) {
            Some(v) => (v, false),
            None => (default, true),
        },
    }
}

// ---------------------------------------------------------------------------
// Checking the command line
// ---------------------------------------------------------------------------

/// Which voucher options a command line sets (`pro_id`, `sign`,
/// `code_platform`, `code_shop`: whether the value is given).
pub struct ArgFlags {
    pub pro_id: bool,
    pub sign: bool,
    pub claim_platform_vouchers: bool,
    pub code_platform: bool,
    pub platform_vouchers: bool,
    pub code_shop: bool,
    pub shop_vouchers: bool,
    pub no_fsv: bool,
}

/// A voucher option given without the option it needs.
pub enum ArgError {
    ProIdAndSignNeedClaim,
    ProIdNeedsClaim,
    ProIdNeedsSign,
    SignNeedsClaim,
    SignNeedsProId,
    CodePlatformNeedsPlatform,
    CodeShopNeedsShop,
    NoFsvNeedsVoucher,
}

/// The first rule a command line breaks, in the order they are checked.
pub open spec fn arg_check(f: ArgFlags) -> Option<ArgError> {
    if f.pro_id && f.sign && !f.claim_platform_vouchers {
        Some(ArgError::ProIdAndSignNeedClaim)
    } else if f.pro_id && !f.claim_platform_vouchers {
        Some(ArgError::ProIdNeedsClaim)
    } else if f.pro_id && f.claim_platform_vouchers && !f.sign {
        Some(ArgError::ProIdNeedsSign)
    } else if f.sign && !f.claim_platform_vouchers {
        Some(ArgError::SignNeedsClaim)
    } else if f.sign && f.claim_platform_vouchers && !f.pro_id {
        Some(ArgError::SignNeedsProId)
    } else if f.code_platform && !f.platform_vouchers {
        Some(ArgError::CodePlatformNeedsPlatform)
    } else if f.code_shop && !f.shop_vouchers {
        Some(ArgError::CodeShopNeedsShop)
    } else if f.no_fsv && (!f.claim_platform_vouchers && !f.platform_vouchers && !f.shop_vouchers) {
        Some(ArgError::NoFsvNeedsVoucher)
    } else {
        None
    }
}

/// Checks the voucher options of a command line: `Err` with the first
/// rule broken.
pub fn args_checking(f: &ArgFlags) -> (r: Result<(), ArgError>)
    ensures
        match arg_check(*f) {
            Some(e) => r == Err::<(), ArgError>(e),
            None => r is Ok,
        },
{
    if f.pro_id && f.sign && !f.claim_platform_vouchers {
        Err(ArgError::ProIdAndSignNeedClaim)
    } else if f.pro_id && !f.claim_platform_vouchers {
        Err(ArgError::ProIdNeedsClaim)
    } else if f.pro_id && f.claim_platform_vouchers && !f.sign {
        Err(ArgError::ProIdNeedsSign)
    } else if f.sign && !f.claim_platform_vouchers {
        Err(ArgError::SignNeedsClaim)
    } else if f.sign && f.claim_platform_vouchers && !f.pro_id {
        Err(ArgError::SignNeedsProId)
    } else if f.code_platform && !f.platform_vouchers {
        Err(ArgError::CodePlatformNeedsPlatform)
    } else if f.code_shop && !f.shop_vouchers {
        Err(ArgError::CodeShopNeedsShop)
    } else if f.no_fsv && (!f.claim_platform_vouchers && !f.platform_vouchers && !f.shop_vouchers) {
        Err(ArgError::NoFsvNeedsVoucher)
    } else {
        Ok(())
    }
}

/// The message printed for each broken rule.
pub open spec fn arg_error_text(e: ArgError) -> Seq<char> {
    match e {
        ArgError::ProIdAndSignNeedClaim => "Error: The --pro-id and --sign argument requires --claim-platform-vouchers to be enabled."@,
        ArgError::ProIdNeedsClaim => "Error: The --pro-id argument requires --claim-platform-vouchers to be enabled."@,
        ArgError::ProIdNeedsSign => "Error: The --pro-id argument need --sign argument to be function."@,
        ArgError::SignNeedsClaim => "Error: The --sign argument requires --claim-platform-vouchers to be enabled."@,
        ArgError::SignNeedsProId => "Error: The --sign argument need --pro-id argument to be function."@,
        ArgError::CodePlatformNeedsPlatform => "Error: The --code-platform argument requires --platform-vouchers to be enabled."@,
        ArgError::CodeShopNeedsShop => "Error: The --code-shop argument requires --shop-vouchers to be enabled."@,
        ArgError::NoFsvNeedsVoucher => "Error: The --no-fsv argument requires at least one of --claim-platform-vouchers, --platform-vouchers, or --shop-vouchers to be enabled."@,
    }
}

impl ArgError {
    pub fn message(&self) -> (m: &'static str)
        ensures
            m@ == arg_error_text(*self),
    {
        match self {
            ArgError::ProIdAndSignNeedClaim => "Error: The --pro-id and --sign argument requires --claim-platform-vouchers to be enabled.",
            ArgError::ProIdNeedsClaim => "Error: The --pro-id argument requires --claim-platform-vouchers to be enabled.",
            ArgError::ProIdNeedsSign => "Error: The --pro-id argument need --sign argument to be function.",
            ArgError::SignNeedsClaim => "Error: The --sign argument requires --claim-platform-vouchers to be enabled.",
            ArgError::SignNeedsProId => "Error: The --sign argument need --pro-id argument to be function.",
            ArgError::CodePlatformNeedsPlatform => "Error: The --code-platform argument requires --platform-vouchers to be enabled.",
            ArgError::CodeShopNeedsShop => "Error: The --code-shop argument requires --shop-vouchers to be enabled.",
            ArgError::NoFsvNeedsVoucher => "Error: The --no-fsv argument requires at least one of --claim-platform-vouchers, --platform-vouchers, or --shop-vouchers to be enabled.",
        }
    }
}

// ---------------------------------------------------------------------------
// Choosing a variation, a courier, a payment channel
// ---------------------------------------------------------------------------

/// The index of the first name equal to `name`.
pub open spec fn first_named(names: Seq<Seq<char>>, name: Seq<char>, i: int) -> Option<int>
    decreases names.len() - i,
{
    if i < 0 || i >= names.len() {
        None
    } else if names[i] == name {
        Some(i)
    } else {
        first_named(names, name, i + 1)
    }
}

pub open spec fn model_names(models: Seq<ModelInfo>) -> Seq<Seq<char>> {
    models.map_values(|m: ModelInfo| m.name@)
}

pub open spec fn payment_names(payments: Seq<PaymentInfo>) -> Seq<Seq<char>> {
    payments.map_values(|p: PaymentInfo| p.name@)
}

pub open spec fn courier_names(shippings: Seq<ShippingInfo>) -> Seq<Seq<char>> {
    shippings.map_values(|s: ShippingInfo| s.channel_name@)
}

fn first_named_exec(names: &Vec<String>, name: &str) -> (r: Option<usize>)
    ensures
        match first_named(names@.map_values(|s: String| s@), name@, 0) {
            Some(i) => r == Some(i as usize) && 0 <= i < names@.len(),
            None => r is None,
        },
{
    let target = chars_of(name);
    let n = names.len();
    let ghost ns = names@.map_values(|s: String| s@);
    let mut i: usize = 0;
    while i < n
        invariant
            n == names@.len(),
            ns == names@.map_values(|s: String| s@),
            i <= n,
            target@ == name@,
            first_named(ns, name@, 0) == first_named(ns, name@, i as int),
        decreases n - i,
    {
        if chars_eq(&chars_of(names[i].as_str()), &target) {
            return Some(i);
        }
        i = i + 1;
    }
    None
}

fn model_name_list(models: &[ModelInfo]) -> (names: Vec<String>)
    ensures
        names@.map_values(|s: String| s@) == model_names(models@),
{
    let n = models.len();
    let mut names: Vec<String> = Vec::new();
    let mut i: usize = 0;
    while i < n
        invariant
            n == models@.len(),
            i <= n,
            names@.map_values(|s: String| s@) == model_names(models@.take(i as int)),
        decreases n - i,
    {
        names.push(models[i].name.clone());
        assert(model_names(models@.take(i + 1)) =~= model_names(models@.take(i as int)).push(models@[i as int].name@));
        assert(names@.map_values(|s: String| s@) =~= model_names(models@.take(i as int)).push(models@[i as int].name@));
        i = i + 1;
    }
    assert(models@.take(n as int) =~= models@);
    names
}

fn payment_name_list(payments: &[PaymentInfo]) -> (names: Vec<String>)
    ensures
        names@.map_values(|s: String| s@) == payment_names(payments@),
{
    let n = payments.len();
    let mut names: Vec<String> = Vec::new();
    let mut i: usize = 0;
    while i < n
        invariant
            n == payments@.len(),
            i <= n,
            names@.map_values(|s: String| s@) == payment_names(payments@.take(i as int)),
        decreases n - i,
    {
        names.push(payments[i].name.clone());
        assert(payment_names(payments@.take(i + 1)) =~= payment_names(payments@.take(i as int)).push(payments@[i as int].name@));
        assert(names@.map_values(|s: String| s@) =~= payment_names(payments@.take(i as int)).push(payments@[i as int].name@));
        i = i + 1;
    }
    assert(payments@.take(n as int) =~= payments@);
    names
}

fn courier_name_list(shippings: &[ShippingInfo]) -> (names: Vec<String>)
    ensures
        names@.map_values(|s: String| s@) == courier_names(shippings@),
{
    let n = shippings.len();
    let mut names: Vec<String> = Vec::new();
    let mut i: usize = 0;
    while i < n
        invariant
            n == shippings@.len(),
            i <= n,
            names@.map_values(|s: String| s@) == courier_names(shippings@.take(i as int)),
        decreases n - i,
    {
        names.push(shippings[i].channel_name.clone());
        assert(courier_names(shippings@.take(i + 1)) =~= courier_names(shippings@.take(i as int)).push(shippings@[i as int].channel_name@));
        assert(names@.map_values(|s: String| s@) =~= courier_names(shippings@.take(i as int)).push(shippings@[i as int].channel_name@));
        i = i + 1;
    }
    assert(shippings@.take(n as int) =~= shippings@);
    names
}

/// The number typed at a prompt, trimmed, read as std's `usize` parser
/// reads it.
pub open spec fn typed_number(input: Seq<char>) -> Option<usize> {
    parse_usize(trim(input))
}

/// The entry a typed number picks from a list of `len` entries numbered
/// from 1 (none where the number is out of range or no number).
pub open spec fn picked(input: Seq<char>, len: int) -> Option<int> {
    match typed_number(input) {
        Some(k) => if k <= len {
            Some(k - 1)
        } else {
            None
        },
        None => None,
    }
}

/// The list entry a typed number picks. The programs fail on the number 0
/// (they compute `0 - 1`), so the caller must not pass it.
pub fn index_from_input(input: &str, len: usize) -> (r: Option<usize>)
    requires
        typed_number(input@) != Some(0usize),
    ensures
        match picked(input@, len as int) {
            Some(k) => r == Some(k as usize),
            None => r is None,
        },
{
    let t = trimmed(input);
    match parse_usize_chars(&t) {
        Some(k) => if k <= len {
            Some(k - 1)
        } else {
            None
        },
        None => None,
    }
}

/// The variation chosen: the only one where there is one, otherwise the
/// one named on the command line, otherwise the one typed at the prompt.
pub open spec fn model_choice(
    models: Seq<ModelInfo>,
    product: Option<Seq<char>>,
    input: Option<Seq<char>>,
) -> Option<int> {
    if models.len() == 1 {
        Some(0)
    } else {
        match product {
            Some(p) => first_named(model_names(models), p, 0),
            None => match input {
                Some(i) => picked(i, models.len() as int),
                None => None,
            },
        }
    }
}

/// Whether the variation has to be asked for at the prompt.
pub fn model_needs_input(count: usize, product_given: bool) -> (r: bool)
    ensures
        r == (count != 1 && !product_given),
{
    count != 1 && !product_given
}

pub fn choose_model(models: &[ModelInfo], product: Option<&str>, input: Option<&str>) -> (r: Option<usize>)
    requires
        models@.len() != 1 && product is None && input is Some ==> typed_number(input->0@) != Some(0usize),
    ensures
        match model_choice(
            models@,
            match product {
                Some(p) => Some(p@),
                None => None,
            },
            match input {
                Some(i) => Some(i@),
                None => None,
            },
        ) {
            Some(k) => r == Some(k as usize) && 0 <= k < models@.len(),
            None => r is None,
        },
{
    if models.len() == 1 {
        return Some(0);
    }
    match product {
        Some(p) => {
            let names = model_name_list(models);
            first_named_exec(&names, p)
        },
        None => match input {
            Some(i) => index_from_input(i, models.len()),
            None => None,
        },
    }
}

/// The courier chosen: the one named on the command line, otherwise the one
/// typed at the prompt.
pub open spec fn shipping_choice(
    shippings: Seq<ShippingInfo>,
    kurir: Option<Seq<char>>,
    input: Option<Seq<char>>,
) -> Option<int> {
    match kurir {
        Some(k) => first_named(courier_names(shippings), k, 0),
        None => match input {
            Some(i) => picked(i, shippings.len() as int),
            None => None,
        },
    }
}

pub fn choose_shipping(shippings: &[ShippingInfo], kurir: Option<&str>, input: Option<&str>) -> (r: Option<usize>)
    requires
        kurir is None && input is Some ==> typed_number(input->0@) != Some(0usize),
    ensures
        match shipping_choice(
            shippings@,
            match kurir {
                Some(k) => Some(k@),
                None => None,
            },
            match input {
                Some(i) => Some(i@),
                None => None,
            },
        ) {
            Some(k) => r == Some(k as usize) && 0 <= k < shippings@.len(),
            None => r is None,
        },
{
    match kurir {
        Some(k) => {
            let names = courier_name_list(shippings);
            first_named_exec(&names, k)
        },
        None => match input {
            Some(i) => index_from_input(i, shippings.len()),
            None => None,
        },
    }
}

/// The payment channel chosen: the one named on the command line, otherwise
/// the one typed at the prompt.
pub open spec fn payment_choice(
    payments: Seq<PaymentInfo>,
    name: Option<Seq<char>>,
    input: Option<Seq<char>>,
) -> Option<int> {
    match name {
        Some(n) => first_named(payment_names(payments), n, 0),
        None => match input {
            Some(i) => picked(i, payments.len() as int),
            None => None,
        },
    }
}

pub fn choose_payment(payments: &[PaymentInfo], name: Option<&str>, input: Option<&str>) -> (r: Option<usize>)
    requires
        name is None && input is Some ==> typed_number(input->0@) != Some(0usize),
    ensures
        match payment_choice(
            payments@,
            match name {
                Some(n) => Some(n@),
                None => None,
            },
            match input {
                Some(i) => Some(i@),
                None => None,
            },
        ) {
            Some(k) => r == Some(k as usize) && 0 <= k < payments@.len(),
            None => r is None,
        },
{
    match name {
        Some(n) => {
            let names = payment_name_list(payments);
            first_named_exec(&names, n)
        },
        None => match input {
            Some(i) => index_from_input(i, payments.len()),
            None => None,
        },
    }
}

/// The cookie file a typed number picks from `len` files (numbered from
/// 1); the programs ask again where it picks none.
pub open spec fn cookie_file_pick(input: Seq<char>, len: int) -> Option<int> {
    match typed_number(input) {
        Some(k) => if 0 < k <= len {
            Some(k - 1)
        } else {
            None
        },
        None => None,
    }
}

pub fn cookie_file_choice(input: &str, len: usize) -> (r: Option<usize>)
    ensures
        match cookie_file_pick(input@, len as int) {
            Some(k) => r == Some(k as usize),
            None => r is None,
        },
{
    let t = trimmed(input);
    match parse_usize_chars(&t) {
        Some(k) => if 0 < k && k <= len {
            Some(k - 1)
        } else {
            None
        },
        None => None,
    }
}

// ---------------------------------------------------------------------------
// Flash sales and prices
// ---------------------------------------------------------------------------

/// The first flash-sale item that lists the model.
pub open spec fn fs_item_index(items: Seq<FSItems>, modelid: i64, i: int) -> Option<int>
    decreases items.len() - i,
{
    if i < 0 || i >= items.len() {
        None
    } else if items[i].modelids matches Some(ids) && ids@.contains(modelid) {
        Some(i)
    } else {
        fs_item_index(items, modelid, i + 1)
    }
}

fn ids_contain(ids: &Vec<i64>, modelid: i64) -> (r: bool)
    ensures
        r == ids@.contains(modelid),
{
    let n = ids.len();
    let mut k: usize = 0;
    while k < n
        invariant
            n == ids@.len(),
            k <= n,
            forall|j: int| 0 <= j < k ==> ids@[j] != modelid,
        decreases n - k,
    {
        if ids[k] == modelid {
            return true;
        }
        k = k + 1;
    }
    false
}

/// The flash-sale item of a model, if the sale lists it.
pub fn fs_item_for_model(items: &[FSItems], modelid: i64) -> (r: Option<usize>)
    ensures
        match fs_item_index(items@, modelid, 0) {
            Some(i) => r == Some(i as usize) && 0 <= i < items@.len(),
            None => r is None,
        },
{
    let n = items.len();
    let mut i: usize = 0;
    while i < n
        invariant
            n == items@.len(),
            i <= n,
            fs_item_index(items@, modelid, 0) == fs_item_index(items@, modelid, i as int),
        decreases n - i,
    {
        let found = match &items[i].modelids {
            Some(ids) => ids_contain(ids, modelid),
            None => false,
        };
        if found {
            return Some(i);
        }
        i = i + 1;
    }
    None
}

/// Integer division rounding toward zero, as Rust's `/` does.
pub fn div_trunc(a: i64, b: i64) -> (r: i64)
    requires
        b > 0,
    ensures
        r == div_toward_zero(a as int, b as int),
{
    if a >= 0 {
        a / b
    } else {
        let m: i128 = -(a as i128);
        let q: i128 = m / (b as i128);
        assert(q <= m);
        (-q) as i64
    }
}

/// A price in shop units (the API counts a rupiah as 100000).
pub open spec fn units(price: int) -> int {
    div_toward_zero(price, 100000)
}

pub fn price_units(price: i64) -> (r: i64)
    ensures
        r == units(price as int),
{
    div_trunc(price, 100000)
}

/// The estimated flash-sale price in rupiah: the price before discount less
/// the discount percentage.
pub open spec fn fs_estimate_value(price_before_discount: int, raw_discount: int) -> int {
    units(div_toward_zero(price_before_discount * (100 - raw_discount), 100))
}

pub fn fs_estimate(price_before_discount: i64, raw_discount: i64) -> (r: i64)
    requires
        in_i64(100 - raw_discount),
        in_i64(price_before_discount * (100 - raw_discount)),
    ensures
        r == fs_estimate_value(price_before_discount as int, raw_discount as int),
{
    let discounted = price_before_discount * (100 - raw_discount);
    price_units(div_trunc(discounted, 100))
}

/// The price limit typed by the user, in shop units: commas dropped, then
/// trimmed, then read as an `i64` and multiplied by 100000.
pub open spec fn max_price_value(max_price: Seq<char>) -> Option<int> {
    match parse_i64(trim(remove_char(max_price, ','))) {
        Some(v) => Some(v * 100000),
        None => None,
    }
}

/// The price limit reads as a number that fits once multiplied (the
/// programs overflow otherwise).
pub open spec fn max_price_fits(max_price: Seq<char>) -> bool {
    match max_price_value(max_price) {
        Some(v) => in_i64(v),
        None => true,
    }
}

fn max_price_exec(max_price: &str) -> (r: Option<i64>)
    requires
        max_price_fits(max_price@),
    ensures
        match max_price_value(max_price@) {
            Some(v) => r == Some(v as i64),
            None => r is None,
        },
{
    let no_comma = remove_char_chars(&chars_of(max_price), ',');
    let cleaned = trim_chars(&no_comma);
    match parse_i64_chars(&cleaned) {
        Some(v) => Some(v * 100000),
        None => None,
    }
}

/// The price limit of the multi-product buyer: none where the text is empty
/// or does not read as a number.
pub fn adjusted_max_price(max_price: &str) -> (r: Option<i64>)
    requires
        max_price_fits(max_price@),
    ensures
        max_price@.len() == 0 ==> r is None,
        max_price@.len() != 0 ==> match max_price_value(max_price@) {
            Some(v) => r == Some(v as i64),
            None => r is None,
        },
{
    if max_price.unicode_len() == 0 {
        None
    } else {
        max_price_exec(max_price)
    }
}

proof fn lemma_remove_char_add(a: Seq<char>, b: Seq<char>, c: char)
    ensures
        remove_char(a + b, c) == remove_char(a, c) + remove_char(b, c),
    decreases b.len(),
{
    reveal(Seq::filter);
    if b.len() == 0 {
        assert(a + b =~= a);
        assert(remove_char(a, c) + remove_char(b, c) =~= remove_char(a, c));
    } else {
        lemma_remove_char_add(a, b.drop_last(), c);
        assert((a + b).drop_last() =~= a + b.drop_last());
        assert((a + b).last() == b.last());
        if b.last() != c {
            assert(remove_char(a, c) + remove_char(b.drop_last(), c).push(b.last()) =~= (
            remove_char(a, c) + remove_char(b.drop_last(), c)).push(b.last()));
        }
    }
}

proof fn lemma_remove_char_absent(s: Seq<char>, c: char)
    requires
        forall|i: int| 0 <= i < s.len() ==> s[i] != c,
    ensures
        remove_char(s, c) == s,
    decreases s.len(),
{
    reveal(Seq::filter);
    if s.len() > 0 {
        lemma_remove_char_absent(s.drop_last(), c);
        assert(s.drop_last().push(s.last()) =~= s);
    }
}

/// Law: commas anywhere in the typed price limit are ignored: putting a
/// comma at any position (including one next to another comma) leaves the
/// limit as it was, so `1,500,000` reads as `1500000`.
pub proof fn law_max_price_ignores_commas(max_price: Seq<char>, i: int)
    requires
        0 <= i <= max_price.len(),
    ensures
        max_price_value(max_price.take(i) + seq![','] + max_price.skip(i)) == max_price_value(
            max_price,
        ),
{
    let (a, b) = (max_price.take(i), max_price.skip(i));
    lemma_remove_char_add(a + seq![','], b, ',');
    lemma_remove_char_add(a, seq![','], ',');
    lemma_remove_char_add(a, b, ',');
    reveal_with_fuel(Seq::filter, 2);
    assert(seq![','].drop_last() =~= Seq::<char>::empty());
    assert(remove_char(seq![','], ',') =~= Seq::<char>::empty());
    assert(remove_char(a, ',') + Seq::<char>::empty() =~= remove_char(a, ','));
    assert(a + b =~= max_price);
}

/// Law: a price limit typed as a whole number of rupiah is that number in
/// shop units (times 100000): the decimal text of `n` gives `n * 100000`.
pub proof fn law_max_price_of_decimal(n: i64)
    ensures
        max_price_value(signed_decimal(n as int)) == Some(n * 100000),
{
    let s = signed_decimal(n as int);
    lemma_signed_decimal_shape(n);
    lemma_remove_char_absent(s, ',');
    assert(crate::text::trim_start(s) == s);
    assert(crate::text::trim_end(s) == s);
    crate::text::law_i64_decimal_parses_back(n);
}

proof fn lemma_signed_decimal_shape(n: i64)
    ensures
        signed_decimal(n as int).len() > 0,
        forall|i: int|
            0 <= i < signed_decimal(n as int).len() ==> #[trigger] signed_decimal(n as int)[i] != ',',
        !crate::text::is_whitespace(signed_decimal(n as int)[0]),
        !crate::text::is_whitespace(signed_decimal(n as int).last()),
{
    let s = signed_decimal(n as int);
    if n < 0 {
        lemma_decimal_facts((-n) as nat);
        let d = decimal((-n) as nat);
        assert(s == seq!['-'] + d);
        assert forall|i: int| 0 <= i < s.len() implies s[i] != ',' by {
            if i > 0 {
                assert(s[i] == d[i - 1]);
                assert(is_digit(d[i - 1]));
            }
        }
        assert(s.last() == d.last());
        assert(is_digit(d[d.len() - 1]));
    } else {
        lemma_decimal_facts(n as nat);
        assert forall|i: int| 0 <= i < s.len() implies s[i] != ',' by {
            assert(is_digit(s[i]));
        }
        assert(is_digit(s[s.len() - 1]));
    }
}

/// Law: spaces around the typed price limit are ignored: ` n ` reads as
/// `n`.
pub proof fn law_max_price_ignores_surrounding_spaces(n: i64)
    ensures
        max_price_value(seq![' '] + signed_decimal(n as int) + seq![' ']) == Some(n * 100000),
{
    let s = signed_decimal(n as int);
    law_max_price_of_decimal(n);
    lemma_signed_decimal_shape(n);
    let t = seq![' '] + s + seq![' '];
    lemma_remove_char_add(seq![' '] + s, seq![' '], ',');
    lemma_remove_char_add(seq![' '], s, ',');
    lemma_remove_char_absent(seq![' '], ',');
    lemma_remove_char_absent(s, ',');
    assert(remove_char(t, ',') == t);
    assert(t.drop_first() =~= s + seq![' ']);
    assert(crate::text::is_whitespace(t[0]));
    assert((s + seq![' '])[0] == s[0]);
    assert(crate::text::trim_start(t) == crate::text::trim_start(s + seq![' ']));
    assert(crate::text::trim_start(s + seq![' ']) == s + seq![' ']);
    assert((s + seq![' ']).drop_last() =~= s);
    assert(crate::text::trim_end(s + seq![' ']) == crate::text::trim_end(s));
}


/// What the single-product buyer makes of a checkout answer when a price
/// limit is set.
pub enum PriceCheck {
    /// The merchandise costs at most the limit: go on with the order.
    Within,
    /// The merchandise costs more than the limit.
    TooHigh,
    /// The limit does not read as a number.
    BadLimit,
    /// The answer has no merchandise subtotal.
    NoSubtotal,
    /// The answer has no price data.
    NoPriceData,
}

/// Checks the merchandise subtotal of an answer against the price limit:
/// `price_data` is whether the answer has price data, `subtotal` its
/// merchandise subtotal.
pub fn check_price(max_price: &str, price_data: bool, subtotal: Option<i64>) -> (c: PriceCheck)
    requires
        max_price_fits(max_price@),
    ensures
        !price_data ==> c is NoPriceData,
        price_data && subtotal is None ==> c is NoSubtotal,
        price_data && subtotal is Some ==> match max_price_value(max_price@) {
            None => c is BadLimit,
            Some(limit) => if subtotal->0 <= limit {
                c is Within
            } else {
                c is TooHigh
            },
        },
{
    if !price_data {
        return PriceCheck::NoPriceData;
    }
    match subtotal {
        None => PriceCheck::NoSubtotal,
        Some(s) => match max_price_exec(max_price) {
            None => PriceCheck::BadLimit,
            Some(limit) => if s <= limit {
                PriceCheck::Within
            } else {
                PriceCheck::TooHigh
            },
        },
    }
}

// ---------------------------------------------------------------------------
// Vouchers
// ---------------------------------------------------------------------------

/// The voucher options of a buyer's command line.
pub struct VoucherFlags {
    pub claim_platform_vouchers: bool,
    pub platform_vouchers: bool,
    pub collection_vouchers: bool,
    pub fsv_only: bool,
    pub shop_vouchers: bool,
    pub no_fsv: bool,
    pub no_claim_platform_vouchers: bool,
}

impl VoucherFlags {
    /// Whether the buyer fetches vouchers before ordering.
    pub fn uses_vouchers(&self) -> (r: bool)
        ensures
            r == (self.claim_platform_vouchers || self.platform_vouchers || self.collection_vouchers
                || self.fsv_only || self.shop_vouchers),
    {
        self.claim_platform_vouchers || self.platform_vouchers || self.collection_vouchers
            || self.fsv_only || self.shop_vouchers
    }

    /// The platform voucher to order with: none for free shipping only or
    /// for shop vouchers alone; otherwise the one the buyer got, else the
    /// recommended one.
    pub fn final_platform_voucher(&self, selected: Option<Vouchers>, recommended: Option<Vouchers>) -> (r: Option<Vouchers>)
        ensures
            (self.fsv_only || (self.shop_vouchers && !self.platform_vouchers
                && !self.claim_platform_vouchers && !self.collection_vouchers)) ==> r is None,
            !(self.fsv_only || (self.shop_vouchers && !self.platform_vouchers
                && !self.claim_platform_vouchers && !self.collection_vouchers)) ==> r == match selected {
                Some(v) => Some(v),
                None => recommended,
            },
    {
        if self.fsv_only || (self.shop_vouchers && !self.platform_vouchers && !self.claim_platform_vouchers
            && !self.collection_vouchers) {
            None
        } else {
            match selected {
                Some(v) => Some(v),
                None => recommended,
            }
        }
    }
}

/// How the platform voucher is fetched.
pub enum PlatformVoucherAction {
    /// Read the voucher of a promotion without claiming it.
    ReadPromotion,
    /// Claim the voucher of a promotion.
    ClaimPromotion,
    /// Claim the voucher of a code.
    ClaimCode,
    /// No platform voucher.
    Nothing,
}

/// A promotion id and signature take precedence over a code; a promotion
/// is read without claiming where the command line asks so.
pub fn platform_voucher_action(
    promotionid: &str,
    signature: &str,
    code: &str,
    no_claim: bool,
) -> (a: PlatformVoucherAction)
    ensures
        promotionid@.len() > 0 && signature@.len() > 0 ==> if no_claim {
            a is ReadPromotion
        } else {
            a is ClaimPromotion
        },
        !(promotionid@.len() > 0 && signature@.len() > 0) && code@.len() > 0 ==> a is ClaimCode,
        !(promotionid@.len() > 0 && signature@.len() > 0) && code@.len() == 0 ==> a is Nothing,
{
    if promotionid.unicode_len() > 0 && signature.unicode_len() > 0 {
        if no_claim {
            PlatformVoucherAction::ReadPromotion
        } else {
            PlatformVoucherAction::ClaimPromotion
        }
    } else if code.unicode_len() > 0 {
        PlatformVoucherAction::ClaimCode
    } else {
        PlatformVoucherAction::Nothing
    }
}

// ---------------------------------------------------------------------------
// Placing an order
// ---------------------------------------------------------------------------

/// What a buying thread does after an order answer.
pub enum AttemptStep {
    /// The order went through: report the payment link and stop all
    /// threads.
    Paid(i64),
    /// The account is refused (fraud or frozen): stop all threads.
    Refused,
    /// Try again, with this many failed tries so far.
    Retry(u32),
    /// Give up: stop all threads.
    GiveUp,
}

/// The single-product buyer: an answer with a checkout id is paid;
/// otherwise a thread gives up when it has already failed 3 times, and
/// tries again otherwise.
pub fn console_attempt_step(try_count: u32, checkout_id: Option<i64>) -> (s: AttemptStep)
    requires
        try_count <= 3,
    ensures
        match checkout_id {
            Some(id) => s == AttemptStep::Paid(id),
            None => if try_count == 3 {
                s is GiveUp
            } else {
                s == AttemptStep::Retry((try_count + 1) as u32)
            },
        },
{
    match checkout_id {
        Some(id) => AttemptStep::Paid(id),
        None => if try_count == 3 {
            AttemptStep::GiveUp
        } else {
            AttemptStep::Retry(try_count + 1)
        },
    }
}

/// The multi-product buyer: an answer with error `error_fraud` or
/// `error_freeze` stops all threads; one with a checkout id is paid;
/// otherwise the thread tries again until it has failed 3 times.
pub fn multi_attempt_step(try_count: u32, error: Option<&str>, checkout_id: Option<i64>) -> (s: AttemptStep)
    requires
        try_count < 3,
    ensures
        (error matches Some(e) && (e@ == "error_fraud"@ || e@ == "error_freeze"@)) ==> s is Refused,
        !(error matches Some(e) && (e@ == "error_fraud"@ || e@ == "error_freeze"@)) ==> match checkout_id {
            Some(id) => s == AttemptStep::Paid(id),
            None => if try_count + 1 >= 3 {
                s is GiveUp
            } else {
                s == AttemptStep::Retry((try_count + 1) as u32)
            },
        },
{
    if let Some(e) = error {
        let ec = chars_of(e);
        if chars_eq(&ec, &chars_of("error_fraud")) || chars_eq(&ec, &chars_of("error_freeze")) {
            return AttemptStep::Refused;
        }
    }
    match checkout_id {
        Some(id) => AttemptStep::Paid(id),
        None => if try_count + 1 >= 3 {
            AttemptStep::GiveUp
        } else {
            AttemptStep::Retry(try_count + 1)
        },
    }
}

/// The Telegram report of a successful order.
pub open spec fn report_text(
    version: Seq<char>,
    username: Seq<char>,
    product: Seq<char>,
    variant: Seq<char>,
    url: Seq<char>,
) -> Seq<char> {
    "Auto Buy Shopee "@ + version + "\nREPORT!!!\nUsername     : "@ + username
        + "\nProduct      : "@ + product + "\nVariant      : "@ + variant
        + "\nLink Payment : "@ + url + "\nCheckout berhasil!"@
}

pub fn report_message(version: &str, username: &str, product: &str, variant: &str, url: &str) -> (m: String)
    ensures
        m@ == report_text(version@, username@, product@, variant@, url@),
{
    let mut out: Vec<char> = Vec::new();
    push_str_chars(&mut out, "Auto Buy Shopee ");
    push_str_chars(&mut out, version);
    push_str_chars(&mut out, "\nREPORT!!!\nUsername     : ");
    push_str_chars(&mut out, username);
    push_str_chars(&mut out, "\nProduct      : ");
    push_str_chars(&mut out, product);
    push_str_chars(&mut out, "\nVariant      : ");
    push_str_chars(&mut out, variant);
    push_str_chars(&mut out, "\nLink Payment : ");
    push_str_chars(&mut out, url);
    push_str_chars(&mut out, "\nCheckout berhasil!");
    string_of(out.as_slice())
}

// ---------------------------------------------------------------------------
// The task time
// ---------------------------------------------------------------------------

/// The minute a default task time uses: the end of the current quarter
/// hour (14, 29, 44 or 59).
pub open spec fn quarter_end(minute: int) -> int {
    if minute <= 14 {
        14
    } else if minute <= 29 {
        29
    } else if minute <= 44 {
        44
    } else {
        59
    }
}

/// The default task time: the current hour, the end of the current quarter
/// hour, second 59.900.
pub open spec fn default_task_time_text(hour: int, minute: int) -> Seq<char> {
    padded(hour, 2) + ":"@ + padded(quarter_end(minute), 2) + ":59.900"@
}

pub fn default_task_time(hour: u32, minute: u32) -> (t: String)
    requires
        hour < 24,
        minute < 60,
    ensures
        t@ == default_task_time_text(hour as int, minute as int),
{
    let m: i64 = if minute <= 14 {
        14
    } else if minute <= 29 {
        29
    } else if minute <= 44 {
        44
    } else {
        59
    };
    let mut out: Vec<char> = Vec::new();
    push_padded(&mut out, hour as i64, 2);
    push_str_chars(&mut out, ":");
    push_padded(&mut out, m, 2);
    push_str_chars(&mut out, ":59.900");
    string_of(out.as_slice())
}

/// The answer is `yes` or `y` in any case (what `to_lowercase` turns into
/// those words).
pub open spec fn is_yes(answer: Seq<char>) -> bool {
    let t = trim(answer);
    ||| t.len() == 1 && (t[0] == 'y' || t[0] == 'Y')
    ||| t.len() == 3 && (t[0] == 'y' || t[0] == 'Y') && (t[1] == 'e' || t[1] == 'E') && (t[2] == 's'
        || t[2] == 'S')
}

/// Whether the user moves a task time that has passed to the next day.
pub fn wants_next_day(answer: &str) -> (r: bool)
    ensures
        r == is_yes(answer@),
{
    let t = trimmed(answer);
    if t.len() == 1 {
        t[0] == 'y' || t[0] == 'Y'
    } else if t.len() == 3 {
        (t[0] == 'y' || t[0] == 'Y') && (t[1] == 'e' || t[1] == 'E') && (t[2] == 's' || t[2] == 'S')
    } else {
        false
    }
}

/// The modes of the voucher savers.
pub enum Mode {
    Normal,
    Collection,
    Food,
}

/// The mode typed (trimmed): 1 normal, 2 collection, and 3 food where the
/// program offers it; `None` asks again.
pub fn select_mode(input: &str, with_food: bool) -> (m: Option<Mode>)
    ensures
        trim(input@) == seq!['1'] ==> m == Some(Mode::Normal),
        trim(input@) == seq!['2'] ==> m == Some(Mode::Collection),
        trim(input@) == seq!['3'] ==> m == if with_food {
            Some(Mode::Food)
        } else {
            None::<Mode>
        },
        !(trim(input@) == seq!['1'] || trim(input@) == seq!['2'] || trim(input@) == seq!['3'])
            ==> m is None,
{
    let t = trimmed(input);
    if t.len() == 1 && t[0] == '1' {
        assert(t@ =~= seq!['1']);
        Some(Mode::Normal)
    } else if t.len() == 1 && t[0] == '2' {
        assert(t@ =~= seq!['2']);
        Some(Mode::Collection)
    } else if t.len() == 1 && t[0] == '3' {
        assert(t@ =~= seq!['3']);
        if with_food {
            Some(Mode::Food)
        } else {
            None
        }
    } else {
        None
    }
}

/// A value given on the command line, or else the answer typed at the
/// prompt (the prompt is only shown where no value is given).
pub fn get_or_prompt(opt: Option<&str>, typed: &str) -> (s: String)
    ensures
        s@ == match opt {
            Some(o) => o@,
            None => typed@,
        },
{
    match opt {
        Some(o) => o.to_string(),
        None => typed.to_string(),
    }
}

} // verus!
