//! Device identifiers and request tokens: the device id built from random
//! UUID halves, hex fingerprints, csrf tokens and the `x-sap-ri` header.
use vstd::prelude::*;
use crate::text::{owned, push_str_chars, string_of};
use byteorder::ByteOrder;
use rand::Rng;

verus! {

pub struct BuyerPaymentInfo {
    pub is_jko_app_installed: bool,
}

pub struct GpsLocationInfo {}

pub struct DeviceInfo {
    pub device_id: String,
    pub device_fingerprint: String,
    pub device_sz_fingerprint: String,
    pub tongdun_blackbox: String,
    pub buyer_payment_info: BuyerPaymentInfo,
    pub gps_location_info: GpsLocationInfo,
}

pub struct W {
    pub f3733a: i64,
}

// ---------------------------------------------------------------------------
// Outside calls
// ---------------------------------------------------------------------------

/// The 128 bits of a fresh random UUID (`uuid::Uuid::new_v4`, read back
/// with `Uuid::as_u128`). Random: nothing is promised of the value.
#[verifier::external_body]
fn uuid_v4_bits() -> (bits: u128) {
    uuid::Uuid::new_v4().as_u128()
}

/// What `base64::encode` (standard alphabet, with padding) makes of `bytes`.
pub uninterp spec fn base64_standard(bytes: Seq<u8>) -> Seq<char>;

/// `base64::encode`: the standard base64 text of `bytes`. The contract only
/// names the result; the encoding itself is the crate's.
#[verifier::external_body]
fn base64_encode(bytes: &[u8]) -> (s: String)
    ensures
        s@ == base64_standard(bytes@),
{
    #[allow(deprecated)]
    base64::encode(bytes)
}

/// The big-endian bytes of `n` (two's complement).
pub open spec fn be_bytes(n: i64) -> Seq<u8> {
    let u = n as u64;
    seq![
        (u >> 56u64) as u8,
        (u >> 48u64) as u8,
        (u >> 40u64) as u8,
        (u >> 32u64) as u8,
        (u >> 24u64) as u8,
        (u >> 16u64) as u8,
        (u >> 8u64) as u8,
        u as u8,
    ]
}

/// `byteorder::BigEndian::write_i64` on `buf[at..]`: the source writes
/// `n.to_be_bytes()` into the first eight bytes and leaves the rest.
#[verifier::external_body]
fn write_i64_be(buf: &mut Vec<u8>, at: usize, n: i64)
    requires
        at + 8 <= old(buf)@.len(),
    ensures
        final(buf)@ == old(buf)@.take(at as int) + be_bytes(n) + old(buf)@.skip(at + 8),
{
    byteorder::BigEndian::write_i64(&mut buf[at..], n)
}

/// `rand::thread_rng().gen_range(0..16)`: a random index below 16, as the
/// range documents.
#[verifier::external_body]
fn random_below_16() -> (r: usize)
    ensures
        r < 16,
{
    rand::thread_rng().gen_range(0..16)
}

/// `rand::thread_rng().sample(Alphanumeric)` as a `char`: the distribution
/// documents its values as the ASCII letters and digits.
#[verifier::external_body]
fn random_alphanumeric() -> (c: char)
    ensures
        is_ascii_alphanumeric(c),
{
    char::from(rand::thread_rng().sample(rand::distributions::Alphanumeric))
}

/// `rand::random::<u8>()`: any byte.
#[verifier::external_body]
fn random_byte() -> (b: u8) {
    rand::random::<u8>()
}

/// `std::time::SystemTime::now()` as whole seconds since the Unix epoch; the
/// clock decides the value.
#[verifier::external_body]
fn unix_time_secs() -> (secs: u64) {
    std::time::SystemTime::now().duration_since(std::time::UNIX_EPOCH).unwrap().as_secs()
}

// ---------------------------------------------------------------------------
// Device id
// ---------------------------------------------------------------------------

/// The value a `W` takes from the bits of a UUID: the two 64-bit halves
/// xored, read as `i64`, made non-negative (the one negative that has no
/// opposite, `i64::MIN`, stays as it is).
pub open spec fn w_value(bits: u128) -> i64 {
    let combined = (((bits >> 64u128) ^ (bits & 0xFFFF_FFFF_FFFF_FFFFu128)) as u64) as i64;
    if combined == i64::MIN {
        i64::MIN
    } else if combined < 0 {
        (-combined) as i64
    } else {
        combined
    }
}

impl W {
    /// A `W` from a random UUID.
    pub fn new() -> (w: Self)
        ensures
            exists|bits: u128| w.f3733a == w_value(bits),
            w.f3733a >= 0 || w.f3733a == i64::MIN,
    {
        let bits = uuid_v4_bits();
        W::from_uuid_bits(bits)
    }

    /// The `W` that the UUID with these bits gives.
    pub fn from_uuid_bits(bits: u128) -> (w: Self)
        ensures
            w.f3733a == w_value(bits),
    {
        let most_significant_bits = bits >> 64u128;
        let least_significant_bits = bits & 0xFFFF_FFFF_FFFF_FFFFu128;
        let x = (most_significant_bits ^ least_significant_bits) as u64;
        let combined = x as i64;
        let f3733a = if combined == i64::MIN {
            i64::MIN
        } else if combined < 0 {
            -combined
        } else {
            combined
        };
        W { f3733a }
    }
}

/// The 32 bytes behind a device id: the four values, big-endian, in order.
pub open spec fn device_id_bytes(parts: Seq<i64>) -> Seq<u8> {
    be_bytes(parts[0]) + be_bytes(parts[1]) + be_bytes(parts[2]) + be_bytes(parts[3])
}

/// The device id made from four values: their big-endian bytes in base64.
pub fn device_id_from_parts(parts: &[i64; 4]) -> (id: String)
    ensures
        id@ == base64_standard(device_id_bytes(parts@)),
{
    let mut buffer: Vec<u8> = vec![0u8; 32];
    let mut i: usize = 0;
    while i < 4
        invariant
            i <= 4,
            buffer@.len() == 32,
            buffer@.take(8 * i as int) == (if i == 0 {
                Seq::<u8>::empty()
            } else if i == 1 {
                be_bytes(parts@[0])
            } else if i == 2 {
                be_bytes(parts@[0]) + be_bytes(parts@[1])
            } else if i == 3 {
                be_bytes(parts@[0]) + be_bytes(parts@[1]) + be_bytes(parts@[2])
            } else {
                device_id_bytes(parts@)
            }),
        decreases 4 - i,
    {
        let ghost before = buffer@;
        write_i64_be(&mut buffer, 8 * i, parts[i]);
        assert(buffer@.take(8 * (i + 1)) == before.take(8 * i as int) + be_bytes(parts@[i as int]));
        i = i + 1;
    }
    assert(buffer@.take(32) == buffer@);
    base64_encode(buffer.as_slice())
}

/// A fresh device id: four random `W` values, encoded by `device_id_from_parts`.
pub fn generate_device_id() -> (id: String)
    ensures
        exists|parts: Seq<i64>|
            parts.len() == 4 && id@ == base64_standard(device_id_bytes(parts)),
{
    let parts: [i64; 4] = [W::new().f3733a, W::new().f3733a, W::new().f3733a, W::new().f3733a];
    let id = device_id_from_parts(&parts);
    assert(parts@.len() == 4 && id@ == base64_standard(device_id_bytes(parts@)));
    id
}

// ---------------------------------------------------------------------------
// Hex strings and tokens
// ---------------------------------------------------------------------------

pub open spec fn is_lower_hex(c: char) -> bool {
    ('0' <= c && c <= '9') || ('a' <= c && c <= 'f')
}

pub open spec fn is_ascii_alphanumeric(c: char) -> bool {
    ('0' <= c && c <= '9') || ('a' <= c && c <= 'z') || ('A' <= c && c <= 'Z')
}

/// The lower-case hex digit for `d < 16`.
pub open spec fn hex_digit(d: nat) -> char {
    if d < 10 {
        ('0' as nat + d) as char
    } else {
        ('a' as nat + d - 10) as char
    }
}

pub fn hex_digit_char(d: u8) -> (c: char)
    requires
        d < 16,
    ensures
        c == hex_digit(d as nat),
        is_lower_hex(c),
{
    let cs: [char; 16] = [
        '0',
        '1',
        '2',
        '3',
        '4',
        '5',
        '6',
        '7',
        '8',
        '9',
        'a',
        'b',
        'c',
        'd',
        'e',
        'f',
    ];
    let c = cs[d as usize];
    assert(c == hex_digit(d as nat)) by {
        assert(cs@[d as int] == c);
    }
    c
}

/// Two lower-case hex digits per byte, as `{:02x}` writes them.
pub open spec fn hex_lower(bytes: Seq<u8>) -> Seq<char>
    decreases bytes.len(),
{
    if bytes.len() == 0 {
        Seq::empty()
    } else {
        hex_lower(bytes.drop_last()) + seq![
            hex_digit((bytes.last() / 16) as nat),
            hex_digit((bytes.last() % 16) as nat),
        ]
    }
}

/// The bytes as lower-case hex, two digits each.
pub fn to_hex_string(bytes: &[u8]) -> (s: String)
    ensures
        s@ == hex_lower(bytes@),
{
    let mut out: Vec<char> = Vec::new();
    let mut i: usize = 0;
    while i < bytes.len()
        invariant
            i <= bytes.len(),
            out@ == hex_lower(bytes@.take(i as int)),
        decreases bytes.len() - i,
    {
        let b = bytes[i];
        out.push(hex_digit_char(b / 16));
        out.push(hex_digit_char(b % 16));
        i = i + 1;
        assert(bytes@.take(i as int).drop_last() == bytes@.take(i - 1));
    }
    assert(bytes@.take(bytes.len() as int) == bytes@);
    string_of(out.as_slice())
}

/// `len` random lower-case hex digits.
pub fn random_hex_string(len: usize) -> (s: String)
    ensures
        s@.len() == len,
        forall|i: int| 0 <= i < len ==> is_lower_hex(#[trigger] s@[i]),
{
    let mut out: Vec<char> = Vec::new();
    let mut i: usize = 0;
    while i < len
        invariant
            i <= len,
            out@.len() == i,
            forall|k: int| 0 <= k < i ==> is_lower_hex(#[trigger] out@[k]),
        decreases len - i,
    {
        let idx = random_below_16();
        out.push(hex_digit_char(idx as u8));
        i = i + 1;
    }
    string_of(out.as_slice())
}

/// A device fingerprint: sixteen random hex digits followed by `_unknown`.
pub fn generate_device_fingerprint() -> (s: String)
    ensures
        s@.len() == 24,
        forall|i: int| 0 <= i < 16 ==> is_lower_hex(#[trigger] s@[i]),
        s@.skip(16) == "_unknown"@,
{
    let hex = random_hex_string(16);
    let mut out = crate::text::chars_of(hex.as_str());
    push_str_chars(&mut out, "_unknown");
    proof {
        reveal_strlit("_unknown");
        assert(out@.skip(16) == "_unknown"@);
    }
    string_of(out.as_slice())
}

/// The device information sent with a checkout: fresh ids, the given
/// `af-ac-enc-sz-token` value as the sz fingerprint, and fixed defaults.
pub fn create_devices(fp: &str) -> (info: DeviceInfo)
    ensures
        info.device_sz_fingerprint@ == fp@,
        info.tongdun_blackbox@ == "td_disable_for_ID"@,
        !info.buyer_payment_info.is_jko_app_installed,
        info.device_fingerprint@.len() == 24,
        info.device_fingerprint@.skip(16) == "_unknown"@,
        exists|parts: Seq<i64>|
            parts.len() == 4 && info.device_id@ == base64_standard(device_id_bytes(parts)),
{
    let device_id = generate_device_id();
    let device_fingerprint = generate_device_fingerprint();
    DeviceInfo {
        device_id,
        device_fingerprint,
        device_sz_fingerprint: owned(fp),
        tongdun_blackbox: owned("td_disable_for_ID"),
        buyer_payment_info: BuyerPaymentInfo { is_jko_app_installed: false },
        gps_location_info: GpsLocationInfo {  },
    }
}

/// `length` random ASCII letters and digits.
pub fn generate_csrftoken(length: usize) -> (s: String)
    ensures
        s@.len() == length,
        forall|i: int| 0 <= i < length ==> is_ascii_alphanumeric(#[trigger] s@[i]),
{
    let mut out: Vec<char> = Vec::new();
    let mut i: usize = 0;
    while i < length
        invariant
            i <= length,
            out@.len() == i,
            forall|k: int| 0 <= k < i ==> is_ascii_alphanumeric(#[trigger] out@[k]),
        decreases length - i,
    {
        out.push(random_alphanumeric());
        i = i + 1;
    }
    string_of(out.as_slice())
}

// ---------------------------------------------------------------------------
// x-sap-ri
// ---------------------------------------------------------------------------

/// The little-endian bytes of `v`.
pub open spec fn le_bytes_u32(v: u32) -> Seq<u8> {
    seq![v as u8, (v >> 8u32) as u8, (v >> 16u32) as u8, (v >> 24u32) as u8]
}

/// The 26 bytes behind an `x-sap-ri` value: the timestamp little-endian,
/// then the 22 random bytes, where position 11 keeps only the low nibble of
/// its byte under a high nibble of 3, and positions 12 and 13 are 3 and 1.
pub open spec fn sap_ri_bytes(timestamp: u32, random: Seq<u8>) -> Seq<u8> {
    let raw = le_bytes_u32(timestamp) + random;
    raw.update(11, (48 + (raw[11] & 15u8)) as u8).update(12, 3u8).update(13, 1u8)
}

/// The `x-sap-ri` triple for a timestamp and 22 random bytes: the hex of the
/// buffer, the timestamp, and the first random byte.
pub fn x_sap_ri_from(timestamp: u32, random: &[u8]) -> (r: (String, u32, u8))
    requires
        random@.len() == 22,
    ensures
        r.0@ == hex_lower(sap_ri_bytes(timestamp, random@)),
        r.1 == timestamp,
        r.2 == random@[0],
{
    let mut buffer: Vec<u8> = Vec::new();
    buffer.push(timestamp as u8);
    buffer.push((timestamp >> 8u32) as u8);
    buffer.push((timestamp >> 16u32) as u8);
    buffer.push((timestamp >> 24u32) as u8);
    let mut i: usize = 0;
    while i < 22
        invariant
            i <= 22,
            random@.len() == 22,
            buffer@ == le_bytes_u32(timestamp) + random@.take(i as int),
        decreases 22 - i,
    {
        buffer.push(random[i]);
        i = i + 1;
        assert(random@.take(i as int) == random@.take(i - 1).push(random@[i - 1]));
    }
    assert(random@.take(22) == random@);
    let b11 = buffer[11];
    assert((b11 & 15u8) <= 15) by (bit_vector);
    let magic: u8 = 48 + (b11 & 15u8);
    buffer.set(11, magic);
    buffer.set(12, 3);
    buffer.set(13, 1);
    let hex_string = to_hex_string(buffer.as_slice());
    (hex_string, timestamp, random[0])
}

/// The `x-sap-ri` triple for the current time and fresh random bytes.
pub fn get_x_sap_ri() -> (r: (String, u32, u8))
    ensures
        exists|random: Seq<u8>|
            random.len() == 22 && r.0@ == hex_lower(sap_ri_bytes(r.1, random)) && r.2
                == random[0],
{
    #[verifier::truncate]
    let timestamp = unix_time_secs() as u32;
    let mut random_bytes: Vec<u8> = Vec::new();
    let mut i: usize = 0;
    while i < 22
        invariant
            i <= 22,
            random_bytes@.len() == i,
        decreases 22 - i,
    {
        random_bytes.push(random_byte());
        i = i + 1;
    }
    x_sap_ri_from(timestamp, random_bytes.as_slice())
}

} // verus!
