//! The video reward runner: which reward was reached, and what to do for
//! each next one.
use vstd::prelude::*;
use crate::text::{i64_decimal, push_all, push_str_chars, signed_decimal, string_of};

verus! {

/// One reward of the reward list, as the answer gives it.
pub struct RewardEntry {
    pub completed: Option<bool>,
    pub reward_id: Option<i64>,
}

/// The index of the last reward marked completed, among the first `n`.
pub open spec fn last_completed_index(rewards: Seq<RewardEntry>, n: int) -> Option<int>
    decreases n,
{
    if n <= 0 {
        None
    } else if rewards[n - 1].completed == Some(true) {
        Some(n - 1)
    } else {
        last_completed_index(rewards, n - 1)
    }
}

/// The id of the last completed reward: 0 where none is completed.
pub open spec fn last_completed_value(rewards: Seq<RewardEntry>) -> i64 {
    match last_completed_index(rewards, rewards.len() as int) {
        Some(i) => rewards[i].reward_id->0,
        None => 0,
    }
}

/// The last completed reward carries its id (the runner fails otherwise).
pub open spec fn last_completed_has_id(rewards: Seq<RewardEntry>) -> bool {
    match last_completed_index(rewards, rewards.len() as int) {
        Some(i) => rewards[i].reward_id is Some,
        None => true,
    }
}

/// The id of the last completed reward of the list, 0 where none is.
pub fn last_completed_reward(rewards: &[RewardEntry]) -> (id: i64)
    requires
        last_completed_has_id(rewards@),
    ensures
        id == last_completed_value(rewards@),
{
    let mut i: usize = rewards.len();
    while i > 0
        invariant
            i <= rewards@.len(),
            last_completed_index(rewards@, rewards@.len() as int) == last_completed_index(rewards@, i as int),
            last_completed_has_id(rewards@),
        decreases i,
    {
        if rewards[i - 1].completed == Some(true) {
            match rewards[i - 1].reward_id {
                Some(id) => {
                    return id;
                },
                None => {
                    return 0;
                },
            }
        }
        i = i - 1;
    }
    0
}

/// What the runner does at a reward: stop from reward 61 on; otherwise
/// report it, claim it at rewards 5, 15 and 60, then wait and go on with
/// the next.
pub enum RewardAction {
    Finish,
    Report { claim: bool, next: i64 },
}

pub fn reward_step(current: i64) -> (a: RewardAction)
    ensures
        current >= 61 ==> a is Finish,
        current < 61 ==> a == (RewardAction::Report {
            claim: current == 5 || current == 15 || current == 60,
            next: (current + 1) as i64,
        }),
{
    if current >= 61 {
        RewardAction::Finish
    } else {
        RewardAction::Report { claim: current == 5 || current == 15 || current == 60, next: current + 1 }
    }
}

/// The reward the runner starts at: the one after the last completed.
pub fn first_reward(last_completed: i64) -> (r: i64)
    requires
        last_completed < i64::MAX,
    ensures
        r == last_completed + 1,
{
    last_completed + 1
}

/// The cookie of a reward request: the account cookie with the app
/// version stamp of the request time.
pub open spec fn reward_cookie_text(cookie: Seq<char>, timestamp: i64) -> Seq<char> {
    cookie + "; shopee_rn_version="@ + signed_decimal(timestamp as int)
}

pub fn reward_cookie(cookie: &str, timestamp: i64) -> (c: String)
    ensures
        c@ == reward_cookie_text(cookie@, timestamp),
{
    let mut out: Vec<char> = Vec::new();
    push_str_chars(&mut out, cookie);
    push_str_chars(&mut out, "; shopee_rn_version=");
    push_all(&mut out, &i64_decimal(timestamp));
    string_of(out.as_slice())
}

/// The address that claims a reward.
pub open spec fn claim_url_text(timestamp: i64) -> Seq<char> {
    "https://ug-api.sv.shopee.co.id/api/v2/biz/reward/claim?_timestamp="@ + signed_decimal(
        timestamp as int,
    ) + "&version=1"@
}

pub fn claim_url(timestamp: i64) -> (u: String)
    ensures
        u@ == claim_url_text(timestamp),
{
    let mut out: Vec<char> = Vec::new();
    push_str_chars(&mut out, "https://ug-api.sv.shopee.co.id/api/v2/biz/reward/claim?_timestamp=");
    push_all(&mut out, &i64_decimal(timestamp));
    push_str_chars(&mut out, "&version=1");
    string_of(out.as_slice())
}

/// The address that reports a watched round.
pub open spec fn report_url_text(timestamp: i64) -> Seq<char> {
    "https://ug-api.sv.shopee.co.id/api/v2/biz/reward/report/time/round?_timestamp="@
        + signed_decimal(timestamp as int) + "&version=1"@
}

pub fn report_url(timestamp: i64) -> (u: String)
    ensures
        u@ == report_url_text(timestamp),
{
    let mut out: Vec<char> = Vec::new();
    push_str_chars(&mut out, "https://ug-api.sv.shopee.co.id/api/v2/biz/reward/report/time/round?_timestamp=");
    push_all(&mut out, &i64_decimal(timestamp));
    push_str_chars(&mut out, "&version=1");
    string_of(out.as_slice())
}

/// The address of the reward configuration.
pub open spec fn config_url_text(timestamp: i64, device_fingerprint: Seq<char>) -> Seq<char> {
    "https://ug-api.sv.shopee.co.id/api/v2/reward/config?_timestamp="@ + signed_decimal(
        timestamp as int,
    ) + "&version=1&from_source=app_auto_streaming&shopee_df="@ + device_fingerprint
        + "&engine_type=2&source=1"@
}

pub fn config_url(timestamp: i64, device_fingerprint: &str) -> (u: String)
    ensures
        u@ == config_url_text(timestamp, device_fingerprint@),
{
    let mut out: Vec<char> = Vec::new();
    push_str_chars(&mut out, "https://ug-api.sv.shopee.co.id/api/v2/reward/config?_timestamp=");
    push_all(&mut out, &i64_decimal(timestamp));
    push_str_chars(&mut out, "&version=1&from_source=app_auto_streaming&shopee_df=");
    push_str_chars(&mut out, device_fingerprint);
    push_str_chars(&mut out, "&engine_type=2&source=1");
    string_of(out.as_slice())
}

/// The Telegram message of a lucky draw.
pub open spec fn draw_message_text(username: Seq<char>, body: Seq<char>) -> Seq<char> {
    "Username: "@ + username + "\nIsi: "@ + body
}

pub fn draw_message(username: &str, body: &str) -> (m: String)
    ensures
        m@ == draw_message_text(username@, body@),
{
    let mut out: Vec<char> = Vec::new();
    push_str_chars(&mut out, "Username: ");
    push_str_chars(&mut out, username);
    push_str_chars(&mut out, "\nIsi: ");
    push_str_chars(&mut out, body);
    string_of(out.as_slice())
}

} // verus!
