//! QR-code login: the code the login page shows, and what its status poll
//! answers.
use vstd::prelude::*;
use crate::text::{chars_eq, chars_of, owned};
use crate::url::{url_encode, url_encoded};

verus! {

/// A login QR code: its id, the id percent-encoded for a query string, and
/// the picture as base64.
pub struct DataQRCode {
    pub qrcode_id: String,
    pub qrcode_id_encoded: String,
    pub qrcode_base64: String,
}

/// The QR code described by a `gen_qrcode` answer (a missing field reads as
/// empty).
pub fn qrcode_from_answer(qrcode_id: Option<&str>, qrcode_base64: Option<&str>) -> (q: DataQRCode)
    ensures
        q.qrcode_id@ == match qrcode_id {
            Some(s) => s@,
            None => Seq::<char>::empty(),
        },
        q.qrcode_id_encoded@ == url_encoded(q.qrcode_id@),
        q.qrcode_base64@ == match qrcode_base64 {
            Some(s) => s@,
            None => Seq::<char>::empty(),
        },
{
    let id: &str = match qrcode_id {
        Some(s) => s,
        None => "",
    };
    proof {
        reveal_strlit("");
    }
    let picture: &str = match qrcode_base64 {
        Some(s) => s,
        None => "",
    };
    DataQRCode { qrcode_id: owned(id), qrcode_id_encoded: url_encode(id), qrcode_base64: owned(picture) }
}

/// What a status poll reports: the status and the login token (a missing
/// field reads as empty).
pub fn qrcode_status_from_answer(status: Option<&str>, qrcode_token: Option<&str>) -> (r: (String, String))
    ensures
        r.0@ == match status {
            Some(s) => s@,
            None => Seq::<char>::empty(),
        },
        r.1@ == match qrcode_token {
            Some(s) => s@,
            None => Seq::<char>::empty(),
        },
{
    proof {
        reveal_strlit("");
    }
    let s: &str = match status {
        Some(s) => s,
        None => "",
    };
    let t: &str = match qrcode_token {
        Some(t) => t,
        None => "",
    };
    (owned(s), owned(t))
}

/// What the login loop does after a status poll.
pub enum QrLoginStep {
    /// The code was confirmed: log in with the token.
    LogIn,
    /// Poll the status again.
    Poll,
    /// Ask for a new code.
    Renew,
}

/// The login loop's decision on a status poll: a confirmed code logs in
/// with its token (a new code is asked for where the token is empty), an
/// expired code is renewed, and any other status (scanned, waiting) is
/// polled again.
pub fn qrcode_login_step(status: &str, qrcode_token: &str) -> (step: QrLoginStep)
    ensures
        status@ == "CONFIRMED"@ ==> if qrcode_token@.len() == 0 {
            step is Renew
        } else {
            step is LogIn
        },
        status@ == "EXPIRED"@ ==> step is Renew,
        status@ != "CONFIRMED"@ && status@ != "EXPIRED"@ ==> step is Poll,
{
    proof {
        reveal_strlit("CONFIRMED");
        reveal_strlit("EXPIRED");
        assert("CONFIRMED"@.len() != "EXPIRED"@.len());
    }
    let s = chars_of(status);
    if chars_eq(&s, &chars_of("CONFIRMED")) {
        if qrcode_token.unicode_len() == 0 {
            QrLoginStep::Renew
        } else {
            QrLoginStep::LogIn
        }
    } else if chars_eq(&s, &chars_of("EXPIRED")) {
        QrLoginStep::Renew
    } else {
        QrLoginStep::Poll
    }
}

} // verus!
