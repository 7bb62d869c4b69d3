//! What the HTTP client sends and how it reads the status of what comes
//! back. The transport itself lives outside the library.

use vstd::prelude::*;

use crate::error::BlazeError;
use crate::types::{Column, PlanStatus};

verus! {

/// Path of the unauthenticated health check.
pub const HEALTH_PATH: &'static str = "/health";

/// Path of the board statistics.
pub const STATS_PATH: &'static str = "/api/board/stats";

/// Message of the authentication error.
pub const AUTH_FAILED: &'static str = "Invalid or missing token";

/// `s` without its trailing slashes.
pub open spec fn strip_trailing_slashes(s: Seq<char>) -> Seq<char>
    decreases s.len(),
{
    if s.len() > 0 && s.last() == '/' {
        strip_trailing_slashes(s.drop_last())
    } else {
        s
    }
}

/// The base URL without trailing slashes, so that paths can be appended.
pub fn normalize_base_url(url: &str) -> (r: String)
    ensures
        r@ == strip_trailing_slashes(url@),
{
    let n = url.unicode_len();
    let mut k: usize = n;
    assert(url@.subrange(0, n as int) =~= url@);
    while k > 0 && url.get_char(k - 1) == '/'
        invariant
            n == url@.len(),
            k <= n,
            strip_trailing_slashes(url@.subrange(0, k as int)) == strip_trailing_slashes(url@),
        decreases k,
    {
        assert(url@.subrange(0, k as int).drop_last() =~= url@.subrange(0, k - 1));
        k = k - 1;
    }
    url.substring_char(0, k).to_owned()
}

/// The full URL of `path` under `base`.
pub fn request_url(base: &str, path: &str) -> (r: String)
    ensures
        r@ == base@ + path@,
{
    let mut r = String::from_str(base);
    r.append(path);
    r
}

/// The value of the `Authorization` header: `Bearer <token>` when a token is
/// configured, no header otherwise.
pub fn bearer_value(token: &Option<String>) -> (r: Option<String>)
    ensures
        token is None ==> r is None,
        token matches Some(t) ==> (r matches Some(v) && v@ == "Bearer "@ + t@),
{
    match token {
        Some(t) => {
            let mut v = String::from_str("Bearer ");
            v.append(t.as_str());
            Some(v)
        },
        None => None,
    }
}

/// Path listing the cards, restricted to one column when given.
pub fn cards_path(column: Option<Column>) -> (r: String)
    ensures
        column is None ==> r@ == "/api/cards"@,
        column matches Some(c) ==> r@ == "/api/cards?column="@ + c.spec_name(),
{
    match column {
        Some(c) => {
            let mut r = String::from_str("/api/cards?column=");
            r.append(c.name());
            r
        },
        None => String::from_str("/api/cards"),
    }
}

/// Path of one card.
pub fn card_path(id: &str) -> (r: String)
    ensures
        r@ == "/api/cards/"@ + id@,
{
    let mut r = String::from_str("/api/cards/");
    r.append(id);
    r
}

/// Path that moves one card.
pub fn card_move_path(id: &str) -> (r: String)
    ensures
        r@ == "/api/cards/"@ + id@ + "/move"@,
{
    let mut r = card_path(id);
    r.append("/move");
    r
}

/// Path listing the plans, restricted to one status when given.
pub fn plans_path(status: Option<PlanStatus>) -> (r: String)
    ensures
        status is None ==> r@ == "/api/plans"@,
        status matches Some(s) ==> r@ == "/api/plans?status="@ + s.spec_name(),
{
    match status {
        Some(s) => {
            let mut r = String::from_str("/api/plans?status=");
            r.append(s.name());
            r
        },
        None => String::from_str("/api/plans"),
    }
}

/// Path of one plan.
pub fn plan_path(id: &str) -> (r: String)
    ensures
        r@ == "/api/plans/"@ + id@,
{
    let mut r = String::from_str("/api/plans/");
    r.append(id);
    r
}

/// Path of the files of one plan.
pub fn plan_files_path(plan_id: &str) -> (r: String)
    ensures
        r@ == "/api/plans/"@ + plan_id@ + "/files"@,
{
    let mut r = plan_path(plan_id);
    r.append("/files");
    r
}

/// Path of one file of one plan.
pub fn plan_file_path(plan_id: &str, filename: &str) -> (r: String)
    ensures
        r@ == "/api/plans/"@ + plan_id@ + "/files/"@ + filename@,
{
    let mut r = plan_path(plan_id);
    r.append("/files/");
    r.append(filename);
    r
}

/// A 2xx status.
pub open spec fn spec_is_success(status: u16) -> bool {
    200 <= status <= 299
}

/// Whether `status` is a success (2xx).
pub fn is_success(status: u16) -> (r: bool)
    ensures
        r == spec_is_success(status),
{
    200 <= status && status <= 299
}

/// Reads a response that should carry a payload: 401 is an authentication
/// error, any other non-2xx status an API error with the status and the body
/// text, and a 2xx status hands the body on for decoding.
pub fn response_outcome(status: u16, body: String) -> (r: Result<String, BlazeError>)
    ensures
        status == 401 ==> (r matches Err(BlazeError::Auth(m)) && m@ == AUTH_FAILED@),
        status != 401 && !spec_is_success(status) ==> (r matches Err(
            BlazeError::Api { status: s, message },
        ) && s == status && message == body),
        spec_is_success(status) ==> r == Ok::<String, BlazeError>(body),
{
    if status == 401 {
        Err(BlazeError::Auth(String::from_str(AUTH_FAILED)))
    } else if !is_success(status) {
        Err(BlazeError::Api { status, message: body })
    } else {
        Ok(body)
    }
}

/// Reads the response to a delete that carries no payload: 204 and every
/// other 2xx status are success, 401 is an authentication error, any other
/// status an API error with the status and the body text.
pub fn delete_outcome(status: u16, body: String) -> (r: Result<(), BlazeError>)
    ensures
        spec_is_success(status) ==> r is Ok,
        status == 401 ==> (r matches Err(BlazeError::Auth(m)) && m@ == AUTH_FAILED@),
        status != 401 && !spec_is_success(status) ==> (r matches Err(
            BlazeError::Api { status: s, message },
        ) && s == status && message == body),
{
    if status == 204 {
        return Ok(());
    }
    match response_outcome(status, body) {
        Ok(_) => Ok(()),
        Err(e) => Err(e),
    }
}

} // verus!
