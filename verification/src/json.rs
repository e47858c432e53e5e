//! Trusted extraction of the two JSON message shapes the bridge reads:
//! hook-event payloads and resize controls.  serde_json does the parsing;
//! each extracted field is a function of the text alone, so it gets a name
//! here, and the verified routers decide everything over those names.

use vstd::prelude::*;

verus! {

/// The `type` member string of a hook-event payload parsed as JSON; `None`
/// when the text is not JSON, not an object, or the member is no string.
pub uninterp spec fn hook_ty_of(s: Seq<char>) -> Option<Seq<char>>;

/// The `event` member string of a hook-event payload, `None` as above.
pub uninterp spec fn hook_event_of(s: Seq<char>) -> Option<Seq<char>>;

/// The `id` member string of a hook-event payload's nested `block` object,
/// `None` as above.
pub uninterp spec fn hook_block_id_of(s: Seq<char>) -> Option<Seq<char>>;

/// Relies on serde_json::from_str, Value::get and Value::as_str: the
/// `type`, `event` and `block.id` member strings of `s` parsed as JSON,
/// each a function of the text alone; a parse failure, a missing member or
/// one of the wrong kind is `None`, never an error.
#[verifier::external_body]
pub(crate) fn hook_fields(s: &str) -> (r: (Option<String>, Option<String>, Option<String>))
    ensures
        crate::msg::opt_view(r.0) == hook_ty_of(s@),
        crate::msg::opt_view(r.1) == hook_event_of(s@),
        crate::msg::opt_view(r.2) == hook_block_id_of(s@),
{
    let v = match serde_json::from_str::<serde_json::Value>(s) {
        Ok(v) => v,
        Err(_) => return (None, None, None),
    };
    let ty = v.get("type").and_then(|x| x.as_str()).map(str::to_owned);
    let event = v.get("event").and_then(|x| x.as_str()).map(str::to_owned);
    let block_id = v.get("block").and_then(|b| b.get("id")).and_then(|x| x.as_str()).map(
        str::to_owned,
    );
    (ty, event, block_id)
}

/// The `type` member string of a control message parsed as JSON, `None`
/// when the text is not JSON, not an object, or the member is no string.
pub uninterp spec fn ctl_ty_of(t: Seq<char>) -> Option<Seq<char>>;

/// The `cols` member of a control message, when it is a number holding an
/// unsigned 64-bit integer; `None` otherwise.
pub uninterp spec fn ctl_cols_of(t: Seq<char>) -> Option<u64>;

/// The `rows` member of a control message, as for `ctl_cols_of`.
pub uninterp spec fn ctl_rows_of(t: Seq<char>) -> Option<u64>;

/// Relies on serde_json::from_str, Value::get, Value::as_str and
/// Value::as_u64: the `type`, `cols` and `rows` members of `t` parsed as
/// JSON, each a function of the text alone; a parse failure, a missing
/// member or one of the wrong kind is `None`, never an error.
#[verifier::external_body]
pub(crate) fn ctl_fields(t: &str) -> (r: (Option<String>, Option<u64>, Option<u64>))
    ensures
        crate::msg::opt_view(r.0) == ctl_ty_of(t@),
        r.1 == ctl_cols_of(t@),
        r.2 == ctl_rows_of(t@),
{
    let v = match serde_json::from_str::<serde_json::Value>(t) {
        Ok(v) => v,
        Err(_) => return (None, None, None),
    };
    let ty = v.get("type").and_then(|x| x.as_str()).map(str::to_owned);
    let cols = v.get("cols").and_then(|x| x.as_u64());
    let rows = v.get("rows").and_then(|x| x.as_u64());
    (ty, cols, rows)
}

} // verus!
