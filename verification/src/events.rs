//! The output router's hook-event path: tracks which command block is open
//! and forwards every payload verbatim.

use vstd::prelude::*;
use crate::json::{hook_fields, hook_ty_of, hook_event_of, hook_block_id_of};
use crate::msg::{OutMsg, OutSpec, views_of, opt_view};

verus! {

/// The block-tracking fields of a hook-event payload.  A field is `None`
/// when it is absent, of the wrong kind, or the payload is not JSON at all.
#[derive(Debug, Clone, PartialEq, Eq)]
pub struct EventFields {
    /// The `type` member.
    pub ty: Option<String>,
    /// The `event` member.
    pub event: Option<String>,
    /// The `id` member of the nested `block` object.
    pub block_id: Option<String>,
}

/// The open block after a hook event with the given fields: an "opened"
/// block event with an id opens that block, a "closed" block event closes
/// any open one, and everything else leaves the state alone.
pub open spec fn block_after(
    cur: Option<Seq<char>>,
    ty: Option<Seq<char>>,
    event: Option<Seq<char>>,
    id: Option<Seq<char>>,
) -> Option<Seq<char>> {
    if ty == Some("block_event"@) {
        if event == Some("opened"@) {
            if id is Some {
                id
            } else {
                cur
            }
        } else if event == Some("closed"@) {
            None
        } else {
            cur
        }
    } else {
        cur
    }
}

/// Apply one hook event's fields to the current open block.
pub fn apply_event(cur: Option<String>, f: &EventFields) -> (r: Option<String>)
    ensures
        opt_view(r) == block_after(opt_view(cur), opt_view(f.ty), opt_view(f.event), opt_view(
            f.block_id,
        )),
{
    let is_block_event = match &f.ty {
        Some(t) => *t == String::from_str("block_event"),
        None => false,
    };
    if !is_block_event {
        return cur;
    }
    let opened = match &f.event {
        Some(e) => *e == String::from_str("opened"),
        None => false,
    };
    if opened {
        return match &f.block_id {
            Some(id) => Some(id.clone()),
            None => cur,
        };
    }
    let closed = match &f.event {
        Some(e) => *e == String::from_str("closed"),
        None => false,
    };
    if closed {
        return None;
    }
    cur
}

/// Pull the block-tracking fields out of a hook-event payload: each member
/// equals its named parse result, a function of the payload text alone.
pub fn extract_event_fields(s: &str) -> (r: EventFields)
    ensures
        opt_view(r.ty) == hook_ty_of(s@),
        opt_view(r.event) == hook_event_of(s@),
        opt_view(r.block_id) == hook_block_id_of(s@),
{
    let (ty, event, block_id) = hook_fields(s);
    EventFields { ty, event, block_id }
}

/// Handle one hook-event payload: the new open block and the messages to
/// send.  The payload is always forwarded verbatim as the only message,
/// whether or not it parsed; the block state moves exactly as `block_after`
/// says over the payload's parsed fields.
pub fn handle_event(cur: Option<String>, s: String) -> (r: (Option<String>, Vec<OutMsg>))
    ensures
        views_of(r.1@) == seq![OutSpec::Event(s@)],
        opt_view(r.0) == block_after(
            opt_view(cur),
            hook_ty_of(s@),
            hook_event_of(s@),
            hook_block_id_of(s@),
        ),
{
    let ghost s0: Seq<char> = s@;
    let f = extract_event_fields(s.as_str());
    let next = apply_event(cur, &f);
    let mut out: Vec<OutMsg> = Vec::new();
    out.push(OutMsg::Event(s));
    proof {
        assert(views_of(out@) =~= seq![OutSpec::Event(s0)]);
    }
    (next, out)
}

/// Law: an "opened" block event carrying an id opens exactly that block,
/// whatever was open before.
pub proof fn lemma_opened_sets_block(cur: Option<Seq<char>>, id: Seq<char>)
    ensures
        block_after(cur, Some("block_event"@), Some("opened"@), Some(id)) == Some(id),
{
}

/// Law: a "closed" block event closes any open block, whatever the payload
/// also carried; and with no block open, no chunk is attributed until
/// another "opened" event arrives.
pub proof fn lemma_closed_clears_block(cur: Option<Seq<char>>, id: Option<Seq<char>>)
    ensures
        block_after(cur, Some("block_event"@), Some("closed"@), id) is None,
{
    reveal_strlit("opened");
    reveal_strlit("closed");
    assert("opened"@[0] != "closed"@[0]);
}

/// Law: with no block open, the state stays closed under every event that
/// is not an "opened" block event carrying an id: attribution cannot resume
/// until one arrives.
pub proof fn lemma_stays_closed(
    ty: Option<Seq<char>>,
    event: Option<Seq<char>>,
    id: Option<Seq<char>>,
)
    requires
        !(ty == Some("block_event"@) && event == Some("opened"@) && id is Some),
    ensures
        block_after(None, ty, event, id) is None,
{
}

/// Law: an event whose `type` is not `"block_event"`, or whose `event` is
/// neither `"opened"` nor `"closed"`, leaves the block state alone.
pub proof fn lemma_other_events_keep_block(
    cur: Option<Seq<char>>,
    ty: Option<Seq<char>>,
    event: Option<Seq<char>>,
    id: Option<Seq<char>>,
)
    requires
        ty != Some("block_event"@) || (event != Some("opened"@) && event != Some("closed"@)),
    ensures
        block_after(cur, ty, event, id) == cur,
{
}

} // verus!
