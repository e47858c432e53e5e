//! The input router: dispatches inbound transport messages to the terminal,
//! either as keystrokes or as a resize control.

use vstd::prelude::*;
use crate::json::{ctl_fields, ctl_ty_of, ctl_cols_of, ctl_rows_of};
use crate::msg::{InMsg, InAction, ActSpec, opt_view};

verus! {

/// Whether a text message even looks like a JSON object: only text whose
/// first character is `{` is considered as a control message at all.
pub open spec fn looks_like_object(t: Seq<char>) -> bool {
    t.len() > 0 && t[0] == '{'
}

/// The resize decision for extracted control fields: the dimensions exactly
/// when the message declares `type` `"resize"` and carries both of them.
pub open spec fn resize_decision(
    ty: Option<Seq<char>>,
    cols: Option<u64>,
    rows: Option<u64>,
) -> Option<(u64, u64)> {
    match (ty, cols, rows) {
        (Some(t), Some(c), Some(r)) => if t == "resize"@ {
            Some((c, r))
        } else {
            None
        },
        _ => None,
    }
}

/// Decide whether control fields form a complete resize request.
pub fn classify_resize(ty: &Option<String>, cols: Option<u64>, rows: Option<u64>) -> (r: Option<
    (u64, u64),
>)
    ensures
        r == resize_decision(opt_view(*ty), cols, rows),
{
    let is_resize = match ty {
        Some(t) => *t == String::from_str("resize"),
        None => false,
    };
    if is_resize {
        match (cols, rows) {
            (Some(c), Some(r)) => Some((c, r)),
            _ => None,
        }
    } else {
        None
    }
}

/// Pull the resize-control fields out of an inbound text message: each
/// member equals its named parse result, a function of the text alone.
pub fn extract_resize_fields(t: &str) -> (r: (Option<String>, Option<u64>, Option<u64>))
    ensures
        opt_view(r.0) == ctl_ty_of(t@),
        r.1 == ctl_cols_of(t@),
        r.2 == ctl_rows_of(t@),
{
    ctl_fields(t)
}

/// The action one inbound text message produces: the resize of its parsed
/// control fields when it looks like a JSON object and they are complete,
/// the text written verbatim otherwise.
pub open spec fn text_action(t: Seq<char>) -> ActSpec {
    if looks_like_object(t) {
        match resize_decision(ctl_ty_of(t), ctl_cols_of(t), ctl_rows_of(t)) {
            Some(d) => ActSpec::Resize { cols: d.0, rows: d.1 },
            None => ActSpec::WriteText(t),
        }
    } else {
        ActSpec::WriteText(t)
    }
}

/// Route one inbound text message: a complete resize request becomes a
/// resize action carrying its dimensions and never reaches the terminal as
/// input; every other text, including one that is not JSON and a
/// resize-like object missing a dimension, is written to the terminal
/// verbatim.
pub fn route_text(t: String) -> (r: InAction)
    ensures
        r@ == text_action(t@),
{
    let s = t.as_str();
    if s.unicode_len() > 0 && s.get_char(0) == '{' {
        let (ty, cols, rows) = extract_resize_fields(s);
        match classify_resize(&ty, cols, rows) {
            Some((c, r)) => {
                return InAction::Resize { cols: c, rows: r };
            },
            None => {},
        }
    }
    InAction::WriteText(t)
}

/// Route one inbound transport message to a terminal action: binary
/// keystrokes are written verbatim, text goes through the resize check, a
/// close ends the loop, and any other frame is ignored.
pub fn route_input(m: InMsg) -> (r: InAction)
    ensures
        m matches InMsg::Bytes(b) ==> r@ == ActSpec::WriteBytes(b@),
        m matches InMsg::Text(t) ==> r@ == text_action(t@),
        m is Close ==> r@ == ActSpec::Stop,
        m is Other ==> r@ == ActSpec::Ignore,
{
    match m {
        InMsg::Bytes(b) => InAction::WriteBytes(b),
        InMsg::Text(t) => route_text(t),
        InMsg::Close => InAction::Stop,
        InMsg::Other => InAction::Ignore,
    }
}

/// Law: control fields declaring `type` `"resize"` with both dimensions
/// present always form a resize request, so such a message never reaches
/// the terminal as literal input; fields lacking either dimension never
/// form one, so the text is written to the terminal verbatim.
pub proof fn lemma_resize_control(
    c: u64,
    r: u64,
    ty: Option<Seq<char>>,
    cols: Option<u64>,
    rows: Option<u64>,
)
    ensures
        resize_decision(Some("resize"@), Some(c), Some(r)) == Some((c, r)),
        cols is None || rows is None ==> resize_decision(ty, cols, rows) is None,
{
}

} // verus!
