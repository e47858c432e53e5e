//! The output router's byte-chunk path: forwards raw terminal output,
//! detects alternate-screen transitions, and attributes output to the open
//! command block.

use vstd::prelude::*;
use crate::msg::{OutMsg, OutSpec, views_of, opt_view};
use crate::scan::{contains_seq, seq_contains, enter_alt_seq, exit_alt_seq, enter_alt_bytes,
    exit_alt_bytes};

verus! {

/// The text that best-effort decoding yields for a byte sequence: a function
/// of the bytes alone (invalid UTF-8 is replaced, never fatal).
pub uninterp spec fn lossy_text(b: Seq<u8>) -> Seq<char>;

/// Relies on String::from_utf8_lossy: decodes bytes as UTF-8, replacing
/// invalid sequences; the result depends on the bytes alone.
#[verifier::external_body]
pub(crate) fn bytes_to_text(b: &[u8]) -> (r: String)
    ensures
        r@ == lossy_text(b@),
{
    String::from_utf8_lossy(b).to_string()
}

/// The alternate-screen flag after scanning chunk `c`, starting from `alt`:
/// the enter sequence raises it, after which the exit sequence clears it.
pub open spec fn alt_after(alt: bool, c: Seq<u8>) -> bool {
    (alt || seq_contains(c, enter_alt_seq())) && !seq_contains(c, exit_alt_seq())
}

/// The "alternate screen entered" notice, emitted only on a transition.
pub open spec fn on_notice(alt: bool, c: Seq<u8>) -> Seq<OutSpec> {
    if !alt && seq_contains(c, enter_alt_seq()) {
        seq![OutSpec::AltScreen(true)]
    } else {
        Seq::empty()
    }
}

/// The "alternate screen left" notice, emitted only on a transition
/// (the enter sequence in the same chunk is seen first).
pub open spec fn off_notice(alt: bool, c: Seq<u8>) -> Seq<OutSpec> {
    if (alt || seq_contains(c, enter_alt_seq())) && seq_contains(c, exit_alt_seq()) {
        seq![OutSpec::AltScreen(false)]
    } else {
        Seq::empty()
    }
}

/// The block-chunk message for `c`, if a block is open.
pub open spec fn block_notice(c: Seq<u8>, block: Option<Seq<char>>) -> Seq<OutSpec> {
    match block {
        Some(id) => seq![OutSpec::BlockChunk { id: id, text: lossy_text(c) }],
        None => Seq::empty(),
    }
}

/// The outbound messages for terminal chunk `c`: the close sentinel for the
/// empty chunk; otherwise the raw bytes first, then the alt-screen notices,
/// then the block-chunk message if a block is open.
pub open spec fn chunk_out(alt: bool, c: Seq<u8>, block: Option<Seq<char>>) -> Seq<OutSpec> {
    if c.len() == 0 {
        seq![OutSpec::Close]
    } else {
        seq![OutSpec::Bytes(c)] + on_notice(alt, c) + off_notice(alt, c) + block_notice(c, block)
    }
}

/// Process one terminal chunk: returns the alt-screen flag after the chunk
/// and the messages to send, in order.  The empty chunk is the exhaustion
/// sentinel: it yields the close message alone and leaves the flag as it was.
pub fn process_chunk(alt: bool, chunk: Vec<u8>, block: &Option<String>) -> (r: (bool, Vec<OutMsg>))
    ensures
        r.0 == alt_after(alt, chunk@),
        views_of(r.1@) == chunk_out(alt, chunk@, opt_view(*block)),
{
    let ghost c0: Seq<u8> = chunk@;
    let mut out: Vec<OutMsg> = Vec::new();
    if chunk.len() == 0 {
        out.push(OutMsg::Close);
        proof {
            assert(!seq_contains(chunk@, enter_alt_seq()));
            assert(!seq_contains(chunk@, exit_alt_seq()));
            assert(views_of(out@) =~= chunk_out(alt, chunk@, opt_view(*block)));
        }
        return (alt, out);
    }
    let enter = enter_alt_bytes();
    let exit = exit_alt_bytes();
    let enter_seen = contains_seq(chunk.as_slice(), enter.as_slice());
    let exit_seen = contains_seq(chunk.as_slice(), exit.as_slice());
    let emit_on = !alt && enter_seen;
    let raised = alt || enter_seen;
    let emit_off = raised && exit_seen;
    let new_alt = raised && !exit_seen;
    let attributed: Option<(String, String)> = match block {
        Some(id) => Some((id.clone(), bytes_to_text(chunk.as_slice()))),
        None => None,
    };
    out.push(OutMsg::Bytes(chunk));
    if emit_on {
        out.push(OutMsg::AltScreen(true));
    }
    if emit_off {
        out.push(OutMsg::AltScreen(false));
    }
    match attributed {
        Some((id, text)) => {
            out.push(OutMsg::BlockChunk { id, text });
        }
        None => {},
    }
    proof {
        assert(views_of(out@) =~= chunk_out(alt, c0, opt_view(*block)));
    }
    (new_alt, out)
}

/// Law: every non-empty chunk appears on the outbound stream as raw bytes
/// exactly once, unmodified, and before everything derived from it.
pub proof fn lemma_raw_bytes_once(alt: bool, c: Seq<u8>, block: Option<Seq<char>>)
    requires
        c.len() > 0,
    ensures
        chunk_out(alt, c, block)[0] == OutSpec::Bytes(c),
        forall|i: int|
            1 <= i < chunk_out(alt, c, block).len() ==> !(#[trigger] chunk_out(alt, c, block)[i]
                is Bytes),
{
}

/// Law: an alt-screen notice is emitted only on a true transition: the "on"
/// notice exactly when the flag was off and the chunk holds the enter
/// sequence, the "off" notice exactly when the flag is on after the enter
/// scan and the chunk holds the exit sequence.
pub proof fn lemma_alt_notices(alt: bool, c: Seq<u8>, block: Option<Seq<char>>)
    requires
        c.len() > 0,
    ensures
        chunk_out(alt, c, block).contains(OutSpec::AltScreen(true)) <==> (!alt && seq_contains(
            c,
            enter_alt_seq(),
        )),
        chunk_out(alt, c, block).contains(OutSpec::AltScreen(false)) <==> ((alt || seq_contains(
            c,
            enter_alt_seq(),
        )) && seq_contains(c, exit_alt_seq())),
{
    let s = chunk_out(alt, c, block);
    if !alt && seq_contains(c, enter_alt_seq()) {
        assert(s[1] == OutSpec::AltScreen(true));
    }
    if (alt || seq_contains(c, enter_alt_seq())) && seq_contains(c, exit_alt_seq()) {
        let i = 1 + on_notice(alt, c).len();
        assert(s[i as int] == OutSpec::AltScreen(false));
    }
}

/// Law: once the screen is already alternate, a further chunk holding the
/// enter sequence emits no second "on" notice.
pub proof fn lemma_no_repeated_on_notice(alt: bool, c1: Seq<u8>, c2: Seq<u8>, b: Option<Seq<char>>)
    requires
        c2.len() > 0,
        alt_after(alt, c1),
    ensures
        !chunk_out(alt_after(alt, c1), c2, b).contains(OutSpec::AltScreen(true)),
{
    lemma_alt_notices(alt_after(alt, c1), c2, b);
}

/// Law: a chunk holding neither escape sequence emits no alt-screen notice
/// and leaves the flag as it was.
pub proof fn lemma_no_sequence_no_notice(alt: bool, c: Seq<u8>, block: Option<Seq<char>>)
    requires
        c.len() > 0,
        !seq_contains(c, enter_alt_seq()),
        !seq_contains(c, exit_alt_seq()),
    ensures
        alt_after(alt, c) == alt,
        forall|i: int|
            0 <= i < chunk_out(alt, c, block).len() ==> !(#[trigger] chunk_out(alt, c, block)[i]
                is AltScreen),
{
}

/// Law: the exhaustion sentinel, the empty chunk, yields exactly one close
/// message and nothing else, whatever the state.
pub proof fn lemma_exhaustion_closes(alt: bool, block: Option<Seq<char>>)
    ensures
        chunk_out(alt, Seq::empty(), block) =~= seq![OutSpec::Close],
        alt_after(alt, Seq::empty()) == alt,
{
}

/// Law: a chunk yields a block-chunk message exactly when a block is open as
/// it is processed; the message is the last one, carries that block's id and
/// the chunk's best-effort text, and no other message attributes output.
pub proof fn lemma_block_attribution(alt: bool, c: Seq<u8>, block: Option<Seq<char>>)
    requires
        c.len() > 0,
    ensures
        block is None ==> forall|i: int|
            0 <= i < chunk_out(alt, c, block).len() ==> !(#[trigger] chunk_out(alt, c, block)[i]
                is BlockChunk),
        block matches Some(id) ==> chunk_out(alt, c, block).last() == (OutSpec::BlockChunk {
            id: id,
            text: lossy_text(c),
        }),
        block is Some ==> forall|i: int|
            0 <= i < chunk_out(alt, c, block).len() - 1 ==> !(#[trigger] chunk_out(alt, c, block)[i]
                is BlockChunk),
{
}

} // verus!
