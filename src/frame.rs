//! The framing of long-poll responses: the server wraps each JSON payload in a
//! fixed script callback, `CometChannel.scriptCallback(<payload>);`.
use crate::error::PlurkError;
use vstd::prelude::*;
use vstd::string::*;

verus! {

/// The text that opens every frame.
pub const FRAME_OPEN: &'static str = "CometChannel.scriptCallback(";

/// The text that closes every frame.
pub const FRAME_CLOSE: &'static str = ");";

/// The frame that carries `payload`.
pub open spec fn framed(payload: Seq<char>) -> Seq<char> {
    FRAME_OPEN@ + payload + FRAME_CLOSE@
}

/// The payload that the frame `w` carries, if `w` is a frame.
pub open spec fn frame_payload(w: Seq<char>) -> Option<Seq<char>> {
    let open = FRAME_OPEN@.len();
    let close = FRAME_CLOSE@.len();
    if w.len() >= open + close && w.subrange(0, open as int) == FRAME_OPEN@ && w.subrange(
        w.len() - close,
        w.len() as int,
    ) == FRAME_CLOSE@ {
        Some(w.subrange(open as int, w.len() - close))
    } else {
        None
    }
}

/// Wraps `payload` in the callback frame.
pub fn wrap_frame(payload: &str) -> (r: String)
    ensures
        r@ == framed(payload@),
{
    String::from_str(FRAME_OPEN).concat(payload).concat(FRAME_CLOSE)
}

/// Takes the payload out of a long-poll response, without parsing it.
///
/// Fails with `InvalidCometData`, holding the whole response, where the
/// response does not begin with `FRAME_OPEN` and end with `FRAME_CLOSE`.
pub fn strip_frame(body: &str) -> (r: Result<String, PlurkError>)
    ensures
        match frame_payload(body@) {
            Some(p) => r matches Ok(s) && s@ == p,
            None => r matches Err(PlurkError::InvalidCometData(s)) && s@ == body@,
        },
{
    proof {
        reveal_strlit("CometChannel.scriptCallback(");
        reveal_strlit(");");
    }
    let n = body.unicode_len();
    let open: usize = FRAME_OPEN.unicode_len();
    let close: usize = FRAME_CLOSE.unicode_len();
    if n < open + close {
        return Err(PlurkError::InvalidCometData(String::from_str(body)));
    }
    let head = String::from_str(body.substring_char(0, open));
    let tail = String::from_str(body.substring_char(n - close, n));
    if head == String::from_str(FRAME_OPEN) && tail == String::from_str(FRAME_CLOSE) {
        Ok(String::from_str(body.substring_char(open, n - close)))
    } else {
        Err(PlurkError::InvalidCometData(String::from_str(body)))
    }
}

/// Taking the payload out of the frame built around it gives that payload back.
pub proof fn lemma_frame_round_trip(payload: Seq<char>)
    ensures
        frame_payload(framed(payload)) == Some(payload),
{
    let w = framed(payload);
    let open = FRAME_OPEN@.len() as int;
    let close = FRAME_CLOSE@.len() as int;
    assert(w.subrange(0, open) =~= FRAME_OPEN@);
    assert(w.subrange(w.len() - close, w.len() as int) =~= FRAME_CLOSE@);
    assert(w.subrange(open, w.len() - close) =~= payload);
}

} // verus!
