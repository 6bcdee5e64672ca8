//! The wire format of one event frame.
use vstd::prelude::*;

verus! {

/// The text of one frame: `event: <event>\ndata: <data>\n\n`.
pub open spec fn frame_text(event: Seq<char>, data: Seq<char>) -> Seq<char> {
    "event: "@ + event + "\n"@ + "data: "@ + data + "\n\n"@
}

/// Event name reserved for the frames that the broadcaster makes itself.
pub open spec fn status_event() -> Seq<char> {
    "internal_status"@
}

/// Formats one frame from an event name and a payload. Neither is escaped.
pub fn event_frame(event: &str, data: &str) -> (r: String)
    ensures
        r@ == frame_text(event@, data@),
{
    let r = String::from_str("event: ");
    let r = r.concat(event);
    let r = r.concat("\n");
    let r = r.concat("data: ");
    let r = r.concat(data);
    let r = r.concat("\n\n");
    r
}

/// The frame that opens every subscription.
pub fn connected_frame() -> (r: String)
    ensures
        r@ == frame_text(status_event(), "connected"@),
{
    event_frame("internal_status", "connected")
}

/// The probe frame that each liveness sweep offers to every subscriber.
pub fn ping_frame() -> (r: String)
    ensures
        r@ == frame_text(status_event(), "ping"@),
{
    event_frame("internal_status", "ping")
}

} // verus!
