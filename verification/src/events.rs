//! The notifications a running session produces: one output event per line
//! of the child's output, and exactly one terminal ended-notification per
//! session.

use vstd::prelude::*;

use crate::errors::StreamKind;
use crate::relay::{ansi_to_html, transcode};

verus! {

/// One line of a session's output, transcoded for display.
pub struct OutputEvent {
    pub session_id: String,
    pub kind: StreamKind,
    pub content: String,
}

/// A notification flowing back to the caller.
pub enum SessionEvent {
    /// Output appeared on one of the session's streams.
    Output(OutputEvent),
    /// The session ended; carries only the session identifier.
    Ended(String),
}

/// How many ended-notifications a sequence of events holds.
pub open spec fn count_ended(events: Seq<SessionEvent>) -> nat
    decreases events.len(),
{
    if events.len() == 0 {
        0
    } else {
        count_ended(events.drop_last()) + if events.last() is Ended {
            1nat
        } else {
            0nat
        }
    }
}

/// The output event for one line read from the child: the line's escape
/// codes transcoded to styled text, tagged with its stream and session.
pub fn output_line_event(session_id: &String, kind: StreamKind, line: &str) -> (e: OutputEvent)
    ensures
        e.session_id@ == session_id@,
        e.kind == kind,
        e.content@ == transcode(line@),
{
    OutputEvent { session_id: session_id.clone(), kind, content: ansi_to_html(line) }
}

/// The events that close a session out, after its three I/O loops have
/// finished: when waiting for the child's exit failed, one output event on
/// the error stream carrying the reason — and then, whatever path led here,
/// exactly one ended-notification.
pub fn termination_events(session_id: &String, wait_error: Option<String>) -> (events: Vec<
    SessionEvent,
>)
    ensures
        count_ended(events@) == 1,
        events@.last() matches SessionEvent::Ended(sid) && sid@ == session_id@,
        match wait_error {
            Some(reason) => events@.len() == 2 && (events@[0] matches SessionEvent::Output(e)
                && e.session_id@ == session_id@ && e.kind == StreamKind::ProcessError
                && e.content@ == "Process error: "@ + reason@),
            None => events@.len() == 1,
        },
{
    let mut events: Vec<SessionEvent> = Vec::new();
    match wait_error {
        Some(reason) => {
            let mut content = String::from_str("Process error: ");
            content.append(reason.as_str());
            events.push(
                SessionEvent::Output(
                    OutputEvent {
                        session_id: session_id.clone(),
                        kind: StreamKind::ProcessError,
                        content,
                    },
                ),
            );
        },
        None => (),
    }
    events.push(SessionEvent::Ended(session_id.clone()));
    proof {
        let all = events@;
        assert(count_ended(Seq::<SessionEvent>::empty()) == 0);
        if all.len() == 2 {
            assert(all.drop_last().last() == all[0]);
            assert(all[0] is Output);
            assert(all.drop_last().drop_last() =~= Seq::<SessionEvent>::empty());
            assert(count_ended(all.drop_last()) == 0);
        } else {
            assert(all.drop_last() =~= Seq::<SessionEvent>::empty());
            assert(count_ended(all.drop_last()) == 0);
        }
        assert(count_ended(all) == 1);
    }
    events
}

} // verus!
