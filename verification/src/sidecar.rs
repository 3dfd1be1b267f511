//! The sidecar supervisor's logic: which outward event, if any, each
//! occurrence on the sidecar's process channel is relayed as, and the texts
//! the sidecar-start command answers with.
//!
//! Spawning the process, receiving from its channel and delivering the
//! outward events are the host shell's work; everything decided here is a
//! function of the received events alone, so whether an earlier emission was
//! delivered plays no part in the relay of the next one.

use vstd::prelude::*;
use vstd::string::StringExecFns;
use crate::numeral::dec_int;
use crate::numeral::i32_to_dec;

verus! {

/// One occurrence on a sidecar process's communication channel: a line of
/// standard output, a line of standard error, a termination notice with the
/// exit code when one exists, or any other occurrence, which is ignored.
pub enum SidecarEvent {
    Stdout(Vec<u8>),
    Stderr(Vec<u8>),
    Terminated(Option<i32>),
    Other,
}

/// One outward event: a name the front-end subscribes to and a text payload.
pub struct Emission {
    pub name: String,
    pub payload: String,
}

impl View for Emission {
    type V = (Seq<char>, Seq<char>);

    open spec fn view(&self) -> (Seq<char>, Seq<char>) {
        (self.name@, self.payload@)
    }
}

/// The event name under which standard-output lines are relayed.
pub open spec fn output_event_name() -> Seq<char> {
    "bun-sidecar-output"@
}

/// The event name under which standard-error lines are relayed.
pub open spec fn error_event_name() -> Seq<char> {
    "bun-sidecar-error"@
}

/// The event name under which termination notices are relayed.
pub open spec fn exited_event_name() -> Seq<char> {
    "bun-sidecar-exited"@
}

/// The text a byte line decodes to permissively: invalid sequences become
/// replacement markers, never an error.
pub uninterp spec fn lossy_decode(bytes: Seq<u8>) -> Seq<char>;

/// Relies on `String::from_utf8_lossy` of std: the decoded text depends on
/// the bytes alone, and invalid sequences are replaced with U+FFFD rather
/// than reported as an error.
#[verifier::external_body]
fn decode_lossy(bytes: &Vec<u8>) -> (r: String)
    ensures
        r@ == lossy_decode(bytes@),
{
    String::from_utf8_lossy(bytes).into_owned()
}

/// The exit-code part of the termination payload: the standard optional
/// rendering, `Some(code)` or `None`.
pub open spec fn exit_code_text(code: Option<i32>) -> Seq<char> {
    match code {
        Option::Some(n) => "Some("@ + dec_int(n as int) + ")"@,
        Option::None => "None"@,
    }
}

/// The whole termination payload, `"Exit code: "` before the code text.
pub open spec fn exit_payload_text(code: Option<i32>) -> Seq<char> {
    "Exit code: "@ + exit_code_text(code)
}

/// Builds the termination payload for an optional exit code.
pub fn exit_payload(code: Option<i32>) -> (s: String)
    ensures
        s@ == exit_payload_text(code),
{
    let mut s = String::from_str("Exit code: ");
    proof {
        reveal_strlit("Exit code: ");
    }
    match code {
        Option::Some(n) => {
            s.append("Some(");
            let digits = i32_to_dec(n);
            s.append(digits.as_str());
            s.append(")");
            proof {
                assert(s@ =~= exit_payload_text(code));
            }
        },
        Option::None => {
            s.append("None");
            proof {
                assert(s@ =~= exit_payload_text(code));
            }
        },
    }
    s
}

/// The outward event, if any, that one channel occurrence is relayed as:
/// its name and its payload. Output and error lines are decoded
/// permissively; a termination notice carries the exit-code text; any other
/// occurrence is relayed as nothing.
pub open spec fn relay_of(e: SidecarEvent) -> Option<(Seq<char>, Seq<char>)> {
    match e {
        SidecarEvent::Stdout(b) => Option::Some((output_event_name(), lossy_decode(b@))),
        SidecarEvent::Stderr(b) => Option::Some((error_event_name(), lossy_decode(b@))),
        SidecarEvent::Terminated(c) => Option::Some((exited_event_name(), exit_payload_text(c))),
        SidecarEvent::Other => Option::None,
    }
}

/// One step of the draining task: the outward event owed for one channel
/// occurrence, or nothing for an occurrence of no interest.
pub fn relay_action(e: &SidecarEvent) -> (r: Option<Emission>)
    ensures
        match relay_of(*e) {
            Option::Some(p) => r matches Some(em) && em@ == p,
            Option::None => r is None,
        },
{
    match e {
        SidecarEvent::Stdout(b) => Option::Some(
            Emission { name: String::from_str("bun-sidecar-output"), payload: decode_lossy(b) },
        ),
        SidecarEvent::Stderr(b) => Option::Some(
            Emission { name: String::from_str("bun-sidecar-error"), payload: decode_lossy(b) },
        ),
        SidecarEvent::Terminated(c) => Option::Some(
            Emission { name: String::from_str("bun-sidecar-exited"), payload: exit_payload(*c) },
        ),
        SidecarEvent::Other => Option::None,
    }
}

/// The outward event of one occurrence as a sequence: one element where an
/// event is relayed, none where it is ignored.
pub open spec fn relay_unit(e: SidecarEvent) -> Seq<(Seq<char>, Seq<char>)> {
    match relay_of(e) {
        Option::Some(p) => seq![p],
        Option::None => Seq::empty(),
    }
}

/// The outward events a whole channel history is relayed as, in the order
/// the occurrences were received.
pub open spec fn relay_seq(events: Seq<SidecarEvent>) -> Seq<(Seq<char>, Seq<char>)>
    decreases events.len(),
{
    if events.len() == 0 {
        Seq::empty()
    } else {
        relay_unit(events[0]) + relay_seq(events.drop_first())
    }
}

/// Appending one occurrence appends its relay.
pub proof fn lemma_relay_seq_push(events: Seq<SidecarEvent>, e: SidecarEvent)
    ensures
        relay_seq(events.push(e)) =~= relay_seq(events) + relay_unit(e),
    decreases events.len(),
{
    if events.len() == 0 {
        assert(events.push(e).drop_first() =~= Seq::<SidecarEvent>::empty());
        assert(events.push(e)[0] == e);
        assert(relay_seq(Seq::<SidecarEvent>::empty()) =~= Seq::<(Seq<char>, Seq<char>)>::empty());
        assert(relay_seq(events.push(e)) =~= relay_unit(e) + relay_seq(
            events.push(e).drop_first(),
        ));
        assert(relay_seq(events.push(e)) =~= relay_seq(events) + relay_unit(e));
    } else {
        assert(events.push(e).drop_first() =~= events.drop_first().push(e));
        lemma_relay_seq_push(events.drop_first(), e);
        assert(events.push(e)[0] == events[0]);
        assert(relay_seq(events.push(e)) =~= relay_unit(events[0]) + (relay_seq(
            events.drop_first(),
        ) + relay_unit(e)));
        assert(relay_unit(events[0]) + (relay_seq(events.drop_first()) + relay_unit(e)) =~= (
        relay_unit(events[0]) + relay_seq(events.drop_first())) + relay_unit(e));
    }
}

/// The views of a sequence of emissions.
pub open spec fn emissions_of(out: Seq<Emission>) -> Seq<(Seq<char>, Seq<char>)> {
    Seq::new(out.len(), |i: int| out[i]@)
}

/// Relays a whole channel history at once: the emissions are exactly the
/// relays of the received occurrences, in the order of reception, whatever
/// became of any emission's delivery.
pub fn relay_all(events: &Vec<SidecarEvent>) -> (out: Vec<Emission>)
    ensures
        emissions_of(out@) =~= relay_seq(events@),
{
    let mut out: Vec<Emission> = Vec::new();
    let mut idx: usize = 0;
    while idx < events.len()
        invariant
            idx <= events.len(),
            emissions_of(out@) =~= relay_seq(events@.take(idx as int)),
        decreases events.len() - idx,
    {
        if let Option::Some(em) = relay_action(&events[idx]) {
            out.push(em);
        }
        proof {
            assert(events@.take(idx + 1) =~= events@.take(idx as int).push(events@[idx as int]));
            lemma_relay_seq_push(events@.take(idx as int), events@[idx as int]);
            assert(emissions_of(out@) =~= relay_seq(events@.take(idx + 1)));
        }
        idx = idx + 1;
    }
    proof {
        assert(events@.take(events@.len() as int) =~= events@);
    }
    out
}

/// The three outward event names are pairwise distinct: an emission under
/// one name is never also an emission under another.
pub proof fn lemma_event_names_distinct()
    ensures
        output_event_name() != error_event_name(),
        output_event_name() != exited_event_name(),
        error_event_name() != exited_event_name(),
{
    reveal_strlit("bun-sidecar-output");
    reveal_strlit("bun-sidecar-error");
    reveal_strlit("bun-sidecar-exited");
    assert(output_event_name().len() == 18);
    assert(error_event_name().len() == 17);
    assert(exited_event_name().len() == 18);
    assert(output_event_name()[12] == 'o');
    assert(exited_event_name()[12] == 'e');
}

/// A line written to one stream is relayed exactly once, under that
/// stream's own event name, with the permissively decoded line as payload,
/// and under neither of the other two names.
pub proof fn lemma_line_relay_exclusive(e: SidecarEvent)
    ensures
        e matches SidecarEvent::Stdout(b) ==> relay_unit(e) =~= seq![
            (output_event_name(), lossy_decode(b@)),
        ] && output_event_name() != error_event_name() && output_event_name()
            != exited_event_name(),
        e matches SidecarEvent::Stderr(b) ==> relay_unit(e) =~= seq![
            (error_event_name(), lossy_decode(b@)),
        ] && error_event_name() != output_event_name() && error_event_name()
            != exited_event_name(),
{
    lemma_event_names_distinct();
}

/// How many occurrences of a history are termination notices.
pub open spec fn count_terminations(events: Seq<SidecarEvent>) -> nat
    decreases events.len(),
{
    if events.len() == 0 {
        0
    } else {
        (if events[0] matches SidecarEvent::Terminated(_) {
            1nat
        } else {
            0nat
        }) + count_terminations(events.drop_first())
    }
}

/// How many relayed events carry a given name.
pub open spec fn count_named(out: Seq<(Seq<char>, Seq<char>)>, name: Seq<char>) -> nat
    decreases out.len(),
{
    if out.len() == 0 {
        0
    } else {
        (if out[0].0 == name {
            1nat
        } else {
            0nat
        }) + count_named(out.drop_first(), name)
    }
}

/// A termination notice is relayed as an exited event exactly once: over
/// any channel history, the emissions under the exited name number exactly
/// the termination notices received.
pub proof fn lemma_exited_once(events: Seq<SidecarEvent>)
    ensures
        count_named(relay_seq(events), exited_event_name()) == count_terminations(events),
    decreases events.len(),
{
    lemma_event_names_distinct();
    if events.len() > 0 {
        lemma_exited_once(events.drop_first());
        let head = events[0];
        let rest = relay_seq(events.drop_first());
        match relay_of(head) {
            Option::Some(p) => {
                assert(relay_unit(head) =~= seq![p]);
                assert((seq![p] + rest).drop_first() =~= rest);
                assert(count_named(seq![p] + rest, exited_event_name()) == (if p.0
                    == exited_event_name() {
                    1nat
                } else {
                    0nat
                }) + count_named(rest, exited_event_name()));
            },
            Option::None => {
                assert(relay_unit(head) + rest =~= rest);
            },
        }
    }
}

/// The confirmation text the sidecar-start command answers with on success.
pub open spec fn success_text() -> Seq<char> {
    "Bun sidecar started successfully"@
}

/// The error text when the sidecar command definition could not be built,
/// around the underlying cause.
pub open spec fn creation_error_text(cause: Seq<char>) -> Seq<char> {
    "Failed to create sidecar command: "@ + cause
}

/// The error text when the process could not be spawned, around the
/// underlying cause.
pub open spec fn spawn_error_text(cause: Seq<char>) -> Seq<char> {
    "Failed to spawn sidecar: "@ + cause
}

/// How one attempt to start the sidecar ended: the process was spawned, the
/// command definition could not be built, or the spawn itself failed; the
/// two failures carry the underlying cause as text.
pub enum SpawnOutcome {
    Spawned,
    CommandCreationFailed(String),
    SpawnFailed(String),
}

/// The sidecar-start command's answer for each way the attempt ended: the
/// fixed confirmation on a spawn, and one of the two error texts, with the
/// cause inserted verbatim, on a failure. The command answers with an error
/// exactly when the attempt failed.
pub fn start_response(outcome: SpawnOutcome) -> (r: Result<String, String>)
    ensures
        outcome matches SpawnOutcome::Spawned ==> r matches Ok(m) && m@ == success_text(),
        outcome matches SpawnOutcome::CommandCreationFailed(c) ==> r matches Err(m) && m@
            == creation_error_text(c@),
        outcome matches SpawnOutcome::SpawnFailed(c) ==> r matches Err(m) && m@
            == spawn_error_text(c@),
        r is Err <==> !(outcome matches SpawnOutcome::Spawned),
{
    match outcome {
        SpawnOutcome::Spawned => Result::Ok(String::from_str("Bun sidecar started successfully")),
        SpawnOutcome::CommandCreationFailed(c) => {
            let mut m = String::from_str("Failed to create sidecar command: ");
            m.append(c.as_str());
            Result::Err(m)
        },
        SpawnOutcome::SpawnFailed(c) => {
            let mut m = String::from_str("Failed to spawn sidecar: ");
            m.append(c.as_str());
            Result::Err(m)
        },
    }
}

} // verus!
