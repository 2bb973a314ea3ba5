//! Waiting for the plugin of an application that was just launched.
//!
//! The plugin is asked for its status until it answers well or the time is
//! up. [`wait_for_plugin`] is told what has happened and says what to do next.

use vstd::prelude::*;

use crate::request;
use crate::text;
use crate::wire;

verus! {

/// The pause between two questions, in milliseconds.
pub const PAUSE: u64 = 100;

/// The question for the status: its method, where it goes, its host header,
/// where the host can stand in one, and its body.
pub struct StatusProbe {
    pub method: &'static str,
    pub uri: hyper::Uri,
    pub host: Option<hyper::header::HeaderValue>,
    pub body: Vec<u8>,
}

/// What has happened.
#[derive(Clone, Copy, Debug, PartialEq, Eq, Structural)]
pub enum WaitEvent {
    /// The wait begins.
    Begun,
    /// So many nanoseconds have passed since the wait began.
    Time(u128),
    /// The plugin answered with this status code.
    Answer(u16),
    /// The plugin did not answer.
    Silence,
    /// The pause is over.
    Rested,
}

/// What to do next.
#[derive(Clone, Copy, Debug, PartialEq, Eq, Structural)]
pub enum WaitAction {
    /// Look at the clock.
    ReadClock,
    /// Ask the plugin for its status.
    Ask,
    /// Pause for so many milliseconds.
    Rest(u64),
    /// The wait is over: the plugin is ready, or not.
    Finish(bool),
}

/// Whether the time is not up: fewer than so many seconds have passed.
pub open spec fn in_time(elapsed_nanos: u128, seconds: u64) -> bool {
    elapsed_nanos < seconds * 1_000_000_000
}

/// Whether a status code stands for success.
pub open spec fn success(status: u16) -> bool {
    200 <= status < 300
}

/// What to do while waiting for the plugin, and whether it is ready.
///
/// The plugin is asked as long as there is time, and where there is a question
/// to ask; a success ends the wait, and so does the end of the time.
pub open spec fn wait_step(seconds: u64, askable: bool, event: WaitEvent) -> WaitAction {
    match event {
        WaitEvent::Time(elapsed) => if !in_time(elapsed, seconds) {
            WaitAction::Finish(false)
        } else if askable {
            WaitAction::Ask
        } else {
            WaitAction::Rest(PAUSE)
        },
        WaitEvent::Answer(status) => if success(status) {
            WaitAction::Finish(true)
        } else {
            WaitAction::Rest(PAUSE)
        },
        WaitEvent::Silence => WaitAction::Rest(PAUSE),
        WaitEvent::Begun | WaitEvent::Rested => WaitAction::ReadClock,
    }
}

/// The question for the status of the plugin, where its host has an address.
pub fn status_probe(host: &str, port: u16) -> (probe: Option<StatusProbe>)
    ensures
        match probe {
            Some(probe) => {
                &&& probe.method@ == "GET"@
                &&& probe.body@.len() == 0
                &&& wire::parsed_uri(request::driver_uri(host@, port, "/status"@)) == Ok::<
                    wire::UriParts,
                    Seq<char>,
                >(wire::uri_parts(probe.uri))
                &&& wire::uri_parts(probe.uri) == wire::http_parts(
                    host@ + ":"@ + text::decimal(port as nat) + "/status"@,
                )
                &&& probe.host is Some <==> wire::header_text(
                    host@ + ":"@ + text::decimal(port as nat),
                )
                &&& probe.host matches Some(value) ==> wire::header_bytes(value)
                    == vstd::utf8::encode_utf8(host@ + ":"@ + text::decimal(port as nat))
            },
            None => wire::parsed_uri(request::driver_uri(host@, port, "/status"@)) is Err,
        },
{
    let uri: String = request::write_driver_uri(host, port, "/status");
    proof {
        let rest = host@ + ":"@ + text::decimal(port as nat) + "/status"@;
        reveal_strlit("http://");
        assert(uri@ =~= "http://"@ + rest);
        assert(uri@.take(7) =~= "http://"@);
        assert(uri@.skip(7) =~= rest);
    }
    let uri: hyper::Uri = match wire::parse_uri(uri.as_str()) {
        Ok(uri) => uri,
        Err(_) => return None,
    };
    let named: String = host.to_owned().concat(":").concat(text::to_decimal(port as u64).as_str());
    let host: Option<hyper::header::HeaderValue> = match wire::header_value(named) {
        Ok(value) => Some(value),
        Err(_) => None,
    };
    Some(StatusProbe { method: "GET", uri, host, body: Vec::new() })
}

/// Says what to do while waiting for the plugin, and whether it is ready.
pub fn wait_for_plugin(timeout_secs: u64, askable: bool, event: WaitEvent) -> (action: WaitAction)
    ensures
        action == wait_step(timeout_secs, askable, event),
{
    match event {
        WaitEvent::Time(elapsed) => {
            if elapsed >= timeout_secs as u128 * 1_000_000_000 {
                WaitAction::Finish(false)
            } else if askable {
                WaitAction::Ask
            } else {
                WaitAction::Rest(PAUSE)
            }
        },
        WaitEvent::Answer(status) => {
            if 200 <= status && status < 300 {
                WaitAction::Finish(true)
            } else {
                WaitAction::Rest(PAUSE)
            }
        },
        WaitEvent::Silence => WaitAction::Rest(PAUSE),
        WaitEvent::Begun | WaitEvent::Rested => WaitAction::ReadClock,
    }
}

/// The plugin is ready only on its own word, and given up only when the time is
/// up.
pub proof fn law_wait_ends_for_a_reason(seconds: u64, askable: bool, event: WaitEvent, ready: bool)
    requires
        wait_step(seconds, askable, event) == WaitAction::Finish(ready),
    ensures
        ready ==> (event matches WaitEvent::Answer(status) && success(status)),
        !ready ==> (event matches WaitEvent::Time(elapsed) && !in_time(elapsed, seconds)),
{
}

/// The plugin is asked only while there is time.
pub proof fn law_no_question_after_time(seconds: u64, askable: bool, event: WaitEvent)
    requires
        wait_step(seconds, askable, event) == WaitAction::Ask,
    ensures
        event matches WaitEvent::Time(elapsed) && in_time(elapsed, seconds),
{
}

/// What the wait comes to, over rounds of a clock reading and what the plugin
/// would answer then: whether it is ready, or nothing yet.
pub open spec fn wait_outcome(
    seconds: u64,
    askable: bool,
    rounds: Seq<(u128, Option<u16>)>,
) -> Option<bool>
    decreases rounds.len(),
{
    if rounds.len() == 0 {
        None
    } else {
        let (elapsed, answer) = rounds[0];
        let answered = match answer {
            Some(status) => WaitEvent::Answer(status),
            None => WaitEvent::Silence,
        };
        let clock = wait_step(seconds, askable, WaitEvent::Time(elapsed));
        let action = if clock == WaitAction::Ask {
            wait_step(seconds, askable, answered)
        } else {
            clock
        };
        match action {
            WaitAction::Finish(ready) => Some(ready),
            _ => wait_outcome(seconds, askable, rounds.drop_first()),
        }
    }
}

/// The plugin is asked in every round before the time is up, at whatever moment,
/// and after every failure there is a pause of a tenth of a second.
pub proof fn law_every_round_in_time_asks(seconds: u64, askable: bool, elapsed: u128, status: u16)
    ensures
        elapsed < seconds * 1_000_000_000 && askable ==> wait_step(
            seconds,
            askable,
            WaitEvent::Time(elapsed),
        ) == WaitAction::Ask,
        elapsed < seconds * 1_000_000_000 && !askable ==> wait_step(
            seconds,
            askable,
            WaitEvent::Time(elapsed),
        ) == WaitAction::Rest(100),
        elapsed >= seconds * 1_000_000_000 ==> wait_step(seconds, askable, WaitEvent::Time(elapsed))
            == WaitAction::Finish(false),
        200 <= status <= 299 ==> wait_step(seconds, askable, WaitEvent::Answer(status))
            == WaitAction::Finish(true),
        !(200 <= status <= 299) ==> wait_step(seconds, askable, WaitEvent::Answer(status))
            == WaitAction::Rest(100),
        wait_step(seconds, askable, WaitEvent::Silence) == WaitAction::Rest(100),
        wait_step(seconds, askable, WaitEvent::Begun) == WaitAction::ReadClock,
        wait_step(seconds, askable, WaitEvent::Rested) == WaitAction::ReadClock,
{
}

/// A plugin that answers with success in some round before the time is up ends
/// the wait as ready.
pub proof fn law_a_success_in_time_is_found(
    seconds: u64,
    rounds: Seq<(u128, Option<u16>)>,
    k: int,
    status: u16,
)
    requires
        0 <= k < rounds.len(),
        forall|i: int| 0 <= i <= k ==> (#[trigger] rounds[i]).0 < seconds * 1_000_000_000,
        rounds[k].1 == Some(status),
        200 <= status <= 299,
    ensures
        wait_outcome(seconds, true, rounds) == Some(true),
    decreases k,
{
    assert(rounds[0].0 < seconds * 1_000_000_000);
    if k > 0 {
        let rest = rounds.drop_first();
        assert forall|i: int| 0 <= i <= k - 1 implies (#[trigger] rest[i]).0 < seconds
            * 1_000_000_000 by {
            assert(rest[i] == rounds[i + 1]);
        }
        law_a_success_in_time_is_found(seconds, rest, k - 1, status);
    }
}

/// A plugin that answered with no success before the time is up is not ready,
/// and neither is one that cannot be asked.
pub proof fn law_no_success_in_time_is_no_readiness(
    seconds: u64,
    askable: bool,
    rounds: Seq<(u128, Option<u16>)>,
    k: int,
)
    requires
        0 <= k < rounds.len(),
        rounds[k].0 >= seconds * 1_000_000_000,
        forall|i: int|
            0 <= i < k ==> !askable || !((#[trigger] rounds[i]).1 matches Some(status) && 200
                <= status <= 299),
    ensures
        wait_outcome(seconds, askable, rounds) == Some(false),
    decreases k,
{
    if k > 0 {
        let rest = rounds.drop_first();
        assert(!askable || !(rounds[0].1 matches Some(status) && 200 <= status <= 299));
        assert forall|i: int| 0 <= i < k - 1 implies !askable || !((#[trigger] rest[i]).1 matches Some(
            status,
        ) && 200 <= status <= 299) by {
            assert(rest[i] == rounds[i + 1]);
        }
        law_no_success_in_time_is_no_readiness(seconds, askable, rest, k - 1);
    }
}

} // verus!
