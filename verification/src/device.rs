//! Per-device translator decisions: the pipe-path derivation, the
//! buttons-poll change detection, the lights-line decoding step, and the
//! poll-interval arithmetic. The two relay loops themselves are thin
//! shells around these functions: they only move bytes between the pipes,
//! the device and these decision points, and spawning them is left to the
//! caller.

use vstd::prelude::*;
use vstd::slice::slice_subrange;
use vstd::string::StringExecFns;

use crate::itgio::ItgioBtnStatus;
use crate::mapping::btn_bitmap_to_sextetstream;
use crate::mapping::btn_line_spec;
use crate::mapping::lights_spec;
use crate::mapping::sextetstream_to_lights;

verus! {

/// Nominal cadence of the buttons poll loop.
pub const POLL_DELAY_MS: u64 = 20;

/// Suffix of the pipe carrying light commands toward the device.
pub const LIGHTS_SUFFIX: &'static str = "-lights";

/// Suffix of the pipe carrying button reports toward the host.
pub const BUTTONS_SUFFIX: &'static str = "-buttons";

/// Derive the two pipe paths of one device from its base path: the host
/// writes lights into `{base}-lights` and reads buttons from
/// `{base}-buttons`.
pub fn derive_pipe_paths(base: &str) -> (r: (String, String))
    ensures
        r.0@ == base@ + LIGHTS_SUFFIX@,
        r.1@ == base@ + BUTTONS_SUFFIX@,
{
    let mut lights: String = <String as StringExecFns>::from_str(base);
    lights.append(LIGHTS_SUFFIX);
    let mut buttons: String = <String as StringExecFns>::from_str(base);
    buttons.append(BUTTONS_SUFFIX);
    (lights, buttons)
}

/// A line read from the lights pipe, stripped of its terminator: the
/// trailing line feed, when present, is not part of the payload.
pub open spec fn strip_terminator(bytes: Seq<u8>) -> Seq<u8> {
    if bytes.len() > 0 && bytes[bytes.len() - 1] == 0x0A {
        bytes.drop_last()
    } else {
        bytes
    }
}

/// One iteration of the lights relay: decode a line read from the lights
/// pipe (terminator included) into the hardware bitmap to write.
pub fn lights_line_to_bitmap(line: &[u8]) -> (r: u32)
    ensures
        r == lights_spec(strip_terminator(line@)),
{
    if line.len() > 0 && line[line.len() - 1] == 0x0A {
        let payload: &[u8] = slice_subrange(line, 0, line.len() - 1);
        proof {
            assert(payload@ =~= strip_terminator(line@));
        }
        sextetstream_to_lights(payload)
    } else {
        sextetstream_to_lights(line)
    }
}

/// The change detector of the buttons relay: the last button state that
/// was reported to the host.
pub struct ButtonMonitor {
    last_state: u32,
}

impl ButtonMonitor {
    /// The last state this monitor observed.
    pub closed spec fn last(&self) -> u32 {
        self.last_state
    }

    /// A fresh monitor: nothing reported yet, so the baseline is the
    /// all-released state.
    pub fn new() -> (r: ButtonMonitor)
        ensures
            r.last() == 0,
    {
        ButtonMonitor { last_state: 0 }
    }

    /// One iteration of the buttons relay: given the state just polled,
    /// decide what to write to the buttons pipe. A line is emitted exactly
    /// when the state differs from the last observed one, and it is the
    /// encoded sextet line of the new state.
    pub fn observe(&mut self, state: ItgioBtnStatus) -> (r: Option<Vec<u8>>)
        ensures
            final(self).last() == state.0,
            state.0 == old(self).last() ==> r is None,
            state.0 != old(self).last() ==> (r matches Some(line) && line@ == btn_line_spec(
                state.0,
            )),
    {
        if state.0 != self.last_state {
            self.last_state = state.0;
            Some(btn_bitmap_to_sextetstream(state.0))
        } else {
            None
        }
    }
}

/// How long the buttons loop should sleep after an iteration whose work
/// took `elapsed_ms`: the remainder of the poll interval, clamped to zero
/// when the work exceeded the interval so that the next poll follows
/// immediately instead of the subtraction wrapping.
pub fn remaining_poll_delay(elapsed_ms: u64) -> (r: u64)
    ensures
        elapsed_ms < POLL_DELAY_MS ==> r == POLL_DELAY_MS - elapsed_ms,
        elapsed_ms >= POLL_DELAY_MS ==> r == 0,
{
    if elapsed_ms < POLL_DELAY_MS {
        POLL_DELAY_MS - elapsed_ms
    } else {
        0
    }
}

} // verus!
