//! The decisions of the polling loop: what one acquisition cycle hands to the
//! diagnostic sink and to the display, and how long the loop then waits.
//!
//! The loop keeps no state between cycles: each cycle's action is a function
//! of the configured period and of that cycle's outcome alone.

use vstd::prelude::*;

use crate::decimal::{append_tenths, tenths_text};
use crate::dht11_extension::{outcome_view, SensorData};

verus! {

/// The diagnostic line for a reading: `temp: {T}C, humidity: {H}%`.
pub open spec fn reading_line(d: SensorData) -> Seq<char> {
    "temp: "@ + tenths_text(d.temperature_tenths as int) + "C, humidity: "@ + tenths_text(
        d.humidity_tenths as int,
    ) + "%"@
}

/// The diagnostic line for a failure: `Error: {message}`.
pub open spec fn failure_line(message: Seq<char>) -> Seq<char> {
    "Error: "@ + message
}

/// The display's temperature field: `Temperature: {T} C`.
pub open spec fn temperature_label(d: SensorData) -> Seq<char> {
    "Temperature: "@ + tenths_text(d.temperature_tenths as int) + " C"@
}

/// The display's humidity field: `Humidity: {H}%`.
pub open spec fn humidity_label(d: SensorData) -> Seq<char> {
    "Humidity: "@ + tenths_text(d.humidity_tenths as int) + "%"@
}

/// The two text fields that the display shows for a reading.
#[derive(Debug)]
pub struct Frame {
    pub temperature_line: String,
    pub humidity_line: String,
}

/// What one cycle does once its transaction has an outcome: the line for the
/// diagnostic sink, the fields for the display (none after a failure, which
/// leaves the display blank), and the delay before the next cycle.
#[derive(Debug)]
pub struct CycleAction {
    pub diagnostic: String,
    pub frame: Option<Frame>,
    pub delay_ms: u32,
}

/// A cycle's action, with its texts seen as characters.
pub struct CycleView {
    pub diagnostic: Seq<char>,
    pub frame: Option<(Seq<char>, Seq<char>)>,
    pub delay_ms: nat,
}

impl View for CycleAction {
    type V = CycleView;

    open spec fn view(&self) -> CycleView {
        CycleView {
            diagnostic: self.diagnostic@,
            frame: match self.frame {
                Some(f) => Some((f.temperature_line@, f.humidity_line@)),
                None => None,
            },
            delay_ms: self.delay_ms as nat,
        }
    }
}

/// The action of a cycle whose transaction had `outcome`, in a loop paced at
/// `period_ms`.
pub open spec fn cycle_view(period_ms: nat, outcome: Result<SensorData, Seq<char>>) -> CycleView {
    match outcome {
        Ok(d) => CycleView {
            diagnostic: reading_line(d),
            frame: Some((temperature_label(d), humidity_label(d))),
            delay_ms: period_ms,
        },
        Err(m) => CycleView { diagnostic: failure_line(m), frame: None, delay_ms: period_ms },
    }
}

/// The actions of consecutive cycles whose transactions had `outcomes`.
pub open spec fn run_view(period_ms: nat, outcomes: Seq<Result<SensorData, Seq<char>>>) -> Seq<
    CycleView,
> {
    outcomes.map_values(|o: Result<SensorData, Seq<char>>| cycle_view(period_ms, o))
}

/// The polling loop's configuration: the fixed delay between cycles.
#[derive(Clone, Copy, Debug, PartialEq, Eq, Structural)]
pub struct PollingLoop {
    pub period_ms: u32,
}

impl PollingLoop {
    /// A loop that waits `period_ms` milliseconds after every cycle.
    pub fn new(period_ms: u32) -> (r: Self)
        ensures
            r.period_ms == period_ms,
    {
        PollingLoop { period_ms }
    }

    /// Decides what a cycle whose transaction had `outcome` hands to its
    /// sinks. A failure is reported and the loop goes on after the same delay
    /// as after a reading.
    pub fn cycle(&self, outcome: &Result<SensorData, String>) -> (a: CycleAction)
        ensures
            a@ == cycle_view(self.period_ms as nat, outcome_view(*outcome)),
    {
        match outcome {
            Ok(d) => {
                let mut diagnostic = String::from_str("temp: ");
                append_tenths(&mut diagnostic, d.temperature_tenths as i32);
                diagnostic.append("C, humidity: ");
                append_tenths(&mut diagnostic, d.humidity_tenths as i32);
                diagnostic.append("%");
                let mut temperature_line = String::from_str("Temperature: ");
                append_tenths(&mut temperature_line, d.temperature_tenths as i32);
                temperature_line.append(" C");
                let mut humidity_line = String::from_str("Humidity: ");
                append_tenths(&mut humidity_line, d.humidity_tenths as i32);
                humidity_line.append("%");
                CycleAction {
                    diagnostic,
                    frame: Some(Frame { temperature_line, humidity_line }),
                    delay_ms: self.period_ms,
                }
            },
            Err(m) => {
                let mut diagnostic = String::from_str("Error: ");
                diagnostic.append(m.as_str());
                CycleAction { diagnostic, frame: None, delay_ms: self.period_ms }
            },
        }
    }
}

/// A failure is reported, never swallowed: its diagnostic line is `Error: `
/// followed by the whole message, so it is never empty and the message can be
/// read back from it.
pub proof fn lemma_failure_transparent(period_ms: nat, message: Seq<char>)
    ensures
        cycle_view(period_ms, Err(message)).diagnostic == failure_line(message),
        cycle_view(period_ms, Err(message)).diagnostic.len() == message.len() + 7,
        cycle_view(period_ms, Err(message)).diagnostic.subrange(7, message.len() + 7int) == message,
        cycle_view(period_ms, Err(message)).frame is None,
{
    reveal_strlit("Error: ");
    assert(failure_line(message).subrange(7, message.len() + 7int) =~= message);
}

/// Cycles are independent: in any two runs, a cycle whose transaction had the
/// same outcome does the same thing, whatever came before or after it.
pub proof fn lemma_cycle_independence(
    period_ms: nat,
    a: Seq<Result<SensorData, Seq<char>>>,
    b: Seq<Result<SensorData, Seq<char>>>,
    i: int,
)
    requires
        0 <= i < a.len(),
        0 <= i < b.len(),
        a[i] == b[i],
    ensures
        run_view(period_ms, a)[i] == run_view(period_ms, b)[i],
        run_view(period_ms, a)[i] == cycle_view(period_ms, a[i]),
{
}

/// The outcomes of a run in which every transaction failed, with `faults` as
/// their messages.
pub open spec fn failing_run(faults: Seq<Seq<char>>) -> Seq<Result<SensorData, Seq<char>>> {
    faults.map_values(|f: Seq<char>| Err::<SensorData, Seq<char>>(f))
}

/// A provider that always fails does not stop the loop: every cycle of such a
/// run reports its own fault, shows no reading, and waits the configured delay
/// before the next one.
pub proof fn lemma_failures_keep_the_loop_going(period_ms: nat, faults: Seq<Seq<char>>)
    ensures
        run_view(
            period_ms,
            failing_run(faults),
        ).len() == faults.len(),
        forall|i: int|
            0 <= i < faults.len() ==> {
                let v = #[trigger] run_view(
                    period_ms,
                    failing_run(faults),
                )[i];
                &&& v.diagnostic == failure_line(faults[i])
                &&& v.frame is None
                &&& v.delay_ms == period_ms
            },
{
}

} // verus!
