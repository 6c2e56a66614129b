//! What the control program logs of the reports it receives.
use crate::sensors::{Data, Distance};
use crate::{EngineEvent, Report};
use vstd::prelude::*;

verus! {

/// Severity of a log line.
#[derive(Clone, Copy, Debug, PartialEq, Eq, Structural)]
pub enum LogLevel {
    Info,
    Warn,
    Error,
}

/// The severity and the message of the log line for a report; the report's
/// values are logged beside the message.
pub open spec fn spec_report_log(report: Report) -> (LogLevel, Seq<char>) {
    match report {
        Report::Telemetry(Data::Encoder { .. }) => (LogLevel::Info, "encoder"@),
        Report::Telemetry(Data::DistanceFront(_)) => (LogLevel::Info, "distance front"@),
        Report::Telemetry(Data::DistanceBack(_)) => (LogLevel::Info, "distance back"@),
        Report::Event(EngineEvent::Ready) => (LogLevel::Info, "engine ready"@),
        Report::Event(EngineEvent::EmergencyStop) => (LogLevel::Warn, "emergency stop"@),
        Report::Event(EngineEvent::LowBattery) => (LogLevel::Warn, "low battery"@),
        Report::Event(EngineEvent::Unavailable(_)) => (LogLevel::Warn, "sensor unavailable"@),
        Report::Pong(_) => (LogLevel::Info, "pong"@),
    }
}

/// Chooses the log line for a report.
pub fn handle_report(report: &Report) -> (line: (LogLevel, &'static str))
    ensures
        (line.0, line.1@) == spec_report_log(*report),
{
    match report {
        Report::Telemetry(Data::Encoder { .. }) => (LogLevel::Info, "encoder"),
        Report::Telemetry(Data::DistanceFront(_)) => (LogLevel::Info, "distance front"),
        Report::Telemetry(Data::DistanceBack(_)) => (LogLevel::Info, "distance back"),
        Report::Event(EngineEvent::Ready) => (LogLevel::Info, "engine ready"),
        Report::Event(EngineEvent::EmergencyStop) => (LogLevel::Warn, "emergency stop"),
        Report::Event(EngineEvent::LowBattery) => (LogLevel::Warn, "low battery"),
        Report::Event(EngineEvent::Unavailable(_)) => (LogLevel::Warn, "sensor unavailable"),
        Report::Pong(_) => (LogLevel::Info, "pong"),
    }
}

/// The log line of a distance report depends only on its sensor's side,
/// never on the distance it carries: every front report is logged as
/// "distance front" and every back report as "distance back", both at info
/// level, and the two lines differ.
pub proof fn law_distance_log_by_side(d1: Distance, d2: Distance)
    ensures
        spec_report_log(Report::Telemetry(Data::DistanceFront(d1))) == (
            LogLevel::Info,
            "distance front"@,
        ),
        spec_report_log(Report::Telemetry(Data::DistanceBack(d2))) == (
            LogLevel::Info,
            "distance back"@,
        ),
        spec_report_log(Report::Telemetry(Data::DistanceFront(d1))) == spec_report_log(
            Report::Telemetry(Data::DistanceFront(d2)),
        ),
        spec_report_log(Report::Telemetry(Data::DistanceFront(d1))) != spec_report_log(
            Report::Telemetry(Data::DistanceBack(d2)),
        ),
{
    reveal_strlit("distance front");
    reveal_strlit("distance back");
    assert("distance front"@[9] != "distance back"@[9]);
}

/// The severity of each report: the emergency stop, a low battery and an
/// unavailable sensor are warnings; readiness, pongs and telemetry are
/// informational, whatever values they carry.
pub proof fn law_report_severity(r: Report)
    ensures
        spec_report_log(r).0 == match r {
            Report::Event(EngineEvent::EmergencyStop) | Report::Event(EngineEvent::LowBattery)
            | Report::Event(EngineEvent::Unavailable(_)) => LogLevel::Warn,
            _ => LogLevel::Info,
        },
        r matches Report::Pong(n) ==> spec_report_log(r) == (LogLevel::Info, "pong"@),
{
}

/// The message of each kind of report, whatever values it carries.
pub proof fn law_report_messages(s: crate::sensors::I2cSensor, l: u32, r: u32, ls: u32, rs: u32)
    ensures
        spec_report_log(
            Report::Telemetry(
                Data::Encoder {
                    left_mm_bits: l,
                    right_mm_bits: r,
                    left_speed_bits: ls,
                    right_speed_bits: rs,
                },
            ),
        ).1 == "encoder"@,
        spec_report_log(Report::Event(EngineEvent::Ready)).1 == "engine ready"@,
        spec_report_log(Report::Event(EngineEvent::EmergencyStop)).1 == "emergency stop"@,
        spec_report_log(Report::Event(EngineEvent::LowBattery)).1 == "low battery"@,
        spec_report_log(Report::Event(EngineEvent::Unavailable(s))).1 == "sensor unavailable"@,
{
}

} // verus!
