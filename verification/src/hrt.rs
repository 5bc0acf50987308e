//! Health, runtime and thermal signals, and what of them is passed on.
use vstd::prelude::*;
use vstd::string::*;

use crate::ipc::TelemetryEvent;

verus! {

#[derive(Debug, Clone, PartialEq, Eq)]
pub enum HrtEvent {
    ThermalNominal,
    ThermalWarning,
    ThermalCritical,
    LifecycleStart,
    LifecycleStop,
    LifecycleShutdown,
    ErrorOccurred { message: String },
}

#[derive(Debug, Clone, Copy, PartialEq, Eq, Structural)]
pub enum HrtCommand {
    Shutdown,
}

#[derive(Debug, Clone, PartialEq, Eq)]
pub struct HrtStatus {
    pub thermal_level: String,
    pub lifecycle_state: String,
}

/// The event is an error with this text.
pub open spec fn is_error_event(e: Option<TelemetryEvent>, text: Seq<char>) -> bool {
    e matches Some(TelemetryEvent::ErrorOccurred { message }) && message@ == text
}

/// The telemetry event that a signal becomes. A nominal temperature is a heartbeat and
/// becomes none.
pub fn emit_event(event: HrtEvent) -> (r: Option<TelemetryEvent>)
    ensures
        match event {
            HrtEvent::ThermalNominal => r is None,
            HrtEvent::ThermalWarning => is_error_event(r, "Thermal warning"@),
            HrtEvent::ThermalCritical => is_error_event(r, "Thermal critical"@),
            HrtEvent::LifecycleStart => r == Some(TelemetryEvent::AppStarted),
            HrtEvent::LifecycleStop => r == Some(TelemetryEvent::AppStopped),
            HrtEvent::LifecycleShutdown => r == Some(TelemetryEvent::AppStopped),
            HrtEvent::ErrorOccurred { message } => r == Some(
                TelemetryEvent::ErrorOccurred { message },
            ),
        },
{
    match event {
        HrtEvent::ThermalNominal => None,
        HrtEvent::ThermalWarning => Some(
            TelemetryEvent::ErrorOccurred { message: String::from_str("Thermal warning") },
        ),
        HrtEvent::ThermalCritical => Some(
            TelemetryEvent::ErrorOccurred { message: String::from_str("Thermal critical") },
        ),
        HrtEvent::LifecycleStart => Some(TelemetryEvent::AppStarted),
        HrtEvent::LifecycleStop => Some(TelemetryEvent::AppStopped),
        HrtEvent::LifecycleShutdown => Some(TelemetryEvent::AppStopped),
        HrtEvent::ErrorOccurred { message } => Some(TelemetryEvent::ErrorOccurred { message }),
    }
}

/// What the service does next: broadcast an event, and go on or stop.
#[derive(Debug, Clone)]
pub struct HrtStep {
    pub event: Option<TelemetryEvent>,
    pub stop: bool,
}

/// The service announces its start.
pub fn on_start() -> (r: HrtStep)
    ensures
        r.event == Some(TelemetryEvent::AppStarted),
        !r.stop,
{
    HrtStep { event: emit_event(HrtEvent::LifecycleStart), stop: false }
}

/// The service takes a command; `None` means that nobody can send one any more.
pub fn on_command(cmd: Option<HrtCommand>) -> (r: HrtStep)
    ensures
        match cmd {
            Some(HrtCommand::Shutdown) => r.event == Some(TelemetryEvent::AppStopped),
            None => r.event is None,
        },
        r.stop,
{
    match cmd {
        Some(HrtCommand::Shutdown) => HrtStep {
            event: emit_event(HrtEvent::LifecycleShutdown),
            stop: true,
        },
        None => HrtStep { event: None, stop: true },
    }
}

} // verus!
