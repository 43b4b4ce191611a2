//! Plain values for what the firmware framework reports: the BLE and USB
//! transports, the battery, the split link, and the snapshot that the renderer
//! draws from.
use vstd::prelude::*;

verus! {

/// What the BLE subsystem is doing.
#[derive(Clone, Copy, Debug, PartialEq, Eq, Structural)]
pub enum BleState {
    Advertising,
    Connected,
    /// BLE is not in use (USB mode or sleep).
    Inactive,
}

/// The active BLE profile and what the BLE subsystem is doing with it.
#[derive(Clone, Copy, Debug, PartialEq, Eq, Structural)]
pub struct BleStatus {
    pub profile: u8,
    pub state: BleState,
}

/// USB device lifecycle.
#[derive(Clone, Copy, Debug, PartialEq, Eq, Structural)]
pub enum UsbState {
    Disabled,
    Enabled,
    Configured,
    Suspended,
}

/// The state of both transports at one moment.
#[derive(Clone, Copy, Debug, PartialEq, Eq, Structural)]
pub struct ConnectionStatus {
    pub usb: UsbState,
    pub ble: BleStatus,
}

/// A transport changed state.
#[derive(Clone, Copy, Debug, PartialEq, Eq, Structural)]
pub struct ConnectionStatusChangeEvent(pub ConnectionStatus);

/// Another layer became active.
#[derive(Clone, Copy, Debug, PartialEq, Eq, Structural)]
pub struct LayerChangeEvent(pub u8);

/// The split link from a peripheral half to the central half came up or went down.
#[derive(Clone, Copy, Debug, PartialEq, Eq, Structural)]
pub struct CentralConnectedEvent {
    pub connected: bool,
}

/// Direction in which the battery's charge is moving.
#[derive(Clone, Copy, Debug, PartialEq, Eq, Structural)]
pub enum ChargeState {
    Charging,
    Discharging,
    Unknown,
}

/// What is known of the battery.
#[derive(Clone, Copy, Debug, PartialEq, Eq)]
pub enum BatteryStatus {
    Unavailable,
    Available { charge_state: ChargeState, level: Option<u8> },
}

/// A battery reading.
#[derive(Clone, Copy, Debug, PartialEq, Eq)]
pub struct BatteryStatusEvent(pub BatteryStatus);

/// Snapshot of the keyboard state that a frame is drawn from.
#[derive(Clone, Copy, Debug, PartialEq, Eq)]
pub struct RenderContext {
    /// Active layer.
    pub layer: u8,
    /// Last battery reading.
    pub battery: BatteryStatusEvent,
    /// Active BLE profile and its state.
    pub ble_status: BleStatus,
    /// Whether the split link to the central is up (only ever true on a peripheral).
    pub central_connected: bool,
}

impl RenderContext {
    /// The snapshot before any event: base layer, no battery reading, BLE idle on
    /// its first profile, no split link.
    pub open spec fn initial() -> RenderContext {
        RenderContext {
            layer: 0,
            battery: BatteryStatusEvent(BatteryStatus::Unavailable),
            ble_status: BleStatus { profile: 0, state: BleState::Inactive },
            central_connected: false,
        }
    }
}

impl Default for RenderContext {
    fn default() -> (ctx: RenderContext)
        ensures
            ctx == RenderContext::initial(),
    {
        RenderContext {
            layer: 0,
            battery: BatteryStatusEvent(BatteryStatus::Unavailable),
            ble_status: BleStatus { profile: 0, state: BleState::Inactive },
            central_connected: false,
        }
    }
}

/// Level of a digital output.
#[derive(Clone, Copy, Debug, PartialEq, Eq, Structural)]
pub enum Level {
    Low,
    High,
}

/// Before any event the base layer is active, nothing is known of the battery, BLE is idle
/// on its first profile, and there is no split link.
pub proof fn initial_context_is_blank(ctx: RenderContext)
    requires
        ctx == RenderContext::initial(),
    ensures
        ctx.layer == 0,
        ctx.battery.0 is Unavailable,
        ctx.ble_status.profile == 0,
        ctx.ble_status.state is Inactive,
        !ctx.central_connected,
{
}

} // verus!
