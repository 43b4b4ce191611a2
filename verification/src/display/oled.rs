//! The OLED and battery processor: redraws the panel when the keyboard state
//! changes, and refreshes the battery level from the fuel gauge on every poll.
//!
//! Panel and gauge share one bus. The processor decides what happens on it, one
//! [`OledAction`] at a time: the caller performs the action, each under a time
//! limit of [`BUS_TIMEOUT_MILLIS`], and reports the outcome as the next
//! [`OledEvent`], until the action is [`OledAction::Idle`].
use vstd::prelude::*;

use crate::cw2015::{soc_is_a_whole_percentage, soc_percent, Cw2015};
use crate::display::renderer::{
    frame_ops, frame_shows_the_layer, is_charging, ChargingFlag, DOIORenderer, DrawOpView, Frame, Icons, Size,
};
use crate::label::decimal;
use crate::status::{
    BatteryStatus, BatteryStatusEvent, CentralConnectedEvent, ChargeState,
    ConnectionStatusChangeEvent, LayerChangeEvent, RenderContext,
};

verus! {

/// I2C address of the SSD1306 panel.
pub const OLED_ADDRESS: u8 = 0x3C;

/// Time limit for any single use of the bus, in milliseconds. Nothing on it should
/// take longer than a flush of the framebuffer (about 50 ms); the limit keeps a
/// missing or misbehaving device from wedging the processor.
pub const BUS_TIMEOUT_MILLIS: u64 = 250;

/// How a use of the bus under the time limit ended.
#[derive(Debug, PartialEq, Eq)]
pub enum BusOutcome<T, E> {
    Completed { result: Result<T, E> },
    TimedOut,
}

impl<T, E> BusOutcome<T, E> {
    /// The use ended in time, and without an error.
    pub open spec fn succeeded(self) -> bool {
        self matches BusOutcome::Completed { result } && result is Ok
    }
}

/// What the processor is told. `E` is the error type of the bus.
#[derive(Debug, PartialEq, Eq)]
pub enum OledEvent<E> {
    /// The poll interval has passed.
    Poll,
    LayerChange(LayerChangeEvent),
    ConnectionStatusChange(ConnectionStatusChangeEvent),
    CentralConnected(CentralConnectedEvent),
    /// [`OledAction::InitGauge`] was performed.
    GaugeInit(BusOutcome<(), E>),
    /// [`OledAction::ReadSoc`] was performed; the result is the percentage.
    SocRead(BusOutcome<u8, E>),
    /// [`OledAction::InitPanel`] was performed, or cut short by the time limit.
    PanelInit { completed: bool },
    /// [`OledAction::Show`] was performed, or its flush cut short by the time limit.
    Shown { completed: bool },
}

/// What the processor wants done.
#[derive(Debug)]
pub enum OledAction {
    /// Initialise the fuel gauge.
    InitGauge,
    /// Read the state of charge from the fuel gauge.
    ReadSoc,
    /// Run the panel's initialisation sequence.
    InitPanel,
    /// Draw the frame into the panel's buffer and flush it.
    Show(Frame),
    /// Nothing, until the next poll or change of state.
    Idle,
}

/// [`OledAction`] as a mathematical value.
pub enum OledActionView {
    InitGauge,
    ReadSoc,
    InitPanel,
    Show { ops: Seq<DrawOpView> },
    Idle,
}

impl View for OledAction {
    type V = OledActionView;

    open spec fn view(&self) -> OledActionView {
        match *self {
            OledAction::InitGauge => OledActionView::InitGauge,
            OledAction::ReadSoc => OledActionView::ReadSoc,
            OledAction::InitPanel => OledActionView::InitPanel,
            OledAction::Show(frame) => OledActionView::Show { ops: frame.ops() },
            OledAction::Idle => OledActionView::Idle,
        }
    }
}

/// Renders keyboard state on the OLED and refreshes the battery level from the
/// CW2015. `D` is the handle of the display, `I2C` that of the gauge's bus.
#[derive(Debug)]
pub struct OledBatteryProcessor<D, I2C> {
    pub display: D,
    pub cw2015: Cw2015<I2C>,
    pub renderer: DOIORenderer,
    pub ctx: RenderContext,
    /// Whether the panel's initialisation sequence has run.
    pub display_ready: bool,
    /// Whether the gauge has been woken.
    pub cw_ready: bool,
}

/// The part of the processor that its decisions depend on.
pub struct OledState {
    pub icons: Icons,
    pub ctx: RenderContext,
    pub display_ready: bool,
    pub cw_ready: bool,
}

/// The reading of a use of the gauge: the level, with the charge state that the
/// charging flag gives, or no battery where the gauge failed or timed out.
pub open spec fn battery_reading<E>(
    outcome: BusOutcome<u8, E>,
    charging: bool,
) -> BatteryStatusEvent {
    match outcome {
        BusOutcome::Completed { result: Ok(level) } => BatteryStatusEvent(
            BatteryStatus::Available {
                charge_state: if charging {
                    ChargeState::Charging
                } else {
                    ChargeState::Discharging
                },
                level: Some(level),
            },
        ),
        _ => BatteryStatusEvent(BatteryStatus::Unavailable),
    }
}

/// The action of a redraw: the frame of the current state, once the panel is ready.
pub open spec fn redraw(state: OledState, charging: bool, size: Size) -> OledActionView {
    if state.display_ready {
        OledActionView::Show { ops: frame_ops(state.icons, state.ctx, charging, size) }
    } else {
        OledActionView::InitPanel
    }
}

/// The state after an event.
pub open spec fn next_state<E>(
    state: OledState,
    event: OledEvent<E>,
    charging: bool,
) -> OledState {
    let ctx = state.ctx;
    match event {
        OledEvent::Poll => state,
        OledEvent::LayerChange(change) => OledState {
            ctx: RenderContext { layer: change.0, ..ctx },
            ..state
        },
        OledEvent::ConnectionStatusChange(change) => OledState {
            ctx: RenderContext { ble_status: change.0.ble, ..ctx },
            ..state
        },
        OledEvent::CentralConnected(change) => OledState {
            ctx: RenderContext { central_connected: change.connected, ..ctx },
            ..state
        },
        OledEvent::GaugeInit(outcome) => OledState {
            cw_ready: state.cw_ready || outcome.succeeded(),
            ..state
        },
        OledEvent::SocRead(outcome) => OledState {
            ctx: RenderContext { battery: battery_reading(outcome, charging), ..ctx },
            ..state
        },
        OledEvent::PanelInit { completed } => OledState {
            display_ready: state.display_ready || completed,
            ..state
        },
        OledEvent::Shown { .. } => state,
    }
}

/// The action that follows an event, where `state` is the state after it.
pub open spec fn next_action<E>(
    state: OledState,
    event: OledEvent<E>,
    charging: bool,
    size: Size,
) -> OledActionView {
    match event {
        OledEvent::Poll => if state.cw_ready {
            OledActionView::ReadSoc
        } else {
            OledActionView::InitGauge
        },
        OledEvent::GaugeInit(_) => OledActionView::ReadSoc,
        OledEvent::PanelInit { completed: false } => OledActionView::Idle,
        OledEvent::Shown { .. } => OledActionView::Idle,
        _ => redraw(state, charging, size),
    }
}

/// Turns the outcome of a state-of-charge read into a battery reading. Where the read
/// failed or timed out, the battery is reported as unavailable.
pub fn read_battery<E>(outcome: BusOutcome<u8, E>, flag: &ChargingFlag) -> (reading:
    BatteryStatusEvent)
    ensures
        reading == battery_reading(outcome, flag.charging),
        outcome matches BusOutcome::Completed { result: Ok(p) } ==> (
        reading.0 matches BatteryStatus::Available { charge_state, level } && {
            &&& level == Some(p)
            &&& charge_state is Charging <==> flag.charging
            &&& charge_state is Discharging <==> !flag.charging
        }),
        reading.0 is Unavailable <==> !(outcome matches BusOutcome::Completed { result: Ok(_) }),
{
    match outcome {
        BusOutcome::Completed { result: Ok(level) } => {
            let charge_state = if is_charging(flag) {
                ChargeState::Charging
            } else {
                ChargeState::Discharging
            };
            BatteryStatusEvent(BatteryStatus::Available { charge_state, level: Some(level) })
        },
        _ => BatteryStatusEvent(BatteryStatus::Unavailable),
    }
}

impl<D, I2C> OledBatteryProcessor<D, I2C> {
    pub open spec fn state(&self) -> OledState {
        OledState {
            icons: self.renderer.icons,
            ctx: self.ctx,
            display_ready: self.display_ready,
            cw_ready: self.cw_ready,
        }
    }

    /// The handles of the display and of the gauge's bus are those of `other`.
    pub open spec fn same_handles(&self, other: &Self) -> bool {
        self.display == other.display && self.cw2015 == other.cw2015
    }

    /// Makes the processor. Nothing is done on the bus yet: panel and gauge are
    /// initialised when they are first used, so that a fault on the bus cannot stall
    /// the start of the firmware.
    pub fn new(display: D, cw2015: Cw2015<I2C>, icons: Icons) -> (processor: Self)
        ensures
            processor.display == display,
            processor.cw2015 == cw2015,
            processor.state() == (OledState {
                icons,
                ctx: RenderContext::initial(),
                display_ready: false,
                cw_ready: false,
            }),
            !processor.display_ready,
            !processor.cw_ready,
            processor.renderer.icons == icons,
            processor.ctx == RenderContext::initial(),
    {
        OledBatteryProcessor {
            display,
            cw2015,
            renderer: DOIORenderer::new(icons),
            ctx: RenderContext::default(),
            display_ready: false,
            cw_ready: false,
        }
    }

    /// Redraws the panel, which is initialised first if it has not been.
    pub fn render(&self, flag: &ChargingFlag, size: Size) -> (action: OledAction)
        requires
            size.drawable(),
        ensures
            action@ == redraw(self.state(), flag.charging, size),
            action is InitPanel <==> !self.display_ready,
            self.display_ready ==> (action matches OledAction::Show(frame) && frame.ops()
                == frame_ops(self.renderer.icons, self.ctx, flag.charging, size)),
    {
        if !self.display_ready {
            return OledAction::InitPanel;
        }
        OledAction::Show(self.renderer.render(&self.ctx, flag, size))
    }

    /// Continues a redraw after the panel's initialisation: with the frame, or not at
    /// all if the initialisation timed out.
    pub fn on_panel_init(
        &mut self,
        completed: bool,
        flag: &ChargingFlag,
        size: Size,
    ) -> (action: OledAction)
        requires
            size.drawable(),
        ensures
            final(self).same_handles(old(self)),
            final(self).state() == (OledState {
                display_ready: old(self).display_ready || completed,
                ..old(self).state()
            }),
            action@ == (if completed {
                redraw(final(self).state(), flag.charging, size)
            } else {
                OledActionView::Idle
            }),
            *final(self) == (OledBatteryProcessor {
                display_ready: old(self).display_ready || completed,
                ..*old(self)
            }),
            action is Idle <==> !completed,
            completed ==> (action matches OledAction::Show(frame) && frame.ops() == frame_ops(
                old(self).renderer.icons,
                old(self).ctx,
                flag.charging,
                size,
            )),
    {
        if !completed {
            return OledAction::Idle;
        }
        self.display_ready = true;
        self.render(flag, size)
    }

    /// Starts a poll: the battery level is read, after the gauge is initialised if
    /// it has not been.
    pub fn poll(&self) -> (action: OledAction)
        ensures
            action@ == (if self.cw_ready {
                OledActionView::ReadSoc
            } else {
                OledActionView::InitGauge
            }),
            action is ReadSoc <==> self.cw_ready,
            action is InitGauge <==> !self.cw_ready,
    {
        if !self.cw_ready {
            return OledAction::InitGauge;
        }
        OledAction::ReadSoc
    }

    /// Continues a poll after the gauge's initialisation, whether that succeeded
    /// or not. If it did not, the next poll tries again.
    pub fn on_gauge_init<E>(&mut self, outcome: BusOutcome<(), E>) -> (action: OledAction)
        ensures
            final(self).same_handles(old(self)),
            final(self).state() == (OledState {
                cw_ready: old(self).cw_ready || outcome.succeeded(),
                ..old(self).state()
            }),
            action@ == OledActionView::ReadSoc,
            *final(self) == (OledBatteryProcessor {
                cw_ready: final(self).cw_ready,
                ..*old(self)
            }),
            final(self).cw_ready <==> old(self).cw_ready || (
            outcome matches BusOutcome::Completed { result: Ok(_) }),
            action is ReadSoc,
    {
        if let BusOutcome::Completed { result: Ok(_) } = outcome {
            self.cw_ready = true;
        }
        OledAction::ReadSoc
    }

    /// Ends a poll: records the battery reading and redraws.
    pub fn on_soc_read<E>(
        &mut self,
        outcome: BusOutcome<u8, E>,
        flag: &ChargingFlag,
        size: Size,
    ) -> (action: OledAction)
        requires
            size.drawable(),
        ensures
            final(self).same_handles(old(self)),
            final(self).state() == (OledState {
                ctx: RenderContext {
                    battery: battery_reading(outcome, flag.charging),
                    ..old(self).ctx
                },
                ..old(self).state()
            }),
            action@ == redraw(final(self).state(), flag.charging, size),
            *final(self) == (OledBatteryProcessor {
                ctx: RenderContext { battery: final(self).ctx.battery, ..old(self).ctx },
                ..*old(self)
            }),
            outcome matches BusOutcome::Completed { result: Ok(p) } ==> (
            final(self).ctx.battery.0 matches BatteryStatus::Available { charge_state, level } && {
                &&& level == Some(p)
                &&& charge_state is Charging <==> flag.charging
                &&& charge_state is Discharging <==> !flag.charging
            }),
            final(self).ctx.battery.0 is Unavailable <==> !(
            outcome matches BusOutcome::Completed { result: Ok(_) }),
            action is InitPanel <==> !old(self).display_ready,
            old(self).display_ready ==> (action matches OledAction::Show(frame) && frame.ops()
                == frame_ops(old(self).renderer.icons, final(self).ctx, flag.charging, size)),
    {
        self.ctx.battery = read_battery(outcome, flag);
        self.render(flag, size)
    }

    /// Records the active layer and redraws.
    pub fn on_layer_change_event(
        &mut self,
        event: LayerChangeEvent,
        flag: &ChargingFlag,
        size: Size,
    ) -> (action: OledAction)
        requires
            size.drawable(),
        ensures
            final(self).same_handles(old(self)),
            final(self).state() == (OledState {
                ctx: RenderContext { layer: event.0, ..old(self).ctx },
                ..old(self).state()
            }),
            action@ == redraw(final(self).state(), flag.charging, size),
            *final(self) == (OledBatteryProcessor {
                ctx: RenderContext { layer: event.0, ..old(self).ctx },
                ..*old(self)
            }),
            action is InitPanel <==> !old(self).display_ready,
            old(self).display_ready ==> (action matches OledAction::Show(frame) && frame.ops()
                == frame_ops(old(self).renderer.icons, final(self).ctx, flag.charging, size)),
    {
        self.ctx.layer = event.0;
        self.render(flag, size)
    }

    /// Records the BLE status and redraws.
    pub fn on_connection_status_change_event(
        &mut self,
        event: ConnectionStatusChangeEvent,
        flag: &ChargingFlag,
        size: Size,
    ) -> (action: OledAction)
        requires
            size.drawable(),
        ensures
            final(self).same_handles(old(self)),
            final(self).state() == (OledState {
                ctx: RenderContext { ble_status: event.0.ble, ..old(self).ctx },
                ..old(self).state()
            }),
            action@ == redraw(final(self).state(), flag.charging, size),
            *final(self) == (OledBatteryProcessor {
                ctx: RenderContext { ble_status: event.0.ble, ..old(self).ctx },
                ..*old(self)
            }),
            action is InitPanel <==> !old(self).display_ready,
            old(self).display_ready ==> (action matches OledAction::Show(frame) && frame.ops()
                == frame_ops(old(self).renderer.icons, final(self).ctx, flag.charging, size)),
    {
        self.ctx.ble_status = event.0.ble;
        self.render(flag, size)
    }

    /// Records the split link and redraws.
    pub fn on_central_connected_event(
        &mut self,
        event: CentralConnectedEvent,
        flag: &ChargingFlag,
        size: Size,
    ) -> (action: OledAction)
        requires
            size.drawable(),
        ensures
            final(self).same_handles(old(self)),
            final(self).state() == (OledState {
                ctx: RenderContext { central_connected: event.connected, ..old(self).ctx },
                ..old(self).state()
            }),
            action@ == redraw(final(self).state(), flag.charging, size),
            *final(self) == (OledBatteryProcessor {
                ctx: RenderContext { central_connected: event.connected, ..old(self).ctx },
                ..*old(self)
            }),
            action is InitPanel <==> !old(self).display_ready,
            old(self).display_ready ==> (action matches OledAction::Show(frame) && frame.ops()
                == frame_ops(old(self).renderer.icons, final(self).ctx, flag.charging, size)),
    {
        self.ctx.central_connected = event.connected;
        self.render(flag, size)
    }

    /// Takes an event and says what to do about it. `flag` is the charging flag at
    /// the time of the event, and `size` the size of the display.
    pub fn step<E>(&mut self, event: OledEvent<E>, flag: &ChargingFlag, size: Size) -> (action:
        OledAction)
        requires
            size.drawable(),
        ensures
            final(self).same_handles(old(self)),
            final(self).state() == next_state(old(self).state(), event, flag.charging),
            action@ == next_action(final(self).state(), event, flag.charging, size),
            event matches OledEvent::LayerChange(change) ==> *final(self) == (
            OledBatteryProcessor {
                ctx: RenderContext { layer: change.0, ..old(self).ctx },
                ..*old(self)
            }),
            event matches OledEvent::ConnectionStatusChange(change) ==> *final(self) == (
            OledBatteryProcessor {
                ctx: RenderContext { ble_status: change.0.ble, ..old(self).ctx },
                ..*old(self)
            }),
            event matches OledEvent::CentralConnected(change) ==> *final(self) == (
            OledBatteryProcessor {
                ctx: RenderContext { central_connected: change.connected, ..old(self).ctx },
                ..*old(self)
            }),
            event is Poll || event is Shown ==> *final(self) == *old(self),
            event is LayerChange || event is ConnectionStatusChange || event is CentralConnected
                || event is SocRead ==> {
                &&& action is InitPanel <==> !old(self).display_ready
                &&& old(self).display_ready ==> (action matches OledAction::Show(frame)
                    && frame.ops() == frame_ops(
                    old(self).renderer.icons,
                    final(self).ctx,
                    flag.charging,
                    size,
                ))
            },
    {
        match event {
            OledEvent::Poll => self.poll(),
            OledEvent::LayerChange(change) => self.on_layer_change_event(change, flag, size),
            OledEvent::ConnectionStatusChange(change) => self.on_connection_status_change_event(
                change,
                flag,
                size,
            ),
            OledEvent::CentralConnected(change) => self.on_central_connected_event(
                change,
                flag,
                size,
            ),
            OledEvent::GaugeInit(outcome) => self.on_gauge_init(outcome),
            OledEvent::SocRead(outcome) => self.on_soc_read(outcome, flag, size),
            OledEvent::PanelInit { completed } => self.on_panel_init(completed, flag, size),
            OledEvent::Shown { .. } => OledAction::Idle,
        }
    }
}

/// An event, with the charging flag and the size of the display at its time.
pub struct OledInput<E> {
    pub event: OledEvent<E>,
    pub charging: bool,
    pub size: Size,
}

/// The state after a run of inputs.
pub open spec fn state_after<E>(state: OledState, inputs: Seq<OledInput<E>>) -> OledState
    decreases inputs.len(),
{
    if inputs.len() == 0 {
        state
    } else {
        let input = inputs.last();
        next_state(state_after(state, inputs.drop_last()), input.event, input.charging)
    }
}

/// The action that follows the input with this index of a run.
pub open spec fn action_at<E>(
    state: OledState,
    inputs: Seq<OledInput<E>>,
    index: int,
) -> OledActionView {
    let input = inputs[index];
    next_action(
        state_after(state, inputs.take(index + 1)),
        input.event,
        input.charging,
        input.size,
    )
}

/// Once the panel or the gauge is ready, it stays so, whatever happens. The artwork
/// never changes.
pub proof fn readiness_is_kept<E>(state: OledState, inputs: Seq<OledInput<E>>, since: int)
    requires
        0 <= since <= inputs.len(),
    ensures
        state_after(state, inputs.take(since)).display_ready ==> state_after(
            state,
            inputs,
        ).display_ready,
        state_after(state, inputs.take(since)).cw_ready ==> state_after(state, inputs).cw_ready,
        state_after(state, inputs).icons == state.icons,
    decreases inputs.len(),
{
    if since < inputs.len() {
        readiness_is_kept(state, inputs.drop_last(), since);
        assert(inputs.drop_last().take(since) =~= inputs.take(since));
    } else {
        assert(inputs.take(since) =~= inputs);
        if inputs.len() > 0 {
            readiness_is_kept(state, inputs.drop_last(), since - 1);
        }
    }
}

/// The panel is shown a frame only when it is ready, and asked to initialise only when
/// it is not. The gauge is asked to initialise only when it is not ready.
pub proof fn actions_respect_readiness<E>(state: OledState, input: OledInput<E>)
    ensures
        ({
            let next = next_state(state, input.event, input.charging);
            let action = next_action(next, input.event, input.charging, input.size);
            &&& action is Show ==> next.display_ready
            &&& action is InitPanel ==> !next.display_ready
            &&& action is InitGauge ==> !next.cw_ready
        }),
{
}

/// After the panel's initialisation has completed, or that of the gauge succeeded, no
/// later input makes the processor ask for it again.
pub proof fn initialisation_is_not_repeated<E>(
    state: OledState,
    inputs: Seq<OledInput<E>>,
    done: int,
    later: int,
)
    requires
        0 <= done < later < inputs.len(),
    ensures
        inputs[done].event == (OledEvent::<E>::PanelInit { completed: true }) ==> !(action_at(
            state,
            inputs,
            later,
        ) is InitPanel),
        inputs[done].event matches OledEvent::GaugeInit(outcome) && outcome.succeeded() ==> !(
        action_at(state, inputs, later) is InitGauge),
{
    let run = inputs.take(later + 1);
    readiness_is_kept(state, run, done + 1);
    assert(run.take(done + 1) =~= inputs.take(done + 1));
    assert(inputs.take(done + 1).last() == inputs[done]);
    assert(run.last() == inputs[later]);
}

/// The event reports on the action.
pub open spec fn reports_on<E>(event: OledEvent<E>, action: OledActionView) -> bool {
    match action {
        OledActionView::InitGauge => event is GaugeInit,
        OledActionView::ReadSoc => event is SocRead,
        OledActionView::InitPanel => event is PanelInit,
        OledActionView::Show { .. } => event is Shown,
        OledActionView::Idle => false,
    }
}

/// At most this many actions remain until the processor is idle.
pub open spec fn actions_left(action: OledActionView) -> nat {
    match action {
        OledActionView::InitGauge => 4,
        OledActionView::ReadSoc => 3,
        OledActionView::InitPanel => 2,
        OledActionView::Show { .. } => 1,
        OledActionView::Idle => 0,
    }
}

/// The processor cannot be wedged: each action that is performed and reported, however it
/// went, brings it closer to being idle, so that no event takes more than four uses of
/// the bus.
pub proof fn every_event_ends_idle<E>(
    state: OledState,
    action: OledActionView,
    input: OledInput<E>,
)
    requires
        reports_on(input.event, action),
    ensures
        actions_left(
            next_action(
                next_state(state, input.event, input.charging),
                input.event,
                input.charging,
                input.size,
            ),
        ) < actions_left(action) <= 4,
{
}

/// A whole poll: the actions in order and the state after them, where `gauge`, `soc` and
/// `panel` are the outcomes of the actions that are asked for on the way. The charging
/// flag is `charging` when the level has been read, and `charging_later` when the panel
/// has been initialised, if it had to be.
pub open spec fn poll_cycle<E>(
    state: OledState,
    gauge: BusOutcome<(), E>,
    soc: BusOutcome<u8, E>,
    panel: bool,
    charging: bool,
    charging_later: bool,
    size: Size,
) -> (OledState, Seq<OledActionView>) {
    let first = next_action(state, OledEvent::<E>::Poll, charging, size);
    let (woken, begun) = if first is InitGauge {
        let event = OledEvent::GaugeInit(gauge);
        let next = next_state(state, event, charging);
        (next, seq![first, next_action(next, event, charging, size)])
    } else {
        (state, seq![first])
    };
    let event = OledEvent::SocRead(soc);
    let read = next_state(woken, event, charging);
    let drawing = next_action(read, event, charging, size);
    if drawing is InitPanel {
        let event = OledEvent::<E>::PanelInit { completed: panel };
        let next = next_state(read, event, charging_later);
        (next, begun + seq![drawing, next_action(next, event, charging_later, size)])
    } else {
        (read, begun + seq![drawing])
    }
}

/// The actions of a whole poll: gauge and panel are initialised only where they are not
/// ready, and the last action is the frame, unless the panel is still not ready.
pub open spec fn poll_actions(
    before: OledState,
    after: OledState,
    charging: bool,
    size: Size,
) -> Seq<OledActionView> {
    let gauge = if before.cw_ready {
        seq![]
    } else {
        seq![OledActionView::InitGauge]
    };
    let panel = if before.display_ready {
        seq![]
    } else {
        seq![OledActionView::InitPanel]
    };
    let end = if after.display_ready {
        OledActionView::Show { ops: frame_ops(after.icons, after.ctx, charging, size) }
    } else {
        OledActionView::Idle
    };
    gauge + seq![OledActionView::ReadSoc] + panel + seq![end]
}

/// Every poll reads the battery level and redraws. The gauge is woken first if it has not
/// been, and a failure to do so does not keep the level from being read; the panel is
/// initialised before the frame if it has not been, and only if that times out is no
/// frame shown. A failed read leaves the frame without icon and level of the battery.
pub proof fn poll_reads_then_redraws<E>(
    state: OledState,
    gauge: BusOutcome<(), E>,
    soc: BusOutcome<u8, E>,
    panel: bool,
    charging: bool,
    charging_later: bool,
    size: Size,
)
    ensures
        ({
            let (after, actions) = poll_cycle(
                state,
                gauge,
                soc,
                panel,
                charging,
                charging_later,
                size,
            );
            let drawn = if state.display_ready {
                charging
            } else {
                charging_later
            };
            &&& after == OledState {
                ctx: RenderContext { battery: battery_reading(soc, charging), ..state.ctx },
                display_ready: state.display_ready || panel,
                cw_ready: state.cw_ready || gauge.succeeded(),
                ..state
            }
            &&& actions == poll_actions(state, after, drawn, size)
            &&& !soc.succeeded() ==> frame_ops(after.icons, after.ctx, drawn, size).len() == 3
        }),
{
    let (after, actions) = poll_cycle(state, gauge, soc, panel, charging, charging_later, size);
    let drawn = if state.display_ready {
        charging
    } else {
        charging_later
    };
    assert(actions =~= poll_actions(state, after, drawn, size));
}

/// The level of a battery reading, if it has one, is a percentage.
pub open spec fn level_is_percentage(reading: BatteryStatusEvent) -> bool {
    reading.0 matches BatteryStatus::Available { level: Some(level), .. } ==> level <= 100
}

/// Where the gauge only ever reports percentages, the level that is drawn is always one.
pub proof fn level_stays_a_percentage<E>(state: OledState, inputs: Seq<OledInput<E>>)
    requires
        level_is_percentage(state.ctx.battery),
        forall|i: int|
            0 <= i < inputs.len() ==> ((#[trigger] inputs[i]).event matches OledEvent::SocRead(
                BusOutcome::Completed { result: Ok(level) },
            ) ==> level <= 100),
    ensures
        level_is_percentage(state_after(state, inputs).ctx.battery),
    decreases inputs.len(),
{
    if inputs.len() > 0 {
        let before = inputs.drop_last();
        assert forall|i: int| 0 <= i < before.len() implies ((
        #[trigger] before[i]).event matches OledEvent::SocRead(
            BusOutcome::Completed { result: Ok(level) },
        ) ==> level <= 100) by {
            assert(before[i] == inputs[i]);
        }
        level_stays_a_percentage(state, before);
        assert(inputs.last() == inputs[inputs.len() - 1]);
    }
}

/// Where the event reports a level, that level is the gauge's reading of its two SOC bytes.
pub open spec fn level_is_from_gauge<E>(event: OledEvent<E>) -> bool {
    event matches OledEvent::SocRead(BusOutcome::Completed { result: Ok(level) }) ==> exists|
        bytes: Seq<u8>,
    |
        bytes.len() == 2 && level == #[trigger] soc_percent(bytes)
}

/// Whatever two bytes the gauge reports, the battery reading made of them is a percentage.
pub proof fn gauge_reading_is_a_percentage<E>(bytes: Seq<u8>, charging: bool)
    requires
        bytes.len() == 2,
    ensures
        level_is_percentage(
            battery_reading(
                BusOutcome::<u8, E>::Completed { result: Ok(soc_percent(bytes)) },
                charging,
            ),
        ),
{
    soc_is_a_whole_percentage(bytes, bytes);
}

/// A processor that gets its levels from the gauge never holds, and never draws, a level
/// above 100%, whatever bytes the gauge reports. A new one holds none at all; after any run
/// of inputs the level is a percentage, and so is the one in every frame that was shown on
/// the way.
pub proof fn gauge_levels_are_drawn_as_percentages<E>(
    state: OledState,
    inputs: Seq<OledInput<E>>,
    index: int,
)
    requires
        level_is_percentage(state.ctx.battery),
        forall|i: int| 0 <= i < inputs.len() ==> level_is_from_gauge((#[trigger] inputs[i]).event),
        0 <= index < inputs.len(),
    ensures
        level_is_percentage(RenderContext::initial().battery),
        level_is_percentage(state_after(state, inputs).ctx.battery),
        action_at(state, inputs, index) matches OledActionView::Show { ops } ==> ops.len() == 5
            ==> exists|percent: nat|
            percent <= 100 && (ops[3] matches DrawOpView::Text { text, .. } && text
                == #[trigger] decimal(percent) + "%"@),
{
    assert forall|i: int| 0 <= i < inputs.len() implies ((
    #[trigger] inputs[i]).event matches OledEvent::SocRead(
        BusOutcome::Completed { result: Ok(level) },
    ) ==> level <= 100) by {
        assert(level_is_from_gauge(inputs[i].event));
    }
    level_stays_a_percentage(state, inputs);
    let run = inputs.take(index + 1);
    assert forall|i: int| 0 <= i < run.len() implies ((
    #[trigger] run[i]).event matches OledEvent::SocRead(
        BusOutcome::Completed { result: Ok(level) },
    ) ==> level <= 100) by {
        assert(run[i] == inputs[i]);
    }
    level_stays_a_percentage(state, run);
}

/// A change of layer, of the connection or of the split link records what the event says, and
/// all of it: nothing else of the state changes, and the redraw that follows is of the state
/// with the change in it, or waits for the panel.
pub proof fn changes_are_recorded_and_redrawn<E>(
    state: OledState,
    layer: LayerChangeEvent,
    connection: ConnectionStatusChangeEvent,
    link: CentralConnectedEvent,
    charging: bool,
    size: Size,
)
    ensures
        ({
            let event = OledEvent::<E>::LayerChange(layer);
            let after = next_state(state, event, charging);
            &&& after.ctx.layer == layer.0
            &&& after.ctx.battery == state.ctx.battery
            &&& after.ctx.ble_status == state.ctx.ble_status
            &&& after.ctx.central_connected == state.ctx.central_connected
            &&& after.icons == state.icons
            &&& after.display_ready == state.display_ready
            &&& after.cw_ready == state.cw_ready
            &&& !state.display_ready ==> next_action(after, event, charging, size) is InitPanel
            &&& state.display_ready ==> (next_action(
                after,
                event,
                charging,
                size,
            ) matches OledActionView::Show { ops }
                && ops[1] matches DrawOpView::Image { data, .. } && {
                &&& layer.0 == 1 ==> data == state.icons.layer_1@
                &&& layer.0 == 2 ==> data == state.icons.layer_2@
                &&& layer.0 == 3 ==> data == state.icons.layer_3@
                &&& layer.0 == 0 || layer.0 > 3 ==> data == state.icons.layer_0@
            })
        }),
        ({
            let event = OledEvent::<E>::ConnectionStatusChange(connection);
            let after = next_state(state, event, charging);
            &&& after.ctx.ble_status == connection.0.ble
            &&& after.ctx.layer == state.ctx.layer
            &&& after.ctx.battery == state.ctx.battery
            &&& after.ctx.central_connected == state.ctx.central_connected
            &&& after.icons == state.icons
            &&& after.display_ready == state.display_ready
            &&& after.cw_ready == state.cw_ready
            &&& !state.display_ready ==> next_action(after, event, charging, size) is InitPanel
            &&& state.display_ready ==> next_action(after, event, charging, size) == (
            OledActionView::Show {
                ops: frame_ops(
                    state.icons,
                    RenderContext { ble_status: connection.0.ble, ..state.ctx },
                    charging,
                    size,
                ),
            })
        }),
        ({
            let event = OledEvent::<E>::CentralConnected(link);
            let after = next_state(state, event, charging);
            &&& after.ctx.central_connected == link.connected
            &&& after.ctx.layer == state.ctx.layer
            &&& after.ctx.battery == state.ctx.battery
            &&& after.ctx.ble_status == state.ctx.ble_status
            &&& after.icons == state.icons
            &&& after.display_ready == state.display_ready
            &&& after.cw_ready == state.cw_ready
            &&& !state.display_ready ==> next_action(after, event, charging, size) is InitPanel
            &&& state.display_ready ==> next_action(after, event, charging, size) == (
            OledActionView::Show {
                ops: frame_ops(
                    state.icons,
                    RenderContext { central_connected: link.connected, ..state.ctx },
                    charging,
                    size,
                ),
            })
        }),
{
    frame_shows_the_layer(
        state.icons,
        next_state(state, OledEvent::<E>::LayerChange(layer), charging).ctx,
        charging,
        size,
    );
}

/// After any run of inputs, each part of the context is what the last event about it said,
/// whatever came in between or after: the layer is that of the last layer change, the BLE
/// status that of the last connection change, the split link that of the last change of it,
/// and the battery that of the last read. Here `last` is the place of that event.
pub proof fn last_event_decides<E>(state: OledState, inputs: Seq<OledInput<E>>, last: int)
    requires
        0 <= last < inputs.len(),
    ensures
        (forall|i: int| last < i < inputs.len() ==> !((#[trigger] inputs[i]).event is LayerChange))
            ==> (inputs[last].event matches OledEvent::LayerChange(change) ==> state_after(
            state,
            inputs,
        ).ctx.layer == change.0),
        (forall|i: int|
            last < i < inputs.len() ==> !((#[trigger] inputs[i]).event is ConnectionStatusChange))
            ==> (inputs[last].event matches OledEvent::ConnectionStatusChange(change)
            ==> state_after(state, inputs).ctx.ble_status == change.0.ble),
        (forall|i: int|
            last < i < inputs.len() ==> !((#[trigger] inputs[i]).event is CentralConnected)) ==> (
        inputs[last].event matches OledEvent::CentralConnected(change) ==> state_after(
            state,
            inputs,
        ).ctx.central_connected == change.connected),
        (forall|i: int| last < i < inputs.len() ==> !((#[trigger] inputs[i]).event is SocRead)) ==> (
        inputs[last].event matches OledEvent::SocRead(outcome) ==> {
            let battery = state_after(state, inputs).ctx.battery.0;
            &&& battery is Unavailable <==> !(outcome matches BusOutcome::Completed {
                result: Ok(_),
            })
            &&& outcome matches BusOutcome::Completed { result: Ok(p) } ==> (
            battery matches BatteryStatus::Available { level, charge_state } && {
                &&& level == Some(p)
                &&& charge_state is Charging <==> inputs[last].charging
            })
        }),
    decreases inputs.len(),
{
    assert(inputs.last() == inputs[inputs.len() - 1]);
    if last < inputs.len() - 1 {
        let before = inputs.drop_last();
        last_event_decides(state, before, last);
        assert(forall|i: int| 0 <= i < before.len() ==> #[trigger] before[i] == inputs[i]);
        assert(inputs[inputs.len() - 1] == inputs.last());
    }
}

/// A part of the context that no event of a run is about stays as it was.
pub proof fn untouched_context_is_kept<E>(state: OledState, inputs: Seq<OledInput<E>>)
    ensures
        (forall|i: int| 0 <= i < inputs.len() ==> !((#[trigger] inputs[i]).event is LayerChange))
            ==> state_after(state, inputs).ctx.layer == state.ctx.layer,
        (forall|i: int|
            0 <= i < inputs.len() ==> !((#[trigger] inputs[i]).event is ConnectionStatusChange))
            ==> state_after(state, inputs).ctx.ble_status == state.ctx.ble_status,
        (forall|i: int|
            0 <= i < inputs.len() ==> !((#[trigger] inputs[i]).event is CentralConnected))
            ==> state_after(state, inputs).ctx.central_connected == state.ctx.central_connected,
        (forall|i: int| 0 <= i < inputs.len() ==> !((#[trigger] inputs[i]).event is SocRead))
            ==> state_after(state, inputs).ctx.battery == state.ctx.battery,
    decreases inputs.len(),
{
    if inputs.len() > 0 {
        let before = inputs.drop_last();
        untouched_context_is_kept(state, before);
        assert(forall|i: int| 0 <= i < before.len() ==> #[trigger] before[i] == inputs[i]);
        assert(inputs.last() == inputs[inputs.len() - 1]);
    }
}

/// A read that ends in time and without an error gives an available battery at exactly the
/// level that was read, charging just when the flag is set. A read that fails or times out
/// gives a battery that is not available, and nothing else does.
pub proof fn reading_has_the_level_that_was_read<E>(outcome: BusOutcome<u8, E>, charging: bool)
    ensures
        outcome matches BusOutcome::Completed { result: Ok(p) } ==> (battery_reading(
            outcome,
            charging,
        ).0 matches BatteryStatus::Available { charge_state, level } && {
            &&& level == Some(p)
            &&& charging ==> charge_state is Charging
            &&& !charging ==> charge_state is Discharging
        }),
        battery_reading(outcome, charging).0 is Unavailable <==> outcome is TimedOut || (
        outcome matches BusOutcome::Completed { result } && result is Err),
        outcome.succeeded() <==> !(battery_reading(outcome, charging).0 is Unavailable),
{
}

/// A poll whose read succeeds, on a panel that is or becomes ready, ends with a frame of five
/// operations: it has the battery icon, and below it the digits of the level that was read and
/// a percent sign.
pub proof fn successful_poll_shows_the_level<E>(
    state: OledState,
    gauge: BusOutcome<(), E>,
    level: u8,
    panel: bool,
    charging: bool,
    charging_later: bool,
    size: Size,
)
    requires
        state.display_ready || panel,
    ensures
        ({
            let soc = BusOutcome::<u8, E>::Completed { result: Ok(level) };
            let (after, actions) = poll_cycle(
                state,
                gauge,
                soc,
                panel,
                charging,
                charging_later,
                size,
            );
            &&& after.ctx.battery.0 matches BatteryStatus::Available { level: held, .. } && held
                == Some(level)
            &&& actions.last() matches OledActionView::Show { ops } && {
                &&& ops.len() == 5
                &&& ops[2] is Image
                &&& ops[3] matches DrawOpView::Text { text, .. } && text == decimal(level as nat)
                    + "%"@
            }
        }),
{
}

/// Only a completed initialisation makes the panel ready, only a successful one the gauge, and
/// nothing makes either of them less ready.
pub proof fn only_reports_change_readiness<E>(
    state: OledState,
    event: OledEvent<E>,
    charging: bool,
)
    ensures
        ({
            let after = next_state(state, event, charging);
            &&& after.display_ready <==> state.display_ready || (
            event matches OledEvent::PanelInit { completed } && completed)
            &&& after.cw_ready <==> state.cw_ready || (event matches OledEvent::GaugeInit(
                BusOutcome::Completed { result },
            ) && result is Ok)
            &&& after.icons == state.icons
            &&& event is Poll || event is Shown || event is GaugeInit || event is PanelInit
                ==> after.ctx == state.ctx
        }),
{
}

/// What is asked for after an event: a poll reads the level, or first wakes the gauge; the end
/// of waking it, however it went, reads the level; every change of the state is shown, or
/// first the panel is initialised; the end of that shows the state as it is, unless it timed
/// out; and a frame that was shown leaves nothing to do.
pub proof fn every_event_has_its_action<E>(
    state: OledState,
    event: OledEvent<E>,
    charging: bool,
    size: Size,
)
    ensures
        ({
            let after = next_state(state, event, charging);
            let action = next_action(after, event, charging, size);
            let show = OledActionView::Show {
                ops: frame_ops(state.icons, after.ctx, charging, size),
            };
            let changes = event is LayerChange || event is ConnectionStatusChange
                || event is CentralConnected || event is SocRead;
            &&& event is Poll && state.cw_ready ==> action is ReadSoc
            &&& event is Poll && !state.cw_ready ==> action is InitGauge
            &&& event is GaugeInit ==> action is ReadSoc
            &&& changes && state.display_ready ==> action == show
            &&& changes && !state.display_ready ==> action is InitPanel
            &&& event matches OledEvent::PanelInit { completed } ==> {
                &&& completed ==> action == show
                &&& !completed ==> action is Idle
            }
            &&& event is Shown ==> action is Idle
        }),
{
}

/// An action as a value is of the same kind, and shows the operations of the same frame.
pub proof fn action_keeps_its_kind(action: OledAction)
    ensures
        action is InitGauge <==> action@ is InitGauge,
        action is ReadSoc <==> action@ is ReadSoc,
        action is InitPanel <==> action@ is InitPanel,
        action is Idle <==> action@ is Idle,
        action matches OledAction::Show(frame) ==> action@ == (OledActionView::Show {
            ops: frame.ops(),
        }),
{
}

/// The state of a processor is what it holds, and the handles are the rest of it.
pub proof fn state_is_what_the_processor_holds<D, I2C>(
    processor: OledBatteryProcessor<D, I2C>,
    other: OledBatteryProcessor<D, I2C>,
)
    ensures
        processor.state().icons == processor.renderer.icons,
        processor.state().ctx == processor.ctx,
        processor.state().display_ready == processor.display_ready,
        processor.state().cw_ready == processor.cw_ready,
        processor.same_handles(&other) && processor.state() == other.state() ==> processor == other,
{
}

} // verus!
