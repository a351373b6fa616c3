//! The garage: the ordered door collection. Local doors wrap exclusively
//! owned GPIO pins; remote doors stand for doors served by a peer host and
//! carry the data a caller needs to reach the peer's action endpoint.

use crate::board::pins_for_board;
use crate::board::spec_board_pins;
use crate::config::ConfigError;
use crate::config::DoorConfig;
use crate::config::GarageConfig;
use crate::config::RelayConfig;
use crate::config::total_relay_count;
use crate::gpio::Gpio;
use crate::gpio::GpioError;
use crate::gpio::GpioPin;
use vstd::prelude::*;

verus! {

/// One of the actions a door can expose.
#[derive(Debug, Clone, Copy, PartialEq, Eq, Structural)]
pub enum DoorAction {
    Toggle,
    Open,
    Close,
    Stop,
}

/// A button: pressing it pulses one relay. The local variant owns its GPIO
/// pin exclusively; the remote variant names the peer host, the door's
/// position in that peer's own listing, and the action, from which the
/// embedding program forms the peer's action endpoint.
pub enum Button<P: GpioPin> {
    Gpio { pin: P },
    Remote { host: String, door_index: usize, action: DoorAction },
}

/// How a door is controlled: one toggle button, or discrete open/close
/// buttons with an optional stop button.
pub enum DoorControl<P: GpioPin> {
    Toggle { button: Button<P> },
    Discrete {
        open_button: Button<P>,
        close_button: Button<P>,
        stop_button: Option<Button<P>>,
    },
}

/// A named door. `host` is the peer providing this door, or None if it is
/// wired locally.
pub struct Door<P: GpioPin> {
    pub name: String,
    pub host: Option<String>,
    pub control: DoorControl<P>,
}

/// The ordered door collection: the locally wired doors first, in configured
/// order, then the remote doors gathered by the most recent federation sync
/// cycle.
pub struct Garage<P: GpioPin> {
    pub doors: Vec<Door<P>>,
}

/// A freshly built local button: wraps a pin with the given number that has
/// not yet been driven.
pub open spec fn fresh_local_button<P: GpioPin>(b: Button<P>, pin_no: u8) -> bool {
    &&& b matches Button::Gpio { pin }
    &&& pin.pin_id() == pin_no
    &&& pin.history() == Seq::<bool>::empty()
}

/// The door that `Garage::new` builds for one door configuration: name
/// copied, locally owned, and each configured relay wired to the pin its
/// 1-based relay index selects from the resolved pin list.
pub open spec fn local_door_built<P: GpioPin>(d: Door<P>, dc: DoorConfig, pins: Seq<u8>) -> bool {
    match dc {
        DoorConfig::ToggleButton { name, relay } => {
            &&& d.name == name
            &&& d.host is None
            &&& d.control matches DoorControl::Toggle { button }
            &&& fresh_local_button(button, pins[relay - 1])
        },
        DoorConfig::DiscreteButtons { name, open_relay, close_relay, stop_relay } => {
            &&& d.name == name
            &&& d.host is None
            &&& d.control matches DoorControl::Discrete { open_button, close_button, stop_button }
            &&& fresh_local_button(open_button, pins[open_relay - 1])
            &&& fresh_local_button(close_button, pins[close_relay - 1])
            &&& match stop_relay {
                None => stop_button is None,
                Some(sr) => stop_button matches Some(sb) && fresh_local_button(sb, pins[sr - 1]),
            }
        },
    }
}

/// Outcome of wiring one relay: the 1-based index must land in the resolved
/// pin list, and the selected pin must be acquirable.
pub open spec fn spec_relay_get<G: Gpio>(gpio: G, relay: int, pins: Seq<u8>) -> Result<(), ConfigError> {
    if !(1 <= relay <= pins.len()) {
        Err(ConfigError::RelayIndexOutOfRange)
    } else if !gpio.get_ok(pins[relay - 1]) {
        Err(ConfigError::Gpio(GpioError { pin: pins[relay - 1] }))
    } else {
        Ok(())
    }
}

/// Outcome of building one door: its relays are wired in order (the toggle
/// relay, or open, then close, then stop), and the first failure decides.
pub open spec fn spec_door_build<G: Gpio>(gpio: G, dc: DoorConfig, pins: Seq<u8>) -> Result<(), ConfigError> {
    match dc {
        DoorConfig::ToggleButton { relay, .. } => spec_relay_get(gpio, relay as int, pins),
        DoorConfig::DiscreteButtons { open_relay, close_relay, stop_relay, .. } => {
            match spec_relay_get(gpio, open_relay as int, pins) {
                Err(e) => Err(e),
                Ok(_) => match spec_relay_get(gpio, close_relay as int, pins) {
                    Err(e) => Err(e),
                    Ok(_) => match stop_relay {
                        None => Ok(()),
                        Some(sr) => spec_relay_get(gpio, sr as int, pins),
                    },
                },
            }
        },
    }
}

/// Outcome of building every door, in configured order; the first failing
/// door decides.
pub open spec fn spec_doors_build<G: Gpio>(gpio: G, doors: Seq<DoorConfig>, pins: Seq<u8>) -> Result<
    (),
    ConfigError,
>
    decreases doors.len(),
{
    if doors.len() == 0 {
        Ok(())
    } else {
        match spec_door_build(gpio, doors.first(), pins) {
            Err(e) => Err(e),
            Ok(_) => spec_doors_build(gpio, doors.drop_first(), pins),
        }
    }
}

proof fn lemma_doors_build_skip<G: Gpio>(gpio: G, doors: Seq<DoorConfig>, pins: Seq<u8>, i: int)
    requires
        0 <= i <= doors.len(),
        forall|j: int| 0 <= j < i ==> #[trigger] spec_door_build(gpio, doors[j], pins) is Ok,
    ensures
        spec_doors_build(gpio, doors, pins) == spec_doors_build(gpio, doors.skip(i), pins),
    decreases i,
{
    if i == 0 {
        assert(doors.skip(0) =~= doors);
    } else {
        assert(doors.first() == doors[0]);
        lemma_doors_build_skip(gpio, doors.drop_first(), pins, i - 1);
        assert forall|j: int| 0 <= j < i - 1 implies #[trigger] spec_door_build(
            gpio,
            doors.drop_first()[j],
            pins,
        ) is Ok by {
            assert(doors.drop_first()[j] == doors[j + 1]);
        }
        assert(doors.drop_first().skip(i - 1) =~= doors.skip(i));
    }
}

impl<P: GpioPin> Garage<P> {
    /// Builds the local door set: one door per door configuration, wired to
    /// freshly acquired pins. Succeeds exactly when every configured relay
    /// index lands in the pin list and every selected pin can be acquired;
    /// the first failure, in door order, is reported.
    pub fn new<G: Gpio<Pin = P>>(gpio: &G, config: &GarageConfig, pins: &Vec<u8>) -> (r: Result<
        Garage<P>,
        ConfigError,
    >)
        ensures
            r is Ok <==> spec_doors_build(*gpio, config.doors@, pins@) is Ok,
            r matches Err(e) ==> spec_doors_build(*gpio, config.doors@, pins@) == Err::<(), ConfigError>(e),
            r matches Ok(g) ==> {
                &&& g.doors@.len() == config.doors@.len()
                &&& forall|i: int|
                    0 <= i < config.doors@.len() ==> #[trigger] local_door_built(
                        g.doors@[i],
                        config.doors@[i],
                        pins@,
                    )
            },
    {
        let mut doors: Vec<Door<P>> = Vec::new();
        let mut idx: usize = 0;
        while idx < config.doors.len()
            invariant
                0 <= idx <= config.doors@.len(),
                doors@.len() == idx,
                forall|i: int|
                    0 <= i < idx ==> #[trigger] local_door_built(doors@[i], config.doors@[i], pins@),
                forall|i: int|
                    0 <= i < idx ==> #[trigger] spec_door_build(*gpio, config.doors@[i], pins@) is Ok,
            decreases config.doors@.len() - idx,
        {
            let dc = &config.doors[idx];
            match dc {
                DoorConfig::ToggleButton { name, relay } => {
                    if *relay < 1 || *relay > pins.len() {
                        proof {
                            lemma_doors_build_skip(*gpio, config.doors@, pins@, idx as int);
                            assert(config.doors@.skip(idx as int).first() == config.doors@[idx as int]);
                        }
                        return Err(ConfigError::RelayIndexOutOfRange);
                    }
                    let pin_no = pins[*relay - 1];
                    match gpio.get(pin_no) {
                        Ok(pin) => {
                            doors.push(
                                Door {
                                    name: name.clone(),
                                    host: None,
                                    control: DoorControl::Toggle { button: Button::Gpio { pin } },
                                },
                            );
                        },
                        Err(e) => {
                            proof {
                                lemma_doors_build_skip(*gpio, config.doors@, pins@, idx as int);
                                assert(config.doors@.skip(idx as int).first() == config.doors@[idx as int]);
                            }
                            return Err(ConfigError::Gpio(e));
                        },
                    }
                },
                DoorConfig::DiscreteButtons { name, open_relay, close_relay, stop_relay } => {
                    proof {
                        lemma_doors_build_skip(*gpio, config.doors@, pins@, idx as int);
                        assert(config.doors@.skip(idx as int).first() == config.doors@[idx as int]);
                    }
                    if *open_relay < 1 || *open_relay > pins.len() {
                        return Err(ConfigError::RelayIndexOutOfRange);
                    }
                    let open_pin = match gpio.get(pins[*open_relay - 1]) {
                        Ok(p) => p,
                        Err(e) => {
                            return Err(ConfigError::Gpio(e));
                        },
                    };
                    if *close_relay < 1 || *close_relay > pins.len() {
                        return Err(ConfigError::RelayIndexOutOfRange);
                    }
                    let close_pin = match gpio.get(pins[*close_relay - 1]) {
                        Ok(p) => p,
                        Err(e) => {
                            return Err(ConfigError::Gpio(e));
                        },
                    };
                    let stop_button: Option<Button<P>> = match stop_relay {
                        None => None,
                        Some(sr) => {
                            if *sr < 1 || *sr > pins.len() {
                                return Err(ConfigError::RelayIndexOutOfRange);
                            }
                            match gpio.get(pins[*sr - 1]) {
                                Ok(p) => Some(Button::Gpio { pin: p }),
                                Err(e) => {
                                    return Err(ConfigError::Gpio(e));
                                },
                            }
                        },
                    };
                    doors.push(
                        Door {
                            name: name.clone(),
                            host: None,
                            control: DoorControl::Discrete {
                                open_button: Button::Gpio { pin: open_pin },
                                close_button: Button::Gpio { pin: close_pin },
                                stop_button,
                            },
                        },
                    );
                },
            }
            idx += 1;
        }
        proof {
            lemma_doors_build_skip(*gpio, config.doors@, pins@, idx as int);
        }
        Ok(Garage { doors })
    }
}

/// A failed door action lookup: the index names no door, or the door's kind
/// does not support the action (open or close on a toggle door, stop on a
/// discrete door with no stop relay, and the like).
#[derive(Debug, Clone, Copy, PartialEq, Eq, Structural)]
pub enum LookupError {
    NoSuchDoor,
    UnsupportedAction,
}

/// The button a door control exposes for an action, or None when the door's
/// kind does not support the action.
pub open spec fn spec_control_button<P: GpioPin>(c: DoorControl<P>, action: DoorAction) -> Option<
    Button<P>,
> {
    match (c, action) {
        (DoorControl::Toggle { button }, DoorAction::Toggle) => Some(button),
        (DoorControl::Discrete { open_button, .. }, DoorAction::Open) => Some(open_button),
        (DoorControl::Discrete { close_button, .. }, DoorAction::Close) => Some(close_button),
        (DoorControl::Discrete { stop_button: Some(b), .. }, DoorAction::Stop) => Some(b),
        _ => None,
    }
}

/// The button that door `id` exposes for an action: fails when the index
/// names no door or the door does not support the action.
pub open spec fn spec_button<P: GpioPin>(g: Garage<P>, id: int, action: DoorAction) -> Result<
    Button<P>,
    LookupError,
> {
    if !(0 <= id < g.doors@.len()) {
        Err(LookupError::NoSuchDoor)
    } else {
        match spec_control_button(g.doors@[id].control, action) {
            Some(b) => Ok(b),
            None => Err(LookupError::UnsupportedAction),
        }
    }
}

/// `b1` is `b0` after its pin was driven to `level`: both are local buttons
/// on the same pin, and exactly that level was appended to the pin's
/// history.
pub open spec fn button_stepped<P: GpioPin>(b0: Button<P>, b1: Button<P>, level: bool) -> bool {
    &&& b0 matches Button::Gpio { pin: p0 }
    &&& b1 matches Button::Gpio { pin: p1 }
    &&& p1.pin_id() == p0.pin_id()
    &&& p1.history() == p0.history().push(level)
}

/// `c1` is `c0` after the button the action selects was driven to `level`,
/// and no other button of the door was touched.
pub open spec fn control_stepped<P: GpioPin>(
    c0: DoorControl<P>,
    c1: DoorControl<P>,
    action: DoorAction,
    level: bool,
) -> bool {
    match action {
        DoorAction::Toggle => {
            &&& c0 matches DoorControl::Toggle { button: b0 }
            &&& c1 matches DoorControl::Toggle { button: b1 }
            &&& button_stepped(b0, b1, level)
        },
        DoorAction::Open => {
            &&& c0 matches DoorControl::Discrete {
                open_button: o0,
                close_button: cl0,
                stop_button: s0,
            }
            &&& c1 matches DoorControl::Discrete {
                open_button: o1,
                close_button: cl1,
                stop_button: s1,
            }
            &&& button_stepped(o0, o1, level)
            &&& cl1 == cl0
            &&& s1 == s0
        },
        DoorAction::Close => {
            &&& c0 matches DoorControl::Discrete {
                open_button: o0,
                close_button: cl0,
                stop_button: s0,
            }
            &&& c1 matches DoorControl::Discrete {
                open_button: o1,
                close_button: cl1,
                stop_button: s1,
            }
            &&& button_stepped(cl0, cl1, level)
            &&& o1 == o0
            &&& s1 == s0
        },
        DoorAction::Stop => {
            &&& c0 matches DoorControl::Discrete {
                open_button: o0,
                close_button: cl0,
                stop_button: s0,
            }
            &&& c1 matches DoorControl::Discrete {
                open_button: o1,
                close_button: cl1,
                stop_button: s1,
            }
            &&& s0 matches Some(sb0)
            &&& s1 matches Some(sb1)
            &&& button_stepped(sb0, sb1, level)
            &&& o1 == o0
            &&& cl1 == cl0
        },
    }
}

/// `g1` is `g0` after the button that `(id, action)` selects was driven to
/// `level`: every other door is untouched, and within door `id` only the
/// selected button's pin changed.
pub open spec fn garage_stepped<P: GpioPin>(
    g0: Garage<P>,
    g1: Garage<P>,
    id: int,
    action: DoorAction,
    level: bool,
) -> bool {
    &&& 0 <= id < g0.doors@.len()
    &&& g1.doors@.len() == g0.doors@.len()
    &&& forall|j: int| 0 <= j < g0.doors@.len() && j != id ==> g1.doors@[j] == g0.doors@[j]
    &&& g1.doors@[id].name == g0.doors@[id].name
    &&& g1.doors@[id].host == g0.doors@[id].host
    &&& control_stepped(g0.doors@[id].control, g1.doors@[id].control, action, level)
}

fn step_button_value<P: GpioPin>(b: Button<P>, level: bool) -> (r: Button<P>)
    ensures
        b matches Button::Gpio { .. } ==> button_stepped(b, r, level),
        b matches Button::Remote { .. } ==> r == b,
{
    match b {
        Button::Gpio { mut pin } => {
            if level {
                pin.set_high();
            } else {
                pin.set_low();
            }
            Button::Gpio { pin }
        },
        Button::Remote { host, door_index, action } => Button::Remote { host, door_index, action },
    }
}

fn step_control_value<P: GpioPin>(c: DoorControl<P>, action: DoorAction, level: bool) -> (r: (
    DoorControl<P>,
    bool,
))
    ensures
        r.1 <==> spec_control_button(c, action) is Some,
        spec_control_button(c, action) matches Some(b) ==> match b {
            Button::Gpio { .. } => control_stepped(c, r.0, action, level),
            Button::Remote { .. } => r.0 == c,
        },
        !r.1 ==> r.0 == c,
{
    match (c, action) {
        (DoorControl::Toggle { button }, DoorAction::Toggle) => {
            let button = step_button_value(button, level);
            (DoorControl::Toggle { button }, true)
        },
        (DoorControl::Discrete { open_button, close_button, stop_button }, DoorAction::Open) => {
            let open_button = step_button_value(open_button, level);
            (DoorControl::Discrete { open_button, close_button, stop_button }, true)
        },
        (DoorControl::Discrete { open_button, close_button, stop_button }, DoorAction::Close) => {
            let close_button = step_button_value(close_button, level);
            (DoorControl::Discrete { open_button, close_button, stop_button }, true)
        },
        (
            DoorControl::Discrete { open_button, close_button, stop_button: Some(sb) },
            DoorAction::Stop,
        ) => {
            let sb = step_button_value(sb, level);
            (DoorControl::Discrete { open_button, close_button, stop_button: Some(sb) }, true)
        },
        (other, _) => (other, false),
    }
}

impl<P: GpioPin> Garage<P> {
    /// The button that door `id` exposes for the action: the lookup half of
    /// dispatching a door operation. Fails exactly when the index names no
    /// door or the door's kind does not support the action.
    pub fn button(&self, id: usize, action: DoorAction) -> (r: Result<&Button<P>, LookupError>)
        ensures
            match spec_button(*self, id as int, action) {
                Ok(b) => r matches Ok(br) && *br == b,
                Err(e) => r matches Err(e2) && e2 == e,
            },
    {
        if id >= self.doors.len() {
            return Err(LookupError::NoSuchDoor);
        }
        let door = &self.doors[id];
        match (&door.control, action) {
            (DoorControl::Toggle { button }, DoorAction::Toggle) => Ok(button),
            (DoorControl::Discrete { open_button, .. }, DoorAction::Open) => Ok(open_button),
            (DoorControl::Discrete { close_button, .. }, DoorAction::Close) => Ok(close_button),
            (DoorControl::Discrete { stop_button: Some(b), .. }, DoorAction::Stop) => Ok(b),
            _ => Err(LookupError::UnsupportedAction),
        }
    }

    fn apply_level(&mut self, id: usize, action: DoorAction, level: bool) -> (r: Result<
        (),
        LookupError,
    >)
        ensures
            r is Ok <==> spec_button(*old(self), id as int, action) is Ok,
            r matches Err(e) ==> spec_button(*old(self), id as int, action) == Err::<
                Button<P>,
                LookupError,
            >(e) && final(self).doors@ == old(self).doors@,
            spec_button(*old(self), id as int, action) matches Ok(b) ==> match b {
                Button::Gpio { .. } => garage_stepped(
                    *old(self),
                    *final(self),
                    id as int,
                    action,
                    level,
                ),
                Button::Remote { .. } => final(self).doors@ == old(self).doors@,
            },
    {
        if id >= self.doors.len() {
            return Err(LookupError::NoSuchDoor);
        }
        let door = self.doors.remove(id);
        let Door { name, host, control } = door;
        let (control, ok) = step_control_value(control, action, level);
        let door = Door { name, host, control };
        self.doors.insert(id, door);
        proof {
            assert(self.doors@ =~= old(self).doors@.update(id as int, self.doors@[id as int]));
            if !ok {
                assert(self.doors@ =~= old(self).doors@);
            }
        }
        if ok {
            Ok(())
        } else {
            Err(LookupError::UnsupportedAction)
        }
    }

    /// Drives the pin of the button that `(id, action)` selects high — the
    /// start of a pulse. Touches no other pin; a remote button's garage is
    /// left unchanged, its press being the embedding program's request to
    /// the peer. Fails exactly when the lookup fails.
    pub fn press_button(&mut self, id: usize, action: DoorAction) -> (r: Result<(), LookupError>)
        ensures
            r is Ok <==> spec_button(*old(self), id as int, action) is Ok,
            r matches Err(e) ==> spec_button(*old(self), id as int, action) == Err::<
                Button<P>,
                LookupError,
            >(e) && final(self).doors@ == old(self).doors@,
            spec_button(*old(self), id as int, action) matches Ok(b) ==> match b {
                Button::Gpio { .. } => garage_stepped(
                    *old(self),
                    *final(self),
                    id as int,
                    action,
                    true,
                ),
                Button::Remote { .. } => final(self).doors@ == old(self).doors@,
            },
    {
        self.apply_level(id, action, true)
    }

    /// Drives the pin of the button that `(id, action)` selects low — the
    /// end of a pulse. The counterpart of `press_button`, with the same
    /// frame: no other pin is touched.
    pub fn release_button(&mut self, id: usize, action: DoorAction) -> (r: Result<(), LookupError>)
        ensures
            r is Ok <==> spec_button(*old(self), id as int, action) is Ok,
            r matches Err(e) ==> spec_button(*old(self), id as int, action) == Err::<
                Button<P>,
                LookupError,
            >(e) && final(self).doors@ == old(self).doors@,
            spec_button(*old(self), id as int, action) matches Ok(b) ==> match b {
                Button::Gpio { .. } => garage_stepped(
                    *old(self),
                    *final(self),
                    id as int,
                    action,
                    false,
                ),
                Button::Remote { .. } => final(self).doors@ == old(self).doors@,
            },
    {
        self.apply_level(id, action, false)
    }
}

/// The history of the pin behind the button the action selects, when that
/// button is local; the empty sequence otherwise.
pub open spec fn spec_selected_history<P: GpioPin>(c: DoorControl<P>, action: DoorAction) -> Seq<
    bool,
> {
    match spec_control_button(c, action) {
        Some(Button::Gpio { pin }) => pin.history(),
        _ => Seq::empty(),
    }
}

/// The buttons the action does not select are identical in `c0` and `c1`.
pub open spec fn other_buttons_equal<P: GpioPin>(
    c0: DoorControl<P>,
    c1: DoorControl<P>,
    action: DoorAction,
) -> bool {
    match action {
        DoorAction::Toggle => c0 matches DoorControl::Toggle { .. } && c1 matches DoorControl::Toggle { .. },
        DoorAction::Open => {
            &&& c0 matches DoorControl::Discrete { close_button: cl0, stop_button: s0, .. }
            &&& c1 matches DoorControl::Discrete { close_button: cl1, stop_button: s1, .. }
            &&& cl1 == cl0
            &&& s1 == s0
        },
        DoorAction::Close => {
            &&& c0 matches DoorControl::Discrete { open_button: o0, stop_button: s0, .. }
            &&& c1 matches DoorControl::Discrete { open_button: o1, stop_button: s1, .. }
            &&& o1 == o0
            &&& s1 == s0
        },
        DoorAction::Stop => {
            &&& c0 matches DoorControl::Discrete { open_button: o0, close_button: cl0, .. }
            &&& c1 matches DoorControl::Discrete { open_button: o1, close_button: cl1, .. }
            &&& o1 == o0
            &&& cl1 == cl0
        },
    }
}

proof fn lemma_control_step_history<P: GpioPin>(
    c0: DoorControl<P>,
    c1: DoorControl<P>,
    action: DoorAction,
    level: bool,
)
    requires
        control_stepped(c0, c1, action, level),
    ensures
        spec_selected_history(c1, action) == spec_selected_history(c0, action).push(level),
        other_buttons_equal(c0, c1, action),
{
}

/// Law: a completed pulse — a press followed by its release — drives the
/// selected door's one relay exactly high then low. Every other door is
/// untouched, and within the door only the selected button's pin changes:
/// opening a discrete door never touches its close or stop relay.
pub proof fn lemma_pulse_high_then_low<P: GpioPin>(
    g0: Garage<P>,
    g1: Garage<P>,
    g2: Garage<P>,
    id: int,
    action: DoorAction,
)
    requires
        garage_stepped(g0, g1, id, action, true),
        garage_stepped(g1, g2, id, action, false),
    ensures
        g2.doors@.len() == g0.doors@.len(),
        forall|j: int| 0 <= j < g0.doors@.len() && j != id ==> g2.doors@[j] == g0.doors@[j],
        g2.doors@[id].name == g0.doors@[id].name,
        g2.doors@[id].host == g0.doors@[id].host,
        other_buttons_equal(g0.doors@[id].control, g2.doors@[id].control, action),
        spec_selected_history(g2.doors@[id].control, action) == spec_selected_history(
            g0.doors@[id].control,
            action,
        ) + seq![true, false],
{
    lemma_control_step_history(g0.doors@[id].control, g1.doors@[id].control, action, true);
    lemma_control_step_history(g1.doors@[id].control, g2.doors@[id].control, action, false);
    assert(spec_selected_history(g0.doors@[id].control, action).push(true).push(false)
        =~= spec_selected_history(g0.doors@[id].control, action) + seq![true, false]);
}

/// Law: pulses on one button never interleave. Two pulses completed one
/// after the other leave the pin's history extended by exactly high, low,
/// high, low — the second pulse's high comes strictly after the first
/// pulse's low, so the relay is never driven high twice without an
/// intervening low.
pub proof fn lemma_pulses_serialize<P: GpioPin>(
    g0: Garage<P>,
    g1: Garage<P>,
    g2: Garage<P>,
    g3: Garage<P>,
    g4: Garage<P>,
    id: int,
    action: DoorAction,
)
    requires
        garage_stepped(g0, g1, id, action, true),
        garage_stepped(g1, g2, id, action, false),
        garage_stepped(g2, g3, id, action, true),
        garage_stepped(g3, g4, id, action, false),
    ensures
        g4.doors@.len() == g0.doors@.len(),
        forall|j: int| 0 <= j < g0.doors@.len() && j != id ==> g4.doors@[j] == g0.doors@[j],
        spec_selected_history(g4.doors@[id].control, action) == spec_selected_history(
            g0.doors@[id].control,
            action,
        ) + seq![true, false, true, false],
{
    lemma_pulse_high_then_low(g0, g1, g2, id, action);
    lemma_pulse_high_then_low(g2, g3, g4, id, action);
    assert((spec_selected_history(g0.doors@[id].control, action) + seq![true, false]) + seq![
        true,
        false,
    ] =~= spec_selected_history(g0.doors@[id].control, action) + seq![true, false, true, false]);
}

/// The pin list the relay configuration stands for: a board model's fixed
/// list, or an explicit pin list taken as given. None for an unrecognized
/// board model.
pub open spec fn spec_resolved_pins(relays: RelayConfig) -> Option<Seq<u8>> {
    match relays {
        RelayConfig::BoardBased { board } => spec_board_pins(board@),
        RelayConfig::PinBased { pins } => Some(pins@),
    }
}

/// Outcome of garage construction from a configuration: the board model must
/// be known, at least one door must be configured, the doors' total relay
/// slots must not exceed the pin count, and every door must build.
pub open spec fn spec_create_garage<G: Gpio>(gpio: G, config: GarageConfig) -> Result<
    (),
    ConfigError,
> {
    match spec_resolved_pins(config.relays) {
        None => Err(ConfigError::UnknownBoard),
        Some(pins) => if config.doors@.len() == 0 {
            Err(ConfigError::NoDoors)
        } else if total_relay_count(config.doors@) > pins.len() {
            Err(ConfigError::RelayOverflow)
        } else {
            spec_doors_build(gpio, config.doors@, pins)
        },
    }
}

fn clone_pins(pins: &Vec<u8>) -> (r: Vec<u8>)
    ensures
        r@ == pins@,
{
    let mut out: Vec<u8> = Vec::new();
    let mut i: usize = 0;
    while i < pins.len()
        invariant
            i <= pins@.len(),
            out@.len() == i,
            forall|j: int| 0 <= j < i ==> out@[j] == pins@[j],
        decreases pins@.len() - i,
    {
        out.push(pins[i]);
        i += 1;
    }
    proof {
        assert(out@ =~= pins@);
    }
    out
}

/// Builds the local garage from a configuration: resolves the pin list,
/// validates the configuration, and wires every configured door. Fails, in
/// this order, on an unrecognized board model, an empty door list, more
/// required relay slots than resolved pins, and the first door that cannot
/// be wired — all before any pin is driven.
pub fn create_garage<G: Gpio>(gpio: &G, config: &GarageConfig) -> (r: Result<
    Garage<G::Pin>,
    ConfigError,
>)
    ensures
        r is Ok <==> spec_create_garage(*gpio, *config) is Ok,
        r matches Err(e) ==> spec_create_garage(*gpio, *config) == Err::<(), ConfigError>(e),
        r matches Ok(g) ==> {
            &&& spec_resolved_pins(config.relays) matches Some(rpins)
            &&& g.doors@.len() == config.doors@.len()
            &&& forall|i: int|
                0 <= i < config.doors@.len() ==> #[trigger] local_door_built(
                    g.doors@[i],
                    config.doors@[i],
                    rpins,
                )
        },
{
    let pins: Vec<u8> = match &config.relays {
        RelayConfig::BoardBased { board } => match pins_for_board(board.as_str()) {
            Some(p) => p,
            None => {
                return Err(ConfigError::UnknownBoard);
            },
        },
        RelayConfig::PinBased { pins } => clone_pins(pins),
    };
    if config.doors.len() == 0 {
        return Err(ConfigError::NoDoors);
    }
    let mut count: u128 = 0;
    let mut i: usize = 0;
    while i < config.doors.len()
        invariant
            i <= config.doors@.len(),
            count == total_relay_count(config.doors@.take(i as int)),
            count <= 3 * i,
        decreases config.doors@.len() - i,
    {
        let rc = config.doors[i].relay_count();
        proof {
            assert(config.doors@.take(i + 1).drop_last() =~= config.doors@.take(i as int));
            assert(config.doors@.take(i + 1).last() == config.doors@[i as int]);
        }
        count = count + (rc as u128);
        i += 1;
    }
    proof {
        assert(config.doors@.take(config.doors@.len() as int) =~= config.doors@);
    }
    if count > pins.len() as u128 {
        return Err(ConfigError::RelayOverflow);
    }
    Garage::new(gpio, config, &pins)
}

} // verus!
