//! What a plug reports about itself: the state of its relay and of its LED,
//! and the revision of its hardware.
use crate::text::same_text;
use vstd::prelude::*;

verus! {

/// Smartplug's power relay state.
#[derive(Debug, Clone, Copy, PartialEq, Eq, Structural)]
pub enum PowerState {
    /// Power relay is ON, i.e. smartplug is powering its outlet.
    On,
    /// Power relay is OFF, i.e. there is no power on smartplug's outlet.
    Off,
}

/// Smartplug LED indicator state.
#[derive(Debug, Clone, Copy, PartialEq, Eq, Structural)]
pub enum LedState {
    /// LED light is ON.
    On,
    /// LED light is OFF.
    Off,
}

/// Smartplug hardware version (hardware revision).
#[derive(Debug)]
pub enum HwVersion {
    Version1,
    Version2,
    Unsupported(String),
}

/// A hardware version as a mathematical value.
pub enum HwVersionView {
    Version1,
    Version2,
    Unsupported(Seq<char>),
}

impl View for HwVersion {
    type V = HwVersionView;

    open spec fn view(&self) -> HwVersionView {
        match *self {
            HwVersion::Version1 => HwVersionView::Version1,
            HwVersion::Version2 => HwVersionView::Version2,
            HwVersion::Unsupported(raw) => HwVersionView::Unsupported(raw@),
        }
    }
}

/// The canonical rendering of a binary state.
pub open spec fn rendering(on: bool) -> Seq<char> {
    if on {
        seq!['O', 'N']
    } else {
        seq!['O', 'F', 'F']
    }
}

/// The hardware version that the `hw_ver` text of the system information
/// stands for.
pub open spec fn hw_version_of(hw_ver: Seq<char>) -> HwVersionView {
    if hw_ver == seq!['1', '.', '0'] {
        HwVersionView::Version1
    } else if hw_ver == seq!['2', '.', '0'] {
        HwVersionView::Version2
    } else {
        HwVersionView::Unsupported(hw_ver)
    }
}

impl PowerState {
    /// Whether the relay is on.
    pub open spec fn is_on(self) -> bool {
        self == PowerState::On
    }

    /// The state that the device means by the `relay_state` it reports: on for
    /// 1, off for every other number.
    pub open spec fn of_relay_state(relay_state: u64) -> PowerState {
        if relay_state == 1 {
            PowerState::On
        } else {
            PowerState::Off
        }
    }

    /// "ON" or "OFF".
    pub fn to_string(&self) -> (text: String)
        ensures
            text@ == rendering(self.is_on()),
    {
        match self {
            PowerState::On => {
                proof {
                    reveal_strlit("ON");
                }
                assert("ON"@ =~= rendering(true));
                "ON".to_owned()
            },
            PowerState::Off => {
                proof {
                    reveal_strlit("OFF");
                }
                assert("OFF"@ =~= rendering(false));
                "OFF".to_owned()
            },
        }
    }

    /// The `relay_state` that stands for this state on the wire: 1 for on, 0
    /// for off.
    pub open spec fn relay_state(self) -> u64 {
        if self.is_on() {
            1
        } else {
            0
        }
    }

    /// The `state` parameter of `set_relay_state` that asks for this state: 1
    /// for on, 0 for off.
    pub fn relay_flag(self) -> (flag: u8)
        ensures
            flag == self.relay_state(),
    {
        match self {
            PowerState::On => 1,
            PowerState::Off => 0,
        }
    }

    /// Reads the `relay_state` that the device reports.
    pub fn from_relay_state(relay_state: u64) -> (state: PowerState)
        ensures
            state == PowerState::of_relay_state(relay_state),
    {
        PowerState::from(relay_state == 1)
    }
}

impl LedState {
    /// Whether the LED is on.
    pub open spec fn is_on(self) -> bool {
        self == LedState::On
    }

    /// The state that the device means by the `led_off` it reports. The flag
    /// is inverted: 0 says that the LED is on, every other number that it is
    /// off.
    pub open spec fn of_led_off(led_off: u64) -> LedState {
        if led_off == 0 {
            LedState::On
        } else {
            LedState::Off
        }
    }

    /// "ON" or "OFF".
    pub fn to_string(&self) -> (text: String)
        ensures
            text@ == rendering(self.is_on()),
    {
        match self {
            LedState::On => {
                proof {
                    reveal_strlit("ON");
                }
                assert("ON"@ =~= rendering(true));
                "ON".to_owned()
            },
            LedState::Off => {
                proof {
                    reveal_strlit("OFF");
                }
                assert("OFF"@ =~= rendering(false));
                "OFF".to_owned()
            },
        }
    }

    /// The `led_off` that stands for this state on the wire. The flag is
    /// inverted: 1 for a LED that is off, 0 for one that is on.
    pub open spec fn led_off(self) -> u64 {
        if self.is_on() {
            0
        } else {
            1
        }
    }

    /// The `off` parameter of `set_led_off` that asks for this state. The flag
    /// is inverted: 1 turns the LED off, 0 turns it on.
    pub fn off_flag(self) -> (flag: u8)
        ensures
            flag == self.led_off(),
    {
        match self {
            LedState::On => 0,
            LedState::Off => 1,
        }
    }

    /// Reads the `led_off` that the device reports.
    pub fn from_led_off(led_off: u64) -> (state: LedState)
        ensures
            state == LedState::of_led_off(led_off),
    {
        LedState::from(led_off == 0)
    }
}

impl std::ops::Not for PowerState {
    type Output = PowerState;

    fn not(self) -> (flipped: PowerState) {
        match self {
            PowerState::On => PowerState::Off,
            PowerState::Off => PowerState::On,
        }
    }
}

impl vstd::std_specs::ops::NotSpecImpl for PowerState {
    open spec fn obeys_not_spec() -> bool {
        true
    }

    open spec fn not_req(self) -> bool {
        true
    }

    open spec fn not_spec(self) -> PowerState {
        if self.is_on() {
            PowerState::Off
        } else {
            PowerState::On
        }
    }
}

impl std::ops::Not for LedState {
    type Output = LedState;

    fn not(self) -> (flipped: LedState) {
        match self {
            LedState::On => LedState::Off,
            LedState::Off => LedState::On,
        }
    }
}

impl vstd::std_specs::ops::NotSpecImpl for LedState {
    open spec fn obeys_not_spec() -> bool {
        true
    }

    open spec fn not_req(self) -> bool {
        true
    }

    open spec fn not_spec(self) -> LedState {
        if self.is_on() {
            LedState::Off
        } else {
            LedState::On
        }
    }
}

impl From<bool> for PowerState {
    fn from(value: bool) -> (state: PowerState) {
        match value {
            true => PowerState::On,
            false => PowerState::Off,
        }
    }
}

impl vstd::std_specs::convert::FromSpecImpl<bool> for PowerState {
    open spec fn obeys_from_spec() -> bool {
        true
    }

    open spec fn from_spec(value: bool) -> PowerState {
        if value {
            PowerState::On
        } else {
            PowerState::Off
        }
    }
}

impl From<PowerState> for bool {
    fn from(value: PowerState) -> (on: bool) {
        match value {
            PowerState::On => true,
            PowerState::Off => false,
        }
    }
}

impl vstd::std_specs::convert::FromSpecImpl<PowerState> for bool {
    open spec fn obeys_from_spec() -> bool {
        true
    }

    open spec fn from_spec(value: PowerState) -> bool {
        value.is_on()
    }
}

impl From<bool> for LedState {
    fn from(value: bool) -> (state: LedState) {
        match value {
            true => LedState::On,
            false => LedState::Off,
        }
    }
}

impl vstd::std_specs::convert::FromSpecImpl<bool> for LedState {
    open spec fn obeys_from_spec() -> bool {
        true
    }

    open spec fn from_spec(value: bool) -> LedState {
        if value {
            LedState::On
        } else {
            LedState::Off
        }
    }
}

impl From<LedState> for bool {
    fn from(value: LedState) -> (on: bool) {
        match value {
            LedState::On => true,
            LedState::Off => false,
        }
    }
}

impl vstd::std_specs::convert::FromSpecImpl<LedState> for bool {
    open spec fn obeys_from_spec() -> bool {
        true
    }

    open spec fn from_spec(value: LedState) -> bool {
        value.is_on()
    }
}

/// A state and its boolean are two forms of one thing: turning a state into
/// its boolean and back gives the state, and the other way round; and
/// negating twice changes nothing.
pub proof fn lemma_states_are_booleans(power: PowerState, led: LedState, on: bool)
    ensures
        <PowerState as vstd::std_specs::convert::FromSpec<bool>>::from_spec(power.is_on())
            == power,
        <LedState as vstd::std_specs::convert::FromSpec<bool>>::from_spec(led.is_on()) == led,
        <PowerState as vstd::std_specs::convert::FromSpec<bool>>::from_spec(on).is_on() == on,
        <LedState as vstd::std_specs::convert::FromSpec<bool>>::from_spec(on).is_on() == on,
        vstd::std_specs::ops::NotSpec::not_spec(vstd::std_specs::ops::NotSpec::not_spec(power))
            == power,
        vstd::std_specs::ops::NotSpec::not_spec(vstd::std_specs::ops::NotSpec::not_spec(led))
            == led,
{
}

/// The flag that asks for a state is the flag that reports it: what is sent
/// to switch the relay or the LED reads back as the state that was asked for,
/// the LED's inversion included.
pub proof fn lemma_flags_read_back(power: PowerState, led: LedState)
    ensures
        PowerState::of_relay_state(power.relay_state()) == power,
        LedState::of_led_off(led.led_off()) == led,
        led.led_off() == 1 <==> !led.is_on(),
        power.relay_state() == 1 <==> power.is_on(),
{
}

impl HwVersion {
    /// Reads the `hw_ver` text of the system information: "1.0" is the first
    /// revision, "2.0" the second, and any other text is kept as it is.
    pub fn from_hw_ver(hw_ver: &str) -> (version: HwVersion)
        ensures
            version@ == hw_version_of(hw_ver@),
    {
        proof {
            reveal_strlit("1.0");
            reveal_strlit("2.0");
            assert("1.0"@ =~= seq!['1', '.', '0']);
            assert("2.0"@ =~= seq!['2', '.', '0']);
        }
        if same_text(hw_ver, "1.0") {
            HwVersion::Version1
        } else if same_text(hw_ver, "2.0") {
            HwVersion::Version2
        } else {
            HwVersion::Unsupported(hw_ver.to_owned())
        }
    }
}

} // verus!
