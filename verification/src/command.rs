//! The commands that a plug understands, and the JSON text of each.
//!
//! A command is addressed to an action of a module and carries at most one
//! numeric parameter: `{"system":{"set_relay_state":{"state":1}}}`. The names
//! are those of the protocol's vocabulary and no others; none of them needs
//! escaping.
use crate::state::{LedState, PowerState};
use vstd::prelude::*;
use vstd::string::StringExecFns;
use vstd::utf8::is_ascii_chars;

verus! {

/// One request to the plug.
#[derive(Debug, Clone, Copy, PartialEq, Eq, Structural)]
pub enum Command {
    /// `system.get_sysinfo`: the device's identity and state.
    Info,
    /// `system.set_led_off`: switch the LED to the given state.
    SetLedState(LedState),
    /// `system.set_relay_state`: switch the relay to the given state.
    SetPowerState(PowerState),
    /// `cnCloud.get_info`: the binding to the vendor's cloud.
    CloudInfo,
    /// `netif.get_scaninfo`: the Wi-Fi access points in sight, after a fresh
    /// scan if `refresh` is set.
    ApList { refresh: bool },
    /// `emeter.get_realtime`: the readings of the energy meter.
    Emeter,
    /// `system.reboot`: reboot after `delay` seconds, at once if `None`.
    Reboot { delay: Option<u32> },
    /// `system.reset`: reset to factory settings after `delay` seconds, at
    /// once if `None`.
    FactoryReset { delay: Option<u32> },
}

/// The decimal digit `d`, for `d` below ten.
pub open spec fn digit(d: nat) -> char {
    (0x30 + d) as char
}

/// `n` in decimal notation, without leading zeros.
pub open spec fn decimal(n: nat) -> Seq<char>
    decreases n,
{
    if n < 10 {
        seq![digit(n)]
    } else {
        decimal(n / 10).push(digit(n % 10))
    }
}

/// The number that a sequence of decimal digits denotes.
pub open spec fn denoted(digits: Seq<char>) -> nat
    decreases digits.len(),
{
    if digits.len() == 0 {
        0
    } else {
        (denoted(digits.drop_last()) * 10 + (digits.last() as int - 0x30)) as nat
    }
}

/// The decimal notation of a number is made of digits, starts with a zero
/// only where the number is zero, and denotes the number.
pub proof fn lemma_decimal_denotes(n: nat)
    ensures
        decimal(n).len() >= 1,
        forall|i: int| 0 <= i < decimal(n).len() ==> '0' <= #[trigger] decimal(n)[i] <= '9',
        decimal(n)[0] == '0' <==> n == 0,
        denoted(decimal(n)) == n,
    decreases n,
{
    if n < 10 {
        assert(decimal(n).drop_last() =~= Seq::<char>::empty());
        assert(denoted(decimal(n).drop_last()) == 0);
    } else {
        lemma_decimal_denotes(n / 10);
        assert(decimal(n).drop_last() =~= decimal(n / 10));
    }
}

/// Ten to the power of `k`.
pub open spec fn power_of_ten(k: nat) -> nat
    decreases k,
{
    if k == 0 {
        1
    } else {
        10 * power_of_ten((k - 1) as nat)
    }
}

/// A number below ten to the power of `k` has at most `k` digits.
pub proof fn lemma_decimal_len(n: nat, k: nat)
    requires
        k >= 1,
        n < power_of_ten(k),
    ensures
        decimal(n).len() <= k,
    decreases k,
{
    reveal_with_fuel(power_of_ten, 2);
    if n >= 10 {
        lemma_decimal_len(n / 10, (k - 1) as nat);
    }
}

/// A parameter as a mathematical value.
pub open spec fn parameter_view(parameter: Option<(&'static str, u32)>) -> Option<
    (Seq<char>, nat),
> {
    match parameter {
        None => None,
        Some((name, value)) => Some((name@, value as nat)),
    }
}

/// The number that stands for a flag on the wire: 1 if set, 0 if not.
pub open spec fn flag(set: bool) -> u32 {
    if set {
        1
    } else {
        0
    }
}

/// Appends `n` in decimal notation to `text`.
pub fn push_decimal(text: &mut String, n: u32)
    ensures
        final(text)@ == old(text)@ + decimal(n as nat),
    decreases n,
{
    if n >= 10 {
        push_decimal(text, n / 10);
    }
    let d: u8 = (n % 10) as u8;
    text.push((0x30u8 + d) as char);
    proof {
        assert(text@ =~= old(text)@ + decimal(n as nat));
    }
}

/// Whether `name` is made of ASCII letters and underscores only, so that it
/// stands between quotes in JSON as it is, with nothing to escape.
pub open spec fn is_plain_name(name: Seq<char>) -> bool {
    forall|i: int|
        0 <= i < name.len() ==> {
            let c = #[trigger] name[i];
            'a' <= c <= 'z' || 'A' <= c <= 'Z' || c == '_'
        }
}

/// Joining two texts of ASCII characters gives a text of ASCII characters.
pub proof fn lemma_ascii_joined(a: Seq<char>, b: Seq<char>)
    requires
        is_ascii_chars(a),
        is_ascii_chars(b),
    ensures
        is_ascii_chars(a + b),
{
    assert forall|i: int| 0 <= i < (a + b).len() implies '\0' <= #[trigger] (a + b)[i]
        <= '\u{7f}' by {
        if i < a.len() {
            assert((a + b)[i] == a[i]);
        } else {
            assert((a + b)[i] == b[i - a.len()]);
        }
    }
}

/// The names in every command are made of letters and underscores, so that
/// none of them needs escaping; and the text of every command is made of ASCII
/// characters and is at most 64 characters long, so that its frame declares
/// its true length.
pub proof fn lemma_command_json_is_plain(command: Command)
    ensures
        is_plain_name(command.module_name()),
        is_plain_name(command.action_name()),
        command.parameter_value() matches Some((name, _)) ==> is_plain_name(name),
        is_ascii_chars(command.json()),
        command.json().len() <= 64,
{
    reveal_strlit("{\"");
    reveal_strlit("\":{\"");
    reveal_strlit("\":{");
    reveal_strlit("}}}");
    reveal_strlit("\"");
    reveal_strlit("\":");
    reveal_strlit("system");
    reveal_strlit("cnCloud");
    reveal_strlit("netif");
    reveal_strlit("emeter");
    reveal_strlit("get_sysinfo");
    reveal_strlit("set_led_off");
    reveal_strlit("set_relay_state");
    reveal_strlit("get_info");
    reveal_strlit("get_scaninfo");
    reveal_strlit("get_realtime");
    reveal_strlit("reboot");
    reveal_strlit("reset");
    reveal_strlit("off");
    reveal_strlit("state");
    reveal_strlit("refresh");
    reveal_strlit("delay");
    let module = command.module_name();
    let action = command.action_name();
    assert(is_plain_name(module) && module.len() <= 7);
    assert(is_plain_name(action) && action.len() <= 15);
    assert(is_ascii_chars(module));
    assert(is_ascii_chars(action));
    let parameter = command.parameter_text();
    assert(is_ascii_chars(parameter) && parameter.len() <= 20) by {
        match command.parameter_value() {
            None => {},
            Some((name, value)) => {
                assert(is_plain_name(name) && name.len() <= 7);
                assert(is_ascii_chars(name));
                assert(value <= u32::MAX);
                lemma_decimal_denotes(value);
                assert(power_of_ten(10) == 10_000_000_000nat) by {
                    reveal_with_fuel(power_of_ten, 11);
                }
                lemma_decimal_len(value, 10);
                lemma_ascii_joined("\""@, name);
                lemma_ascii_joined("\""@ + name, "\":"@);
                lemma_ascii_joined("\""@ + name + "\":"@, decimal(value));
            },
        }
    }
    lemma_ascii_joined("{\""@, module);
    lemma_ascii_joined("{\""@ + module, "\":{\""@);
    lemma_ascii_joined("{\""@ + module + "\":{\""@, action);
    lemma_ascii_joined("{\""@ + module + "\":{\""@ + action, "\":{"@);
    lemma_ascii_joined("{\""@ + module + "\":{\""@ + action + "\":{"@, parameter);
    lemma_ascii_joined(
        "{\""@ + module + "\":{\""@ + action + "\":{"@ + parameter,
        "}}}"@,
    );
}

impl Command {
    /// The module that the command addresses.
    pub open spec fn module_name(self) -> Seq<char> {
        match self {
            Command::CloudInfo => "cnCloud"@,
            Command::ApList { .. } => "netif"@,
            Command::Emeter => "emeter"@,
            _ => "system"@,
        }
    }

    /// The action that the command asks for.
    pub open spec fn action_name(self) -> Seq<char> {
        match self {
            Command::Info => "get_sysinfo"@,
            Command::SetLedState(_) => "set_led_off"@,
            Command::SetPowerState(_) => "set_relay_state"@,
            Command::CloudInfo => "get_info"@,
            Command::ApList { .. } => "get_scaninfo"@,
            Command::Emeter => "get_realtime"@,
            Command::Reboot { .. } => "reboot"@,
            Command::FactoryReset { .. } => "reset"@,
        }
    }

    /// The parameter that the command carries. Flags travel as 0 or 1; the
    /// LED's flag says "off", so it is set when the LED is to be dark. A
    /// missing delay is a delay of zero seconds.
    pub open spec fn parameter_value(self) -> Option<(Seq<char>, nat)> {
        match self {
            Command::Info | Command::CloudInfo | Command::Emeter => None,
            Command::SetLedState(led) => Some(("off"@, led.led_off() as nat)),
            Command::SetPowerState(power) => Some(("state"@, power.relay_state() as nat)),
            Command::ApList { refresh } => Some(("refresh"@, flag(refresh) as nat)),
            Command::Reboot { delay } | Command::FactoryReset { delay } => Some(
                (
                    "delay"@,
                    match delay {
                        Some(seconds) => seconds as nat,
                        None => 0,
                    },
                ),
            ),
        }
    }

    /// The members of the parameter object: nothing, or the parameter's name
    /// between quotes, a colon and its number in decimal notation.
    pub open spec fn parameter_text(self) -> Seq<char> {
        match self.parameter_value() {
            None => Seq::empty(),
            Some((name, value)) => "\""@ + name + "\":"@ + decimal(value),
        }
    }

    /// The JSON text of the command: the parameter object under the action,
    /// the action under the module, without any white space.
    pub open spec fn json(self) -> Seq<char> {
        "{\""@ + self.module_name() + "\":{\""@ + self.action_name() + "\":{"@
            + self.parameter_text() + "}}}"@
    }

    /// The module that the command addresses.
    pub fn module(&self) -> (name: &'static str)
        ensures
            name@ == self.module_name(),
    {
        match self {
            Command::CloudInfo => "cnCloud",
            Command::ApList { .. } => "netif",
            Command::Emeter => "emeter",
            _ => "system",
        }
    }

    /// The action that the command asks for.
    pub fn action(&self) -> (name: &'static str)
        ensures
            name@ == self.action_name(),
    {
        match self {
            Command::Info => "get_sysinfo",
            Command::SetLedState(_) => "set_led_off",
            Command::SetPowerState(_) => "set_relay_state",
            Command::CloudInfo => "get_info",
            Command::ApList { .. } => "get_scaninfo",
            Command::Emeter => "get_realtime",
            Command::Reboot { .. } => "reboot",
            Command::FactoryReset { .. } => "reset",
        }
    }

    /// The parameter that the command carries, if any.
    pub fn parameter(&self) -> (parameter: Option<(&'static str, u32)>)
        ensures
            parameter_view(parameter) == self.parameter_value(),
    {
        match self {
            Command::Info | Command::CloudInfo | Command::Emeter => None,
            Command::SetLedState(led) => Some(("off", led.off_flag() as u32)),
            Command::SetPowerState(power) => Some(("state", power.relay_flag() as u32)),
            Command::ApList { refresh } => Some(("refresh", if *refresh { 1 } else { 0 })),
            Command::Reboot { delay } | Command::FactoryReset { delay } => Some(
                (
                    "delay",
                    match delay {
                        Some(seconds) => *seconds,
                        None => 0,
                    },
                ),
            ),
        }
    }

    /// Writes the command as compact JSON text.
    pub fn to_json(&self) -> (text: String)
        ensures
            text@ == self.json(),
    {
        let mut text = String::new();
        text.append("{\"");
        text.append(self.module());
        text.append("\":{\"");
        text.append(self.action());
        text.append("\":{");
        let ghost before = text@;
        match self.parameter() {
            None => {},
            Some((name, value)) => {
                text.append("\"");
                text.append(name);
                text.append("\":");
                push_decimal(&mut text, value);
            },
        }
        proof {
            assert(text@ =~= before + self.parameter_text());
        }
        text.append("}}}");
        proof {
            assert(text@ =~= self.json());
        }
        text
    }
}

} // verus!
