//! The handle of one plug: where it is, and one operation for each thing it
//! can be asked.
//!
//! The handle does no I/O. The caller sends the frame that
//! [`HS110::request`] makes of a [`Command`] to [`HS110::address`], collects
//! the reply (see [`crate::transport::Receiver`]) and hands the received bytes
//! to the operation that the command belongs to.
use crate::command::{lemma_command_json_is_plain, Command};
use crate::emeter::{reconcile, reconciled, Scale};
use crate::error::{json_outcome, outcome, text_outcome, ErrorView, TpLinkHs110Error};
use crate::frame::{decode_frame, encode_frame, framed, lemma_frame_roundtrip, unframed};
use crate::json::{json_tree, JsonTree};
use crate::response::{
    ap_list, ap_list_in, cloudinfo, cloudinfo_in, decode, document_in, emeter, emeter_in,
    hostname, hostname_in, hw_version, hw_version_in, hw_version_outcome, led_state,
    led_state_in, power_state, power_state_in, status, status_in,
};
use crate::state::{HwVersion, LedState, PowerState};
use crate::transport::{
    complete_address, is_address, is_valid_address, lemma_completed_address,
    lemma_completed_is_address, with_default_port,
};
use serde_json::Value;
use std::time::Duration;
use vstd::prelude::*;
use vstd::string::StringSliceAdditionalSpecFns;

verus! {

/// HS110 smartplug.
#[derive(Debug)]
pub struct HS110 {
    /// Smartplug network address, with its port.
    address: String,
    /// Optional timeout for network communication.
    timeout: Option<Duration>,
}

/// What the reply to a command that changes the plug reports: the outcome
/// under the command's module and action.
pub open spec fn status_reported(reply: Seq<u8>, module: Seq<char>, action: Seq<char>) -> Result<
    (),
    ErrorView,
> {
    match document_in(reply) {
        Err(e) => Err(e),
        Ok(response) => status_in(response, module, action),
    }
}

/// The meter readings that a received buffer holds, as the device sent them.
pub open spec fn readings_reported(reply: Seq<u8>) -> Result<JsonTree, ErrorView> {
    match document_in(reply) {
        Err(e) => Err(e),
        Ok(response) => emeter_in(response),
    }
}

/// The frame that is sent for a command decodes to the text of that command:
/// every request survives the round trip through its frame.
pub proof fn lemma_request_decodes_to_command(command: Command)
    ensures
        unframed(framed(vstd::utf8::encode_utf8(command.json()))) == Ok::<Seq<char>, ErrorView>(
            command.json(),
        ),
{
    lemma_command_json_is_plain(command);
    lemma_frame_roundtrip(command.json());
}

impl HS110 {
    /// The address of a handle is always a host with a port.
    #[verifier::type_invariant]
    spec fn names_a_port(&self) -> bool {
        self.address@.contains(':') && is_address(self.address@)
    }

    /// The network address of the plug.
    pub closed spec fn address_text(&self) -> Seq<char> {
        self.address@
    }

    /// The timeout for network communication, if one was set.
    pub closed spec fn timeout_set(&self) -> Option<Duration> {
        self.timeout
    }

    /// Attempts to create a handle for the plug at the given network address:
    /// a host, alone or followed by a colon and a port number. An address
    /// that names no port gets the default port 9999; no timeout is set. A
    /// text that is no address (see [`is_address`]) is refused with
    /// [`TpLinkHs110Error::AddrParse`], which carries the text.
    pub fn new(addr: &str) -> (r: Result<HS110, TpLinkHs110Error>)
        ensures
            match r {
                Ok(plug) => {
                    &&& is_address(addr@)
                    &&& plug.address_text() == with_default_port(addr@)
                    &&& plug.timeout_set() is None
                },
                Err(e) => !is_address(addr@) && e@ == ErrorView::AddrParse(addr@),
            },
    {
        if !is_valid_address(addr) {
            return Err(TpLinkHs110Error::AddrParse(addr.to_owned()));
        }
        proof {
            lemma_completed_address(addr@);
            lemma_completed_is_address(addr@);
        }
        Ok(HS110 { address: complete_address(addr), timeout: None })
    }

    /// Sets a timeout for network communication with a smartplug. The same
    /// duration bounds connecting, writing and reading.
    pub fn with_timeout(self, duration: Duration) -> (plug: HS110)
        ensures
            plug.address_text() == self.address_text(),
            plug.timeout_set() == Some(duration),
    {
        proof {
            use_type_invariant(&self);
        }
        HS110 { address: self.address, timeout: Some(duration) }
    }

    /// The network address of the plug: its host, a colon and its port.
    pub fn address(&self) -> (address: &str)
        ensures
            address@ == self.address_text(),
            address@.contains(':'),
            is_address(address@),
    {
        proof {
            use_type_invariant(self);
        }
        self.address.as_str()
    }

    /// The timeout for network communication, if one was set.
    pub fn timeout(&self) -> (timeout: Option<Duration>)
        ensures
            timeout == self.timeout_set(),
    {
        self.timeout
    }

    /// "Encrypts" a given string (which is usually a command represented as a
    /// JSON) into the frame that is sent to a smartplug.
    pub fn encrypt(payload: &str) -> (frame: Vec<u8>)
        ensures
            frame@ == framed(payload.spec_bytes()),
    {
        encode_frame(payload.as_bytes())
    }

    /// Attempts to decrypt data received from a smartplug into the text that
    /// its frame carries.
    pub fn decrypt(payload: &[u8]) -> (r: Result<String, TpLinkHs110Error>)
        ensures
            text_outcome(r) == unframed(payload@),
    {
        decode_frame(payload)
    }

    /// The frame to send for `command`.
    pub fn request(&self, command: &Command) -> (frame: Vec<u8>)
        ensures
            frame@ == framed(vstd::utf8::encode_utf8(command.json())),
    {
        let text = command.to_json();
        HS110::encrypt(text.as_str())
    }

    /// Reads the reply to [`Command::Info`]: the general information about the
    /// smartplug, as the document that the device sent.
    pub fn info(&self, reply: &[u8]) -> (r: Result<Value, TpLinkHs110Error>)
        ensures
            json_outcome(r) == document_in(reply@),
    {
        decode(reply)
    }

    /// Reads the current LED state from the reply to [`Command::Info`].
    pub fn led_state(&self, reply: &[u8]) -> (r: Result<LedState, TpLinkHs110Error>)
        ensures
            outcome(r) == match document_in(reply@) {
                Err(e) => Err(e),
                Ok(info) => led_state_in(info),
            },
    {
        match decode(reply) {
            Err(e) => Err(e),
            Ok(info) => led_state(&info),
        }
    }

    /// Reads the reply to [`Command::SetLedState`]: whether the device
    /// switched the LED.
    pub fn set_led_state(&self, reply: &[u8]) -> (r: Result<(), TpLinkHs110Error>)
        ensures
            outcome(r) == status_reported(reply@, "system"@, "set_led_off"@),
    {
        match decode(reply) {
            Err(e) => Err(e),
            Ok(response) => status(&response, "system", "set_led_off"),
        }
    }

    /// Reads the smartplug's name (alias) from the reply to
    /// [`Command::Info`].
    pub fn hostname(&self, reply: &[u8]) -> (r: Result<String, TpLinkHs110Error>)
        ensures
            text_outcome(r) == match document_in(reply@) {
                Err(e) => Err(e),
                Ok(info) => hostname_in(info),
            },
    {
        match decode(reply) {
            Err(e) => Err(e),
            Ok(info) => hostname(&info),
        }
    }

    /// Reads the hardware version of the smartplug from the reply to
    /// [`Command::Info`].
    pub fn hw_version(&self, reply: &[u8]) -> (r: Result<HwVersion, TpLinkHs110Error>)
        ensures
            hw_version_outcome(r) == match document_in(reply@) {
                Err(e) => Err(e),
                Ok(info) => hw_version_in(info),
            },
    {
        match decode(reply) {
            Err(e) => Err(e),
            Ok(info) => hw_version(&info),
        }
    }

    /// Reads the current power relay state from the reply to
    /// [`Command::Info`].
    pub fn power_state(&self, reply: &[u8]) -> (r: Result<PowerState, TpLinkHs110Error>)
        ensures
            outcome(r) == match document_in(reply@) {
                Err(e) => Err(e),
                Ok(info) => power_state_in(info),
            },
    {
        match decode(reply) {
            Err(e) => Err(e),
            Ok(info) => power_state(&info),
        }
    }

    /// Reads the reply to [`Command::SetPowerState`]: whether the device
    /// switched the relay.
    pub fn set_power_state(&self, reply: &[u8]) -> (r: Result<(), TpLinkHs110Error>)
        ensures
            outcome(r) == status_reported(reply@, "system"@, "set_relay_state"@),
    {
        match decode(reply) {
            Err(e) => Err(e),
            Ok(response) => status(&response, "system", "set_relay_state"),
        }
    }

    /// Reads the reply to [`Command::CloudInfo`]: the smartplug's connection
    /// to the vendor's cloud.
    pub fn cloudinfo(&self, reply: &[u8]) -> (r: Result<Value, TpLinkHs110Error>)
        ensures
            json_outcome(r) == match document_in(reply@) {
                Err(e) => Err(e),
                Ok(response) => cloudinfo_in(response),
            },
    {
        match decode(reply) {
            Err(e) => Err(e),
            Ok(response) => cloudinfo(&response),
        }
    }

    /// Reads the reply to [`Command::ApList`]: the Wi-Fi access points that
    /// the smartplug observes.
    pub fn ap_list(&self, reply: &[u8]) -> (r: Result<Value, TpLinkHs110Error>)
        ensures
            json_outcome(r) == match document_in(reply@) {
                Err(e) => Err(e),
                Ok(response) => ap_list_in(response),
            },
    {
        match decode(reply) {
            Err(e) => Err(e),
            Ok(response) => ap_list(&response),
        }
    }

    /// Reads the reply to [`Command::Emeter`]: the readings of the energy
    /// meter, completed so that every reported quantity stands under both of
    /// its names (see [`reconcile`]). `scale` does the arithmetic.
    pub fn emeter<F: Fn(&Value, Scale) -> Value>(&self, reply: &[u8], scale: &F) -> (r: Result<
        Value,
        TpLinkHs110Error,
    >)
        requires
            forall|from: &Value, by: Scale| scale.requires((from, by)),
        ensures
            match readings_reported(reply@) {
                Err(failure) => r matches Err(e) && e@ == failure,
                Ok(reported) => r matches Ok(readings) && reconciled(
                    reported,
                    json_tree(readings),
                    scale,
                ),
            },
    {
        match decode(reply) {
            Err(e) => Err(e),
            Ok(response) => match emeter(&response) {
                Err(e) => Err(e),
                Ok(reported) => {
                    let mut readings = reported;
                    reconcile(&mut readings, scale);
                    Ok(readings)
                },
            },
        }
    }

    /// Reads the reply to [`Command::Reboot`]: whether the device accepted
    /// the reboot.
    pub fn reboot(&self, reply: &[u8]) -> (r: Result<(), TpLinkHs110Error>)
        ensures
            outcome(r) == status_reported(reply@, "system"@, "reboot"@),
    {
        match decode(reply) {
            Err(e) => Err(e),
            Ok(response) => status(&response, "system", "reboot"),
        }
    }

    /// Reads the reply to [`Command::FactoryReset`]: whether the device
    /// accepted the reset.
    pub fn factory_reset(&self, reply: &[u8]) -> (r: Result<(), TpLinkHs110Error>)
        ensures
            outcome(r) == status_reported(reply@, "system"@, "reset"@),
    {
        match decode(reply) {
            Err(e) => Err(e),
            Ok(response) => status(&response, "system", "reset"),
        }
    }
}

} // verus!
