//! Reading a reply: walking a document along a path of keys, and interpreting
//! what is found there.
use crate::error::{json_outcome, outcome, text_outcome, ErrorView, TpLinkHs110Error};
use crate::frame::{decode_frame, unframed};
use crate::json::{
    as_signed, as_text, as_unsigned, json_tree, member, parse_json, parsed_json, value_member,
    JsonTree,
};
use crate::state::{hw_version_of, HwVersion, HwVersionView, LedState, PowerState};
use serde_json::Value;
use vstd::prelude::*;

verus! {

/// The keys of a path as mathematical values.
pub open spec fn keys(path: Seq<&'static str>) -> Seq<Seq<char>> {
    path.map_values(|key: &'static str| key@)
}

/// Where `path` leads from `tree`: the document reached by taking the member
/// under each key in turn, or the first key under which there is none.
pub open spec fn resolved(tree: JsonTree, path: Seq<Seq<char>>) -> Result<JsonTree, Seq<char>>
    decreases path.len(),
{
    if path.len() == 0 {
        Ok(tree)
    } else {
        match member(tree, path[0]) {
            Some(found) => resolved(found, path.drop_first()),
            None => Err(path[0]),
        }
    }
}

/// What extracting `path` from `response` yields: the document at the end of
/// the path, or the missing key together with the whole response.
pub open spec fn extracted(response: JsonTree, path: Seq<Seq<char>>) -> Result<
    JsonTree,
    ErrorView,
> {
    match resolved(response, path) {
        Ok(found) => Ok(found),
        Err(key) => Err(ErrorView::KeyIsNotAvailable { response, key }),
    }
}

/// Attempts to traverse a JSON document over the provided path and returns a
/// copy of the value found at its end. Fails at the first key that is missing,
/// naming that key and handing back a copy of the whole response.
pub fn extract_hierarchical(response: &Value, path: &[&'static str]) -> (r: Result<
    Value,
    TpLinkHs110Error,
>)
    ensures
        json_outcome(r) == extracted(json_tree(*response), keys(path@)),
{
    let mut current = response;
    let mut i: usize = 0;
    proof {
        assert(keys(path@).skip(0) =~= keys(path@));
    }
    while i < path.len()
        invariant
            i <= path@.len(),
            resolved(json_tree(*response), keys(path@)) == resolved(
                json_tree(*current),
                keys(path@).skip(i as int),
            ),
        decreases path@.len() - i,
    {
        let key: &'static str = path[i];
        proof {
            let remaining = keys(path@).skip(i as int);
            assert(remaining[0] == key@);
            assert(remaining.drop_first() =~= keys(path@).skip(i + 1));
        }
        match value_member(current, key) {
            Some(found) => {
                current = found;
            },
            None => {
                return Err(TpLinkHs110Error::KeyIsNotAvailable { response: response.clone(), key });
            },
        }
        i = i + 1;
    }
    Ok(current.clone())
}

/// What a received buffer holds: the document that its frame carries, or the
/// reason why there is none.
pub open spec fn document_in(reply: Seq<u8>) -> Result<JsonTree, ErrorView> {
    match unframed(reply) {
        Err(e) => Err(e),
        Ok(text) => match parsed_json(text) {
            None => Err(ErrorView::SerdeJson),
            Some(tree) => Ok(tree),
        },
    }
}

/// Reads the document of a text: `Ok` where the text is one JSON document,
/// [`TpLinkHs110Error::SerdeJson`] where it is not.
pub fn parse(text: &str) -> (r: Result<Value, TpLinkHs110Error>)
    ensures
        json_outcome(r) == match parsed_json(text@) {
            None => Err::<JsonTree, ErrorView>(ErrorView::SerdeJson),
            Some(tree) => Ok(tree),
        },
{
    match parse_json(text) {
        Ok(value) => Ok(value),
        Err(e) => Err(TpLinkHs110Error::SerdeJson(e)),
    }
}

/// Decodes a received buffer into the document it carries: unwraps the frame,
/// deciphers the payload and reads the text as JSON.
pub fn decode(reply: &[u8]) -> (r: Result<Value, TpLinkHs110Error>)
    ensures
        json_outcome(r) == document_in(reply@),
{
    match decode_frame(reply) {
        Err(e) => Err(e),
        Ok(text) => parse(text.as_str()),
    }
}

/// What a device-reported `err_code` amounts to: 0 is success, every other
/// code is a failure that carries the code.
pub open spec fn err_code_outcome(err_code: i64) -> Result<(), ErrorView> {
    if err_code == 0 {
        Ok(())
    } else {
        Err(ErrorView::SmartplugErrCode(err_code as int))
    }
}

/// The outcome that the reply to a command reports: the `err_code` found under
/// the command's module and action, read as a signed integer.
pub open spec fn status_in(response: JsonTree, module: Seq<char>, action: Seq<char>) -> Result<
    (),
    ErrorView,
> {
    match extracted(response, seq![module, action, "err_code"@]) {
        Err(e) => Err(e),
        Ok(leaf) => match as_signed(leaf) {
            None => Err(ErrorView::UnexpectedValueRepresentation),
            Some(err_code) => err_code_outcome(err_code),
        },
    }
}

/// The field `field` of the system information in `info`.
pub open spec fn sysinfo_field_in(info: JsonTree, field: Seq<char>) -> Result<JsonTree, ErrorView> {
    extracted(info, seq!["system"@, "get_sysinfo"@, field])
}

/// The field `field` of the system information, read as an unsigned integer.
pub open spec fn sysinfo_number_in(info: JsonTree, field: Seq<char>) -> Result<u64, ErrorView> {
    match sysinfo_field_in(info, field) {
        Err(e) => Err(e),
        Ok(leaf) => match as_unsigned(leaf) {
            None => Err(ErrorView::UnexpectedValueRepresentation),
            Some(number) => Ok(number),
        },
    }
}

/// The field `field` of the system information, read as a string.
pub open spec fn sysinfo_text_in(info: JsonTree, field: Seq<char>) -> Result<
    Seq<char>,
    ErrorView,
> {
    match sysinfo_field_in(info, field) {
        Err(e) => Err(e),
        Ok(leaf) => match as_text(leaf) {
            None => Err(ErrorView::UnexpectedValueRepresentation),
            Some(text) => Ok(text),
        },
    }
}

/// The LED state that the system information reports in `led_off`.
pub open spec fn led_state_in(info: JsonTree) -> Result<LedState, ErrorView> {
    match sysinfo_number_in(info, "led_off"@) {
        Err(e) => Err(e),
        Ok(led_off) => Ok(LedState::of_led_off(led_off)),
    }
}

/// The relay state that the system information reports in `relay_state`.
pub open spec fn power_state_in(info: JsonTree) -> Result<PowerState, ErrorView> {
    match sysinfo_number_in(info, "relay_state"@) {
        Err(e) => Err(e),
        Ok(relay_state) => Ok(PowerState::of_relay_state(relay_state)),
    }
}

/// The name that the system information reports in `alias`.
pub open spec fn hostname_in(info: JsonTree) -> Result<Seq<char>, ErrorView> {
    sysinfo_text_in(info, "alias"@)
}

/// The hardware version that the system information reports in `hw_ver`.
pub open spec fn hw_version_in(info: JsonTree) -> Result<HwVersionView, ErrorView> {
    match sysinfo_text_in(info, "hw_ver"@) {
        Err(e) => Err(e),
        Ok(hw_ver) => Ok(hw_version_of(hw_ver)),
    }
}

/// The cloud information in the reply to `cnCloud.get_info`.
pub open spec fn cloudinfo_in(response: JsonTree) -> Result<JsonTree, ErrorView> {
    extracted(response, seq!["cnCloud"@, "get_info"@])
}

/// The list of access points in the reply to `netif.get_scaninfo`: what
/// stands under `ap_list`, which must be an array.
pub open spec fn ap_list_in(response: JsonTree) -> Result<JsonTree, ErrorView> {
    match extracted(response, seq!["netif"@, "get_scaninfo"@, "ap_list"@]) {
        Err(e) => Err(e),
        Ok(leaf) => if leaf is Array {
            Ok(leaf)
        } else {
            Err(ErrorView::UnexpectedValueRepresentation)
        },
    }
}

/// The meter readings in the reply to `emeter.get_realtime`, as the device
/// sent them.
pub open spec fn emeter_in(response: JsonTree) -> Result<JsonTree, ErrorView> {
    extracted(response, seq!["emeter"@, "get_realtime"@])
}

/// The outcome of a hardware-version query as a mathematical value.
pub open spec fn hw_version_outcome(r: Result<HwVersion, TpLinkHs110Error>) -> Result<
    HwVersionView,
    ErrorView,
> {
    match r {
        Ok(version) => Ok(version@),
        Err(e) => Err(e@),
    }
}

/// Interprets a device-reported `err_code`: 0 is success, every other code is
/// the failure [`TpLinkHs110Error::SmartplugErrCode`] with that code.
pub fn check_err_code(err_code: i64) -> (r: Result<(), TpLinkHs110Error>)
    ensures
        outcome(r) == err_code_outcome(err_code),
{
    if err_code == 0 {
        Ok(())
    } else {
        Err(TpLinkHs110Error::SmartplugErrCode(err_code))
    }
}

/// Reads the outcome of a command from its reply: the `err_code` under
/// `module` and `action` must be there, must be a signed integer, and must be
/// zero.
pub fn status(response: &Value, module: &'static str, action: &'static str) -> (r: Result<
    (),
    TpLinkHs110Error,
>)
    ensures
        outcome(r) == status_in(json_tree(*response), module@, action@),
{
    let path: [&'static str; 3] = [module, action, "err_code"];
    proof {
        assert(keys(path@) =~= seq![module@, action@, "err_code"@]);
    }
    match extract_hierarchical(response, path.as_slice()) {
        Err(e) => Err(e),
        Ok(leaf) => match leaf.as_i64() {
            None => Err(TpLinkHs110Error::UnexpectedValueRepresentation),
            Some(err_code) => check_err_code(err_code),
        },
    }
}

/// Extracts the field `field` from the system information in `info`.
pub fn sysinfo_field(info: &Value, field: &'static str) -> (r: Result<Value, TpLinkHs110Error>)
    ensures
        json_outcome(r) == sysinfo_field_in(json_tree(*info), field@),
{
    let path: [&'static str; 3] = ["system", "get_sysinfo", field];
    proof {
        assert(keys(path@) =~= seq!["system"@, "get_sysinfo"@, field@]);
    }
    extract_hierarchical(info, path.as_slice())
}

/// Extracts the field `field` from the system information and reads it as an
/// unsigned integer.
pub fn sysinfo_number(info: &Value, field: &'static str) -> (r: Result<u64, TpLinkHs110Error>)
    ensures
        outcome(r) == sysinfo_number_in(json_tree(*info), field@),
{
    match sysinfo_field(info, field) {
        Err(e) => Err(e),
        Ok(leaf) => match leaf.as_u64() {
            None => Err(TpLinkHs110Error::UnexpectedValueRepresentation),
            Some(number) => Ok(number),
        },
    }
}

/// Extracts the field `field` from the system information and reads it as a
/// string.
pub fn sysinfo_text(info: &Value, field: &'static str) -> (r: Result<String, TpLinkHs110Error>)
    ensures
        text_outcome(r) == sysinfo_text_in(json_tree(*info), field@),
{
    match sysinfo_field(info, field) {
        Err(e) => Err(e),
        Ok(leaf) => match leaf.as_str() {
            None => Err(TpLinkHs110Error::UnexpectedValueRepresentation),
            Some(text) => Ok(text.to_owned()),
        },
    }
}

/// Reads the LED state from the system information.
pub fn led_state(info: &Value) -> (r: Result<LedState, TpLinkHs110Error>)
    ensures
        outcome(r) == led_state_in(json_tree(*info)),
{
    match sysinfo_number(info, "led_off") {
        Err(e) => Err(e),
        Ok(led_off) => Ok(LedState::from_led_off(led_off)),
    }
}

/// Reads the relay state from the system information.
pub fn power_state(info: &Value) -> (r: Result<PowerState, TpLinkHs110Error>)
    ensures
        outcome(r) == power_state_in(json_tree(*info)),
{
    match sysinfo_number(info, "relay_state") {
        Err(e) => Err(e),
        Ok(relay_state) => Ok(PowerState::from_relay_state(relay_state)),
    }
}

/// Reads the plug's name from the system information.
pub fn hostname(info: &Value) -> (r: Result<String, TpLinkHs110Error>)
    ensures
        text_outcome(r) == hostname_in(json_tree(*info)),
{
    sysinfo_text(info, "alias")
}

/// Reads the hardware version from the system information.
pub fn hw_version(info: &Value) -> (r: Result<HwVersion, TpLinkHs110Error>)
    ensures
        hw_version_outcome(r) == hw_version_in(json_tree(*info)),
{
    match sysinfo_field(info, "hw_ver") {
        Err(e) => Err(e),
        Ok(leaf) => match leaf.as_str() {
            None => Err(TpLinkHs110Error::UnexpectedValueRepresentation),
            Some(hw_ver) => Ok(HwVersion::from_hw_ver(hw_ver)),
        },
    }
}

/// Extracts the cloud information from the reply to `cnCloud.get_info`.
pub fn cloudinfo(response: &Value) -> (r: Result<Value, TpLinkHs110Error>)
    ensures
        json_outcome(r) == cloudinfo_in(json_tree(*response)),
{
    let path: [&'static str; 2] = ["cnCloud", "get_info"];
    proof {
        assert(keys(path@) =~= seq!["cnCloud"@, "get_info"@]);
    }
    extract_hierarchical(response, path.as_slice())
}

/// Extracts the list of access points from the reply to `netif.get_scaninfo`.
/// What stands under `ap_list` must be an array; any other kind of value is
/// [`TpLinkHs110Error::UnexpectedValueRepresentation`].
pub fn ap_list(response: &Value) -> (r: Result<Value, TpLinkHs110Error>)
    ensures
        json_outcome(r) == ap_list_in(json_tree(*response)),
{
    let path: [&'static str; 3] = ["netif", "get_scaninfo", "ap_list"];
    proof {
        assert(keys(path@) =~= seq!["netif"@, "get_scaninfo"@, "ap_list"@]);
    }
    match extract_hierarchical(response, path.as_slice()) {
        Err(e) => Err(e),
        Ok(leaf) => if leaf.is_array() {
            Ok(leaf)
        } else {
            Err(TpLinkHs110Error::UnexpectedValueRepresentation)
        },
    }
}

/// Extracts the meter readings from the reply to `emeter.get_realtime`, as the
/// device sent them.
pub fn emeter(response: &Value) -> (r: Result<Value, TpLinkHs110Error>)
    ensures
        json_outcome(r) == emeter_in(json_tree(*response)),
{
    let path: [&'static str; 2] = ["emeter", "get_realtime"];
    proof {
        assert(keys(path@) =~= seq!["emeter"@, "get_realtime"@]);
    }
    extract_hierarchical(response, path.as_slice())
}

} // verus!
