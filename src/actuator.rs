//! The HTTP request that tells the remote switch service to turn the
//! charger's socket on or off.

use vstd::prelude::*;
use crate::policy::SwitchCommand;

verus! {

/// The request to send: a POST to `url` with the `Authorization` header set
/// to `authorization`, a JSON content type, and `body`.
#[derive(Clone, Debug)]
pub struct SwitchRequest {
    pub url: String,
    pub authorization: String,
    pub content_type: String,
    pub body: String,
}

/// The service path that carries out a command.
pub open spec fn endpoint_of(c: SwitchCommand) -> Seq<char> {
    match c {
        SwitchCommand::TurnOn => "turn_on"@,
        SwitchCommand::TurnOff => "turn_off"@,
    }
}

/// The JSON body that names the switched socket.
pub open spec fn target_body() -> Seq<char> {
    "{\"entity_id\": \"switch.smart_power_strip_socket_4\"}"@
}

/// The service path that carries out a command.
pub fn endpoint(c: SwitchCommand) -> (r: &'static str)
    ensures
        r@ == endpoint_of(c),
{
    match c {
        SwitchCommand::TurnOn => "turn_on",
        SwitchCommand::TurnOff => "turn_off",
    }
}

/// The request that carries out `command` on the service at `base_url`,
/// authenticated by `token`. It depends on its arguments alone: issuing the
/// same command twice gives the same request, and building it cannot fail.
pub fn switch_request(base_url: &str, token: &str, command: SwitchCommand) -> (r: SwitchRequest)
    ensures
        r.url@ == base_url@ + "/services/switch/"@ + endpoint_of(command),
        r.authorization@ == "Bearer "@ + token@,
        r.content_type@ == "application/json"@,
        r.body@ == target_body(),
{
    let url = base_url.to_owned().concat("/services/switch/").concat(endpoint(command));
    let authorization = "Bearer ".to_owned().concat(token);
    SwitchRequest {
        url,
        authorization,
        content_type: "application/json".to_owned(),
        body: "{\"entity_id\": \"switch.smart_power_strip_socket_4\"}".to_owned(),
    }
}

} // verus!
