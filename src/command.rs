use vstd::prelude::*;
use crate::light::{self, asks_nothing, attributes_of, state_of, AttributeModifier, StateModifier};

verus! {

/// Name under which this client registers on a bridge.
pub const CLIENT_NAME: &'static str = "huectl-rs";

/// Environment variable that holds the bridge's IP address.
pub const VAR_BRIDGE_IP: &'static str = "HUE_BRIDGE_IP";

/// Environment variable that holds the user name on the bridge.
pub const VAR_BRIDGE_USERNAME: &'static str = "HUE_BRIDGE_USERNAME";

/// Arguments of a registration.
#[derive(Clone, Debug)]
pub struct Register {
    /// IP address of the bridge; the first discovered bridge when absent.
    pub ip_address: Option<String>,
    /// Sets environment variables instead of printing them.
    pub set_env: bool,
}

/// Arguments that print the bridge configuration.
#[derive(Clone, Copy, Debug, PartialEq, Eq, Structural)]
pub struct GetConfig {
    /// Prints JSON instead of the readable form.
    pub json: bool,
}

/// Operations on the bridge configuration.
#[derive(Clone, Debug)]
pub enum ConfigArg {
    Get(GetConfig),
}

/// A parsed command line.
#[derive(Clone, Debug)]
pub enum Subcommand {
    /// Discovers bridges in the local network.
    Discover,
    /// Registers a new user on a bridge.
    Register(Register),
    /// Prints the bridge configuration.
    Config(ConfigArg),
    /// Modifies, prints, searches or deletes lights.
    Light(light::Arg),
}

/// A call to the bridge or to the discovery service.
#[derive(Clone, Debug)]
pub enum Request {
    /// Asks the discovery service for the bridges in the local network.
    Discover,
    /// Registers a user under `CLIENT_NAME` on the bridge at `ip`.
    RegisterUser { ip: String },
    /// Fetches the configuration.
    GetConfig,
    /// Fetches one light.
    GetLight { id: String },
    /// Fetches all lights.
    GetAllLights,
    /// Fetches the lights found by the last search; changes nothing.
    GetNewLights,
    /// Starts a search for new lights.
    SearchNewLights,
    /// Deletes a light.
    DeleteLight { id: String },
    /// Changes the state of a light.
    SetLightState { id: String, modifier: StateModifier },
    /// Changes the attributes of a light.
    SetLightAttribute { id: String, modifier: AttributeModifier },
}

/// Whether a request changes anything on the bridge.
pub open spec fn is_mutating(r: Request) -> bool {
    match r {
        Request::RegisterUser { .. } | Request::SearchNewLights | Request::DeleteLight { .. }
        | Request::SetLightState { .. } | Request::SetLightAttribute { .. } => true,
        _ => false,
    }
}

/// The requests that modify a light, in order: the state change, then the attribute change,
/// each only when it changes something.
pub open spec fn set_light_plan(set: light::SetArgs) -> Seq<Request> {
    let state = state_of(set);
    let attributes = attributes_of(set);
    let first = if state.spec_is_empty() {
        Seq::<Request>::empty()
    } else {
        seq![Request::SetLightState { id: set.id, modifier: state }]
    };
    if attributes.spec_is_empty() {
        first
    } else {
        first.push(Request::SetLightAttribute { id: set.id, modifier: attributes })
    }
}

/// The requests that a command starts with.
pub open spec fn plan(subcommand: Subcommand) -> Seq<Request> {
    match subcommand {
        Subcommand::Discover => seq![Request::Discover],
        Subcommand::Register(r) => match r.ip_address {
            Some(ip) => seq![Request::RegisterUser { ip }],
            None => seq![Request::Discover],
        },
        Subcommand::Config(ConfigArg::Get(_)) => seq![Request::GetConfig],
        Subcommand::Light(light::Arg::Change(s)) => set_light_plan(s),
        Subcommand::Light(light::Arg::Get(g)) => match g.id {
            Some(id) => seq![Request::GetLight { id }],
            None => seq![Request::GetAllLights],
        },
        Subcommand::Light(light::Arg::Search(s)) => if s.get {
            seq![Request::GetNewLights]
        } else {
            seq![Request::SearchNewLights]
        },
        Subcommand::Light(light::Arg::Delete(d)) => seq![Request::DeleteLight { id: d.id }],
    }
}

fn clone_string(s: &String) -> (r: String)
    ensures
        r == *s,
{
    s.clone()
}

fn set_light(set: &light::SetArgs) -> (r: Vec<Request>)
    ensures
        r@ == set_light_plan(*set),
{
    let mut requests: Vec<Request> = Vec::new();
    let state = set.to_state_modifier();
    if !state.is_empty() {
        requests.push(Request::SetLightState { id: clone_string(&set.id), modifier: state });
    }
    let attributes = set.to_attribute_modifier();
    if !attributes.is_empty() {
        requests.push(
            Request::SetLightAttribute { id: clone_string(&set.id), modifier: attributes },
        );
    }
    proof {
        assert(requests@ =~= set_light_plan(*set));
    }
    requests
}

/// The requests that carry out a command, in the order in which they are sent.
///
/// A registration without an IP address starts with a discovery; `select_bridge` picks the
/// bridge from its answer.
pub fn exec(subcommand: &Subcommand) -> (r: Vec<Request>)
    ensures
        r@ == plan(*subcommand),
{
    let r = match subcommand {
        Subcommand::Discover => vec![Request::Discover],
        Subcommand::Register(arg) => match &arg.ip_address {
            Some(ip) => vec![Request::RegisterUser { ip: clone_string(ip) }],
            None => vec![Request::Discover],
        },
        Subcommand::Config(ConfigArg::Get(_)) => vec![Request::GetConfig],
        Subcommand::Light(light::Arg::Change(s)) => set_light(s),
        Subcommand::Light(light::Arg::Get(g)) => match &g.id {
            Some(id) => vec![Request::GetLight { id: clone_string(id) }],
            None => vec![Request::GetAllLights],
        },
        Subcommand::Light(light::Arg::Search(s)) => if s.get {
            vec![Request::GetNewLights]
        } else {
            vec![Request::SearchNewLights]
        },
        Subcommand::Light(light::Arg::Delete(d)) => vec![
            Request::DeleteLight { id: clone_string(&d.id) },
        ],
    };
    proof {
        assert(r@ =~= plan(*subcommand));
    }
    r
}

/// The bridge that a registration without an IP address uses: the first one discovered.
pub open spec fn selected_bridge(found: Seq<String>) -> Option<String> {
    if found.len() == 0 {
        None
    } else {
        Some(found[0])
    }
}

/// Picks the bridge to register on from the discovered addresses; `None` when there is none.
pub fn select_bridge(found: &Vec<String>) -> (r: Option<String>)
    ensures
        r == selected_bridge(found@),
{
    if found.len() == 0 {
        None
    } else {
        Some(clone_string(&found[0]))
    }
}

/// The line `name=value`.
pub open spec fn assignment(name: Seq<char>, value: Seq<char>) -> Seq<char> {
    name + "="@ + value
}

/// Writes `name=value`.
pub fn assignment_line(name: &str, value: &str) -> (r: String)
    ensures
        r@ == assignment(name@, value@),
{
    let mut s = String::from_str(name);
    s.append("=");
    s.append(value);
    s
}

/// The environment variables that a registration yields: the bridge's address, then the
/// user name.
pub fn bridge_variables(ip: &String, username: &String) -> (r: Vec<(String, String)>)
    ensures
        r@.len() == 2,
        r@[0].0@ == VAR_BRIDGE_IP@,
        r@[0].1 == *ip,
        r@[1].0@ == VAR_BRIDGE_USERNAME@,
        r@[1].1 == *username,
{
    vec![
        (String::from_str(VAR_BRIDGE_IP), clone_string(ip)),
        (String::from_str(VAR_BRIDGE_USERNAME), clone_string(username)),
    ]
}

/// A light command that asks for no change sends no request.
pub proof fn unchanged_light_sends_nothing(set: light::SetArgs)
    requires
        asks_nothing(set),
    ensures
        plan(Subcommand::Light(light::Arg::Change(set))).len() == 0,
{
    light::no_flags_change_nothing(set);
}

/// A search with `get` only fetches what the last search found; without it, it only starts a
/// search.
pub proof fn search_reads_or_scans(search: light::Search)
    ensures
        search.get ==> plan(Subcommand::Light(light::Arg::Search(search))) == seq![
            Request::GetNewLights,
        ],
        !search.get ==> plan(Subcommand::Light(light::Arg::Search(search))) == seq![
            Request::SearchNewLights,
        ],
        !is_mutating(Request::GetNewLights),
        is_mutating(Request::SearchNewLights),
{
}

/// A registration without an address starts with a discovery, and when that finds no bridge
/// there is no bridge to register on.
pub proof fn register_needs_a_bridge(arg: Register, found: Seq<String>)
    requires
        arg.ip_address is None,
        found.len() == 0,
    ensures
        plan(Subcommand::Register(arg)) == seq![Request::Discover],
        selected_bridge(found) is None,
{
}

} // verus!
