//! The commands of the command line, and what each of them sets in motion.
//!
//! [`plan`] decides; the caller acts: it prints, writes, or sends the planned
//! request and reports what came back as the plan says.

use crate::api::{base_url_of, Api};
use crate::domain::{system_of, ShipType, TradeSymbol, Waypoint, WaypointTraitSymbol};
use crate::request::{Endpoint, Payload, Request};
use crate::symbol::{component_count, components};
use crate::{AppArgs, UserInfo};
use vstd::prelude::*;

verus! {

/// What to tell a user who has no session yet.
pub const LOGIN_PROMPT: &'static str = "please log in first by typing st-app login <username>";

/// What to tell a user who named no command.
pub const INVALID_COMMAND: &'static str = "invalid command";

/// The file that the generated documentation is written to.
pub const DOCUMENTATION_FILE: &'static str = "DOCUMENTATION.md";

/// A command of the command line.
#[derive(Debug, Clone, PartialEq)]
pub enum Command {
    /// Write the documentation of the command line to a file.
    GenerateDoc,
    /// Show the session that is in use.
    Status,
    /// Register a new player; the new session replaces the one in use.
    Register { username: String, faction: String },
    Contract(ContractSubCommandArgs),
    /// Show the current player's details.
    WhoAmI,
    Waypoint(WaypointSubCommandArgs),
    Ship(ShipSubCommandArgs),
}

/// The commands on contracts.
#[derive(Debug, Clone, PartialEq)]
pub enum ContractSubCommandArgs {
    List,
    Accept { contract_id: String },
    Deliver { ship_symbol: String, contract_id: String, trade_symbol: TradeSymbol, units: u32 },
    Fulfill { contract_id: String },
}

/// The commands on waypoints.
#[derive(Debug, Clone, PartialEq)]
pub enum WaypointSubCommandArgs {
    Get { waypoint_symbol: String },
    /// The waypoints of the agent's home system, narrowed to a trait if one is given.
    List { filter_by_trait: Option<WaypointTraitSymbol> },
    Market { waypoint_symbol: String },
    Shipyard { waypoint_symbol: String },
}

/// The commands on ships.
#[derive(Debug, Clone, PartialEq)]
pub enum ShipSubCommandArgs {
    Navigate(ShipNavigateSubCommandArgs),
    Cargo(ShipCargoSubCommandArgs),
    List,
    Purchase { ship_type: ShipType, waypoint_symbol: String },
    Orbit { ship_symbol: String },
    Dock { ship_symbol: String },
    Status { ship_symbol: String },
    Refuel { ship_symbol: String, units: Option<i32> },
    Extract { ship_symbol: String },
    Survey { ship_symbol: String },
}

/// The commands on a ship's navigation.
#[derive(Debug, Clone, PartialEq)]
pub enum ShipNavigateSubCommandArgs {
    Status { ship_symbol: String },
    Waypoint { ship_symbol: String, waypoint_symbol: String },
}

/// The commands on a ship's cargo.
#[derive(Debug, Clone, PartialEq)]
pub enum ShipCargoSubCommandArgs {
    Status { ship_symbol: String },
    Sell { ship_symbol: String, good_symbol: TradeSymbol, units: u32 },
}

/// Where the report of a failed call goes.
#[derive(Debug, Clone, Copy, PartialEq, Eq, Structural)]
pub enum OnFailure {
    /// Print the error to standard output and go on.
    PrintToStdout,
    /// Print the error to standard error and go on.
    PrintToStderr,
    /// Give up: the command cannot do without the payload.
    Abort,
}

/// What becomes of the payload of a successful call.
#[derive(Debug, Clone, Copy, PartialEq, Eq, Structural)]
pub enum OnSuccess {
    /// Print the envelope.
    Print,
    /// Keep token and agent as the session in use; print nothing.
    SaveSession,
    /// Narrow the page of waypoints to the trait, if one is given, then print.
    PrintWaypoints { filter_by_trait: Option<WaypointTraitSymbol> },
}

/// One call of the API on behalf of a command.
#[derive(Debug, Clone, PartialEq)]
pub struct Call {
    /// The request to send.
    pub request: Request,
    /// The kind of payload to read from the envelope of a successful response.
    pub payload: Payload,
    /// A line to print before the request is sent.
    pub announce: Option<&'static str>,
    pub on_success: OnSuccess,
    pub on_failure: OnFailure,
}

/// What a command sets in motion.
#[derive(Debug, Clone, PartialEq)]
pub enum Action {
    /// There is no session: print [`LOGIN_PROMPT`].
    AskToLogIn,
    /// No command was named: print [`INVALID_COMMAND`].
    RejectCommand,
    /// Write the documentation to [`DOCUMENTATION_FILE`].
    GenerateDoc,
    /// Print the session in use.
    ShowStatus,
    /// Call the API.
    Call(Call),
}

impl ContractSubCommandArgs {
    /// The endpoint that serves the command.
    pub open spec fn endpoint(self) -> Endpoint {
        match self {
            Self::List => Endpoint::Contracts,
            Self::Accept { contract_id } => Endpoint::AcceptContract { contract_id: contract_id@ },
            Self::Deliver { ship_symbol, contract_id, trade_symbol, units } => {
                Endpoint::DeliverContract {
                    contract_id: contract_id@,
                    ship_symbol: ship_symbol@,
                    trade_symbol,
                    units,
                }
            },
            Self::Fulfill { contract_id } => Endpoint::FulfillContract {
                contract_id: contract_id@,
            },
        }
    }
}

impl WaypointSubCommandArgs {
    /// The symbol that the command reads its system from: the waypoint that
    /// it names, or, for the listing, the headquarters `home` of the agent.
    pub open spec fn system_source(self, home: Seq<char>) -> Seq<char> {
        match self {
            Self::Get { waypoint_symbol } => waypoint_symbol@,
            Self::List { .. } => home,
            Self::Market { waypoint_symbol } => waypoint_symbol@,
            Self::Shipyard { waypoint_symbol } => waypoint_symbol@,
        }
    }

    /// The endpoint that serves the command for an agent whose headquarters
    /// are at `home`.
    pub open spec fn endpoint(self, home: Seq<char>) -> Endpoint {
        let system_symbol = system_of(self.system_source(home));
        match self {
            Self::Get { waypoint_symbol } => Endpoint::Waypoint {
                system_symbol,
                waypoint_symbol: waypoint_symbol@,
            },
            Self::List { .. } => Endpoint::Waypoints { system_symbol },
            Self::Market { waypoint_symbol } => Endpoint::Market {
                system_symbol,
                waypoint_symbol: waypoint_symbol@,
            },
            Self::Shipyard { waypoint_symbol } => Endpoint::Shipyard {
                system_symbol,
                waypoint_symbol: waypoint_symbol@,
            },
        }
    }
}

impl ShipNavigateSubCommandArgs {
    /// The endpoint that serves the command.
    pub open spec fn endpoint(self) -> Endpoint {
        match self {
            Self::Status { ship_symbol } => Endpoint::Nav { ship_symbol: ship_symbol@ },
            Self::Waypoint { ship_symbol, waypoint_symbol } => Endpoint::Navigate {
                ship_symbol: ship_symbol@,
                waypoint_symbol: waypoint_symbol@,
            },
        }
    }
}

impl ShipCargoSubCommandArgs {
    /// The endpoint that serves the command.
    pub open spec fn endpoint(self) -> Endpoint {
        match self {
            Self::Status { ship_symbol } => Endpoint::Cargo { ship_symbol: ship_symbol@ },
            Self::Sell { ship_symbol, good_symbol, units } => Endpoint::SellCargo {
                ship_symbol: ship_symbol@,
                good: good_symbol,
                units,
            },
        }
    }
}

impl ShipSubCommandArgs {
    /// The endpoint that serves the command. An extraction is made without a
    /// survey.
    pub open spec fn endpoint(self) -> Endpoint {
        match self {
            Self::Navigate(navigate) => navigate.endpoint(),
            Self::Cargo(cargo) => cargo.endpoint(),
            Self::List => Endpoint::Ships,
            Self::Purchase { ship_type, waypoint_symbol } => Endpoint::PurchaseShip {
                ship_type,
                waypoint_symbol: waypoint_symbol@,
            },
            Self::Orbit { ship_symbol } => Endpoint::Orbit { ship_symbol: ship_symbol@ },
            Self::Dock { ship_symbol } => Endpoint::Dock { ship_symbol: ship_symbol@ },
            Self::Status { ship_symbol } => Endpoint::Ship { ship_symbol: ship_symbol@ },
            Self::Refuel { ship_symbol, units } => Endpoint::Refuel {
                ship_symbol: ship_symbol@,
                units,
            },
            Self::Extract { ship_symbol } => Endpoint::Extract {
                ship_symbol: ship_symbol@,
                survey: None,
            },
            Self::Survey { ship_symbol } => Endpoint::Survey { ship_symbol: ship_symbol@ },
        }
    }
}

impl Command {
    /// The endpoint that serves the command for the session `user`, if the
    /// command calls the API at all. A command that names a waypoint finds the
    /// system in the waypoint's symbol; the listing of waypoints takes the
    /// system of the agent's headquarters.
    pub open spec fn endpoint(self, user: UserInfo) -> Option<Endpoint> {
        match self {
            Command::GenerateDoc => None,
            Command::Status => None,
            Command::Register { username, faction } => Some(
                Endpoint::Register { symbol: username@, faction: faction@ },
            ),
            Command::WhoAmI => Some(Endpoint::Agent),
            Command::Contract(contract) => Some(contract.endpoint()),
            Command::Waypoint(waypoint) => Some(waypoint.endpoint(user.agent.headquarters@)),
            Command::Ship(ship) => Some(ship.endpoint()),
        }
    }

    /// Whether the symbol that the command reads a system from has one: a
    /// symbol names a system with its first two components.
    pub open spec fn names_system(self, user: UserInfo) -> bool {
        match self {
            Command::Waypoint(waypoint) => components(
                waypoint.system_source(user.agent.headquarters@),
            ).len() >= 2,
            _ => true,
        }
    }

    /// The line that is printed before the command's request is sent.
    pub open spec fn announcement(self) -> Option<Seq<char>> {
        match self {
            Command::Register { .. } => Some("registering..."@),
            Command::WhoAmI => Some("fetching Agent info..."@),
            _ => None,
        }
    }

    /// What becomes of the payload when the command's call succeeds.
    pub open spec fn on_success(self) -> OnSuccess {
        match self {
            Command::Register { .. } => OnSuccess::SaveSession,
            Command::Waypoint(WaypointSubCommandArgs::List { filter_by_trait }) => {
                OnSuccess::PrintWaypoints { filter_by_trait }
            },
            _ => OnSuccess::Print,
        }
    }

    /// Where the report goes when the command's call fails. A registration and
    /// a listing of waypoints cannot go on without their payload; the commands
    /// on contracts, waypoints and cargo report to standard error; all others
    /// report to standard output.
    pub open spec fn on_failure(self) -> OnFailure {
        match self {
            Command::Register { .. } => OnFailure::Abort,
            Command::Waypoint(WaypointSubCommandArgs::List { .. }) => OnFailure::Abort,
            Command::Contract(_) => OnFailure::PrintToStderr,
            Command::Waypoint(_) => OnFailure::PrintToStderr,
            Command::Ship(ShipSubCommandArgs::Cargo(_)) => OnFailure::PrintToStderr,
            _ => OnFailure::PrintToStdout,
        }
    }

    /// Whether the symbol that the command reads a system from has one.
    pub fn check_names_system(&self, user: &UserInfo) -> (found: bool)
        ensures
            found == self.names_system(*user),
    {
        match self {
            Command::Waypoint(WaypointSubCommandArgs::Get { waypoint_symbol }) => {
                component_count(waypoint_symbol.as_str()) >= 2
            },
            Command::Waypoint(WaypointSubCommandArgs::List { .. }) => {
                component_count(user.agent.headquarters.as_str()) >= 2
            },
            Command::Waypoint(WaypointSubCommandArgs::Market { waypoint_symbol }) => {
                component_count(waypoint_symbol.as_str()) >= 2
            },
            Command::Waypoint(WaypointSubCommandArgs::Shipyard { waypoint_symbol }) => {
                component_count(waypoint_symbol.as_str()) >= 2
            },
            _ => true,
        }
    }

    /// Where the report goes when the command's call fails.
    pub fn failure_policy(&self) -> (policy: OnFailure)
        ensures
            policy == self.on_failure(),
    {
        match self {
            Command::Register { .. } => OnFailure::Abort,
            Command::Waypoint(WaypointSubCommandArgs::List { .. }) => OnFailure::Abort,
            Command::Contract(_) => OnFailure::PrintToStderr,
            Command::Waypoint(_) => OnFailure::PrintToStderr,
            Command::Ship(ShipSubCommandArgs::Cargo(_)) => OnFailure::PrintToStderr,
            _ => OnFailure::PrintToStdout,
        }
    }

    /// What becomes of the payload when the command's call succeeds.
    pub fn success_policy(&self) -> (policy: OnSuccess)
        ensures
            policy == self.on_success(),
    {
        match self {
            Command::Register { .. } => OnSuccess::SaveSession,
            Command::Waypoint(WaypointSubCommandArgs::List { filter_by_trait }) => {
                OnSuccess::PrintWaypoints { filter_by_trait: *filter_by_trait }
            },
            _ => OnSuccess::Print,
        }
    }
}

impl Call {
    /// The line to print before the request is sent, as a mathematical value.
    pub open spec fn announcement(self) -> Option<Seq<char>> {
        match self.announce {
            Some(line) => Some(line@),
            None => None,
        }
    }

    /// Whether this is the call that serves `command` for the session `user`
    /// on a server at `base`.
    pub open spec fn serves(self, command: Command, user: UserInfo, base: Seq<char>) -> bool {
        &&& command.endpoint(user) matches Some(endpoint)
        &&& self.request@ == crate::request::wire(base, user.token@, endpoint)
        &&& self.payload == endpoint.payload()
        &&& self.announcement() == command.announcement()
        &&& self.on_success == command.on_success()
        &&& self.on_failure == command.on_failure()
    }
}

/// One call whose request is `request`, reported as `command` wants it.
fn call_for(command: &Command, request: Request, payload: Payload) -> (action: Action)
    ensures
        action == Action::Call(
            Call {
                request,
                payload,
                announce: None,
                on_success: command.on_success(),
                on_failure: command.on_failure(),
            },
        ),
{
    Action::Call(
        Call {
            request,
            payload,
            announce: None,
            on_success: command.success_policy(),
            on_failure: command.failure_policy(),
        },
    )
}

/// One call that is announced by `line` before it is made.
fn announced_call_for(
    command: &Command,
    line: &'static str,
    request: Request,
    payload: Payload,
) -> (action: Action)
    ensures
        action == Action::Call(
            Call {
                request,
                payload,
                announce: Some(line),
                on_success: command.on_success(),
                on_failure: command.on_failure(),
            },
        ),
{
    Action::Call(
        Call {
            request,
            payload,
            announce: Some(line),
            on_success: command.success_policy(),
            on_failure: command.failure_policy(),
        },
    )
}

/// The call that serves a command on contracts.
fn plan_contract(api: &Api, command: &Command, args: &ContractSubCommandArgs) -> (action: Action)
    requires
        *command == Command::Contract(*args),
    ensures
        action is Call,
        action->Call_0.serves(*command, api.session(), api.base_url()),
{
    match args {
        ContractSubCommandArgs::List => call_for(
            command,
            api.fetch_contracts(),
            Payload::MyContractsResponse,
        ),
        ContractSubCommandArgs::Accept { contract_id } => call_for(
            command,
            api.accept_contract(contract_id.clone()),
            Payload::AcceptContractResponse,
        ),
        ContractSubCommandArgs::Deliver { ship_symbol, contract_id, trade_symbol, units } => {
            call_for(
                command,
                api.deliver_contract_goods(
                    ship_symbol.clone(),
                    contract_id.clone(),
                    *trade_symbol,
                    *units,
                ),
                Payload::DeliverCargoResponse,
            )
        },
        ContractSubCommandArgs::Fulfill { contract_id } => call_for(
            command,
            api.fulfill_contract(contract_id.clone()),
            Payload::FulfillContractResponse,
        ),
    }
}

/// The call that serves a command on waypoints.
fn plan_waypoint(api: &Api, command: &Command, args: &WaypointSubCommandArgs) -> (action: Action)
    requires
        *command == Command::Waypoint(*args),
        command.names_system(api.session()),
    ensures
        action is Call,
        action->Call_0.serves(*command, api.session(), api.base_url()),
{
    match args {
        WaypointSubCommandArgs::Get { waypoint_symbol } => call_for(
            command,
            api.get_waypoint(
                Waypoint::get_system_id(waypoint_symbol.as_str()),
                waypoint_symbol.clone(),
            ),
            Payload::Waypoint,
        ),
        WaypointSubCommandArgs::List { .. } => call_for(
            command,
            api.list_waypoints(api.home_system()),
            Payload::Waypoints,
        ),
        WaypointSubCommandArgs::Market { waypoint_symbol } => call_for(
            command,
            api.get_market(
                Waypoint::get_system_id(waypoint_symbol.as_str()),
                waypoint_symbol.clone(),
            ),
            Payload::Market,
        ),
        WaypointSubCommandArgs::Shipyard { waypoint_symbol } => call_for(
            command,
            api.get_shipyard_for_waypoint(
                Waypoint::get_system_id(waypoint_symbol.as_str()),
                waypoint_symbol.clone(),
            ),
            Payload::Shipyard,
        ),
    }
}

/// The call that serves a command on a ship's navigation.
fn plan_navigate(api: &Api, command: &Command, args: &ShipNavigateSubCommandArgs) -> (action:
    Action)
    requires
        *command == Command::Ship(ShipSubCommandArgs::Navigate(*args)),
    ensures
        action is Call,
        action->Call_0.serves(*command, api.session(), api.base_url()),
{
    match args {
        ShipNavigateSubCommandArgs::Status { ship_symbol } => call_for(
            command,
            api.get_ship_nav_status(ship_symbol.clone()),
            Payload::ShipNav,
        ),
        ShipNavigateSubCommandArgs::Waypoint { ship_symbol, waypoint_symbol } => call_for(
            command,
            api.navigate_ship(ship_symbol.clone(), waypoint_symbol.clone()),
            Payload::ShipNavigateResponse,
        ),
    }
}

/// The call that serves a command on a ship's cargo.
fn plan_cargo(api: &Api, command: &Command, args: &ShipCargoSubCommandArgs) -> (action: Action)
    requires
        *command == Command::Ship(ShipSubCommandArgs::Cargo(*args)),
    ensures
        action is Call,
        action->Call_0.serves(*command, api.session(), api.base_url()),
{
    match args {
        ShipCargoSubCommandArgs::Status { ship_symbol } => call_for(
            command,
            api.get_ship_cargo(ship_symbol.clone()),
            Payload::ShipCargo,
        ),
        ShipCargoSubCommandArgs::Sell { ship_symbol, good_symbol, units } => call_for(
            command,
            api.sell_ship_cargo(ship_symbol.clone(), *good_symbol, *units),
            Payload::SellCargoResponse,
        ),
    }
}

/// The call that serves a command on ships.
fn plan_ship(api: &Api, command: &Command, args: &ShipSubCommandArgs) -> (action: Action)
    requires
        *command == Command::Ship(*args),
    ensures
        action is Call,
        action->Call_0.serves(*command, api.session(), api.base_url()),
{
    match args {
        ShipSubCommandArgs::Navigate(navigate) => plan_navigate(api, command, navigate),
        ShipSubCommandArgs::Cargo(cargo) => plan_cargo(api, command, cargo),
        ShipSubCommandArgs::List => call_for(command, api.list_ships(), Payload::Ships),
        ShipSubCommandArgs::Purchase { ship_type, waypoint_symbol } => call_for(
            command,
            api.purchase_ship(*ship_type, waypoint_symbol.clone()),
            Payload::PurchaseShipResponse,
        ),
        ShipSubCommandArgs::Orbit { ship_symbol } => call_for(
            command,
            api.orbit_ship(ship_symbol.clone()),
            Payload::ShipOrbitResponse,
        ),
        ShipSubCommandArgs::Dock { ship_symbol } => call_for(
            command,
            api.dock_ship(ship_symbol.clone()),
            Payload::ShipDockResponse,
        ),
        ShipSubCommandArgs::Status { ship_symbol } => call_for(
            command,
            api.get_ship_status(ship_symbol.clone()),
            Payload::Ship,
        ),
        ShipSubCommandArgs::Refuel { ship_symbol, units } => call_for(
            command,
            api.refuel_ship(ship_symbol.clone(), *units),
            Payload::ShipRefuelResponse,
        ),
        ShipSubCommandArgs::Extract { ship_symbol } => call_for(
            command,
            api.extract_resource(ship_symbol.clone(), None),
            Payload::ExtractResourceResponse,
        ),
        ShipSubCommandArgs::Survey { ship_symbol } => call_for(
            command,
            api.create_survey(ship_symbol.clone()),
            Payload::CreateSurveyResponse,
        ),
    }
}

/// Decides what the command line `args` sets in motion for a user whose
/// session, if there is one, is `session`.
///
/// Without a session every command ends in the request to log in, the
/// registration too. With one, a missing command is rejected, two commands
/// are served locally, and every other command makes exactly one call of the
/// API, on the endpoint that [`Command::endpoint`] names.
pub fn plan(
    session: Option<&UserInfo>,
    base_url_override: Option<String>,
    args: AppArgs,
) -> (action: Action)
    requires
        session is Some && args.command is Some ==> args.command->Some_0.names_system(
            *session->Some_0,
        ),
    ensures
        session is None ==> action == Action::AskToLogIn,
        session is Some ==> match args.command {
            None => action == Action::RejectCommand,
            Some(Command::GenerateDoc) => action == Action::GenerateDoc,
            Some(Command::Status) => action == Action::ShowStatus,
            Some(command) => {
                &&& action is Call
                &&& action->Call_0.serves(
                    command,
                    *session->Some_0,
                    base_url_of(base_url_override),
                )
            },
        },
{
    let user = match session {
        None => {
            return Action::AskToLogIn;
        },
        Some(user) => user,
    };
    let command = match args.command {
        None => {
            return Action::RejectCommand;
        },
        Some(command) => command,
    };
    let api = Api::new(user, base_url_override);
    match &command {
        Command::GenerateDoc => Action::GenerateDoc,
        Command::Status => Action::ShowStatus,
        Command::Register { username, faction } => announced_call_for(
            &command,
            "registering...",
            api.register_player(username.clone(), faction.clone()),
            Payload::RegisterResponse,
        ),
        Command::WhoAmI => announced_call_for(
            &command,
            "fetching Agent info...",
            api.fetch_agent_info(),
            Payload::Agent,
        ),
        Command::Contract(args) => plan_contract(&api, &command, args),
        Command::Waypoint(args) => plan_waypoint(&api, &command, args),
        Command::Ship(args) => plan_ship(&api, &command, args),
    }
}

} // verus!
