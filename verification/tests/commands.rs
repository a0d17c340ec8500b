use space_traders_rust::cli::{
    plan, Action, Call, Command, ContractSubCommandArgs, OnFailure, OnSuccess,
    ShipCargoSubCommandArgs, ShipNavigateSubCommandArgs, ShipSubCommandArgs,
    WaypointSubCommandArgs, DOCUMENTATION_FILE, INVALID_COMMAND, LOGIN_PROMPT,
};
use space_traders_rust::domain::{Agent, ShipType, TradeSymbol, WaypointTraitSymbol};
use space_traders_rust::request::{Method, Payload};
use space_traders_rust::{AppArgs, UserInfo};

fn session() -> UserInfo {
    UserInfo {
        token: String::from("fake_token"),
        agent: Agent {
            credits: 100,
            symbol: String::from("Fake_Agent"),
            ship_count: None,
            headquarters: String::from("X1-AB23-C4"),
            starting_faction: String::from("starting_faction"),
        },
    }
}

fn named(command: Command) -> AppArgs {
    AppArgs { command: Some(command) }
}

fn planned_call(command: Command) -> Call {
    let user = session();
    assert!(command.check_names_system(&user));
    let args = AppArgs { command: Some(command) };
    match plan(Some(&user), Some(String::from("http://mock")), args) {
        Action::Call(call) => call,
        other => panic!("no call was planned: {:?}", other),
    }
}

fn ship(symbol: &str) -> String {
    String::from(symbol)
}

#[test]
fn without_a_session_every_command_asks_to_log_in() {
    assert_eq!(plan(None, None, named(Command::WhoAmI)), Action::AskToLogIn);
    assert_eq!(plan(None, None, named(Command::Status)), Action::AskToLogIn);
    assert_eq!(plan(None, None, AppArgs { command: None }), Action::AskToLogIn);
    let register =
        Command::Register { username: String::from("A"), faction: String::from("COSMIC") };
    assert_eq!(plan(None, None, named(register)), Action::AskToLogIn);
}

#[test]
fn without_a_command_the_command_line_is_rejected() {
    let user = session();
    assert_eq!(plan(Some(&user), None, AppArgs { command: None }), Action::RejectCommand);
}

#[test]
fn two_commands_are_served_locally() {
    let user = session();
    assert_eq!(plan(Some(&user), None, named(Command::GenerateDoc)), Action::GenerateDoc);
    assert_eq!(plan(Some(&user), None, named(Command::Status)), Action::ShowStatus);
}

#[test]
fn messages_and_file_names() {
    assert_eq!(LOGIN_PROMPT, "please log in first by typing st-app login <username>");
    assert_eq!(INVALID_COMMAND, "invalid command");
    assert_eq!(DOCUMENTATION_FILE, "DOCUMENTATION.md");
}

#[test]
fn whoami_fetches_the_agent() {
    let call = planned_call(Command::WhoAmI);
    assert_eq!(call.request.method, Method::Get);
    assert_eq!(call.request.url, "http://mock/my/agent");
    assert_eq!(call.request.bearer, Some(String::from("fake_token")));
    assert_eq!(call.payload, Payload::Agent);
    assert_eq!(call.announce, Some("fetching Agent info..."));
    assert_eq!(call.on_success, OnSuccess::Print);
    assert_eq!(call.on_failure, OnFailure::PrintToStdout);
}

#[test]
fn registration_saves_the_session_or_gives_up() {
    let call = planned_call(Command::Register {
        username: String::from("NEW_AGENT"),
        faction: String::from("COSMIC"),
    });
    assert_eq!(call.request.method, Method::Post);
    assert_eq!(call.request.url, "http://mock/register");
    assert_eq!(call.request.bearer, None);
    assert_eq!(
        call.request.body,
        Some(vec![
            (String::from("symbol"), String::from("NEW_AGENT")),
            (String::from("faction"), String::from("COSMIC")),
        ])
    );
    assert_eq!(call.payload, Payload::RegisterResponse);
    assert_eq!(call.announce, Some("registering..."));
    assert_eq!(call.on_success, OnSuccess::SaveSession);
    assert_eq!(call.on_failure, OnFailure::Abort);
}

#[test]
fn commands_on_contracts_report_to_standard_error() {
    let list = planned_call(Command::Contract(ContractSubCommandArgs::List));
    assert_eq!(list.request.url, "http://mock/my/contracts");
    assert_eq!(list.payload, Payload::MyContractsResponse);
    assert_eq!(list.on_failure, OnFailure::PrintToStderr);
    assert_eq!(list.announce, None);

    let accept = planned_call(Command::Contract(ContractSubCommandArgs::Accept {
        contract_id: String::from("c1"),
    }));
    assert_eq!(accept.request.url, "http://mock/my/contracts/c1/accept");
    assert_eq!(accept.payload, Payload::AcceptContractResponse);
    assert_eq!(accept.on_failure, OnFailure::PrintToStderr);

    let deliver = planned_call(Command::Contract(ContractSubCommandArgs::Deliver {
        ship_symbol: ship("SHIP-1"),
        contract_id: String::from("c1"),
        trade_symbol: TradeSymbol::COPPER_ORE,
        units: 12,
    }));
    assert_eq!(deliver.request.url, "http://mock/my/contracts/c1/deliver");
    assert_eq!(
        deliver.request.body,
        Some(vec![
            (String::from("shipSymbol"), String::from("SHIP-1")),
            (String::from("tradeSymbol"), String::from("COPPER_ORE")),
            (String::from("units"), String::from("12")),
        ])
    );
    assert_eq!(deliver.payload, Payload::DeliverCargoResponse);
    assert_eq!(deliver.on_failure, OnFailure::PrintToStderr);

    let fulfill = planned_call(Command::Contract(ContractSubCommandArgs::Fulfill {
        contract_id: String::from("c1"),
    }));
    assert_eq!(fulfill.request.url, "http://mock/my/contracts/c1/fulfill");
    assert_eq!(fulfill.payload, Payload::FulfillContractResponse);
    assert_eq!(fulfill.on_success, OnSuccess::Print);
}

#[test]
fn commands_on_a_waypoint_find_the_system_in_its_symbol() {
    let get = planned_call(Command::Waypoint(WaypointSubCommandArgs::Get {
        waypoint_symbol: String::from("X1-ZZ9-A1"),
    }));
    assert_eq!(get.request.url, "http://mock/systems/X1-ZZ9/waypoints/X1-ZZ9-A1");
    assert_eq!(get.payload, Payload::Waypoint);
    assert_eq!(get.on_failure, OnFailure::PrintToStderr);

    let market = planned_call(Command::Waypoint(WaypointSubCommandArgs::Market {
        waypoint_symbol: String::from("X1-ZZ9-A1"),
    }));
    assert_eq!(market.request.url, "http://mock/systems/X1-ZZ9/waypoints/X1-ZZ9-A1/market");
    assert_eq!(market.payload, Payload::Market);

    let shipyard = planned_call(Command::Waypoint(WaypointSubCommandArgs::Shipyard {
        waypoint_symbol: String::from("X1-ZZ9-A1"),
    }));
    assert_eq!(shipyard.request.url, "http://mock/systems/X1-ZZ9/waypoints/X1-ZZ9-A1/shipyard");
    assert_eq!(shipyard.payload, Payload::Shipyard);
    assert_eq!(shipyard.on_failure, OnFailure::PrintToStderr);
}

#[test]
fn listing_waypoints_asks_for_the_home_system() {
    let call = planned_call(Command::Waypoint(WaypointSubCommandArgs::List {
        filter_by_trait: Some(WaypointTraitSymbol::MARKETPLACE),
    }));
    assert_eq!(call.request.method, Method::Get);
    assert_eq!(call.request.url, "http://mock/systems/X1-AB23/waypoints");
    assert_eq!(call.payload, Payload::Waypoints);
    assert_eq!(
        call.on_success,
        OnSuccess::PrintWaypoints { filter_by_trait: Some(WaypointTraitSymbol::MARKETPLACE) }
    );
    assert_eq!(call.on_failure, OnFailure::Abort);

    let unfiltered =
        planned_call(Command::Waypoint(WaypointSubCommandArgs::List { filter_by_trait: None }));
    assert_eq!(unfiltered.request, call.request);
    assert_eq!(unfiltered.on_success, OnSuccess::PrintWaypoints { filter_by_trait: None });
}

#[test]
fn symbols_without_a_system_are_found_out() {
    let user = session();
    let market = Command::Waypoint(WaypointSubCommandArgs::Market {
        waypoint_symbol: String::from("nowhere"),
    });
    assert!(!market.check_names_system(&user));
    let mut homeless = session();
    homeless.agent.headquarters = String::from("fake_headquarters");
    let list = Command::Waypoint(WaypointSubCommandArgs::List { filter_by_trait: None });
    assert!(!list.check_names_system(&homeless));
    assert!(list.check_names_system(&user));
    assert!(Command::WhoAmI.check_names_system(&homeless));
}

#[test]
fn commands_on_ships_report_to_standard_output() {
    let list = planned_call(Command::Ship(ShipSubCommandArgs::List));
    assert_eq!(list.request.url, "http://mock/my/ships");
    assert_eq!(list.payload, Payload::Ships);
    assert_eq!(list.on_failure, OnFailure::PrintToStdout);

    let purchase = planned_call(Command::Ship(ShipSubCommandArgs::Purchase {
        ship_type: ShipType::SHIP_ORE_HOUND,
        waypoint_symbol: String::from("X1-AB23-C4"),
    }));
    assert_eq!(purchase.request.method, Method::Post);
    assert_eq!(purchase.request.url, "http://mock/my/ships");
    assert_eq!(
        purchase.request.body,
        Some(vec![
            (String::from("shipType"), String::from("SHIP_ORE_HOUND")),
            (String::from("waypointSymbol"), String::from("X1-AB23-C4")),
        ])
    );
    assert_eq!(purchase.payload, Payload::PurchaseShipResponse);

    let orbit = planned_call(Command::Ship(ShipSubCommandArgs::Orbit { ship_symbol: ship("S-1") }));
    assert_eq!(orbit.request.url, "http://mock/my/ships/S-1/orbit");
    assert_eq!(orbit.payload, Payload::ShipOrbitResponse);

    let dock = planned_call(Command::Ship(ShipSubCommandArgs::Dock { ship_symbol: ship("S-1") }));
    assert_eq!(dock.request.url, "http://mock/my/ships/S-1/dock");
    assert_eq!(dock.payload, Payload::ShipDockResponse);

    let status =
        planned_call(Command::Ship(ShipSubCommandArgs::Status { ship_symbol: ship("S-1") }));
    assert_eq!(status.request.url, "http://mock/my/ships/S-1");
    assert_eq!(status.payload, Payload::Ship);

    let refuel = planned_call(Command::Ship(ShipSubCommandArgs::Refuel {
        ship_symbol: ship("S-1"),
        units: Some(50),
    }));
    assert_eq!(refuel.request.url, "http://mock/my/ships/S-1/refuel");
    assert_eq!(refuel.request.body, Some(vec![(String::from("units"), String::from("50"))]));
    assert_eq!(refuel.payload, Payload::ShipRefuelResponse);

    let extract =
        planned_call(Command::Ship(ShipSubCommandArgs::Extract { ship_symbol: ship("S-1") }));
    assert_eq!(extract.request.url, "http://mock/my/ships/S-1/extract");
    assert_eq!(extract.request.body, Some(vec![]));
    assert_eq!(extract.payload, Payload::ExtractResourceResponse);

    let survey =
        planned_call(Command::Ship(ShipSubCommandArgs::Survey { ship_symbol: ship("S-1") }));
    assert_eq!(survey.request.url, "http://mock/my/ships/S-1/survey");
    assert_eq!(survey.payload, Payload::CreateSurveyResponse);

    for call in [list, purchase, orbit, dock, status, refuel, extract, survey] {
        assert_eq!(call.on_failure, OnFailure::PrintToStdout);
        assert_eq!(call.on_success, OnSuccess::Print);
        assert_eq!(call.announce, None);
        assert_eq!(call.request.bearer, Some(String::from("fake_token")));
    }
}

#[test]
fn commands_on_navigation_report_to_standard_output() {
    let status = planned_call(Command::Ship(ShipSubCommandArgs::Navigate(
        ShipNavigateSubCommandArgs::Status { ship_symbol: ship("S-1") },
    )));
    assert_eq!(status.request.url, "http://mock/my/ships/S-1/nav");
    assert_eq!(status.payload, Payload::ShipNav);
    assert_eq!(status.on_failure, OnFailure::PrintToStdout);

    let go = planned_call(Command::Ship(ShipSubCommandArgs::Navigate(
        ShipNavigateSubCommandArgs::Waypoint {
            ship_symbol: ship("S-1"),
            waypoint_symbol: String::from("X1-AB23-D5"),
        },
    )));
    assert_eq!(go.request.url, "http://mock/my/ships/S-1/navigate");
    assert_eq!(
        go.request.body,
        Some(vec![(String::from("waypointSymbol"), String::from("X1-AB23-D5"))])
    );
    assert_eq!(go.payload, Payload::ShipNavigateResponse);
    assert_eq!(go.on_failure, OnFailure::PrintToStdout);
}

#[test]
fn commands_on_cargo_report_to_standard_error() {
    let status = planned_call(Command::Ship(ShipSubCommandArgs::Cargo(
        ShipCargoSubCommandArgs::Status { ship_symbol: ship("S-1") },
    )));
    assert_eq!(status.request.url, "http://mock/my/ships/S-1/cargo");
    assert_eq!(status.payload, Payload::ShipCargo);
    assert_eq!(status.on_failure, OnFailure::PrintToStderr);

    let sell = planned_call(Command::Ship(ShipSubCommandArgs::Cargo(
        ShipCargoSubCommandArgs::Sell {
            ship_symbol: ship("S-1"),
            good_symbol: TradeSymbol::QUARTZ_SAND,
            units: 7,
        },
    )));
    assert_eq!(sell.request.url, "http://mock/my/ships/S-1/sell");
    assert_eq!(
        sell.request.body,
        Some(vec![
            (String::from("symbol"), String::from("QUARTZ_SAND")),
            (String::from("units"), String::from("7")),
        ])
    );
    assert_eq!(sell.payload, Payload::SellCargoResponse);
    assert_eq!(sell.on_failure, OnFailure::PrintToStderr);
}

#[test]
fn policies_of_a_command_agree_with_its_plan() {
    let command = Command::Contract(ContractSubCommandArgs::List);
    assert_eq!(command.failure_policy(), OnFailure::PrintToStderr);
    assert_eq!(command.success_policy(), OnSuccess::Print);
    assert_eq!(Command::WhoAmI.failure_policy(), OnFailure::PrintToStdout);
    let register =
        Command::Register { username: String::from("A"), faction: String::from("COSMIC") };
    assert_eq!(register.failure_policy(), OnFailure::Abort);
    assert_eq!(register.success_policy(), OnSuccess::SaveSession);
}
