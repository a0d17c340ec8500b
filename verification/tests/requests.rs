use space_traders_rust::api::{Api, API_BASE_URL};
use space_traders_rust::domain::{Agent, ShipType, TradeSymbol};
use space_traders_rust::request::{Method, Request};
use space_traders_rust::UserInfo;

fn session() -> UserInfo {
    UserInfo {
        token: String::from("fake_token"),
        agent: Agent {
            credits: 100,
            symbol: String::from("Fake_Agent"),
            ship_count: None,
            headquarters: String::from("X1-AB23-C4"),
            starting_faction: String::from("starting_faction"),
        },
    }
}

fn pair(name: &str, value: &str) -> (String, String) {
    (String::from(name), String::from(value))
}

fn get(url: &str) -> Request {
    Request {
        method: Method::Get,
        url: String::from(url),
        bearer: Some(String::from("fake_token")),
        headers: vec![],
        body: None,
    }
}

fn post_json(url: &str, body: Vec<(String, String)>) -> Request {
    Request {
        method: Method::Post,
        url: String::from(url),
        bearer: Some(String::from("fake_token")),
        headers: vec![],
        body: Some(body),
    }
}

fn post_empty(url: &str) -> Request {
    Request {
        method: Method::Post,
        url: String::from(url),
        bearer: Some(String::from("fake_token")),
        headers: vec![pair("Content-Length", "0")],
        body: None,
    }
}

#[test]
fn production_endpoint_is_the_default() {
    assert_eq!(API_BASE_URL, "https://api.spacetraders.io/v2");
    let user = session();
    let api = Api::new(&user, None);
    assert_eq!(api.fetch_agent_info(), get("https://api.spacetraders.io/v2/my/agent"));
}

#[test]
fn agent_info_is_fetched_with_the_bearer_token() {
    let user = session();
    let api = Api::new(&user, Some(String::from("http://127.0.0.1:1234")));
    let request = api.fetch_agent_info();
    assert_eq!(request.method, Method::Get);
    assert_eq!(request.url, "http://127.0.0.1:1234/my/agent");
    assert_eq!(request.bearer, Some(String::from("fake_token")));
    assert_eq!(request.headers, vec![]);
    assert_eq!(request.body, None);
}

#[test]
fn every_endpoint_follows_the_base_url_override() {
    let user = session();
    let api = Api::new(&user, Some(String::from("http://mock")));
    assert_eq!(api.fetch_contracts(), get("http://mock/my/contracts"));
    assert_eq!(api.list_waypoints(String::from("X1-AB23")), get("http://mock/systems/X1-AB23/waypoints"));
    assert_eq!(api.register_player(String::from("A"), String::from("B")).url, "http://mock/register");
    assert_eq!(api.accept_contract(String::from("c1")).url, "http://mock/my/contracts/c1/accept");
}

#[test]
fn orbit_and_dock_post_without_a_body() {
    let user = session();
    let api = Api::new(&user, None);
    let orbit = api.orbit_ship(String::from("SHIP-1"));
    assert_eq!(orbit, post_empty("https://api.spacetraders.io/v2/my/ships/SHIP-1/orbit"));
    assert_eq!(orbit.body, None);
    assert_eq!(orbit.headers, vec![pair("Content-Length", "0")]);
    let dock = api.dock_ship(String::from("SHIP-1"));
    assert_eq!(dock, post_empty("https://api.spacetraders.io/v2/my/ships/SHIP-1/dock"));
}

#[test]
fn survey_and_fulfilment_post_without_a_body() {
    let user = session();
    let api = Api::new(&user, None);
    assert_eq!(
        api.create_survey(String::from("SHIP-1")),
        post_empty("https://api.spacetraders.io/v2/my/ships/SHIP-1/survey")
    );
    assert_eq!(
        api.fulfill_contract(String::from("c9")),
        post_empty("https://api.spacetraders.io/v2/my/contracts/c9/fulfill")
    );
}

#[test]
fn accepting_a_contract_sets_three_headers() {
    let user = session();
    let api = Api::new(&user, None);
    let request = api.accept_contract(String::from("clabc"));
    assert_eq!(request.method, Method::Post);
    assert_eq!(request.url, "https://api.spacetraders.io/v2/my/contracts/clabc/accept");
    assert_eq!(request.bearer, Some(String::from("fake_token")));
    assert_eq!(
        request.headers,
        vec![
            pair("Content-Type", "application/json"),
            pair("Accept", "application/json"),
            pair("Content-Length", "0"),
        ]
    );
    assert_eq!(request.body, None);
}

#[test]
fn registration_carries_no_credential() {
    let user = session();
    let api = Api::new(&user, None);
    let request = api.register_player(String::from("NEW_AGENT"), String::from("COSMIC"));
    assert_eq!(
        request,
        Request {
            method: Method::Post,
            url: String::from("https://api.spacetraders.io/v2/register"),
            bearer: None,
            headers: vec![],
            body: Some(vec![pair("symbol", "NEW_AGENT"), pair("faction", "COSMIC")]),
        }
    );
}

#[test]
fn waypoint_lookups() {
    let user = session();
    let api = Api::new(&user, None);
    let system = String::from("X1-AB23");
    let waypoint = String::from("X1-AB23-C4");
    assert_eq!(
        api.get_market(system.clone(), waypoint.clone()),
        get("https://api.spacetraders.io/v2/systems/X1-AB23/waypoints/X1-AB23-C4/market")
    );
    assert_eq!(
        api.get_shipyard_for_waypoint(system.clone(), waypoint.clone()),
        get("https://api.spacetraders.io/v2/systems/X1-AB23/waypoints/X1-AB23-C4/shipyard")
    );
    assert_eq!(
        api.get_waypoint(system.clone(), waypoint.clone()),
        get("https://api.spacetraders.io/v2/systems/X1-AB23/waypoints/X1-AB23-C4")
    );
    assert_eq!(
        api.list_waypoints(system),
        get("https://api.spacetraders.io/v2/systems/X1-AB23/waypoints")
    );
}

#[test]
fn ship_lookups() {
    let user = session();
    let api = Api::new(&user, None);
    let ship = String::from("SHIP-1");
    assert_eq!(api.list_ships(), get("https://api.spacetraders.io/v2/my/ships"));
    assert_eq!(
        api.get_ship_status(ship.clone()),
        get("https://api.spacetraders.io/v2/my/ships/SHIP-1")
    );
    assert_eq!(
        api.get_ship_cargo(ship.clone()),
        get("https://api.spacetraders.io/v2/my/ships/SHIP-1/cargo")
    );
    assert_eq!(
        api.get_ship_nav_status(ship),
        get("https://api.spacetraders.io/v2/my/ships/SHIP-1/nav")
    );
}

#[test]
fn selling_cargo_names_the_good_and_the_units() {
    let user = session();
    let api = Api::new(&user, None);
    assert_eq!(
        api.sell_ship_cargo(String::from("SHIP-1"), TradeSymbol::IRON_ORE, 25),
        post_json(
            "https://api.spacetraders.io/v2/my/ships/SHIP-1/sell",
            vec![pair("symbol", "IRON_ORE"), pair("units", "25")]
        )
    );
}

#[test]
fn delivering_names_ship_good_and_units() {
    let user = session();
    let api = Api::new(&user, None);
    assert_eq!(
        api.deliver_contract_goods(
            String::from("SHIP-1"),
            String::from("c1"),
            TradeSymbol::ALUMINUM_ORE,
            40
        ),
        post_json(
            "https://api.spacetraders.io/v2/my/contracts/c1/deliver",
            vec![
                pair("shipSymbol", "SHIP-1"),
                pair("tradeSymbol", "ALUMINUM_ORE"),
                pair("units", "40")
            ]
        )
    );
}

#[test]
fn purchasing_names_the_ship_type_and_the_shipyard() {
    let user = session();
    let api = Api::new(&user, None);
    assert_eq!(
        api.purchase_ship(ShipType::SHIP_MINING_DRONE, String::from("X1-AB23-C4")),
        post_json(
            "https://api.spacetraders.io/v2/my/ships",
            vec![pair("shipType", "SHIP_MINING_DRONE"), pair("waypointSymbol", "X1-AB23-C4")]
        )
    );
}

#[test]
fn navigation_names_the_destination() {
    let user = session();
    let api = Api::new(&user, None);
    assert_eq!(
        api.navigate_ship(String::from("SHIP-1"), String::from("X1-AB23-D5")),
        post_json(
            "https://api.spacetraders.io/v2/my/ships/SHIP-1/navigate",
            vec![pair("waypointSymbol", "X1-AB23-D5")]
        )
    );
}

#[test]
fn refuelling_with_and_without_units() {
    let user = session();
    let api = Api::new(&user, None);
    assert_eq!(
        api.refuel_ship(String::from("SHIP-1"), Some(300)),
        post_json(
            "https://api.spacetraders.io/v2/my/ships/SHIP-1/refuel",
            vec![pair("units", "300")]
        )
    );
    assert_eq!(
        api.refuel_ship(String::from("SHIP-1"), Some(-5)),
        post_json(
            "https://api.spacetraders.io/v2/my/ships/SHIP-1/refuel",
            vec![pair("units", "-5")]
        )
    );
    assert_eq!(
        api.refuel_ship(String::from("SHIP-1"), None),
        post_json("https://api.spacetraders.io/v2/my/ships/SHIP-1/refuel", vec![])
    );
}

#[test]
fn extraction_with_and_without_a_survey() {
    let user = session();
    let api = Api::new(&user, None);
    assert_eq!(
        api.extract_resource(String::from("SHIP-1"), None),
        post_json("https://api.spacetraders.io/v2/my/ships/SHIP-1/extract", vec![])
    );
    assert_eq!(
        api.extract_resource(String::from("SHIP-1"), Some(String::from("{\"signature\":\"s\"}"))),
        post_json(
            "https://api.spacetraders.io/v2/my/ships/SHIP-1/extract",
            vec![pair("survey", "{\"signature\":\"s\"}")]
        )
    );
}

#[test]
fn home_system_of_the_session() {
    let user = session();
    let api = Api::new(&user, None);
    assert_eq!(api.home_system(), "X1-AB23");
}

#[test]
fn names_of_goods_and_ship_types() {
    assert_eq!(TradeSymbol::PRECIOUS_STONES.to_string(), "PRECIOUS_STONES");
    assert_eq!(TradeSymbol::MOUNT_TURRET_I.to_string(), "MOUNT_TURRET_I");
    assert_eq!(TradeSymbol::FUEL.as_str(), "FUEL");
    assert_eq!(ShipType::SHIP_PROBE.to_string(), "SHIP_PROBE");
    assert_eq!(ShipType::SHIP_REFINING_FREIGHTER.as_str(), "SHIP_REFINING_FREIGHTER");
}

#[test]
fn names_are_the_identifiers_of_the_variants() {
    let goods = [
        TradeSymbol::PRECIOUS_STONES,
        TradeSymbol::QUARTZ_SAND,
        TradeSymbol::SILICON_CRYSTALS,
        TradeSymbol::AMMONIA_ICE,
        TradeSymbol::LIQUID_HYDROGEN,
        TradeSymbol::LIQUID_NITROGEN,
        TradeSymbol::ICE_WATER,
        TradeSymbol::EXOTIC_MATTER,
        TradeSymbol::ADVANCED_CIRCUITRY,
        TradeSymbol::GRAVITON_EMITTERS,
        TradeSymbol::IRON,
        TradeSymbol::IRON_ORE,
        TradeSymbol::COPPER,
        TradeSymbol::COPPER_ORE,
        TradeSymbol::ALUMINUM,
        TradeSymbol::ALUMINUM_ORE,
        TradeSymbol::SILVER,
        TradeSymbol::SILVER_ORE,
        TradeSymbol::GOLD,
        TradeSymbol::GOLD_ORE,
        TradeSymbol::PLATINUM,
        TradeSymbol::PLATINUM_ORE,
        TradeSymbol::DIAMONDS,
        TradeSymbol::URANITE,
        TradeSymbol::URANITE_ORE,
        TradeSymbol::MERITIUM,
        TradeSymbol::MERITIUM_ORE,
        TradeSymbol::HYDROCARBON,
        TradeSymbol::ANTIMATTER,
        TradeSymbol::FERTILIZERS,
        TradeSymbol::FABRICS,
        TradeSymbol::FOOD,
        TradeSymbol::JEWELRY,
        TradeSymbol::MACHINERY,
        TradeSymbol::FIREARMS,
        TradeSymbol::ASSAULT_RIFLES,
        TradeSymbol::MILITARY_EQUIPMENT,
        TradeSymbol::EXPLOSIVES,
        TradeSymbol::LAB_INSTRUMENTS,
        TradeSymbol::AMMUNITION,
        TradeSymbol::ELECTRONICS,
        TradeSymbol::SHIP_PLATING,
        TradeSymbol::EQUIPMENT,
        TradeSymbol::FUEL,
        TradeSymbol::MEDICINE,
        TradeSymbol::DRUGS,
        TradeSymbol::CLOTHING,
        TradeSymbol::MICROPROCESSORS,
        TradeSymbol::PLASTICS,
        TradeSymbol::POLYNUCLEOTIDES,
        TradeSymbol::BIOCOMPOSITES,
        TradeSymbol::NANOBOTS,
        TradeSymbol::AI_MAINFRAMES,
        TradeSymbol::QUANTUM_DRIVES,
        TradeSymbol::ROBOTIC_DRONES,
        TradeSymbol::CYBER_IMPLANTS,
        TradeSymbol::GENE_THERAPEUTICS,
        TradeSymbol::NEURAL_CHIPS,
        TradeSymbol::MOOD_REGULATORS,
        TradeSymbol::VIRAL_AGENTS,
        TradeSymbol::MICRO_FUSION_GENERATORS,
        TradeSymbol::SUPERGRAINS,
        TradeSymbol::LASER_RIFLES,
        TradeSymbol::HOLOGRAPHICS,
        TradeSymbol::SHIP_SALVAGE,
        TradeSymbol::RELIC_TECH,
        TradeSymbol::NOVEL_LIFEFORMS,
        TradeSymbol::BOTANICAL_SPECIMENS,
        TradeSymbol::CULTURAL_ARTIFACTS,
        TradeSymbol::REACTOR_SOLAR_I,
        TradeSymbol::REACTOR_FUSION_I,
        TradeSymbol::REACTOR_FISSION_I,
        TradeSymbol::REACTOR_CHEMICAL_I,
        TradeSymbol::REACTOR_ANTIMATTER_I,
        TradeSymbol::ENGINE_IMPULSE_DRIVE_I,
        TradeSymbol::ENGINE_ION_DRIVE_I,
        TradeSymbol::ENGINE_ION_DRIVE_II,
        TradeSymbol::ENGINE_HYPER_DRIVE_I,
        TradeSymbol::MODULE_MINERAL_PROCESSOR_I,
        TradeSymbol::MODULE_CARGO_HOLD_I,
        TradeSymbol::MODULE_CREW_QUARTERS_I,
        TradeSymbol::MODULE_ENVOY_QUARTERS_I,
        TradeSymbol::MODULE_PASSENGER_CABIN_I,
        TradeSymbol::MODULE_MICRO_REFINERY_I,
        TradeSymbol::MODULE_ORE_REFINERY_I,
        TradeSymbol::MODULE_FUEL_REFINERY_I,
        TradeSymbol::MODULE_SCIENCE_LAB_I,
        TradeSymbol::MODULE_JUMP_DRIVE_I,
        TradeSymbol::MODULE_JUMP_DRIVE_II,
        TradeSymbol::MODULE_JUMP_DRIVE_III,
        TradeSymbol::MODULE_WARP_DRIVE_I,
        TradeSymbol::MODULE_WARP_DRIVE_II,
        TradeSymbol::MODULE_WARP_DRIVE_III,
        TradeSymbol::MODULE_SHIELD_GENERATOR_I,
        TradeSymbol::MODULE_SHIELD_GENERATOR_II,
        TradeSymbol::MOUNT_GAS_SIPHON_I,
        TradeSymbol::MOUNT_GAS_SIPHON_II,
        TradeSymbol::MOUNT_GAS_SIPHON_III,
        TradeSymbol::MOUNT_SURVEYOR_I,
        TradeSymbol::MOUNT_SURVEYOR_II,
        TradeSymbol::MOUNT_SURVEYOR_III,
        TradeSymbol::MOUNT_SENSOR_ARRAY_I,
        TradeSymbol::MOUNT_SENSOR_ARRAY_II,
        TradeSymbol::MOUNT_SENSOR_ARRAY_III,
        TradeSymbol::MOUNT_MINING_LASER_I,
        TradeSymbol::MOUNT_MINING_LASER_II,
        TradeSymbol::MOUNT_MINING_LASER_III,
        TradeSymbol::MOUNT_LASER_CANNON_I,
        TradeSymbol::MOUNT_MISSILE_LAUNCHER_I,
        TradeSymbol::MOUNT_TURRET_I,
    ];
    assert_eq!(goods.len(), 110);
    for good in goods {
        assert_eq!(good.to_string(), format!("{:?}", good));
    }
    let types = [
        ShipType::SHIP_PROBE,
        ShipType::SHIP_MINING_DRONE,
        ShipType::SHIP_INTERCEPTOR,
        ShipType::SHIP_LIGHT_HAULER,
        ShipType::SHIP_COMMAND_FRIGATE,
        ShipType::SHIP_EXPLORER,
        ShipType::SHIP_HEAVY_FREIGHTER,
        ShipType::SHIP_LIGHT_SHUTTLE,
        ShipType::SHIP_ORE_HOUND,
        ShipType::SHIP_REFINING_FREIGHTER,
    ];
    for ship_type in types {
        assert_eq!(ship_type.to_string(), format!("{:?}", ship_type));
    }
}

fn every_request(api: &Api) -> Vec<Request> {
    let ship = || String::from("SHIP-1");
    let contract = || String::from("c1");
    let system = || String::from("X1-AB23");
    let waypoint = || String::from("X1-AB23-C4");
    vec![
        api.fetch_agent_info(),
        api.fetch_contracts(),
        api.accept_contract(contract()),
        api.deliver_contract_goods(ship(), contract(), TradeSymbol::FOOD, 1),
        api.fulfill_contract(contract()),
        api.get_waypoint(system(), waypoint()),
        api.list_waypoints(system()),
        api.get_market(system(), waypoint()),
        api.get_shipyard_for_waypoint(system(), waypoint()),
        api.list_ships(),
        api.purchase_ship(ShipType::SHIP_PROBE, waypoint()),
        api.get_ship_status(ship()),
        api.orbit_ship(ship()),
        api.dock_ship(ship()),
        api.get_ship_nav_status(ship()),
        api.navigate_ship(ship(), waypoint()),
        api.refuel_ship(ship(), None),
        api.extract_resource(ship(), None),
        api.create_survey(ship()),
        api.get_ship_cargo(ship()),
        api.sell_ship_cargo(ship(), TradeSymbol::FOOD, 1),
    ]
}

#[test]
fn every_request_but_the_registration_carries_the_token() {
    let user = session();
    let api = Api::new(&user, None);
    for request in every_request(&api) {
        assert_eq!(request.bearer, Some(String::from("fake_token")), "{}", request.url);
    }
    assert_eq!(api.register_player(String::from("A"), String::from("B")).bearer, None);
}

#[test]
fn every_url_begins_with_the_base_url() {
    let user = session();
    let api = Api::new(&user, Some(String::from("http://localhost:8080/v2")));
    let mut requests = every_request(&api);
    requests.push(api.register_player(String::from("A"), String::from("B")));
    assert_eq!(requests.len(), 22);
    for request in requests {
        assert!(request.url.starts_with("http://localhost:8080/v2/"), "{}", request.url);
    }
}

#[test]
fn a_post_has_a_body_or_announces_that_it_has_none() {
    let user = session();
    let api = Api::new(&user, None);
    let mut requests = every_request(&api);
    requests.push(api.register_player(String::from("A"), String::from("B")));
    for request in requests {
        match (request.method, &request.body) {
            (Method::Get, body) => {
                assert_eq!(*body, None, "{}", request.url);
                assert_eq!(request.headers, vec![], "{}", request.url);
            }
            (Method::Post, Some(_)) => assert_eq!(request.headers, vec![], "{}", request.url),
            (Method::Post, None) => {
                assert_eq!(request.headers.last(), Some(&pair("Content-Length", "0")))
            }
        }
    }
}
