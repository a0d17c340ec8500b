//! The records that the server sends and receives.
//!
//! Apart from an agent's home symbol, which names its sector, system and
//! waypoint, these are plain data: each lives for one request and one reply.

use crate::symbol::{components, split_components, DELIMITER};
use vstd::prelude::*;

verus! {

/// A player's persistent profile.
#[derive(Debug, PartialEq)]
pub struct Agent {
    pub symbol: String,
    pub headquarters: String,
    pub credits: i32,
    pub starting_faction: String,
    pub ship_count: Option<i32>,
}

/// What the server returns for a registration: the new agent and its bearer token.
#[derive(Debug, Clone, PartialEq)]
pub struct RegisterResponse {
    pub token: String,
    pub agent: Agent,
}

/// The contracts of the agent, as the contract listing returns them.
pub type MyContractsResponse = Vec<Contract>;

/// The payload of an accepted contract.
#[derive(Debug, Clone, PartialEq)]
pub struct AcceptContractResponse {
    pub agent: Agent,
    pub contract: Contract,
}

/// The payload of a ship purchase.
#[derive(Debug, Clone, PartialEq)]
pub struct PurchaseShipResponse {
    pub agent: Agent,
    pub ship: Ship,
    pub transaction: Transaction,
}

/// The payload of a move into orbit.
#[derive(Debug, Clone, PartialEq)]
pub struct ShipOrbitResponse {
    pub nav: ShipNav,
}

/// The payload of a navigation order.
#[derive(Debug, Clone, PartialEq)]
pub struct ShipNavigateResponse {
    pub fuel: ShipFuel,
    pub nav: ShipNav,
}

/// The payload of a docking.
#[derive(Debug, Clone, PartialEq)]
pub struct ShipDockResponse {
    pub nav: ShipNav,
}

/// The payload of a refuelling.
#[derive(Debug, Clone, PartialEq)]
pub struct ShipRefuelResponse {
    pub agent: Agent,
    pub fuel: ShipFuel,
    pub transaction: MarketTransaction,
}

/// The payload of an extraction.
#[derive(Debug, Clone, PartialEq)]
pub struct ExtractResourceResponse {
    pub cooldown: Cooldown,
    pub extraction: Extraction,
    pub cargo: ShipCargo,
}

/// The payload of a survey: the deposits found, and the pause that follows.
#[derive(Debug, Clone, PartialEq)]
pub struct CreateSurveyResponse {
    pub cooldown: Cooldown,
    pub surveys: Vec<Survey>,
}

/// The payload of a cargo sale.
#[derive(Debug, Clone, PartialEq)]
pub struct SellCargoResponse {
    pub agent: Agent,
    pub cargo: ShipCargo,
    pub transaction: MarketTransaction,
}

/// The payload of a delivery towards a contract.
#[derive(Debug, Clone, PartialEq)]
pub struct DeliverCargoResponse {
    pub cargo: ShipCargo,
    pub contract: Contract,
}

/// The payload of a fulfilled contract.
#[derive(Debug, Clone, PartialEq)]
pub struct FulfillContractResponse {
    pub agent: Agent,
    pub contract: Contract,
}

/// A delivery obligation issued by the server, with its payment terms.
#[derive(Debug, Clone, PartialEq)]
pub struct Contract {
    pub id: String,
    pub faction_symbol: String,
    pub contract_type: String,
    pub terms: ContractTerms,
    pub accepted: bool,
    pub fulfilled: bool,
    pub expiration: String,
    pub deadline_to_accept: String,
}

/// What a contract asks for and what it pays.
#[derive(Debug, Clone, PartialEq)]
pub struct ContractTerms {
    pub deadline: String,
    pub payment: PaymentTerms,
    pub deliver: Vec<DeliverTerms>,
}

/// The credits paid on acceptance and on fulfilment of a contract.
#[derive(Debug, Clone, PartialEq)]
pub struct PaymentTerms {
    pub on_accepted: i32,
    pub on_fulfilled: i32,
}

/// One good that a contract wants delivered, and how much of it has arrived.
#[derive(Debug, Clone, PartialEq)]
pub struct DeliverTerms {
    pub trade_symbol: String,
    pub destination_symbol: String,
    pub units_required: i32,
    pub units_fulfilled: i32,
}

/// A location within a star system.
#[derive(Debug, Clone, PartialEq)]
pub struct Waypoint {
    pub symbol: String,
    pub waypoint_type: WaypointType,
    pub system_symbol: String,
    pub x: i32,
    pub y: i32,
    pub orbitals: Vec<Orbital>,
    pub faction: Faction,
    pub traits: Vec<WaypointTrait>,
    pub chart: Chart,
}

/// The kinds of waypoint.
#[derive(Debug, Clone, Copy, PartialEq, Eq, Structural)]
pub enum WaypointType {
    PLANET,
    GAS_GIANT,
    MOON,
    ORBITAL_STATION,
    JUMP_GATE,
    ASTEROID_FIELD,
    NEBULA,
    DEBRIS_FIELD,
    GRAVITY_WELL,
}

/// A waypoint that orbits another.
#[derive(Debug, Clone, PartialEq)]
pub struct Orbital {
    pub symbol: String,
}

/// The faction that controls a waypoint.
#[derive(Debug, Clone, PartialEq)]
pub struct Faction {
    pub symbol: String,
}

/// Who charted a waypoint, and when.
#[derive(Debug, Clone, PartialEq)]
pub struct Chart {
    pub waypoint_symbol: Option<String>,
    pub submitted_by: String,
    pub submitted_on: String,
}

/// A tag that describes a facility or a condition of a waypoint.
#[derive(Debug, Clone, PartialEq)]
pub struct WaypointTrait {
    pub symbol: WaypointTraitSymbol,
    pub name: String,
    pub description: String,
}

/// The closed set of waypoint traits.
#[derive(Debug, Clone, Copy, PartialEq, Eq, Structural, PartialOrd, Ord)]
pub enum WaypointTraitSymbol {
    UNCHARTED,
    MARKETPLACE,
    SHIPYARD,
    OUTPOST,
    OVERCROWDED,
    CORRUPT,
    BUREAUCRATIC,
    INDUSTRIAL,
    JOVIAN,
    ROCKY,
    VOLCANIC,
    FROZEN,
    SWAMP,
    BARREN,
    TEMPERATE,
    JUNGLE,
    OCEAN,
    STRIPPED,
    TOXIC_ATMOSPHERE,
    SCATTERED_SETTLEMENTS,
    SPRAWLING_CITIES,
    MEGA_STRUCTURES,
    HIGH_TECH,
    TRADING_HUB,
    BLACK_MARKET,
    RESEARCH_FACILITY,
    MILITARY_BASE,
    SURVEILLANCE_OUTPOST,
    EXPLORATION_OUTPOST,
    MINERAL_DEPOSITS,
    COMMON_METAL_DEPOSITS,
    PRECIOUS_METAL_DEPOSITS,
    RARE_METAL_DEPOSITS,
    METHANE_POOLS,
    ICE_CRYSTALS,
    EXPLOSIVE_GASES,
    STRONG_MAGNETOSPHERE,
    VIBRANT_AURORAS,
    SALT_FLATS,
    CANYONS,
    PERPETUAL_DAYLIGHT,
    PERPETUAL_OVERCAST,
    DRY_SEABEDS,
    MAGMA_SEAS,
    SUPERVOLCANOES,
    ASH_CLOUDS,
    VAST_RUINS,
    MUTATED_FLORA,
    TERRAFORMED,
    EXTREME_TEMPERATURES,
    EXTREME_PRESSURE,
    DIVERSE_LIFE,
    SCARCE_LIFE,
    FOSSILS,
    WEAK_GRAVITY,
    STRONG_GRAVITY,
    CRUSHING_GRAVITY,
    CORROSIVE_ATMOSPHERE,
    BREATHABLE_ATMOSPHERE,
}

/// The ship types that a shipyard sells.
#[derive(Debug, Clone, Copy, PartialEq, Eq, Structural)]
pub enum ShipType {
    SHIP_PROBE,
    SHIP_MINING_DRONE,
    SHIP_INTERCEPTOR,
    SHIP_LIGHT_HAULER,
    SHIP_COMMAND_FRIGATE,
    SHIP_EXPLORER,
    SHIP_HEAVY_FREIGHTER,
    SHIP_LIGHT_SHUTTLE,
    SHIP_ORE_HOUND,
    SHIP_REFINING_FREIGHTER,
}

/// A ship of the agent's fleet.
#[derive(Debug, Clone, PartialEq)]
pub struct Ship {
    pub symbol: String,
    pub registration: ShipRegistration,
    pub nav: ShipNav,
    pub crew: ShipCrew,
    pub frame: ShipFrame,
    pub reactor: ShipReactor,
    pub engine: ShipEngine,
    pub modules: Vec<ShipModule>,
    pub mounts: Vec<ShipMount>,
    pub cargo: ShipCargo,
    pub fuel: ShipFuel,
}

/// The public registration of a ship.
#[derive(Debug, Clone, PartialEq)]
pub struct ShipRegistration {
    pub name: String,
    pub faction_symbol: String,
    pub role: ShipRole,
}

/// The roles a ship can be registered for.
#[derive(Debug, Clone, Copy, PartialEq, Eq, Structural)]
pub enum ShipRole {
    FABRICATOR,
    HARVESTOR,
    HAULER,
    INTERCEPTOR,
    EXCAVATOR,
    TRANSPORT,
    REPAIR,
    SURVEYOR,
    COMMAND,
    CARRIER,
    PATROL,
    SATELLITE,
    EXPLORER,
    REFINERY,
}

/// Where a ship is and where it is heading.
#[derive(Debug, Clone, PartialEq)]
pub struct ShipNav {
    pub system_symbol: String,
    pub waypoint_symbol: String,
    pub route: ShipNavRoute,
    pub status: ShipNavStatus,
    pub flight_mode: ShipNavFlightMode,
}

/// The route a ship is on, or the one it last completed.
#[derive(Debug, Clone, PartialEq)]
pub struct ShipNavRoute {
    pub destination: ShipNavRouteWaypoint,
    pub departure: ShipNavRouteWaypoint,
    pub departure_time: String,
    pub arrival: String,
}

/// Whether a ship is under way, in orbit or docked.
#[derive(Debug, Clone, Copy, PartialEq, Eq, Structural)]
pub enum ShipNavStatus {
    IN_TRANSIT,
    IN_ORBIT,
    DOCKED,
}

/// How a ship trades speed against fuel.
#[derive(Debug, Clone, Copy, PartialEq, Eq, Structural)]
pub enum ShipNavFlightMode {
    DRIFT,
    STEALTH,
    CRUISE,
    BURN,
}

/// An end point of a route.
#[derive(Debug, Clone, PartialEq)]
pub struct ShipNavRouteWaypoint {
    pub symbol: String,
    pub waypoint_type: WaypointType,
    pub system_symbol: String,
    pub x: i32,
    pub y: i32,
}

/// The crew of a ship.
#[derive(Debug, Clone, PartialEq)]
pub struct ShipCrew {
    pub current: i32,
    pub required: i32,
    pub capacity: i32,
    pub rotation: CrewRotation,
    pub morale: i32,
    pub wages: i32,
}

/// The shift regime of a crew.
#[derive(Debug, Clone, Copy, PartialEq, Eq, Structural)]
pub enum CrewRotation {
    STRICT,
    RELAXED,
}

/// The frame of a ship.
#[derive(Debug, Clone, PartialEq)]
pub struct ShipFrame {
    pub symbol: ShipFrameSymbol,
    pub name: String,
    pub description: String,
    pub condition: Option<i32>,
    pub module_slots: i32,
    pub mounting_points: i32,
    pub fuel_capacity: i32,
    pub requirements: ShipRequirements,
}

/// The frames a ship can be built on.
#[derive(Debug, Clone, Copy, PartialEq, Eq, Structural)]
pub enum ShipFrameSymbol {
    FRAME_PROBE,
    FRAME_DRONE,
    FRAME_INTERCEPTOR,
    FRAME_RACER,
    FRAME_FIGHTER,
    FRAME_FRIGATE,
    FRAME_SHUTTLE,
    FRAME_EXPLORER,
    FRAME_MINER,
    FRAME_LIGHT_FREIGHTER,
    FRAME_HEAVY_FREIGHTER,
    FRAME_TRANSPORT,
    FRAME_DESTROYER,
    FRAME_CRUISER,
    FRAME_CARRIER,
}

/// What a component needs from the ship that carries it.
#[derive(Debug, Clone, PartialEq)]
pub struct ShipRequirements {
    pub power: Option<i32>,
    pub crew: Option<i32>,
    pub slots: Option<i32>,
}

/// The reactor of a ship.
#[derive(Debug, Clone, PartialEq)]
pub struct ShipReactor {
    pub symbol: ShipReactorSymbol,
    pub name: String,
    pub description: String,
    pub condition: Option<i32>,
    pub power_output: i32,
    pub requirements: ShipRequirements,
}

/// The reactors a ship can carry.
#[derive(Debug, Clone, Copy, PartialEq, Eq, Structural)]
pub enum ShipReactorSymbol {
    REACTOR_SOLAR_I,
    REACTOR_FUSION_I,
    REACTOR_FISSION_I,
    REACTOR_CHEMICAL_I,
    REACTOR_ANTIMATTER_I,
}

/// The engine of a ship.
#[derive(Debug, Clone, PartialEq)]
pub struct ShipEngine {
    pub symbol: ShipEngineSymbol,
    pub name: String,
    pub description: String,
    pub condition: Option<i32>,
    pub speed: i32,
    pub requirements: ShipRequirements,
}

/// The engines a ship can carry.
#[derive(Debug, Clone, Copy, PartialEq, Eq, Structural)]
pub enum ShipEngineSymbol {
    ENGINE_IMPULSE_DRIVE_I,
    ENGINE_ION_DRIVE_I,
    ENGINE_ION_DRIVE_II,
    ENGINE_HYPER_DRIVE_I,
}

/// A module installed in a ship.
#[derive(Debug, Clone, PartialEq)]
pub struct ShipModule {
    pub symbol: ShipModuleSymbol,
    pub capacity: Option<i32>,
    pub range: Option<i32>,
    pub name: String,
    pub description: String,
    pub requirements: ShipRequirements,
}

/// The modules a ship can carry.
#[derive(Debug, Clone, Copy, PartialEq, Eq, Structural)]
pub enum ShipModuleSymbol {
    MODULE_MINERAL_PROCESSOR_I,
    MODULE_CARGO_HOLD_I,
    MODULE_CREW_QUARTERS_I,
    MODULE_ENVOY_QUARTERS_I,
    MODULE_PASSENGER_CABIN_I,
    MODULE_MICRO_REFINERY_I,
    MODULE_ORE_REFINERY_I,
    MODULE_FUEL_REFINERY_I,
    MODULE_SCIENCE_LAB_I,
    MODULE_JUMP_DRIVE_I,
    MODULE_JUMP_DRIVE_II,
    MODULE_JUMP_DRIVE_III,
    MODULE_WARP_DRIVE_I,
    MODULE_WARP_DRIVE_II,
    MODULE_WARP_DRIVE_III,
    MODULE_SHIELD_GENERATOR_I,
    MODULE_SHIELD_GENERATOR_II,
}

/// A mount installed on a ship.
#[derive(Debug, Clone, PartialEq)]
pub struct ShipMount {
    pub symbol: ShipMountSymbol,
    pub name: String,
    pub description: Option<String>,
    pub strength: Option<i32>,
    pub deposits: Option<Vec<Deposit>>,
    pub requirements: ShipRequirements,
}

/// The mounts a ship can carry.
#[derive(Debug, Clone, Copy, PartialEq, Eq, Structural)]
pub enum ShipMountSymbol {
    MOUNT_GAS_SIPHON_I,
    MOUNT_GAS_SIPHON_II,
    MOUNT_GAS_SIPHON_III,
    MOUNT_SURVEYOR_I,
    MOUNT_SURVEYOR_II,
    MOUNT_SURVEYOR_III,
    MOUNT_SENSOR_ARRAY_I,
    MOUNT_SENSOR_ARRAY_II,
    MOUNT_SENSOR_ARRAY_III,
    MOUNT_MINING_LASER_I,
    MOUNT_MINING_LASER_II,
    MOUNT_MINING_LASER_III,
    MOUNT_LASER_CANNON_I,
    MOUNT_MISSILE_LAUNCHER_I,
    MOUNT_TURRET_I,
}

/// The raw materials that a survey or a mount can name.
#[derive(Debug, Clone, Copy, PartialEq, Eq, Structural)]
pub enum Deposit {
    QUARTZ_SAND,
    SILICON_CRYSTALS,
    PRECIOUS_STONES,
    ICE_WATER,
    AMMONIA_ICE,
    IRON_ORE,
    COPPER_ORE,
    SILVER_ORE,
    ALUMINUM_ORE,
    GOLD_ORE,
    PLATINUM_ORE,
    DIAMONDS,
    URANITE_ORE,
    MERITIUM_ORE,
}

/// The cargo hold of a ship.
#[derive(Debug, Clone, PartialEq)]
pub struct ShipCargo {
    pub capacity: i32,
    pub units: i32,
    pub inventory: Vec<Inventory>,
}

/// One good in a cargo hold.
#[derive(Debug, Clone, PartialEq)]
pub struct Inventory {
    pub symbol: String,
    pub name: String,
    pub description: String,
    pub units: i32,
}

/// The fuel tank of a ship.
#[derive(Debug, Clone, PartialEq)]
pub struct ShipFuel {
    pub current: i32,
    pub capacity: i32,
    pub consumed: Option<Consumed>,
}

/// The fuel a ship burnt on its last transit.
#[derive(Debug, Clone, PartialEq)]
pub struct Consumed {
    pub amount: i32,
    pub timestamp: String,
}

/// A ship bought by an agent.
#[derive(Debug, Clone, PartialEq)]
pub struct Transaction {
    pub waypoint_symbol: String,
    pub ship_symbol: String,
    pub price: i32,
    pub agent_symbol: String,
    pub timestamp: String,
}

/// A trade made at a market.
#[derive(Debug, Clone, PartialEq)]
pub struct MarketTransaction {
    pub waypoint_symbol: String,
    pub ship_symbol: String,
    pub trade_symbol: String,
    pub transaction_type: MarketTransactionType,
    pub units: i32,
    pub price_per_unit: i32,
    pub total_price: i32,
    pub timestamp: String,
}

/// The side of a market trade.
#[derive(Debug, Clone, Copy, PartialEq, Eq, Structural)]
pub enum MarketTransactionType {
    PURCHASE,
    SELL,
}

/// The pause a ship must keep before it acts again.
#[derive(Debug, Clone, PartialEq)]
pub struct Cooldown {
    pub ship_symbol: String,
    pub total_seconds: i32,
    pub remaining_seconds: i32,
    pub expiration: String,
}

/// The outcome of one extraction.
#[derive(Debug, Clone, PartialEq)]
pub struct Extraction {
    pub ship_symbol: String,
    pub extraction_yield: ExtractionYield,
}

/// The good and the units that an extraction gave.
#[derive(Debug, Clone, PartialEq)]
pub struct ExtractionYield {
    pub symbol: TradeSymbol,
    pub units: i32,
}

/// The closed set of goods that markets trade.
#[derive(Debug, Clone, Copy, PartialEq, Eq, Structural)]
pub enum TradeSymbol {
    PRECIOUS_STONES,
    QUARTZ_SAND,
    SILICON_CRYSTALS,
    AMMONIA_ICE,
    LIQUID_HYDROGEN,
    LIQUID_NITROGEN,
    ICE_WATER,
    EXOTIC_MATTER,
    ADVANCED_CIRCUITRY,
    GRAVITON_EMITTERS,
    IRON,
    IRON_ORE,
    COPPER,
    COPPER_ORE,
    ALUMINUM,
    ALUMINUM_ORE,
    SILVER,
    SILVER_ORE,
    GOLD,
    GOLD_ORE,
    PLATINUM,
    PLATINUM_ORE,
    DIAMONDS,
    URANITE,
    URANITE_ORE,
    MERITIUM,
    MERITIUM_ORE,
    HYDROCARBON,
    ANTIMATTER,
    FERTILIZERS,
    FABRICS,
    FOOD,
    JEWELRY,
    MACHINERY,
    FIREARMS,
    ASSAULT_RIFLES,
    MILITARY_EQUIPMENT,
    EXPLOSIVES,
    LAB_INSTRUMENTS,
    AMMUNITION,
    ELECTRONICS,
    SHIP_PLATING,
    EQUIPMENT,
    FUEL,
    MEDICINE,
    DRUGS,
    CLOTHING,
    MICROPROCESSORS,
    PLASTICS,
    POLYNUCLEOTIDES,
    BIOCOMPOSITES,
    NANOBOTS,
    AI_MAINFRAMES,
    QUANTUM_DRIVES,
    ROBOTIC_DRONES,
    CYBER_IMPLANTS,
    GENE_THERAPEUTICS,
    NEURAL_CHIPS,
    MOOD_REGULATORS,
    VIRAL_AGENTS,
    MICRO_FUSION_GENERATORS,
    SUPERGRAINS,
    LASER_RIFLES,
    HOLOGRAPHICS,
    SHIP_SALVAGE,
    RELIC_TECH,
    NOVEL_LIFEFORMS,
    BOTANICAL_SPECIMENS,
    CULTURAL_ARTIFACTS,
    REACTOR_SOLAR_I,
    REACTOR_FUSION_I,
    REACTOR_FISSION_I,
    REACTOR_CHEMICAL_I,
    REACTOR_ANTIMATTER_I,
    ENGINE_IMPULSE_DRIVE_I,
    ENGINE_ION_DRIVE_I,
    ENGINE_ION_DRIVE_II,
    ENGINE_HYPER_DRIVE_I,
    MODULE_MINERAL_PROCESSOR_I,
    MODULE_CARGO_HOLD_I,
    MODULE_CREW_QUARTERS_I,
    MODULE_ENVOY_QUARTERS_I,
    MODULE_PASSENGER_CABIN_I,
    MODULE_MICRO_REFINERY_I,
    MODULE_ORE_REFINERY_I,
    MODULE_FUEL_REFINERY_I,
    MODULE_SCIENCE_LAB_I,
    MODULE_JUMP_DRIVE_I,
    MODULE_JUMP_DRIVE_II,
    MODULE_JUMP_DRIVE_III,
    MODULE_WARP_DRIVE_I,
    MODULE_WARP_DRIVE_II,
    MODULE_WARP_DRIVE_III,
    MODULE_SHIELD_GENERATOR_I,
    MODULE_SHIELD_GENERATOR_II,
    MOUNT_GAS_SIPHON_I,
    MOUNT_GAS_SIPHON_II,
    MOUNT_GAS_SIPHON_III,
    MOUNT_SURVEYOR_I,
    MOUNT_SURVEYOR_II,
    MOUNT_SURVEYOR_III,
    MOUNT_SENSOR_ARRAY_I,
    MOUNT_SENSOR_ARRAY_II,
    MOUNT_SENSOR_ARRAY_III,
    MOUNT_MINING_LASER_I,
    MOUNT_MINING_LASER_II,
    MOUNT_MINING_LASER_III,
    MOUNT_LASER_CANNON_I,
    MOUNT_MISSILE_LAUNCHER_I,
    MOUNT_TURRET_I,
}

/// A time-limited hint at the deposits of a location.
#[derive(Debug, Clone, PartialEq)]
pub struct Survey {
    pub signature: String,
    pub symbol: String,
    pub deposits: Vec<SurveyDeposit>,
    pub expiration: String,
    pub size: DepositSize,
}

/// The size of a surveyed deposit.
#[derive(Debug, Clone, Copy, PartialEq, Eq, Structural)]
pub enum DepositSize {
    SMALL,
    MODERATE,
    LARGE,
}

/// One deposit named by a survey.
#[derive(Debug, Clone, PartialEq)]
pub struct SurveyDeposit {
    pub symbol: Deposit,
}

/// A market and what it trades.
#[derive(Debug, Clone, PartialEq)]
pub struct Market {
    pub symbol: String,
    pub exports: Vec<TradeGood>,
    pub imports: Vec<TradeGood>,
    pub exchange: Vec<TradeGood>,
    pub transactions: Vec<MarketTransaction>,
    pub trade_goods: Vec<MarketTradeGood>,
}

/// A good that a market imports, exports or exchanges.
#[derive(Debug, Clone, PartialEq)]
pub struct TradeGood {
    pub symbol: TradeSymbol,
    pub name: String,
    pub description: String,
}

/// The current price and supply of a good at a market.
#[derive(Debug, Clone, PartialEq)]
pub struct MarketTradeGood {
    pub symbol: String,
    pub trade_volume: u32,
    pub supply: Supply,
    pub purchase_price: u32,
    pub sell_price: u32,
}

/// How plentiful a good is at a market.
#[derive(Debug, Clone, Copy, PartialEq, Eq, Structural)]
pub enum Supply {
    SCARCE,
    LIMITED,
    MODERATE,
    ABUNDANT,
}

/// A shipyard and what it sells.
#[derive(Debug, Clone, PartialEq)]
pub struct Shipyard {
    pub symbol: String,
    pub ship_types: Vec<ShipyardShipTypes>,
    pub transactions: Vec<ShipyardTransaction>,
    pub ships: Vec<ShipyardShip>,
}

/// A sale made at a shipyard.
#[derive(Debug, Clone, PartialEq)]
pub struct ShipyardTransaction {
    pub waypoint_symbol: String,
    pub ship_symbol: String,
    pub price: u32,
    pub agent_symbol: String,
    pub timestamp: String,
}

/// A ship on offer at a shipyard.
#[derive(Debug, Clone, PartialEq)]
pub struct ShipyardShip {
    pub ship_type: ShipType,
    pub name: String,
    pub description: String,
    pub purchase_price: u32,
    pub frame: ShipFrame,
    pub reactor: ShipReactor,
    pub engine: ShipEngine,
    pub modules: Vec<ShipModule>,
    pub mounts: Vec<ShipMount>,
}

/// A ship type that a shipyard deals in.
#[derive(Debug, Clone, PartialEq)]
pub struct ShipyardShipTypes {
    pub ship_type: ShipType,
}

impl Clone for Agent {
    fn clone(&self) -> (copy: Self)
        ensures
            copy == *self,
    {
        Agent {
            symbol: self.symbol.clone(),
            headquarters: self.headquarters.clone(),
            credits: self.credits,
            starting_faction: self.starting_faction.clone(),
            ship_count: self.ship_count,
        }
    }
}

/// The system that a symbol lies in: its first two components, joined.
pub open spec fn system_of(symbol: Seq<char>) -> Seq<char> {
    components(symbol)[0] + seq![DELIMITER] + components(symbol)[1]
}

/// A symbol of three components is its system, a delimiter and its third
/// component; its system is its first component, a delimiter and its second.
/// So sector, system and location are stretches of the symbol itself.
pub proof fn lemma_symbol_decomposes(symbol: Seq<char>)
    requires
        components(symbol).len() == 3,
    ensures
        symbol == system_of(symbol) + seq![DELIMITER] + components(symbol)[2],
        components(symbol)[0].is_prefix_of(system_of(symbol)),
        system_of(symbol).is_prefix_of(symbol),
{
    let parts = components(symbol);
    crate::symbol::lemma_joined_components(symbol);
    let tail = parts.drop_first();
    assert(tail.drop_first() =~= seq![parts[2]]);
    assert(crate::symbol::joined(tail.drop_first()) == parts[2]);
    assert(crate::symbol::joined(tail) == parts[1] + seq![DELIMITER] + parts[2]);
    assert(symbol =~= system_of(symbol) + seq![DELIMITER] + parts[2]);
    assert(system_of(symbol).subrange(0, parts[0].len() as int) =~= parts[0]);
    assert(symbol.subrange(0, system_of(symbol).len() as int) =~= system_of(symbol));
}

/// The system part of a symbol that has one.
fn system_of_symbol(symbol: &str) -> (system: String)
    requires
        components(symbol@).len() >= 2,
    ensures
        system@ == system_of(symbol@),
{
    let parts = split_components(symbol);
    assert(parts.deep_view().len() == parts.len());
    assert(parts.deep_view()[0] == parts[0]@);
    assert(parts.deep_view()[1] == parts[1]@);
    proof {
        reveal_strlit("-");
        assert("-"@ == seq![DELIMITER]);
    }
    parts[0].clone().concat("-").concat(parts[1].as_str())
}

impl Agent {
    /// Whether the headquarters is a full waypoint symbol: exactly three
    /// components, which name sector, system and waypoint. The server sends no
    /// other; the derived fields below ask for no more of it than they read.
    pub open spec fn well_formed(self) -> bool {
        components(self.headquarters@).len() == 3
    }

    /// Whether the headquarters is a full waypoint symbol.
    pub fn is_well_formed(&self) -> (ok: bool)
        ensures
            ok == self.well_formed(),
    {
        crate::symbol::component_count(self.headquarters.as_str()) == 3
    }

    /// The sector of the agent's headquarters: the first component of its symbol.
    pub fn get_sector(&self) -> (sector: String)
        ensures
            sector@ == components(self.headquarters@)[0],
    {
        let parts = split_components(self.headquarters.as_str());
        assert(parts.deep_view()[0] == parts[0]@);
        parts[0].clone()
    }

    /// The system of the agent's headquarters: the first two components of its
    /// symbol, joined by the delimiter.
    pub fn get_system(&self) -> (system: String)
        requires
            components(self.headquarters@).len() >= 2,
        ensures
            system@ == system_of(self.headquarters@),
    {
        system_of_symbol(self.headquarters.as_str())
    }

    /// The waypoint of the agent's headquarters within its system: the third
    /// component of its symbol.
    pub fn get_location(&self) -> (location: String)
        requires
            components(self.headquarters@).len() >= 3,
        ensures
            location@ == components(self.headquarters@)[2],
    {
        let parts = split_components(self.headquarters.as_str());
        assert(parts.deep_view().len() == parts.len());
        assert(parts.deep_view()[2] == parts[2]@);
        parts[2].clone()
    }
}

impl Waypoint {
    /// Whether `symbol` is among the traits of the waypoint.
    pub open spec fn has_trait(self, symbol: WaypointTraitSymbol) -> bool {
        exists|i: int| 0 <= i < self.traits@.len() && (#[trigger] self.traits@[i]).symbol == symbol
    }

    /// Whether `symbol` is among the traits of the waypoint.
    pub fn carries_trait(&self, symbol: WaypointTraitSymbol) -> (found: bool)
        ensures
            found == self.has_trait(symbol),
    {
        let mut i: usize = 0;
        while i < self.traits.len()
            invariant
                i <= self.traits@.len(),
                forall|j: int| 0 <= j < i ==> (#[trigger] self.traits@[j]).symbol != symbol,
            decreases self.traits@.len() - i,
        {
            if self.traits[i].symbol == symbol {
                return true;
            }
            i = i + 1;
        }
        false
    }

    /// The system that the waypoint named `waypoint_symbol` lies in.
    pub fn get_system_id(waypoint_symbol: &str) -> (system: String)
        requires
            components(waypoint_symbol@).len() >= 2,
        ensures
            system@ == system_of(waypoint_symbol@),
    {
        system_of_symbol(waypoint_symbol)
    }
}

impl ShipType {
    /// The name of the ship type as the server spells it.
    pub open spec fn name(self) -> Seq<char> {
        match self {
            ShipType::SHIP_PROBE => "SHIP_PROBE"@,
            ShipType::SHIP_MINING_DRONE => "SHIP_MINING_DRONE"@,
            ShipType::SHIP_INTERCEPTOR => "SHIP_INTERCEPTOR"@,
            ShipType::SHIP_LIGHT_HAULER => "SHIP_LIGHT_HAULER"@,
            ShipType::SHIP_COMMAND_FRIGATE => "SHIP_COMMAND_FRIGATE"@,
            ShipType::SHIP_EXPLORER => "SHIP_EXPLORER"@,
            ShipType::SHIP_HEAVY_FREIGHTER => "SHIP_HEAVY_FREIGHTER"@,
            ShipType::SHIP_LIGHT_SHUTTLE => "SHIP_LIGHT_SHUTTLE"@,
            ShipType::SHIP_ORE_HOUND => "SHIP_ORE_HOUND"@,
            ShipType::SHIP_REFINING_FREIGHTER => "SHIP_REFINING_FREIGHTER"@,
        }
    }

    /// The name of the ship type as the server spells it.
    pub fn as_str(&self) -> (text: &'static str)
        ensures
            text@ == self.name(),
    {
        match self {
            ShipType::SHIP_PROBE => "SHIP_PROBE",
            ShipType::SHIP_MINING_DRONE => "SHIP_MINING_DRONE",
            ShipType::SHIP_INTERCEPTOR => "SHIP_INTERCEPTOR",
            ShipType::SHIP_LIGHT_HAULER => "SHIP_LIGHT_HAULER",
            ShipType::SHIP_COMMAND_FRIGATE => "SHIP_COMMAND_FRIGATE",
            ShipType::SHIP_EXPLORER => "SHIP_EXPLORER",
            ShipType::SHIP_HEAVY_FREIGHTER => "SHIP_HEAVY_FREIGHTER",
            ShipType::SHIP_LIGHT_SHUTTLE => "SHIP_LIGHT_SHUTTLE",
            ShipType::SHIP_ORE_HOUND => "SHIP_ORE_HOUND",
            ShipType::SHIP_REFINING_FREIGHTER => "SHIP_REFINING_FREIGHTER",
        }
    }

    /// The name of the ship type, owned.
    pub fn to_string(&self) -> (text: String)
        ensures
            text@ == self.name(),
    {
        self.as_str().to_owned()
    }
}

impl TradeSymbol {
    /// The name of the good as the server spells it.
    pub open spec fn name(self) -> Seq<char> {
        match self {
            TradeSymbol::PRECIOUS_STONES => "PRECIOUS_STONES"@,
            TradeSymbol::QUARTZ_SAND => "QUARTZ_SAND"@,
            TradeSymbol::SILICON_CRYSTALS => "SILICON_CRYSTALS"@,
            TradeSymbol::AMMONIA_ICE => "AMMONIA_ICE"@,
            TradeSymbol::LIQUID_HYDROGEN => "LIQUID_HYDROGEN"@,
            TradeSymbol::LIQUID_NITROGEN => "LIQUID_NITROGEN"@,
            TradeSymbol::ICE_WATER => "ICE_WATER"@,
            TradeSymbol::EXOTIC_MATTER => "EXOTIC_MATTER"@,
            TradeSymbol::ADVANCED_CIRCUITRY => "ADVANCED_CIRCUITRY"@,
            TradeSymbol::GRAVITON_EMITTERS => "GRAVITON_EMITTERS"@,
            TradeSymbol::IRON => "IRON"@,
            TradeSymbol::IRON_ORE => "IRON_ORE"@,
            TradeSymbol::COPPER => "COPPER"@,
            TradeSymbol::COPPER_ORE => "COPPER_ORE"@,
            TradeSymbol::ALUMINUM => "ALUMINUM"@,
            TradeSymbol::ALUMINUM_ORE => "ALUMINUM_ORE"@,
            TradeSymbol::SILVER => "SILVER"@,
            TradeSymbol::SILVER_ORE => "SILVER_ORE"@,
            TradeSymbol::GOLD => "GOLD"@,
            TradeSymbol::GOLD_ORE => "GOLD_ORE"@,
            TradeSymbol::PLATINUM => "PLATINUM"@,
            TradeSymbol::PLATINUM_ORE => "PLATINUM_ORE"@,
            TradeSymbol::DIAMONDS => "DIAMONDS"@,
            TradeSymbol::URANITE => "URANITE"@,
            TradeSymbol::URANITE_ORE => "URANITE_ORE"@,
            TradeSymbol::MERITIUM => "MERITIUM"@,
            TradeSymbol::MERITIUM_ORE => "MERITIUM_ORE"@,
            TradeSymbol::HYDROCARBON => "HYDROCARBON"@,
            TradeSymbol::ANTIMATTER => "ANTIMATTER"@,
            TradeSymbol::FERTILIZERS => "FERTILIZERS"@,
            TradeSymbol::FABRICS => "FABRICS"@,
            TradeSymbol::FOOD => "FOOD"@,
            TradeSymbol::JEWELRY => "JEWELRY"@,
            TradeSymbol::MACHINERY => "MACHINERY"@,
            TradeSymbol::FIREARMS => "FIREARMS"@,
            TradeSymbol::ASSAULT_RIFLES => "ASSAULT_RIFLES"@,
            TradeSymbol::MILITARY_EQUIPMENT => "MILITARY_EQUIPMENT"@,
            TradeSymbol::EXPLOSIVES => "EXPLOSIVES"@,
            TradeSymbol::LAB_INSTRUMENTS => "LAB_INSTRUMENTS"@,
            TradeSymbol::AMMUNITION => "AMMUNITION"@,
            TradeSymbol::ELECTRONICS => "ELECTRONICS"@,
            TradeSymbol::SHIP_PLATING => "SHIP_PLATING"@,
            TradeSymbol::EQUIPMENT => "EQUIPMENT"@,
            TradeSymbol::FUEL => "FUEL"@,
            TradeSymbol::MEDICINE => "MEDICINE"@,
            TradeSymbol::DRUGS => "DRUGS"@,
            TradeSymbol::CLOTHING => "CLOTHING"@,
            TradeSymbol::MICROPROCESSORS => "MICROPROCESSORS"@,
            TradeSymbol::PLASTICS => "PLASTICS"@,
            TradeSymbol::POLYNUCLEOTIDES => "POLYNUCLEOTIDES"@,
            TradeSymbol::BIOCOMPOSITES => "BIOCOMPOSITES"@,
            TradeSymbol::NANOBOTS => "NANOBOTS"@,
            TradeSymbol::AI_MAINFRAMES => "AI_MAINFRAMES"@,
            TradeSymbol::QUANTUM_DRIVES => "QUANTUM_DRIVES"@,
            TradeSymbol::ROBOTIC_DRONES => "ROBOTIC_DRONES"@,
            TradeSymbol::CYBER_IMPLANTS => "CYBER_IMPLANTS"@,
            TradeSymbol::GENE_THERAPEUTICS => "GENE_THERAPEUTICS"@,
            TradeSymbol::NEURAL_CHIPS => "NEURAL_CHIPS"@,
            TradeSymbol::MOOD_REGULATORS => "MOOD_REGULATORS"@,
            TradeSymbol::VIRAL_AGENTS => "VIRAL_AGENTS"@,
            TradeSymbol::MICRO_FUSION_GENERATORS => "MICRO_FUSION_GENERATORS"@,
            TradeSymbol::SUPERGRAINS => "SUPERGRAINS"@,
            TradeSymbol::LASER_RIFLES => "LASER_RIFLES"@,
            TradeSymbol::HOLOGRAPHICS => "HOLOGRAPHICS"@,
            TradeSymbol::SHIP_SALVAGE => "SHIP_SALVAGE"@,
            TradeSymbol::RELIC_TECH => "RELIC_TECH"@,
            TradeSymbol::NOVEL_LIFEFORMS => "NOVEL_LIFEFORMS"@,
            TradeSymbol::BOTANICAL_SPECIMENS => "BOTANICAL_SPECIMENS"@,
            TradeSymbol::CULTURAL_ARTIFACTS => "CULTURAL_ARTIFACTS"@,
            TradeSymbol::REACTOR_SOLAR_I => "REACTOR_SOLAR_I"@,
            TradeSymbol::REACTOR_FUSION_I => "REACTOR_FUSION_I"@,
            TradeSymbol::REACTOR_FISSION_I => "REACTOR_FISSION_I"@,
            TradeSymbol::REACTOR_CHEMICAL_I => "REACTOR_CHEMICAL_I"@,
            TradeSymbol::REACTOR_ANTIMATTER_I => "REACTOR_ANTIMATTER_I"@,
            TradeSymbol::ENGINE_IMPULSE_DRIVE_I => "ENGINE_IMPULSE_DRIVE_I"@,
            TradeSymbol::ENGINE_ION_DRIVE_I => "ENGINE_ION_DRIVE_I"@,
            TradeSymbol::ENGINE_ION_DRIVE_II => "ENGINE_ION_DRIVE_II"@,
            TradeSymbol::ENGINE_HYPER_DRIVE_I => "ENGINE_HYPER_DRIVE_I"@,
            TradeSymbol::MODULE_MINERAL_PROCESSOR_I => "MODULE_MINERAL_PROCESSOR_I"@,
            TradeSymbol::MODULE_CARGO_HOLD_I => "MODULE_CARGO_HOLD_I"@,
            TradeSymbol::MODULE_CREW_QUARTERS_I => "MODULE_CREW_QUARTERS_I"@,
            TradeSymbol::MODULE_ENVOY_QUARTERS_I => "MODULE_ENVOY_QUARTERS_I"@,
            TradeSymbol::MODULE_PASSENGER_CABIN_I => "MODULE_PASSENGER_CABIN_I"@,
            TradeSymbol::MODULE_MICRO_REFINERY_I => "MODULE_MICRO_REFINERY_I"@,
            TradeSymbol::MODULE_ORE_REFINERY_I => "MODULE_ORE_REFINERY_I"@,
            TradeSymbol::MODULE_FUEL_REFINERY_I => "MODULE_FUEL_REFINERY_I"@,
            TradeSymbol::MODULE_SCIENCE_LAB_I => "MODULE_SCIENCE_LAB_I"@,
            TradeSymbol::MODULE_JUMP_DRIVE_I => "MODULE_JUMP_DRIVE_I"@,
            TradeSymbol::MODULE_JUMP_DRIVE_II => "MODULE_JUMP_DRIVE_II"@,
            TradeSymbol::MODULE_JUMP_DRIVE_III => "MODULE_JUMP_DRIVE_III"@,
            TradeSymbol::MODULE_WARP_DRIVE_I => "MODULE_WARP_DRIVE_I"@,
            TradeSymbol::MODULE_WARP_DRIVE_II => "MODULE_WARP_DRIVE_II"@,
            TradeSymbol::MODULE_WARP_DRIVE_III => "MODULE_WARP_DRIVE_III"@,
            TradeSymbol::MODULE_SHIELD_GENERATOR_I => "MODULE_SHIELD_GENERATOR_I"@,
            TradeSymbol::MODULE_SHIELD_GENERATOR_II => "MODULE_SHIELD_GENERATOR_II"@,
            TradeSymbol::MOUNT_GAS_SIPHON_I => "MOUNT_GAS_SIPHON_I"@,
            TradeSymbol::MOUNT_GAS_SIPHON_II => "MOUNT_GAS_SIPHON_II"@,
            TradeSymbol::MOUNT_GAS_SIPHON_III => "MOUNT_GAS_SIPHON_III"@,
            TradeSymbol::MOUNT_SURVEYOR_I => "MOUNT_SURVEYOR_I"@,
            TradeSymbol::MOUNT_SURVEYOR_II => "MOUNT_SURVEYOR_II"@,
            TradeSymbol::MOUNT_SURVEYOR_III => "MOUNT_SURVEYOR_III"@,
            TradeSymbol::MOUNT_SENSOR_ARRAY_I => "MOUNT_SENSOR_ARRAY_I"@,
            TradeSymbol::MOUNT_SENSOR_ARRAY_II => "MOUNT_SENSOR_ARRAY_II"@,
            TradeSymbol::MOUNT_SENSOR_ARRAY_III => "MOUNT_SENSOR_ARRAY_III"@,
            TradeSymbol::MOUNT_MINING_LASER_I => "MOUNT_MINING_LASER_I"@,
            TradeSymbol::MOUNT_MINING_LASER_II => "MOUNT_MINING_LASER_II"@,
            TradeSymbol::MOUNT_MINING_LASER_III => "MOUNT_MINING_LASER_III"@,
            TradeSymbol::MOUNT_LASER_CANNON_I => "MOUNT_LASER_CANNON_I"@,
            TradeSymbol::MOUNT_MISSILE_LAUNCHER_I => "MOUNT_MISSILE_LAUNCHER_I"@,
            TradeSymbol::MOUNT_TURRET_I => "MOUNT_TURRET_I"@,
        }
    }

    /// The name of the good as the server spells it.
    pub fn as_str(&self) -> (text: &'static str)
        ensures
            text@ == self.name(),
    {
        match self {
            TradeSymbol::PRECIOUS_STONES => "PRECIOUS_STONES",
            TradeSymbol::QUARTZ_SAND => "QUARTZ_SAND",
            TradeSymbol::SILICON_CRYSTALS => "SILICON_CRYSTALS",
            TradeSymbol::AMMONIA_ICE => "AMMONIA_ICE",
            TradeSymbol::LIQUID_HYDROGEN => "LIQUID_HYDROGEN",
            TradeSymbol::LIQUID_NITROGEN => "LIQUID_NITROGEN",
            TradeSymbol::ICE_WATER => "ICE_WATER",
            TradeSymbol::EXOTIC_MATTER => "EXOTIC_MATTER",
            TradeSymbol::ADVANCED_CIRCUITRY => "ADVANCED_CIRCUITRY",
            TradeSymbol::GRAVITON_EMITTERS => "GRAVITON_EMITTERS",
            TradeSymbol::IRON => "IRON",
            TradeSymbol::IRON_ORE => "IRON_ORE",
            TradeSymbol::COPPER => "COPPER",
            TradeSymbol::COPPER_ORE => "COPPER_ORE",
            TradeSymbol::ALUMINUM => "ALUMINUM",
            TradeSymbol::ALUMINUM_ORE => "ALUMINUM_ORE",
            TradeSymbol::SILVER => "SILVER",
            TradeSymbol::SILVER_ORE => "SILVER_ORE",
            TradeSymbol::GOLD => "GOLD",
            TradeSymbol::GOLD_ORE => "GOLD_ORE",
            TradeSymbol::PLATINUM => "PLATINUM",
            TradeSymbol::PLATINUM_ORE => "PLATINUM_ORE",
            TradeSymbol::DIAMONDS => "DIAMONDS",
            TradeSymbol::URANITE => "URANITE",
            TradeSymbol::URANITE_ORE => "URANITE_ORE",
            TradeSymbol::MERITIUM => "MERITIUM",
            TradeSymbol::MERITIUM_ORE => "MERITIUM_ORE",
            TradeSymbol::HYDROCARBON => "HYDROCARBON",
            TradeSymbol::ANTIMATTER => "ANTIMATTER",
            TradeSymbol::FERTILIZERS => "FERTILIZERS",
            TradeSymbol::FABRICS => "FABRICS",
            TradeSymbol::FOOD => "FOOD",
            TradeSymbol::JEWELRY => "JEWELRY",
            TradeSymbol::MACHINERY => "MACHINERY",
            TradeSymbol::FIREARMS => "FIREARMS",
            TradeSymbol::ASSAULT_RIFLES => "ASSAULT_RIFLES",
            TradeSymbol::MILITARY_EQUIPMENT => "MILITARY_EQUIPMENT",
            TradeSymbol::EXPLOSIVES => "EXPLOSIVES",
            TradeSymbol::LAB_INSTRUMENTS => "LAB_INSTRUMENTS",
            TradeSymbol::AMMUNITION => "AMMUNITION",
            TradeSymbol::ELECTRONICS => "ELECTRONICS",
            TradeSymbol::SHIP_PLATING => "SHIP_PLATING",
            TradeSymbol::EQUIPMENT => "EQUIPMENT",
            TradeSymbol::FUEL => "FUEL",
            TradeSymbol::MEDICINE => "MEDICINE",
            TradeSymbol::DRUGS => "DRUGS",
            TradeSymbol::CLOTHING => "CLOTHING",
            TradeSymbol::MICROPROCESSORS => "MICROPROCESSORS",
            TradeSymbol::PLASTICS => "PLASTICS",
            TradeSymbol::POLYNUCLEOTIDES => "POLYNUCLEOTIDES",
            TradeSymbol::BIOCOMPOSITES => "BIOCOMPOSITES",
            TradeSymbol::NANOBOTS => "NANOBOTS",
            TradeSymbol::AI_MAINFRAMES => "AI_MAINFRAMES",
            TradeSymbol::QUANTUM_DRIVES => "QUANTUM_DRIVES",
            TradeSymbol::ROBOTIC_DRONES => "ROBOTIC_DRONES",
            TradeSymbol::CYBER_IMPLANTS => "CYBER_IMPLANTS",
            TradeSymbol::GENE_THERAPEUTICS => "GENE_THERAPEUTICS",
            TradeSymbol::NEURAL_CHIPS => "NEURAL_CHIPS",
            TradeSymbol::MOOD_REGULATORS => "MOOD_REGULATORS",
            TradeSymbol::VIRAL_AGENTS => "VIRAL_AGENTS",
            TradeSymbol::MICRO_FUSION_GENERATORS => "MICRO_FUSION_GENERATORS",
            TradeSymbol::SUPERGRAINS => "SUPERGRAINS",
            TradeSymbol::LASER_RIFLES => "LASER_RIFLES",
            TradeSymbol::HOLOGRAPHICS => "HOLOGRAPHICS",
            TradeSymbol::SHIP_SALVAGE => "SHIP_SALVAGE",
            TradeSymbol::RELIC_TECH => "RELIC_TECH",
            TradeSymbol::NOVEL_LIFEFORMS => "NOVEL_LIFEFORMS",
            TradeSymbol::BOTANICAL_SPECIMENS => "BOTANICAL_SPECIMENS",
            TradeSymbol::CULTURAL_ARTIFACTS => "CULTURAL_ARTIFACTS",
            TradeSymbol::REACTOR_SOLAR_I => "REACTOR_SOLAR_I",
            TradeSymbol::REACTOR_FUSION_I => "REACTOR_FUSION_I",
            TradeSymbol::REACTOR_FISSION_I => "REACTOR_FISSION_I",
            TradeSymbol::REACTOR_CHEMICAL_I => "REACTOR_CHEMICAL_I",
            TradeSymbol::REACTOR_ANTIMATTER_I => "REACTOR_ANTIMATTER_I",
            TradeSymbol::ENGINE_IMPULSE_DRIVE_I => "ENGINE_IMPULSE_DRIVE_I",
            TradeSymbol::ENGINE_ION_DRIVE_I => "ENGINE_ION_DRIVE_I",
            TradeSymbol::ENGINE_ION_DRIVE_II => "ENGINE_ION_DRIVE_II",
            TradeSymbol::ENGINE_HYPER_DRIVE_I => "ENGINE_HYPER_DRIVE_I",
            TradeSymbol::MODULE_MINERAL_PROCESSOR_I => "MODULE_MINERAL_PROCESSOR_I",
            TradeSymbol::MODULE_CARGO_HOLD_I => "MODULE_CARGO_HOLD_I",
            TradeSymbol::MODULE_CREW_QUARTERS_I => "MODULE_CREW_QUARTERS_I",
            TradeSymbol::MODULE_ENVOY_QUARTERS_I => "MODULE_ENVOY_QUARTERS_I",
            TradeSymbol::MODULE_PASSENGER_CABIN_I => "MODULE_PASSENGER_CABIN_I",
            TradeSymbol::MODULE_MICRO_REFINERY_I => "MODULE_MICRO_REFINERY_I",
            TradeSymbol::MODULE_ORE_REFINERY_I => "MODULE_ORE_REFINERY_I",
            TradeSymbol::MODULE_FUEL_REFINERY_I => "MODULE_FUEL_REFINERY_I",
            TradeSymbol::MODULE_SCIENCE_LAB_I => "MODULE_SCIENCE_LAB_I",
            TradeSymbol::MODULE_JUMP_DRIVE_I => "MODULE_JUMP_DRIVE_I",
            TradeSymbol::MODULE_JUMP_DRIVE_II => "MODULE_JUMP_DRIVE_II",
            TradeSymbol::MODULE_JUMP_DRIVE_III => "MODULE_JUMP_DRIVE_III",
            TradeSymbol::MODULE_WARP_DRIVE_I => "MODULE_WARP_DRIVE_I",
            TradeSymbol::MODULE_WARP_DRIVE_II => "MODULE_WARP_DRIVE_II",
            TradeSymbol::MODULE_WARP_DRIVE_III => "MODULE_WARP_DRIVE_III",
            TradeSymbol::MODULE_SHIELD_GENERATOR_I => "MODULE_SHIELD_GENERATOR_I",
            TradeSymbol::MODULE_SHIELD_GENERATOR_II => "MODULE_SHIELD_GENERATOR_II",
            TradeSymbol::MOUNT_GAS_SIPHON_I => "MOUNT_GAS_SIPHON_I",
            TradeSymbol::MOUNT_GAS_SIPHON_II => "MOUNT_GAS_SIPHON_II",
            TradeSymbol::MOUNT_GAS_SIPHON_III => "MOUNT_GAS_SIPHON_III",
            TradeSymbol::MOUNT_SURVEYOR_I => "MOUNT_SURVEYOR_I",
            TradeSymbol::MOUNT_SURVEYOR_II => "MOUNT_SURVEYOR_II",
            TradeSymbol::MOUNT_SURVEYOR_III => "MOUNT_SURVEYOR_III",
            TradeSymbol::MOUNT_SENSOR_ARRAY_I => "MOUNT_SENSOR_ARRAY_I",
            TradeSymbol::MOUNT_SENSOR_ARRAY_II => "MOUNT_SENSOR_ARRAY_II",
            TradeSymbol::MOUNT_SENSOR_ARRAY_III => "MOUNT_SENSOR_ARRAY_III",
            TradeSymbol::MOUNT_MINING_LASER_I => "MOUNT_MINING_LASER_I",
            TradeSymbol::MOUNT_MINING_LASER_II => "MOUNT_MINING_LASER_II",
            TradeSymbol::MOUNT_MINING_LASER_III => "MOUNT_MINING_LASER_III",
            TradeSymbol::MOUNT_LASER_CANNON_I => "MOUNT_LASER_CANNON_I",
            TradeSymbol::MOUNT_MISSILE_LAUNCHER_I => "MOUNT_MISSILE_LAUNCHER_I",
            TradeSymbol::MOUNT_TURRET_I => "MOUNT_TURRET_I",
        }
    }

    /// The name of the good, owned.
    pub fn to_string(&self) -> (text: String)
        ensures
            text@ == self.name(),
    {
        self.as_str().to_owned()
    }
}

} // verus!
