//! The client of the game API, and what the server's replies mean.
//!
//! Each method of [`Api`] describes the one HTTP request of an endpoint as a
//! [`Request`] value; sending it is left to the caller. What came back is handed
//! to [`handle_api_response`] as a [`Reply`].

use crate::decimal::{i32_to_string, u32_to_string};
use crate::domain::{ShipType, TradeSymbol, Waypoint, WaypointTraitSymbol};
use crate::request::{
    content_length_zero, empty_post, get_request, json_post, wire, Endpoint, Method, Request,
    RequestView,
};
use crate::UserInfo;
use std::collections::HashMap;
use vstd::prelude::*;

verus! {

/// The production endpoint of the game API.
pub const API_BASE_URL: &'static str = "https://api.spacetraders.io/v2";

/// The base URL that a client made with `base_url_override` talks to: the
/// override where there is one, the production endpoint otherwise.
pub open spec fn base_url_of(base_url_override: Option<String>) -> Seq<char> {
    match base_url_override {
        Some(url) => url@,
        None => API_BASE_URL@,
    }
}

/// A client of the game API, bound to one session and one base URL.
pub struct Api<'a> {
    api_base_url: String,
    user_info: &'a UserInfo,
}

impl<'a> Api<'a> {
    /// The URL that every endpoint's path is appended to.
    pub closed spec fn base_url(&self) -> Seq<char> {
        self.api_base_url@
    }

    /// The session that authenticated requests carry the token of.
    pub closed spec fn session(&self) -> UserInfo {
        *self.user_info
    }

    /// The request that this client makes to call `endpoint`.
    pub open spec fn request_for(&self, endpoint: Endpoint) -> RequestView {
        wire(self.base_url(), self.session().token@, endpoint)
    }

    /// A client for the session `user_info`. It talks to `base_url_override`
    /// where one is given, and to the production endpoint otherwise.
    pub fn new(user_info: &'a UserInfo, base_url_override: Option<String>) -> (api: Self)
        ensures
            api.session() == *user_info,
            api.base_url() == base_url_of(base_url_override),
    {
        let url = match base_url_override {
            Some(url) => url,
            None => API_BASE_URL.to_owned(),
        };
        Api { api_base_url: url, user_info }
    }

    /// The system of the headquarters of the session's agent.
    pub fn home_system(&self) -> (system: String)
        requires
            crate::symbol::components(self.session().agent.headquarters@).len() >= 2,
        ensures
            system@ == crate::domain::system_of(self.session().agent.headquarters@),
    {
        self.user_info.agent.get_system()
    }

    /// The base URL followed by `path`.
    fn url(&self, path: &str) -> (url: String)
        ensures
            url@ == self.base_url() + path@,
    {
        self.api_base_url.clone().concat(path)
    }

    /// The base URL followed by `prefix`, `name` and `tail`.
    fn named_url(&self, prefix: &str, name: &String, tail: &str) -> (url: String)
        ensures
            url@ == self.base_url() + prefix@ + name@ + tail@,
    {
        self.url(prefix).concat(name.as_str()).concat(tail)
    }

    /// The URL of an endpoint at a waypoint.
    fn waypoint_url(&self, system_symbol: &String, waypoint_symbol: &String, tail: &str) -> (url:
        String)
        ensures
            url@ == crate::request::waypoint_url(
                self.base_url(),
                system_symbol@,
                waypoint_symbol@,
                tail@,
            ),
    {
        self.named_url("/systems/", system_symbol, "/waypoints/").concat(
            waypoint_symbol.as_str(),
        ).concat(tail)
    }

    fn get(&self, url: String) -> (request: Request)
        ensures
            request@ == get_request(url@, self.session().token@),
    {
        let request = Request {
            method: Method::Get,
            url,
            bearer: Some(self.user_info.token.clone()),
            headers: Vec::new(),
            body: None,
        };
        assert(request.headers.deep_view() =~= Seq::empty());
        request
    }

    fn post_json(&self, url: String, fields: Vec<(String, String)>) -> (request: Request)
        ensures
            request@ == json_post(url@, Some(self.session().token@), fields.deep_view()),
    {
        let request = Request {
            method: Method::Post,
            url,
            bearer: Some(self.user_info.token.clone()),
            headers: Vec::new(),
            body: Some(fields),
        };
        assert(request.headers.deep_view() =~= Seq::empty());
        request
    }

    fn post_empty(&self, url: String, headers: Vec<(String, String)>) -> (request: Request)
        ensures
            request@ == empty_post(url@, self.session().token@, headers.deep_view()),
    {
        Request {
            method: Method::Post,
            url,
            bearer: Some(self.user_info.token.clone()),
            headers,
            body: None,
        }
    }

    /// The member `name: value` of a JSON body, or a header of that name and value.
    fn pair(name: &str, value: String) -> (pair: (String, String))
        ensures
            pair.deep_view() == (name@, value@),
    {
        (name.to_owned(), value)
    }

    /// The headers of a `POST` without a body.
    fn no_content() -> (headers: Vec<(String, String)>)
        ensures
            headers.deep_view() == seq![content_length_zero()],
    {
        let mut headers: Vec<(String, String)> = Vec::new();
        headers.push(Self::pair("Content-Length", "0".to_owned()));
        assert(headers.deep_view() =~= seq![content_length_zero()]);
        headers
    }

    /// The market of a waypoint.
    pub fn get_market(&self, system_symbol: String, waypoint_symbol: String) -> (request: Request)
        ensures
            request@ == self.request_for(
                Endpoint::Market {
                    system_symbol: system_symbol@,
                    waypoint_symbol: waypoint_symbol@,
                },
            ),
    {
        self.get(self.waypoint_url(&system_symbol, &waypoint_symbol, "/market"))
    }

    /// The shipyard of a waypoint.
    pub fn get_shipyard_for_waypoint(
        &self,
        system_symbol: String,
        waypoint_symbol: String,
    ) -> (request: Request)
        ensures
            request@ == self.request_for(
                Endpoint::Shipyard {
                    system_symbol: system_symbol@,
                    waypoint_symbol: waypoint_symbol@,
                },
            ),
    {
        self.get(self.waypoint_url(&system_symbol, &waypoint_symbol, "/shipyard"))
    }

    /// The record of a waypoint.
    pub fn get_waypoint(&self, system_symbol: String, waypoint_symbol: String) -> (request: Request)
        ensures
            request@ == self.request_for(
                Endpoint::Waypoint {
                    system_symbol: system_symbol@,
                    waypoint_symbol: waypoint_symbol@,
                },
            ),
    {
        proof {
            reveal_strlit("");
        }
        let url = self.waypoint_url(&system_symbol, &waypoint_symbol, "");
        assert(url@ =~= crate::request::waypoint_url(
            self.base_url(),
            system_symbol@,
            waypoint_symbol@,
            Seq::empty(),
        ));
        self.get(url)
    }

    /// Sells `units` of the good `good_type` from a ship's cargo.
    pub fn sell_ship_cargo(
        &self,
        ship_symbol: String,
        good_type: TradeSymbol,
        units: u32,
    ) -> (request: Request)
        ensures
            request@ == self.request_for(
                Endpoint::SellCargo { ship_symbol: ship_symbol@, good: good_type, units },
            ),
    {
        let mut body: Vec<(String, String)> = Vec::new();
        body.push(Self::pair("symbol", good_type.to_string()));
        body.push(Self::pair("units", u32_to_string(units)));
        assert(body.deep_view() =~= seq![
            ("symbol"@, good_type.name()),
            ("units"@, crate::decimal::decimal(units as nat)),
        ]);
        self.post_json(self.named_url("/my/ships/", &ship_symbol, "/sell"), body)
    }

    /// The cargo of a ship.
    pub fn get_ship_cargo(&self, ship_symbol: String) -> (request: Request)
        ensures
            request@ == self.request_for(Endpoint::Cargo { ship_symbol: ship_symbol@ }),
    {
        self.get(self.named_url("/my/ships/", &ship_symbol, "/cargo"))
    }

    /// Extracts resources with a ship, guided by a survey where one is given.
    /// `resource_survey` is the survey as JSON text.
    pub fn extract_resource(
        &self,
        ship_symbol: String,
        resource_survey: Option<String>,
    ) -> (request: Request)
        ensures
            request@ == self.request_for(
                Endpoint::Extract {
                    ship_symbol: ship_symbol@,
                    survey: resource_survey.deep_view(),
                },
            ),
    {
        let mut body: Vec<(String, String)> = Vec::new();
        if let Some(survey) = resource_survey {
            body.push(Self::pair("survey", survey));
            assert(body.deep_view() =~= seq![("survey"@, survey@)]);
        } else {
            assert(body.deep_view() =~= Seq::empty());
        }
        self.post_json(self.named_url("/my/ships/", &ship_symbol, "/extract"), body)
    }

    /// Charts the deposits around a ship.
    pub fn create_survey(&self, ship_symbol: String) -> (request: Request)
        ensures
            request@ == self.request_for(Endpoint::Survey { ship_symbol: ship_symbol@ }),
    {
        self.post_empty(self.named_url("/my/ships/", &ship_symbol, "/survey"), Self::no_content())
    }

    /// Refuels a ship: by `maybe_units` units where given, else to the brim.
    pub fn refuel_ship(&self, ship_symbol: String, maybe_units: Option<i32>) -> (request: Request)
        ensures
            request@ == self.request_for(
                Endpoint::Refuel { ship_symbol: ship_symbol@, units: maybe_units },
            ),
    {
        let mut body: Vec<(String, String)> = Vec::new();
        if let Some(units_to_refuel) = maybe_units {
            body.push(Self::pair("units", i32_to_string(units_to_refuel)));
            assert(body.deep_view() =~= seq![
                ("units"@, crate::decimal::signed_decimal(units_to_refuel as int)),
            ]);
        } else {
            assert(body.deep_view() =~= Seq::empty());
        }
        self.post_json(self.named_url("/my/ships/", &ship_symbol, "/refuel"), body)
    }

    /// The full record of a ship.
    pub fn get_ship_status(&self, ship_symbol: String) -> (request: Request)
        ensures
            request@ == self.request_for(Endpoint::Ship { ship_symbol: ship_symbol@ }),
    {
        proof {
            reveal_strlit("");
        }
        let url = self.named_url("/my/ships/", &ship_symbol, "");
        assert(url@ =~= crate::request::ship_url(self.base_url(), ship_symbol@, Seq::empty()));
        self.get(url)
    }

    /// Docks a ship at the waypoint it orbits.
    pub fn dock_ship(&self, ship_symbol: String) -> (request: Request)
        ensures
            request@ == self.request_for(Endpoint::Dock { ship_symbol: ship_symbol@ }),
    {
        self.post_empty(self.named_url("/my/ships/", &ship_symbol, "/dock"), Self::no_content())
    }

    /// Where a ship is and where it is heading.
    pub fn get_ship_nav_status(&self, ship_symbol: String) -> (request: Request)
        ensures
            request@ == self.request_for(Endpoint::Nav { ship_symbol: ship_symbol@ }),
    {
        self.get(self.named_url("/my/ships/", &ship_symbol, "/nav"))
    }

    /// Sends a ship to another waypoint of its system.
    pub fn navigate_ship(&self, ship_symbol: String, waypoint_symbol: String) -> (request: Request)
        ensures
            request@ == self.request_for(
                Endpoint::Navigate {
                    ship_symbol: ship_symbol@,
                    waypoint_symbol: waypoint_symbol@,
                },
            ),
    {
        let mut body: Vec<(String, String)> = Vec::new();
        body.push(Self::pair("waypointSymbol", waypoint_symbol));
        assert(body.deep_view() =~= seq![("waypointSymbol"@, waypoint_symbol@)]);
        self.post_json(self.named_url("/my/ships/", &ship_symbol, "/navigate"), body)
    }

    /// Moves a docked ship into orbit.
    pub fn orbit_ship(&self, ship_symbol: String) -> (request: Request)
        ensures
            request@ == self.request_for(Endpoint::Orbit { ship_symbol: ship_symbol@ }),
    {
        self.post_empty(self.named_url("/my/ships/", &ship_symbol, "/orbit"), Self::no_content())
    }

    /// The ships of the agent's fleet.
    pub fn list_ships(&self) -> (request: Request)
        ensures
            request@ == self.request_for(Endpoint::Ships),
    {
        self.get(self.url("/my/ships"))
    }

    /// Buys a ship of `ship_type` at the shipyard of `waypoint_symbol`.
    pub fn purchase_ship(&self, ship_type: ShipType, waypoint_symbol: String) -> (request: Request)
        ensures
            request@ == self.request_for(
                Endpoint::PurchaseShip { ship_type, waypoint_symbol: waypoint_symbol@ },
            ),
    {
        let mut body: Vec<(String, String)> = Vec::new();
        body.push(Self::pair("shipType", ship_type.to_string()));
        body.push(Self::pair("waypointSymbol", waypoint_symbol));
        assert(body.deep_view() =~= seq![
            ("shipType"@, ship_type.name()),
            ("waypointSymbol"@, waypoint_symbol@),
        ]);
        self.post_json(self.url("/my/ships"), body)
    }

    /// The agent's own profile.
    pub fn fetch_agent_info(&self) -> (request: Request)
        ensures
            request@ == self.request_for(Endpoint::Agent),
    {
        self.get(self.url("/my/agent"))
    }

    /// The first page of the waypoints of a system. The server is asked for the
    /// whole page; [`filter_waypoints`] narrows its reply to a trait.
    pub fn list_waypoints(&self, system_symbol: String) -> (request: Request)
        ensures
            request@ == self.request_for(Endpoint::Waypoints { system_symbol: system_symbol@ }),
    {
        self.get(self.named_url("/systems/", &system_symbol, "/waypoints"))
    }

    /// Accepts a contract.
    pub fn accept_contract(&self, contract_id: String) -> (request: Request)
        ensures
            request@ == self.request_for(Endpoint::AcceptContract { contract_id: contract_id@ }),
    {
        let mut headers: Vec<(String, String)> = Vec::new();
        headers.push(Self::pair("Content-Type", "application/json".to_owned()));
        headers.push(Self::pair("Accept", "application/json".to_owned()));
        headers.push(Self::pair("Content-Length", "0".to_owned()));
        assert(headers.deep_view() =~= seq![
            ("Content-Type"@, "application/json"@),
            ("Accept"@, "application/json"@),
            content_length_zero(),
        ]);
        self.post_empty(self.named_url("/my/contracts/", &contract_id, "/accept"), headers)
    }

    /// Delivers `units` of `trade_symbol` from a ship towards a contract.
    pub fn deliver_contract_goods(
        &self,
        ship_symbol: String,
        contract_id: String,
        trade_symbol: TradeSymbol,
        units: u32,
    ) -> (request: Request)
        ensures
            request@ == self.request_for(
                Endpoint::DeliverContract {
                    contract_id: contract_id@,
                    ship_symbol: ship_symbol@,
                    trade_symbol,
                    units,
                },
            ),
    {
        let mut body: Vec<(String, String)> = Vec::new();
        body.push(Self::pair("shipSymbol", ship_symbol));
        body.push(Self::pair("tradeSymbol", trade_symbol.to_string()));
        body.push(Self::pair("units", u32_to_string(units)));
        assert(body.deep_view() =~= seq![
            ("shipSymbol"@, ship_symbol@),
            ("tradeSymbol"@, trade_symbol.name()),
            ("units"@, crate::decimal::decimal(units as nat)),
        ]);
        self.post_json(self.named_url("/my/contracts/", &contract_id, "/deliver"), body)
    }

    /// Claims the payment of a contract whose goods have all arrived.
    pub fn fulfill_contract(&self, contract_id: String) -> (request: Request)
        ensures
            request@ == self.request_for(Endpoint::FulfillContract { contract_id: contract_id@ }),
    {
        self.post_empty(
            self.named_url("/my/contracts/", &contract_id, "/fulfill"),
            Self::no_content(),
        )
    }

    /// The contracts of the agent.
    pub fn fetch_contracts(&self) -> (request: Request)
        ensures
            request@ == self.request_for(Endpoint::Contracts),
    {
        self.get(self.url("/my/contracts"))
    }

    /// Registers a new agent `username` with `faction`. This is the one request
    /// that carries no credential.
    pub fn register_player(&self, username: String, faction: String) -> (request: Request)
        ensures
            request@ == self.request_for(
                Endpoint::Register { symbol: username@, faction: faction@ },
            ),
    {
        let mut body: Vec<(String, String)> = Vec::new();
        body.push(Self::pair("symbol", username));
        body.push(Self::pair("faction", faction));
        assert(body.deep_view() =~= seq![("symbol"@, username@), ("faction"@, faction@)]);
        let request = Request {
            method: Method::Post,
            url: self.url("/register"),
            bearer: None,
            headers: Vec::new(),
            body: Some(body),
        };
        assert(request.headers.deep_view() =~= Seq::empty());
        request
    }
}

/// The envelope that wraps the payload of every successful response.
#[derive(Debug, Clone, PartialEq)]
pub struct ApiSuccessResponse<T> {
    pub data: T,
    pub meta: Option<Meta>,
}

/// What an endpoint gives: the enveloped payload, or the reason there is none.
pub type ApiResult<T> = Result<ApiSuccessResponse<T>, ApiError>;

/// The body of a response with a status other than success.
#[derive(Debug, Clone, PartialEq)]
pub struct ApiErrorResponse {
    pub error: ApiErrorObj,
}

/// The server's account of why it refused a request.
#[derive(Debug, Clone, PartialEq)]
pub struct ApiErrorObj {
    pub message: String,
    pub code: i32,
    pub data: Option<HashMap<String, String>>,
}

/// The three ways in which a request can fail.
#[derive(Debug, Clone, PartialEq)]
pub enum ApiError {
    /// The server refused the request and said why.
    ServiceError { status: u16, message: String, code: i32, data: Option<HashMap<String, String>> },
    /// The body of a successful response was not the expected envelope.
    ParseError { message: String },
    /// No response arrived.
    UnknownError { message: String },
}

impl ApiError {
    /// A one-line description of the kind of failure.
    pub open spec fn description(self) -> Seq<char> {
        match self {
            ApiError::ServiceError { .. } => "HTTP API error"@,
            ApiError::ParseError { .. } => "Error parsing JSON response from API"@,
            ApiError::UnknownError { .. } => "Unknown error"@,
        }
    }

    /// A one-line description of the kind of failure.
    pub fn to_string(&self) -> (text: String)
        ensures
            text@ == self.description(),
    {
        match self {
            ApiError::ServiceError { .. } => "HTTP API error".to_owned(),
            ApiError::ParseError { .. } => "Error parsing JSON response from API".to_owned(),
            ApiError::UnknownError { .. } => "Unknown error".to_owned(),
        }
    }
}

/// Where a list reply stands within the whole list.
#[derive(Debug, Clone, Copy, PartialEq, Eq, Structural)]
pub struct Meta {
    pub total: i32,
    pub page: i32,
    pub limit: i32,
}

/// Whether an HTTP status reports success: the statuses from 200 to 299.
pub open spec fn is_success(status: u16) -> bool {
    200 <= status < 300
}

/// How the body of a response is to be read.
#[derive(Debug, Clone, Copy, PartialEq, Eq, Structural)]
pub enum BodyKind {
    /// As the envelope `{data, meta?}` around the endpoint's payload.
    Envelope,
    /// As the error report `{error: {message, code, data?}}`.
    ErrorReport,
}

/// How to read the body of a response that came with `status`.
pub fn body_kind(status: u16) -> (kind: BodyKind)
    ensures
        kind == if is_success(status) {
            BodyKind::Envelope
        } else {
            BodyKind::ErrorReport
        },
{
    if 200 <= status && status < 300 {
        BodyKind::Envelope
    } else {
        BodyKind::ErrorReport
    }
}

/// What sending one request produced.
#[derive(Debug, PartialEq)]
pub enum Reply<T> {
    /// No response arrived; `message` says what went wrong on the way.
    NoResponse { message: String },
    /// A response with a success status arrived. `decoded` is its body read as
    /// an envelope, or the decoder's complaint.
    Success { decoded: Result<ApiSuccessResponse<T>, String> },
    /// A response with another status arrived, with `report` as its body.
    Failure { status: u16, report: ApiErrorResponse },
}

/// What a reply means for the caller of an endpoint.
pub open spec fn outcome<T>(reply: Reply<T>) -> ApiResult<T> {
    match reply {
        Reply::NoResponse { message } => Err(ApiError::UnknownError { message }),
        Reply::Success { decoded: Ok(envelope) } => Ok(envelope),
        Reply::Success { decoded: Err(message) } => Err(ApiError::ParseError { message }),
        Reply::Failure { status, report } => Err(
            ApiError::ServiceError {
                status,
                message: report.error.message,
                code: report.error.code,
                data: report.error.data,
            },
        ),
    }
}

/// Turns a reply into the endpoint's result. The payload comes back only from a
/// successful response whose body was decoded; a transport failure, a decoding
/// failure and a refusal by the server each become their own kind of error.
pub fn handle_api_response<T>(reply: Reply<T>) -> (result: ApiResult<T>)
    ensures
        result == outcome(reply),
        result is Ok <==> reply matches Reply::Success { decoded: Ok(_) },
{
    match reply {
        Reply::NoResponse { message } => Err(ApiError::UnknownError { message }),
        Reply::Success { decoded } => match decoded {
            Ok(envelope) => Ok(envelope),
            Err(message) => Err(ApiError::ParseError { message }),
        },
        Reply::Failure { status, report } => Err(
            ApiError::ServiceError {
                status,
                message: report.error.message,
                code: report.error.code,
                data: report.error.data,
            },
        ),
    }
}

/// The test that a waypoint carries the trait `symbol`.
pub open spec fn carries(symbol: WaypointTraitSymbol) -> spec_fn(Waypoint) -> bool {
    |waypoint: Waypoint| waypoint.has_trait(symbol)
}

/// The waypoints of `page` that carry the trait `symbol`, in the order of `page`.
pub open spec fn with_trait(page: Seq<Waypoint>, symbol: WaypointTraitSymbol) -> Seq<Waypoint> {
    page.filter(carries(symbol))
}

/// `picks` lists, in ascending order, exactly the positions of `page` whose
/// waypoint carries `symbol`, and `kept` holds the waypoints at those positions.
pub open spec fn selects(
    picks: Seq<int>,
    page: Seq<Waypoint>,
    symbol: WaypointTraitSymbol,
    kept: Seq<Waypoint>,
) -> bool {
    &&& forall|k: int|
        0 <= k < picks.len() ==> 0 <= #[trigger] picks[k] < page.len() && page[picks[k]].has_trait(
            symbol,
        )
    &&& forall|k: int, l: int|
        0 <= k < l < picks.len() ==> #[trigger] picks[k] < #[trigger] picks[l]
    &&& forall|i: int|
        0 <= i < page.len() && (#[trigger] page[i]).has_trait(symbol) ==> picks.contains(i)
    &&& kept.len() == picks.len()
    &&& forall|k: int| 0 <= k < picks.len() ==> #[trigger] kept[k] == page[picks[k]]
}

/// The positions of `page` whose waypoint carries `symbol`, ascending.
pub open spec fn carrier_positions(page: Seq<Waypoint>, symbol: WaypointTraitSymbol) -> Seq<int>
    decreases page.len(),
{
    if page.len() == 0 {
        Seq::empty()
    } else if page.last().has_trait(symbol) {
        carrier_positions(page.drop_last(), symbol).push(page.len() - 1)
    } else {
        carrier_positions(page.drop_last(), symbol)
    }
}

/// The trait filter returns exactly the waypoints of the page that carry the
/// trait: each of them once, none besides them, in the order of the page.
pub proof fn lemma_with_trait_exact(page: Seq<Waypoint>, symbol: WaypointTraitSymbol)
    ensures
        selects(carrier_positions(page, symbol), page, symbol, with_trait(page, symbol)),
    decreases page.len(),
{
    let picks = carrier_positions(page, symbol);
    let kept = with_trait(page, symbol);
    if page.len() == 0 {
        reveal(Seq::filter);
    } else {
        let front = page.drop_last();
        let last = page.last();
        let front_picks = carrier_positions(front, symbol);
        let front_kept = with_trait(front, symbol);
        lemma_with_trait_exact(front, symbol);
        front.lemma_filter_push(last, carries(symbol));
        assert(front.push(last) =~= page);
        assert forall|k: int| 0 <= k < picks.len() implies 0 <= #[trigger] picks[k] < page.len()
            && page[picks[k]].has_trait(symbol) by {
            if k < front_picks.len() {
                assert(picks[k] == front_picks[k]);
                assert(page[picks[k]] == front[front_picks[k]]);
            }
        }
        assert forall|k: int, l: int| 0 <= k < l < picks.len() implies #[trigger] picks[k]
            < #[trigger] picks[l] by {
            assert(picks[k] == front_picks[k]);
            if l < front_picks.len() {
                assert(picks[l] == front_picks[l]);
            }
        }
        assert forall|i: int| 0 <= i < page.len() && (#[trigger] page[i]).has_trait(
            symbol,
        ) implies picks.contains(i) by {
            if i < front.len() {
                assert(front[i] == page[i]);
                assert(front_picks.contains(i));
                let k = choose|k: int| 0 <= k < front_picks.len() && front_picks[k] == i;
                assert(picks[k] == i);
            } else {
                assert(picks[picks.len() - 1] == i);
            }
        }
        assert forall|k: int| 0 <= k < picks.len() implies #[trigger] kept[k] == page[picks[k]] by {
            if k < front_picks.len() {
                assert(kept[k] == front_kept[k]);
                assert(picks[k] == front_picks[k]);
                assert(page[picks[k]] == front[front_picks[k]]);
            }
        }
    }
}

/// Keeps the waypoints of `page` that carry the trait `symbol`.
pub fn filter_by_trait(page: Vec<Waypoint>, symbol: WaypointTraitSymbol) -> (kept: Vec<Waypoint>)
    ensures
        kept@ == with_trait(page@, symbol),
{
    let ghost all = page@;
    let mut kept: Vec<Waypoint> = Vec::new();
    proof {
        reveal(Seq::filter);
        assert(all.take(0).filter(carries(symbol)) =~= Seq::<Waypoint>::empty());
    }
    for waypoint in it: page.into_iter()
        invariant
            it.seq() == all,
            kept@ == all.take(it.index() as int).filter(carries(symbol)),
    {
        proof {
            let done = all.take(it.index() as int);
            assert(all.take(it.index() + 1) =~= done.push(waypoint));
            done.lemma_filter_push(waypoint, carries(symbol));
        }
        if waypoint.carries_trait(symbol) {
            kept.push(waypoint);
        }
    }
    assert(all.take(all.len() as int) =~= all);
    kept
}

/// Applies the optional trait filter of a waypoint listing to what the server
/// returned. The filter sees the one page that came back, nothing beyond it; a
/// failure, and a listing without a filter, pass through unchanged.
pub fn filter_waypoints(
    response: ApiResult<Vec<Waypoint>>,
    waypoint_trait: Option<WaypointTraitSymbol>,
) -> (result: ApiResult<Vec<Waypoint>>)
    ensures
        waypoint_trait is None || response is Err ==> result == response,
        waypoint_trait is Some && response is Ok ==> {
            &&& result is Ok
            &&& result->Ok_0.meta == response->Ok_0.meta
            &&& result->Ok_0.data@ == with_trait(response->Ok_0.data@, waypoint_trait->Some_0)
        },
{
    match waypoint_trait {
        None => response,
        Some(symbol) => match response {
            Err(error) => Err(error),
            Ok(envelope) => Ok(
                ApiSuccessResponse {
                    data: filter_by_trait(envelope.data, symbol),
                    meta: envelope.meta,
                },
            ),
        },
    }
}

} // verus!
