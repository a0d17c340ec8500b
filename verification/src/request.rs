//! HTTP requests as plain values, and the wire form of every endpoint.

use crate::decimal::{decimal, signed_decimal};
use crate::domain::{ShipType, TradeSymbol};
use vstd::prelude::*;

verus! {

/// The HTTP methods that the API uses.
#[derive(Debug, Clone, Copy, PartialEq, Eq, Structural)]
pub enum Method {
    Get,
    Post,
}

/// One HTTP request, described as plain values.
#[derive(Debug, Clone, PartialEq)]
pub struct Request {
    pub method: Method,
    pub url: String,
    /// The token to send as a bearer credential, if the endpoint wants one.
    pub bearer: Option<String>,
    /// Headers to set besides the credential, as name and value, in order.
    pub headers: Vec<(String, String)>,
    /// The members of the JSON object to send as the body, as key and value, or
    /// `None` for a request without a body.
    pub body: Option<Vec<(String, String)>>,
}

/// What a [`Request`] holds, as mathematical values.
pub struct RequestView {
    pub method: Method,
    pub url: Seq<char>,
    pub bearer: Option<Seq<char>>,
    pub headers: Seq<(Seq<char>, Seq<char>)>,
    pub body: Option<Seq<(Seq<char>, Seq<char>)>>,
}

impl View for Request {
    type V = RequestView;

    open spec fn view(&self) -> RequestView {
        RequestView {
            method: self.method,
            url: self.url@,
            bearer: self.bearer.deep_view(),
            headers: self.headers.deep_view(),
            body: self.body.deep_view(),
        }
    }
}

/// A `GET` of `url` with the bearer credential `token`.
pub open spec fn get_request(url: Seq<char>, token: Seq<char>) -> RequestView {
    RequestView {
        method: Method::Get,
        url,
        bearer: Some(token),
        headers: Seq::empty(),
        body: None,
    }
}

/// A `POST` to `url` whose body is the JSON object with the members `fields`.
pub open spec fn json_post(
    url: Seq<char>,
    bearer: Option<Seq<char>>,
    fields: Seq<(Seq<char>, Seq<char>)>,
) -> RequestView {
    RequestView { method: Method::Post, url, bearer, headers: Seq::empty(), body: Some(fields) }
}

/// A `POST` to `url` without a body, which says so in `headers`.
pub open spec fn empty_post(
    url: Seq<char>,
    token: Seq<char>,
    headers: Seq<(Seq<char>, Seq<char>)>,
) -> RequestView {
    RequestView { method: Method::Post, url, bearer: Some(token), headers, body: None }
}

/// The header that announces an empty body.
pub open spec fn content_length_zero() -> (Seq<char>, Seq<char>) {
    ("Content-Length"@, "0"@)
}

/// One call of the API, with its arguments as mathematical values.
pub enum Endpoint {
    Register { symbol: Seq<char>, faction: Seq<char> },
    Agent,
    Contracts,
    AcceptContract { contract_id: Seq<char> },
    DeliverContract {
        contract_id: Seq<char>,
        ship_symbol: Seq<char>,
        trade_symbol: TradeSymbol,
        units: u32,
    },
    FulfillContract { contract_id: Seq<char> },
    Waypoint { system_symbol: Seq<char>, waypoint_symbol: Seq<char> },
    Waypoints { system_symbol: Seq<char> },
    Market { system_symbol: Seq<char>, waypoint_symbol: Seq<char> },
    Shipyard { system_symbol: Seq<char>, waypoint_symbol: Seq<char> },
    Ships,
    PurchaseShip { ship_type: ShipType, waypoint_symbol: Seq<char> },
    Ship { ship_symbol: Seq<char> },
    Orbit { ship_symbol: Seq<char> },
    Dock { ship_symbol: Seq<char> },
    Nav { ship_symbol: Seq<char> },
    Navigate { ship_symbol: Seq<char>, waypoint_symbol: Seq<char> },
    Refuel { ship_symbol: Seq<char>, units: Option<i32> },
    Extract { ship_symbol: Seq<char>, survey: Option<Seq<char>> },
    Survey { ship_symbol: Seq<char> },
    Cargo { ship_symbol: Seq<char> },
    SellCargo { ship_symbol: Seq<char>, good: TradeSymbol, units: u32 },
}

/// The kinds of payload that the endpoints return in the `data` of their
/// envelope. Each names the record of that shape.
#[derive(Debug, Clone, Copy, PartialEq, Eq, Structural)]
pub enum Payload {
    RegisterResponse,
    Agent,
    MyContractsResponse,
    AcceptContractResponse,
    DeliverCargoResponse,
    FulfillContractResponse,
    Waypoint,
    Waypoints,
    Market,
    Shipyard,
    Ships,
    PurchaseShipResponse,
    Ship,
    ShipOrbitResponse,
    ShipDockResponse,
    ShipNav,
    ShipNavigateResponse,
    ShipRefuelResponse,
    ExtractResourceResponse,
    CreateSurveyResponse,
    ShipCargo,
    SellCargoResponse,
}

impl Endpoint {
    /// The kind of payload that the endpoint returns.
    pub open spec fn payload(self) -> Payload {
        match self {
            Endpoint::Register { .. } => Payload::RegisterResponse,
            Endpoint::Agent => Payload::Agent,
            Endpoint::Contracts => Payload::MyContractsResponse,
            Endpoint::AcceptContract { .. } => Payload::AcceptContractResponse,
            Endpoint::DeliverContract { .. } => Payload::DeliverCargoResponse,
            Endpoint::FulfillContract { .. } => Payload::FulfillContractResponse,
            Endpoint::Waypoint { .. } => Payload::Waypoint,
            Endpoint::Waypoints { .. } => Payload::Waypoints,
            Endpoint::Market { .. } => Payload::Market,
            Endpoint::Shipyard { .. } => Payload::Shipyard,
            Endpoint::Ships => Payload::Ships,
            Endpoint::PurchaseShip { .. } => Payload::PurchaseShipResponse,
            Endpoint::Ship { .. } => Payload::Ship,
            Endpoint::Orbit { .. } => Payload::ShipOrbitResponse,
            Endpoint::Dock { .. } => Payload::ShipDockResponse,
            Endpoint::Nav { .. } => Payload::ShipNav,
            Endpoint::Navigate { .. } => Payload::ShipNavigateResponse,
            Endpoint::Refuel { .. } => Payload::ShipRefuelResponse,
            Endpoint::Extract { .. } => Payload::ExtractResourceResponse,
            Endpoint::Survey { .. } => Payload::CreateSurveyResponse,
            Endpoint::Cargo { .. } => Payload::ShipCargo,
            Endpoint::SellCargo { .. } => Payload::SellCargoResponse,
        }
    }
}

/// The URL of an endpoint below a ship: `{base}/my/ships/{ship_symbol}{tail}`.
pub open spec fn ship_url(base: Seq<char>, ship_symbol: Seq<char>, tail: Seq<char>) -> Seq<char> {
    base + "/my/ships/"@ + ship_symbol + tail
}

/// The URL of an endpoint below a contract: `{base}/my/contracts/{contract_id}{tail}`.
pub open spec fn contract_url(base: Seq<char>, contract_id: Seq<char>, tail: Seq<char>) -> Seq<
    char,
> {
    base + "/my/contracts/"@ + contract_id + tail
}

/// The URL of an endpoint at a waypoint:
/// `{base}/systems/{system_symbol}/waypoints/{waypoint_symbol}{tail}`.
pub open spec fn waypoint_url(
    base: Seq<char>,
    system_symbol: Seq<char>,
    waypoint_symbol: Seq<char>,
    tail: Seq<char>,
) -> Seq<char> {
    base + "/systems/"@ + system_symbol + "/waypoints/"@ + waypoint_symbol + tail
}

/// The request that `endpoint` is called with, on a server at `base` and for
/// a session whose bearer token is `token`.
///
/// Every endpoint but the registration carries the token. A `POST` either
/// carries a JSON object, whose values are all strings, or announces an empty
/// body with a `Content-Length` of zero.
pub open spec fn wire(base: Seq<char>, token: Seq<char>, endpoint: Endpoint) -> RequestView {
    match endpoint {
        Endpoint::Register { symbol, faction } => json_post(
            base + "/register"@,
            None,
            seq![("symbol"@, symbol), ("faction"@, faction)],
        ),
        Endpoint::Agent => get_request(base + "/my/agent"@, token),
        Endpoint::Contracts => get_request(base + "/my/contracts"@, token),
        Endpoint::AcceptContract { contract_id } => empty_post(
            contract_url(base, contract_id, "/accept"@),
            token,
            seq![
                ("Content-Type"@, "application/json"@),
                ("Accept"@, "application/json"@),
                content_length_zero(),
            ],
        ),
        Endpoint::DeliverContract { contract_id, ship_symbol, trade_symbol, units } => json_post(
            contract_url(base, contract_id, "/deliver"@),
            Some(token),
            seq![
                ("shipSymbol"@, ship_symbol),
                ("tradeSymbol"@, trade_symbol.name()),
                ("units"@, decimal(units as nat)),
            ],
        ),
        Endpoint::FulfillContract { contract_id } => empty_post(
            contract_url(base, contract_id, "/fulfill"@),
            token,
            seq![content_length_zero()],
        ),
        Endpoint::Waypoint { system_symbol, waypoint_symbol } => get_request(
            waypoint_url(base, system_symbol, waypoint_symbol, Seq::empty()),
            token,
        ),
        Endpoint::Waypoints { system_symbol } => get_request(
            base + "/systems/"@ + system_symbol + "/waypoints"@,
            token,
        ),
        Endpoint::Market { system_symbol, waypoint_symbol } => get_request(
            waypoint_url(base, system_symbol, waypoint_symbol, "/market"@),
            token,
        ),
        Endpoint::Shipyard { system_symbol, waypoint_symbol } => get_request(
            waypoint_url(base, system_symbol, waypoint_symbol, "/shipyard"@),
            token,
        ),
        Endpoint::Ships => get_request(base + "/my/ships"@, token),
        Endpoint::PurchaseShip { ship_type, waypoint_symbol } => json_post(
            base + "/my/ships"@,
            Some(token),
            seq![("shipType"@, ship_type.name()), ("waypointSymbol"@, waypoint_symbol)],
        ),
        Endpoint::Ship { ship_symbol } => get_request(
            ship_url(base, ship_symbol, Seq::empty()),
            token,
        ),
        Endpoint::Orbit { ship_symbol } => empty_post(
            ship_url(base, ship_symbol, "/orbit"@),
            token,
            seq![content_length_zero()],
        ),
        Endpoint::Dock { ship_symbol } => empty_post(
            ship_url(base, ship_symbol, "/dock"@),
            token,
            seq![content_length_zero()],
        ),
        Endpoint::Nav { ship_symbol } => get_request(ship_url(base, ship_symbol, "/nav"@), token),
        Endpoint::Navigate { ship_symbol, waypoint_symbol } => json_post(
            ship_url(base, ship_symbol, "/navigate"@),
            Some(token),
            seq![("waypointSymbol"@, waypoint_symbol)],
        ),
        Endpoint::Refuel { ship_symbol, units } => json_post(
            ship_url(base, ship_symbol, "/refuel"@),
            Some(token),
            match units {
                Some(units) => seq![("units"@, signed_decimal(units as int))],
                None => Seq::empty(),
            },
        ),
        Endpoint::Extract { ship_symbol, survey } => json_post(
            ship_url(base, ship_symbol, "/extract"@),
            Some(token),
            match survey {
                Some(survey) => seq![("survey"@, survey)],
                None => Seq::empty(),
            },
        ),
        Endpoint::Survey { ship_symbol } => empty_post(
            ship_url(base, ship_symbol, "/survey"@),
            token,
            seq![content_length_zero()],
        ),
        Endpoint::Cargo { ship_symbol } => get_request(
            ship_url(base, ship_symbol, "/cargo"@),
            token,
        ),
        Endpoint::SellCargo { ship_symbol, good, units } => json_post(
            ship_url(base, ship_symbol, "/sell"@),
            Some(token),
            seq![("symbol"@, good.name()), ("units"@, decimal(units as nat))],
        ),
    }
}

/// Every endpoint but the registration carries the session's token as its
/// bearer credential; the registration carries none.
pub proof fn lemma_only_registration_is_anonymous(
    base: Seq<char>,
    token: Seq<char>,
    endpoint: Endpoint,
)
    ensures
        wire(base, token, endpoint).bearer == if endpoint is Register {
            None
        } else {
            Some(token)
        },
{
}

/// A `GET` carries neither a body nor headers of its own. A `POST` carries
/// either a JSON body, or no body and then a `Content-Length` of zero as its
/// last header.
pub proof fn lemma_empty_body_is_announced(base: Seq<char>, token: Seq<char>, endpoint: Endpoint)
    ensures
        ({
            let request = wire(base, token, endpoint);
            match request.method {
                Method::Get => request.body is None && request.headers.len() == 0,
                Method::Post => if request.body is Some {
                    request.headers.len() == 0
                } else {
                    request.headers.len() > 0 && request.headers.last() == content_length_zero()
                },
            }
        }),
{
}

/// The URL of every endpoint begins with the base URL.
pub proof fn lemma_url_begins_with_base(base: Seq<char>, token: Seq<char>, endpoint: Endpoint)
    ensures
        base.is_prefix_of(wire(base, token, endpoint).url),
{
    let url = wire(base, token, endpoint).url;
    assert(url.len() >= base.len());
    assert(url.subrange(0, base.len() as int) =~= base);
}

} // verus!
