//! The enhanced API layer: its errors, portfolio and alert vocabulary,
//! health report, index names, crumb checks and request routing.

use vstd::prelude::*;
use crate::json::{Json, str_member};
use crate::text::{concat_str, opt_chars, str_eq};

pub use crate::cache::CrumbCache;
pub use crate::rate_limit::RateLimiter;

verus! {

/// Errors of the enhanced API layer.
#[derive(Debug)]
pub enum ApiError {
    FetchError(String),
    DataNotFound(String),
    InvalidParameters(String),
    RateLimited(String),
    AuthenticationFailed(String),
    CacheError(String),
    NetworkError(String),
    ParseError(String),
    ValidationError(String),
}

/// The message of an error, as it is displayed.
pub open spec fn api_error_message(e: ApiError) -> Seq<char> {
    match e {
        ApiError::FetchError(m) => "Fetch error: "@ + m@,
        ApiError::DataNotFound(m) => "Data not found: "@ + m@,
        ApiError::InvalidParameters(m) => "Invalid parameters: "@ + m@,
        ApiError::RateLimited(m) => "Rate limited: "@ + m@,
        ApiError::AuthenticationFailed(m) => "Authentication failed: "@ + m@,
        ApiError::CacheError(m) => "Cache error: "@ + m@,
        ApiError::NetworkError(m) => "Network error: "@ + m@,
        ApiError::ParseError(m) => "Parse error: "@ + m@,
        ApiError::ValidationError(m) => "Validation error: "@ + m@,
    }
}

impl ApiError {
    /// The text of the error.
    pub fn message(&self) -> (r: String)
        ensures
            r@ == api_error_message(*self),
    {
        match self {
            ApiError::FetchError(m) => concat_str("Fetch error: ", m.as_str()),
            ApiError::DataNotFound(m) => concat_str("Data not found: ", m.as_str()),
            ApiError::InvalidParameters(m) => concat_str("Invalid parameters: ", m.as_str()),
            ApiError::RateLimited(m) => concat_str("Rate limited: ", m.as_str()),
            ApiError::AuthenticationFailed(m) => concat_str("Authentication failed: ", m.as_str()),
            ApiError::CacheError(m) => concat_str("Cache error: ", m.as_str()),
            ApiError::NetworkError(m) => concat_str("Network error: ", m.as_str()),
            ApiError::ParseError(m) => concat_str("Parse error: ", m.as_str()),
            ApiError::ValidationError(m) => concat_str("Validation error: ", m.as_str()),
        }
    }
}

/// The kind of a portfolio transaction.
#[derive(Debug, Clone, Copy, PartialEq, Eq, Structural)]
pub enum TransactionType {
    Buy,
    Sell,
    Dividend,
    Split,
    CashDeposit,
    CashWithdrawal,
}

/// What a portfolio alert watches.
#[derive(Debug)]
pub enum AlertType {
    PriceAlert { symbol: String },
    PortfolioValue,
    PositionWeight { symbol: String },
    DayChange,
    TotalReturn,
}

/// When a portfolio alert fires.
#[derive(Debug, Clone, Copy, PartialEq, Eq, Structural)]
pub enum AlertCondition {
    Above,
    Below,
    PercentChange,
}

/// The health report of the service.
#[derive(Debug)]
pub struct HealthStatus<'a> {
    pub status: &'a str,
    pub crumb_cache_status: &'a str,
    pub uptime: u64,
    pub version: &'a str,
}

/// The health report for a crumb check that succeeded or not: the service is
/// healthy with a working crumb, degraded without one.
pub fn health_status(crumb_ok: bool, uptime: u64) -> (r: HealthStatus<'static>)
    ensures
        r.crumb_cache_status@ == (if crumb_ok { "healthy"@ } else { "unhealthy"@ }),
        r.status@ == (if crumb_ok { "healthy"@ } else { "degraded"@ }),
        r.uptime == uptime,
        r.version@ == "1.0.0"@,
{
    let crumb_status = if crumb_ok { "healthy" } else { "unhealthy" };
    HealthStatus {
        status: if crumb_ok { "healthy" } else { "degraded" },
        crumb_cache_status: crumb_status,
        uptime,
        version: "1.0.0",
    }
}

/// The display name of a market index symbol; other symbols name themselves.
pub open spec fn index_name(symbol: Seq<char>) -> Seq<char> {
    if symbol == "^GSPC"@ { "S&P 500"@ }
    else if symbol == "^DJI"@ { "Dow Jones Industrial Average"@ }
    else if symbol == "^IXIC"@ { "NASDAQ Composite"@ }
    else if symbol == "^RUT"@ { "Russell 2000"@ }
    else if symbol == "^VIX"@ { "VIX"@ }
    else { symbol }
}

/// The display name of a market index.
pub fn get_index_name(symbol: &str) -> (r: String)
    ensures
        r@ == index_name(symbol@),
{
    if str_eq(symbol, "^GSPC") { "S&P 500".to_owned() }
    else if str_eq(symbol, "^DJI") { "Dow Jones Industrial Average".to_owned() }
    else if str_eq(symbol, "^IXIC") { "NASDAQ Composite".to_owned() }
    else if str_eq(symbol, "^RUT") { "Russell 2000".to_owned() }
    else if str_eq(symbol, "^VIX") { "VIX".to_owned() }
    else { symbol.to_owned() }
}

/// Whether the crumb endpoint's answer is usable: not empty, under 50
/// bytes, and not an HTML page.
pub open spec fn endpoint_crumb_ok(c: Seq<char>) -> bool {
    &&& c.len() > 0
    &&& (vstd::utf8::encode_utf8(c).len() as usize) < 50
    &&& !crate::text::contains_seq(c, "<!DOCTYPE"@)
}

/// Checks the crumb endpoint's answer after cleaning it; a bad one is an
/// `AuthenticationFailed` error.
pub fn crumb_from_endpoint_text(text: &str) -> (r: Result<String, ApiError>)
    ensures
        match r {
            Ok(c) => c@ == crate::crumb::cleaned_crumb(text@)
                && endpoint_crumb_ok(c@),
            Err(e) => !endpoint_crumb_ok(crate::crumb::cleaned_crumb(text@))
                && (e matches ApiError::AuthenticationFailed(m) && m@ == "Crumb endpoint failed"@),
        },
{
    let c = crate::crumb::clean_crumb(text);
    if !c.as_str().is_empty() && c.as_str().len() < 50 && !crate::text::contains_str(c.as_str(), "<!DOCTYPE") {
        Ok(c)
    } else {
        Err(ApiError::AuthenticationFailed("Crumb endpoint failed".to_owned()))
    }
}

/// Searches a quote page for the crumb with the shorter pattern list.
pub fn find_crumb_in_html(html: &str) -> (r: Result<String, ApiError>)
    ensures
        match r {
            Ok(c) => crate::crumb::first_hit(crate::crumb::short_crumb_patterns(), html@) == Some(c@),
            Err(e) => crate::crumb::first_hit(crate::crumb::short_crumb_patterns(), html@) is None
                && (e matches ApiError::ParseError(m) && m@ == "Crumb not found in HTML"@),
        },
{
    match crate::crumb::find_crumb_short(html) {
        Some(c) => Ok(c),
        None => Err(ApiError::ParseError("Crumb not found in HTML".to_owned())),
    }
}

/// The name and description of a portfolio-creation request: `name` (or
/// "New Portfolio") and the optional `description`, both as strings.
pub fn portfolio_request_fields(request: &Json) -> (r: (String, Option<String>))
    ensures
        r.0@ == (match str_member(*request, "name"@) {
            Some(n) => n,
            None => "New Portfolio"@,
        }),
        opt_chars(r.1) == str_member(*request, "description"@),
{
    let name = match request.get("name") {
        Some(v) => match v.as_str() {
            Some(s) => s.clone(),
            None => "New Portfolio".to_owned(),
        },
        None => "New Portfolio".to_owned(),
    };
    let description = match request.get("description") {
        Some(v) => match v.as_str() {
            Some(s) => Some(s.clone()),
            None => None,
        },
        None => None,
    };
    (name, description)
}

/// The predefined screener a request runs: the named one for a predefined
/// request (most active when unnamed), and most active otherwise.
pub fn screener_id(screener_type: &Option<String>, predefined: &Option<String>) -> (r: String)
    ensures
        r@ == (if opt_chars(*screener_type) == Some("predefined"@) {
            match opt_chars(*predefined) {
                Some(id) => id,
                None => "most_actives"@,
            }
        } else {
            "most_actives"@
        }),
{
    let is_predefined = match screener_type {
        Some(t) => str_eq(t.as_str(), "predefined"),
        None => false,
    };
    if is_predefined {
        match predefined {
            Some(id) => id.clone(),
            None => "most_actives".to_owned(),
        }
    } else {
        "most_actives".to_owned()
    }
}

/// The endpoint a request to the enhanced server goes to.
#[derive(Debug)]
pub enum Endpoint {
    Preflight,
    Quote,
    Quotes,
    Historical,
    MarketOverview,
    Screener,
    Health,
    CreatePortfolio,
    /// Any method on `/api/v1/portfolio/<id>`, with the id.
    GetPortfolio(String),
    NotFound,
}

/// The prefix of a portfolio's path.
pub open spec fn portfolio_prefix() -> Seq<char> {
    "/api/v1/portfolio/"@
}

/// Where a request with this method and path goes.
pub open spec fn endpoint_matches(e: Endpoint, method: Seq<char>, path: Seq<char>) -> bool {
    if method == "OPTIONS"@ {
        e is Preflight
    } else if method == "GET"@ && path == "/api/v1/quote"@ {
        e is Quote
    } else if method == "GET"@ && path == "/api/v1/quotes"@ {
        e is Quotes
    } else if method == "GET"@ && path == "/api/v1/historical"@ {
        e is Historical
    } else if method == "GET"@ && path == "/api/v1/market/overview"@ {
        e is MarketOverview
    } else if method == "GET"@ && path == "/api/v1/screener"@ {
        e is Screener
    } else if method == "GET"@ && path == "/api/v1/health"@ {
        e is Health
    } else if method == "POST"@ && path == "/api/v1/portfolio"@ {
        e is CreatePortfolio
    } else if crate::text::has_prefix(path, portfolio_prefix()) {
        e matches Endpoint::GetPortfolio(id) && id@ == path.skip(18)
    } else {
        e is NotFound
    }
}

/// The method and path of each fixed endpoint of the enhanced server.
pub open spec fn endpoint_route(e: Endpoint) -> Option<(Seq<char>, Seq<char>)> {
    match e {
        Endpoint::Quote => Some(("GET"@, "/api/v1/quote"@)),
        Endpoint::Quotes => Some(("GET"@, "/api/v1/quotes"@)),
        Endpoint::Historical => Some(("GET"@, "/api/v1/historical"@)),
        Endpoint::MarketOverview => Some(("GET"@, "/api/v1/market/overview"@)),
        Endpoint::Screener => Some(("GET"@, "/api/v1/screener"@)),
        Endpoint::Health => Some(("GET"@, "/api/v1/health"@)),
        Endpoint::CreatePortfolio => Some(("POST"@, "/api/v1/portfolio"@)),
        _ => None,
    }
}

/// Each fixed endpoint's method and path go to that endpoint and to no
/// other; a path under `/api/v1/portfolio/` goes to the portfolio named by
/// the rest of the path, whatever the method but `OPTIONS`; and a request
/// goes nowhere (`NotFound`) only when none of these applies.
pub proof fn lemma_enhanced_routes(e: Endpoint, f: Endpoint, method: Seq<char>, path: Seq<char>)
    ensures
        endpoint_route(e) matches Some(mp) ==> endpoint_matches(e, mp.0, mp.1),
        endpoint_route(e) matches Some(mp) && endpoint_matches(f, mp.0, mp.1) ==> f == e,
        method != "OPTIONS"@ && crate::text::has_prefix(path, portfolio_prefix()) ==> (endpoint_matches(
            f,
            method,
            path,
        ) <==> (f matches Endpoint::GetPortfolio(id) && id@ == path.skip(18))),
        method == "OPTIONS"@ ==> (endpoint_matches(f, method, path) <==> f is Preflight),
        endpoint_matches(f, method, path) && f is NotFound ==> method != "OPTIONS"@
            && !crate::text::has_prefix(path, portfolio_prefix()) && forall|g: Endpoint|
            endpoint_route(g) != Some((method, path)),
{
    reveal_strlit("OPTIONS");
    reveal_strlit("GET");
    reveal_strlit("POST");
    reveal_strlit("/api/v1/quote");
    reveal_strlit("/api/v1/quotes");
    reveal_strlit("/api/v1/historical");
    reveal_strlit("/api/v1/market/overview");
    reveal_strlit("/api/v1/screener");
    reveal_strlit("/api/v1/health");
    reveal_strlit("/api/v1/portfolio");
    reveal_strlit("/api/v1/portfolio/");
    // The methods differ in length; the paths in length or in the letter
    // after `/api/v1/`, and none of them lies under the portfolio prefix.
    assert("OPTIONS"@.len() == 7 && "GET"@.len() == 3 && "POST"@.len() == 4);
    assert("/api/v1/quote"@.len() == 13 && "/api/v1/quote"@[8] == 'q');
    assert("/api/v1/quotes"@.len() == 14 && "/api/v1/quotes"@[8] == 'q');
    assert("/api/v1/historical"@.len() == 18 && "/api/v1/historical"@[8] == 'h');
    assert("/api/v1/market/overview"@.len() == 23 && "/api/v1/market/overview"@[8] == 'm');
    assert("/api/v1/screener"@.len() == 16 && "/api/v1/screener"@[8] == 's');
    assert("/api/v1/health"@.len() == 14 && "/api/v1/health"@[8] == 'h');
    assert("/api/v1/portfolio"@.len() == 17 && "/api/v1/portfolio"@[8] == 'p');
    assert(portfolio_prefix().len() == 18 && portfolio_prefix()[8] == 'p');
    if crate::text::has_prefix(path, portfolio_prefix()) {
        assert(path[8] == path.subrange(0, 18)[8]);
        assert(path[8] == 'p');
    }
}

/// Routes a request by its method and path.
pub fn route_request(method: &str, path: &str) -> (r: Endpoint)
    ensures
        endpoint_matches(r, method@, path@),
        forall|e: Endpoint| endpoint_route(e) == Some((method@, path@)) ==> r == e,
{
    let get = str_eq(method, "GET");
    let r = if str_eq(method, "OPTIONS") {
        Endpoint::Preflight
    } else if get && str_eq(path, "/api/v1/quote") {
        Endpoint::Quote
    } else if get && str_eq(path, "/api/v1/quotes") {
        Endpoint::Quotes
    } else if get && str_eq(path, "/api/v1/historical") {
        Endpoint::Historical
    } else if get && str_eq(path, "/api/v1/market/overview") {
        Endpoint::MarketOverview
    } else if get && str_eq(path, "/api/v1/screener") {
        Endpoint::Screener
    } else if get && str_eq(path, "/api/v1/health") {
        Endpoint::Health
    } else if str_eq(method, "POST") && str_eq(path, "/api/v1/portfolio") {
        Endpoint::CreatePortfolio
    } else if crate::text::starts_with_str(path, "/api/v1/portfolio/") {
        proof {
            reveal_strlit("/api/v1/portfolio/");
        }
        let n: usize = crate::text::chars_of(path).len();
        Endpoint::GetPortfolio(crate::text::substring(path, 18, n))
    } else {
        Endpoint::NotFound
    };
    proof {
        assert forall|e: Endpoint| endpoint_route(e) == Some((method@, path@)) implies r == e by {
            lemma_enhanced_routes(e, r, method@, path@);
        }
    }
    r
}

/// The CORS header lines of the enhanced server.
pub fn cors_headers() -> (r: &'static str)
    ensures
        r@ == "Access-Control-Allow-Origin: *\r\nAccess-Control-Allow-Methods: GET, POST, OPTIONS\r\nAccess-Control-Allow-Headers: Content-Type, Authorization\r\n"@,
{
    "Access-Control-Allow-Origin: *\r\nAccess-Control-Allow-Methods: GET, POST, OPTIONS\r\nAccess-Control-Allow-Headers: Content-Type, Authorization\r\n"
}

} // verus!
