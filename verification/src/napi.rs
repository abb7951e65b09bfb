//! The newer API layer: its errors, predefined screeners, filter operators,
//! the extended field table, filter conversion and crumb checks.

use vstd::prelude::*;
use crate::json::{Json, JsonView};
use crate::text::{concat_str, str_eq};

pub use crate::cache::CrumbCache;
pub use crate::rate_limit::RateLimiter;
pub use crate::api2::{AlertCondition, AlertType, HealthStatus, TransactionType, health_status};

verus! {

/// Errors of the newer API layer.
#[derive(Debug)]
pub enum ApiError {
    FetchError(String),
    DataNotFound(String),
    InvalidParameters(String),
    RateLimited(String),
    AuthenticationFailed(String),
    CacheError(String),
    NetworkError(String),
    ParseError(String),
}

/// The message of an error, as it is displayed.
pub open spec fn api_error_message(e: ApiError) -> Seq<char> {
    match e {
        ApiError::FetchError(m) => "Fetch error: "@ + m@,
        ApiError::DataNotFound(m) => "Data not found: "@ + m@,
        ApiError::InvalidParameters(m) => "Invalid parameters: "@ + m@,
        ApiError::RateLimited(m) => "Rate limited: "@ + m@,
        ApiError::AuthenticationFailed(m) => "Authentication failed: "@ + m@,
        ApiError::CacheError(m) => "Cache error: "@ + m@,
        ApiError::NetworkError(m) => "Network error: "@ + m@,
        ApiError::ParseError(m) => "Parse error: "@ + m@,
    }
}

impl ApiError {
    /// The text of the error.
    pub fn message(&self) -> (r: String)
        ensures
            r@ == api_error_message(*self),
    {
        match self {
            ApiError::FetchError(m) => concat_str("Fetch error: ", m.as_str()),
            ApiError::DataNotFound(m) => concat_str("Data not found: ", m.as_str()),
            ApiError::InvalidParameters(m) => concat_str("Invalid parameters: ", m.as_str()),
            ApiError::RateLimited(m) => concat_str("Rate limited: ", m.as_str()),
            ApiError::AuthenticationFailed(m) => concat_str("Authentication failed: ", m.as_str()),
            ApiError::CacheError(m) => concat_str("Cache error: ", m.as_str()),
            ApiError::NetworkError(m) => concat_str("Network error: ", m.as_str()),
            ApiError::ParseError(m) => concat_str("Parse error: ", m.as_str()),
        }
    }
}

/// The predefined screens a user can ask for.
#[derive(Debug, Clone, Copy, PartialEq, Eq, Structural)]
pub enum PredefinedScreener {
    MostActive,
    TopGainers,
    TopLosers,
    HighDividendYield,
    LowPERatio,
    HighGrowth,
    ValueStocks,
    SmallCap,
    MidCap,
    LargeCap,
    TechStocks,
    DividendAristocrats,
    PennyStocks,
    HighVolatility,
    LowVolatility,
}

/// The screener id behind each predefined screen.
pub open spec fn predefined_id(s: PredefinedScreener) -> Seq<char> {
    match s {
        PredefinedScreener::MostActive => "most_actives"@,
        PredefinedScreener::TopGainers => "day_gainers"@,
        PredefinedScreener::TopLosers => "day_losers"@,
        PredefinedScreener::HighDividendYield => "high_yield"@,
        PredefinedScreener::LowPERatio => "undervalued_large_caps"@,
        PredefinedScreener::HighGrowth => "growth_technology_stocks"@,
        PredefinedScreener::ValueStocks => "undervalued_large_caps"@,
        PredefinedScreener::SmallCap => "small_cap_gainers"@,
        PredefinedScreener::MidCap => "mid_cap_gainers"@,
        PredefinedScreener::LargeCap => "day_gainers"@,
        PredefinedScreener::TechStocks => "growth_technology_stocks"@,
        PredefinedScreener::DividendAristocrats => "dividend_yielders"@,
        PredefinedScreener::PennyStocks => "small_cap_gainers"@,
        PredefinedScreener::HighVolatility => "day_gainers"@,
        PredefinedScreener::LowVolatility => "conservative_foreign_funds"@,
    }
}

impl PredefinedScreener {
    /// The screener id of this screen.
    pub fn yahoo_id(&self) -> (r: &'static str)
        ensures
            r@ == predefined_id(*self),
    {
        match self {
            PredefinedScreener::MostActive => "most_actives",
            PredefinedScreener::TopGainers => "day_gainers",
            PredefinedScreener::TopLosers => "day_losers",
            PredefinedScreener::HighDividendYield => "high_yield",
            PredefinedScreener::LowPERatio => "undervalued_large_caps",
            PredefinedScreener::HighGrowth => "growth_technology_stocks",
            PredefinedScreener::ValueStocks => "undervalued_large_caps",
            PredefinedScreener::SmallCap => "small_cap_gainers",
            PredefinedScreener::MidCap => "mid_cap_gainers",
            PredefinedScreener::LargeCap => "day_gainers",
            PredefinedScreener::TechStocks => "growth_technology_stocks",
            PredefinedScreener::DividendAristocrats => "dividend_yielders",
            PredefinedScreener::PennyStocks => "small_cap_gainers",
            PredefinedScreener::HighVolatility => "day_gainers",
            PredefinedScreener::LowVolatility => "conservative_foreign_funds",
        }
    }
}

/// The comparisons a filter can make.
#[derive(Debug, Clone, Copy, PartialEq, Eq, Structural)]
pub enum FilterOperator {
    GreaterThan,
    LessThan,
    GreaterThanOrEqual,
    LessThanOrEqual,
    Equal,
    Between,
    In,
    NotIn,
    Contains,
}

/// The short name of each comparison.
pub open spec fn operator_name(op: FilterOperator) -> Seq<char> {
    match op {
        FilterOperator::GreaterThan => "gt"@,
        FilterOperator::LessThan => "lt"@,
        FilterOperator::GreaterThanOrEqual => "gte"@,
        FilterOperator::LessThanOrEqual => "lte"@,
        FilterOperator::Equal => "eq"@,
        FilterOperator::Between => "between"@,
        FilterOperator::In => "in"@,
        FilterOperator::NotIn => "not_in"@,
        FilterOperator::Contains => "contains"@,
    }
}

/// What a two-operand comparison says of a field's value `a` and the
/// filter's value `b`, by the comparison itself.
pub open spec fn compares(op: FilterOperator, a: int, b: int) -> Option<bool> {
    match op {
        FilterOperator::GreaterThan => Some(a > b),
        FilterOperator::LessThan => Some(a < b),
        FilterOperator::GreaterThanOrEqual => Some(a >= b),
        FilterOperator::LessThanOrEqual => Some(a <= b),
        FilterOperator::Equal => Some(a == b),
        _ => None,
    }
}

/// What a comparison's short name says of `a` and `b`: `gt` greater,
/// `lt` less, `gte` greater or equal, `lte` less or equal, `eq` equal.
pub open spec fn name_compares(name: Seq<char>, a: int, b: int) -> Option<bool> {
    if name == "gt"@ { Some(a > b) }
    else if name == "lt"@ { Some(a < b) }
    else if name == "gte"@ { Some(a >= b) }
    else if name == "lte"@ { Some(a <= b) }
    else if name == "eq"@ { Some(a == b) }
    else { None }
}

/// A comparison's short name means that comparison (`lte` for
/// less-or-equal, never another), and distinct comparisons have distinct
/// names.
pub proof fn lemma_operator_names_mean_their_comparison(op: FilterOperator, other: FilterOperator, a: int, b: int)
    ensures
        compares(op, a, b) is Some ==> name_compares(operator_name(op), a, b) == compares(op, a, b),
        op != other ==> operator_name(op) != operator_name(other),
{
    reveal_strlit("gt");
    reveal_strlit("lt");
    reveal_strlit("gte");
    reveal_strlit("lte");
    reveal_strlit("eq");
    reveal_strlit("between");
    reveal_strlit("in");
    reveal_strlit("not_in");
    reveal_strlit("contains");
    // The names differ in length or in their first two letters.
    assert("gt"@.len() == 2 && "gt"@[0] == 'g');
    assert("lt"@.len() == 2 && "lt"@[0] == 'l');
    assert("gte"@.len() == 3 && "gte"@[0] == 'g');
    assert("lte"@.len() == 3 && "lte"@[0] == 'l');
    assert("eq"@.len() == 2 && "eq"@[0] == 'e');
    assert("between"@.len() == 7);
    assert("in"@.len() == 2 && "in"@[0] == 'i');
    assert("not_in"@.len() == 6);
    assert("contains"@.len() == 8);
}

impl FilterOperator {
    /// The short name of this comparison.
    pub fn short_name(&self) -> (r: &'static str)
        ensures
            r@ == operator_name(*self),
            forall|a: int, b: int| #[trigger] compares(*self, a, b) is Some ==> name_compares(r@, a, b) == compares(*self, a, b),
    {
        proof {
            assert forall|a: int, b: int| #[trigger] compares(*self, a, b) is Some implies name_compares(
                operator_name(*self),
                a,
                b,
            ) == compares(*self, a, b) by {
                lemma_operator_names_mean_their_comparison(*self, *self, a, b);
            }
        }
        match self {
            FilterOperator::GreaterThan => "gt",
            FilterOperator::LessThan => "lt",
            FilterOperator::GreaterThanOrEqual => "gte",
            FilterOperator::LessThanOrEqual => "lte",
            FilterOperator::Equal => "eq",
            FilterOperator::Between => "between",
            FilterOperator::In => "in",
            FilterOperator::NotIn => "not_in",
            FilterOperator::Contains => "contains",
        }
    }
}

/// The screener field name for an API field name, aliases included.
pub open spec fn yahoo_field(f: Seq<char>) -> Option<Seq<char>> {
    if f == "price"@ || f == "current_price"@ { Some("intradayprice"@) }
    else if f == "volume"@ || f == "avg_volume"@ { Some("intradayvolume"@) }
    else if f == "market_cap"@ { Some("intradaymarketcap"@) }
    else if f == "pe_ratio"@ || f == "trailing_pe"@ { Some("trailingpe"@) }
    else if f == "forward_pe"@ { Some("forwardpe"@) }
    else if f == "peg_ratio"@ { Some("pegratio"@) }
    else if f == "price_to_book"@ || f == "pb_ratio"@ { Some("pb"@) }
    else if f == "price_to_sales"@ || f == "ps_ratio"@ { Some("ps"@) }
    else if f == "dividend_yield"@ { Some("dividendyield"@) }
    else if f == "change_percent"@ || f == "percent_change"@ { Some("percentchange"@) }
    else if f == "change"@ || f == "price_change"@ { Some("change"@) }
    else if f == "fifty_two_week_high"@ || f == "52w_high"@ { Some("week52high"@) }
    else if f == "fifty_two_week_low"@ || f == "52w_low"@ { Some("week52low"@) }
    else if f == "beta"@ { Some("beta"@) }
    else if f == "eps"@ || f == "trailing_eps"@ { Some("trailingeps"@) }
    else if f == "forward_eps"@ { Some("forwardeps"@) }
    else if f == "revenue"@ || f == "total_revenue"@ { Some("totalrevenue"@) }
    else if f == "debt_to_equity"@ { Some("debttoequity"@) }
    else if f == "return_on_equity"@ || f == "roe"@ { Some("returnonequity"@) }
    else if f == "return_on_assets"@ || f == "roa"@ { Some("returnonassets"@) }
    else if f == "profit_margin"@ { Some("profitmargin"@) }
    else if f == "operating_margin"@ { Some("operatingmargin"@) }
    else if f == "gross_margin"@ { Some("grossmargin"@) }
    else if f == "current_ratio"@ { Some("currentratio"@) }
    else if f == "quick_ratio"@ { Some("quickratio"@) }
    else if f == "sector"@ { Some("sector"@) }
    else if f == "industry"@ { Some("industry"@) }
    else if f == "country"@ { Some("country"@) }
    else if f == "exchange"@ { Some("exchange"@) }
    else if f == "market_cap_category"@ { Some("marketcap"@) }
    else if f == "dividend_rate"@ { Some("dividendrate"@) }
    else if f == "ex_dividend_date"@ { Some("exdividenddate"@) }
    else if f == "earnings_date"@ { Some("earningsdate"@) }
    else if f == "book_value"@ { Some("bookvalue"@) }
    else if f == "cash_per_share"@ { Some("cashpershare"@) }
    else if f == "ebitda"@ { Some("ebitda"@) }
    else if f == "enterprise_value"@ { Some("enterprisevalue"@) }
    else if f == "float_shares"@ { Some("floatshares"@) }
    else if f == "shares_outstanding"@ { Some("sharesoutstanding"@) }
    else if f == "short_ratio"@ { Some("shortratio"@) }
    else if f == "institutional_ownership"@ { Some("institutionalownership"@) }
    else { None }
}

/// Maps an API field name (or one of its aliases) to the screener's field
/// name; unknown names are an `InvalidParameters` error naming the field.
pub fn map_field_to_yahoo(f: &str) -> (r: Result<String, ApiError>)
    ensures
        match r {
            Ok(name) => yahoo_field(f@) == Some(name@),
            Err(e) => yahoo_field(f@) is None
                && (e matches ApiError::InvalidParameters(m) && m@ == "Unknown field: "@ + f@),
        },
{
    let mapped = if str_eq(f, "price") || str_eq(f, "current_price") { "intradayprice" }
    else if str_eq(f, "volume") || str_eq(f, "avg_volume") { "intradayvolume" }
    else if str_eq(f, "market_cap") { "intradaymarketcap" }
    else if str_eq(f, "pe_ratio") || str_eq(f, "trailing_pe") { "trailingpe" }
    else if str_eq(f, "forward_pe") { "forwardpe" }
    else if str_eq(f, "peg_ratio") { "pegratio" }
    else if str_eq(f, "price_to_book") || str_eq(f, "pb_ratio") { "pb" }
    else if str_eq(f, "price_to_sales") || str_eq(f, "ps_ratio") { "ps" }
    else if str_eq(f, "dividend_yield") { "dividendyield" }
    else if str_eq(f, "change_percent") || str_eq(f, "percent_change") { "percentchange" }
    else if str_eq(f, "change") || str_eq(f, "price_change") { "change" }
    else if str_eq(f, "fifty_two_week_high") || str_eq(f, "52w_high") { "week52high" }
    else if str_eq(f, "fifty_two_week_low") || str_eq(f, "52w_low") { "week52low" }
    else if str_eq(f, "beta") { "beta" }
    else if str_eq(f, "eps") || str_eq(f, "trailing_eps") { "trailingeps" }
    else if str_eq(f, "forward_eps") { "forwardeps" }
    else if str_eq(f, "revenue") || str_eq(f, "total_revenue") { "totalrevenue" }
    else if str_eq(f, "debt_to_equity") { "debttoequity" }
    else if str_eq(f, "return_on_equity") || str_eq(f, "roe") { "returnonequity" }
    else if str_eq(f, "return_on_assets") || str_eq(f, "roa") { "returnonassets" }
    else if str_eq(f, "profit_margin") { "profitmargin" }
    else if str_eq(f, "operating_margin") { "operatingmargin" }
    else if str_eq(f, "gross_margin") { "grossmargin" }
    else if str_eq(f, "current_ratio") { "currentratio" }
    else if str_eq(f, "quick_ratio") { "quickratio" }
    else if str_eq(f, "sector") { "sector" }
    else if str_eq(f, "industry") { "industry" }
    else if str_eq(f, "country") { "country" }
    else if str_eq(f, "exchange") { "exchange" }
    else if str_eq(f, "market_cap_category") { "marketcap" }
    else if str_eq(f, "dividend_rate") { "dividendrate" }
    else if str_eq(f, "ex_dividend_date") { "exdividenddate" }
    else if str_eq(f, "earnings_date") { "earningsdate" }
    else if str_eq(f, "book_value") { "bookvalue" }
    else if str_eq(f, "cash_per_share") { "cashpershare" }
    else if str_eq(f, "ebitda") { "ebitda" }
    else if str_eq(f, "enterprise_value") { "enterprisevalue" }
    else if str_eq(f, "float_shares") { "floatshares" }
    else if str_eq(f, "shares_outstanding") { "sharesoutstanding" }
    else if str_eq(f, "short_ratio") { "shortratio" }
    else if str_eq(f, "institutional_ownership") { "institutionalownership" }
    else {
        return Err(ApiError::InvalidParameters(concat_str("Unknown field: ", f)));
    };
    Ok(mapped.to_owned())
}

/// A filter of a screening request.
#[derive(Debug)]
pub struct ScreenerFilter {
    pub field: String,
    pub operator: FilterOperator,
    pub value: Json,
    pub secondary_value: Option<Json>,
}

/// A filter in the screener's own terms.
#[derive(Debug)]
pub struct YahooScreenerFilter {
    pub field: String,
    pub operator: String,
    pub value: Json,
    pub secondary_value: Option<Json>,
}

/// The view of an optional JSON value.
pub open spec fn opt_json(o: Option<Json>) -> Option<JsonView> {
    match o {
        Some(j) => Some(j@),
        None => None,
    }
}

/// `y` is `f` in the screener's terms.
pub open spec fn converted(f: ScreenerFilter, y: YahooScreenerFilter) -> bool {
    &&& yahoo_field(f.field@) == Some(y.field@)
    &&& y.operator@ == operator_name(f.operator)
    &&& y.value@ == f.value@
    &&& opt_json(y.secondary_value) == opt_json(f.secondary_value)
}

/// The first filter, in order, whose field is unknown.
pub open spec fn first_unknown_field(filters: Seq<ScreenerFilter>) -> Option<Seq<char>>
    decreases filters.len(),
{
    if filters.len() == 0 {
        None
    } else if yahoo_field(filters[0].field@) is None {
        Some(filters[0].field@)
    } else {
        first_unknown_field(filters.drop_first())
    }
}

fn duplicate_opt(o: &Option<Json>) -> (r: Option<Json>)
    ensures
        opt_json(r) == opt_json(*o),
{
    match o {
        Some(j) => Some(j.duplicate()),
        None => None,
    }
}

/// Puts each filter in the screener's terms; the first unknown field is an
/// `InvalidParameters` error.
pub fn convert_filters_to_yahoo_format(filters: &Vec<ScreenerFilter>) -> (r: Result<Vec<YahooScreenerFilter>, ApiError>)
    ensures
        match r {
            Ok(ys) => first_unknown_field(filters@) is None && ys@.len() == filters@.len()
                && forall|k: int| 0 <= k < ys@.len() ==> converted(filters@[k], #[trigger] ys@[k]),
            Err(e) => first_unknown_field(filters@) matches Some(f)
                && (e matches ApiError::InvalidParameters(m) && m@ == "Unknown field: "@ + f),
        },
{
    let mut out: Vec<YahooScreenerFilter> = Vec::new();
    let mut i: usize = 0;
    proof {
        assert(filters@.skip(0) =~= filters@);
    }
    while i < filters.len()
        invariant
            i <= filters@.len(),
            out@.len() == i,
            forall|k: int| 0 <= k < i ==> converted(filters@[k], #[trigger] out@[k]),
            forall|k: int| 0 <= k < i ==> yahoo_field(#[trigger] filters@[k].field@) is Some,
            first_unknown_field(filters@) == first_unknown_field(filters@.skip(i as int)),
        decreases filters@.len() - i,
    {
        proof {
            assert(filters@.skip(i as int).drop_first() =~= filters@.skip(i + 1));
            assert(filters@.skip(i as int)[0] == filters@[i as int]);
        }
        let f = &filters[i];
        let field = match map_field_to_yahoo(f.field.as_str()) {
            Ok(name) => name,
            Err(e) => return Err(e),
        };
        out.push(YahooScreenerFilter {
            field,
            operator: f.operator.short_name().to_owned(),
            value: f.value.duplicate(),
            secondary_value: duplicate_opt(&f.secondary_value),
        });
        i = i + 1;
    }
    proof {
        assert(filters@.skip(i as int).len() == 0);
    }
    Ok(out)
}

/// Checks the crumb endpoint's answer after cleaning it: usable when not
/// empty and under 50 bytes; otherwise an `AuthenticationFailed` error.
pub fn crumb_from_endpoint_text(text: &str) -> (r: Result<String, ApiError>)
    ensures
        match r {
            Ok(c) => c@ == crate::crumb::cleaned_crumb(text@) && c@.len() > 0
                && (vstd::utf8::encode_utf8(c@).len() as usize) < 50,
            Err(e) => {
                let c = crate::crumb::cleaned_crumb(text@);
                &&& !(c.len() > 0 && (vstd::utf8::encode_utf8(c).len() as usize) < 50)
                &&& e matches ApiError::AuthenticationFailed(m) && m@ == "Crumb endpoint failed"@
            },
        },
{
    let c = crate::crumb::clean_crumb(text);
    if !c.as_str().is_empty() && c.as_str().len() < 50 {
        Ok(c)
    } else {
        Err(ApiError::AuthenticationFailed("Crumb endpoint failed".to_owned()))
    }
}

/// Searches a quote page for the crumb with the shorter pattern list.
pub fn find_crumb_in_html(html: &str) -> (r: Result<String, ApiError>)
    ensures
        match r {
            Ok(c) => crate::crumb::first_hit(crate::crumb::short_crumb_patterns(), html@) == Some(c@),
            Err(e) => crate::crumb::first_hit(crate::crumb::short_crumb_patterns(), html@) is None
                && (e matches ApiError::ParseError(m) && m@ == "Crumb not found in HTML"@),
        },
{
    match crate::crumb::find_crumb_short(html) {
        Some(c) => Ok(c),
        None => Err(ApiError::ParseError("Crumb not found in HTML".to_owned())),
    }
}

} // verus!
