use yeast::api2::{
    cors_headers, crumb_from_endpoint_text, find_crumb_in_html, get_index_name, health_status,
    portfolio_request_fields, route_request, screener_id, ApiError, Endpoint,
};
use yeast::json::Json;
use yeast::napi;
use yeast::napi::{convert_filters_to_yahoo_format, FilterOperator, PredefinedScreener};

fn s(x: &str) -> Json {
    Json::Str(x.to_string())
}

fn obj(fields: Vec<(&str, Json)>) -> Json {
    Json::Object(fields.into_iter().map(|(k, v)| (k.to_string(), v)).collect())
}

#[test]
fn health_report() {
    let ok = health_status(true, 42);
    assert_eq!(ok.status, "healthy");
    assert_eq!(ok.crumb_cache_status, "healthy");
    assert_eq!(ok.uptime, 42);
    assert_eq!(ok.version, "1.0.0");
    let bad = health_status(false, 7);
    assert_eq!(bad.status, "degraded");
    assert_eq!(bad.crumb_cache_status, "unhealthy");
}

#[test]
fn index_names() {
    assert_eq!(get_index_name("^GSPC"), "S&P 500");
    assert_eq!(get_index_name("^DJI"), "Dow Jones Industrial Average");
    assert_eq!(get_index_name("^IXIC"), "NASDAQ Composite");
    assert_eq!(get_index_name("^RUT"), "Russell 2000");
    assert_eq!(get_index_name("^VIX"), "VIX");
    assert_eq!(get_index_name("AAPL"), "AAPL");
}

#[test]
fn enhanced_crumb_endpoint() {
    assert_eq!(crumb_from_endpoint_text(" \"k9\" ").unwrap(), "k9");
    match crumb_from_endpoint_text("<!DOCTYPE html>") {
        Err(ApiError::AuthenticationFailed(m)) => assert_eq!(m, "Crumb endpoint failed"),
        other => panic!("unexpected {:?}", other),
    }
    assert!(crumb_from_endpoint_text(&"a".repeat(50)).is_err());
    assert!(crumb_from_endpoint_text(&"a".repeat(49)).is_ok());
    assert!(napi::crumb_from_endpoint_text("  ").is_err());
    assert_eq!(napi::crumb_from_endpoint_text("\"z\"").unwrap(), "z");
}

#[test]
fn enhanced_crumb_in_html() {
    assert_eq!(find_crumb_in_html("var x; window.crumb = \"w1\";").unwrap(), "w1");
    assert_eq!(find_crumb_in_html("{\"crumb\" : \"c2\"}").unwrap(), "c2");
    match find_crumb_in_html("<html></html>") {
        Err(ApiError::ParseError(m)) => assert_eq!(m, "Crumb not found in HTML"),
        other => panic!("unexpected {:?}", other),
    }
    assert!(matches!(napi::find_crumb_in_html("nothing"), Err(napi::ApiError::ParseError(_))));
}

#[test]
fn portfolio_request() {
    let (name, desc) = portfolio_request_fields(&obj(vec![("name", s("Growth")), ("description", s("long"))]));
    assert_eq!(name, "Growth");
    assert_eq!(desc, Some("long".to_string()));
    let (name2, desc2) = portfolio_request_fields(&obj(vec![("name", Json::PosInt(3))]));
    assert_eq!(name2, "New Portfolio");
    assert_eq!(desc2, None);
}

#[test]
fn screener_ids() {
    assert_eq!(screener_id(&Some("predefined".to_string()), &Some("day_losers".to_string())), "day_losers");
    assert_eq!(screener_id(&Some("predefined".to_string()), &None), "most_actives");
    assert_eq!(screener_id(&None, &Some("day_losers".to_string())), "most_actives");
}

#[test]
fn enhanced_routes() {
    assert!(matches!(route_request("OPTIONS", "/x"), Endpoint::Preflight));
    assert!(matches!(route_request("GET", "/api/v1/quote"), Endpoint::Quote));
    assert!(matches!(route_request("GET", "/api/v1/quotes"), Endpoint::Quotes));
    assert!(matches!(route_request("GET", "/api/v1/historical"), Endpoint::Historical));
    assert!(matches!(route_request("GET", "/api/v1/market/overview"), Endpoint::MarketOverview));
    assert!(matches!(route_request("GET", "/api/v1/screener"), Endpoint::Screener));
    assert!(matches!(route_request("GET", "/api/v1/health"), Endpoint::Health));
    assert!(matches!(route_request("POST", "/api/v1/portfolio"), Endpoint::CreatePortfolio));
    match route_request("GET", "/api/v1/portfolio/abc-123") {
        Endpoint::GetPortfolio(id) => assert_eq!(id, "abc-123"),
        other => panic!("unexpected {:?}", other),
    }
    assert!(matches!(route_request("DELETE", "/api/v1/quote"), Endpoint::NotFound));
    assert!(cors_headers().starts_with("Access-Control-Allow-Origin: *\r\n"));
}

#[test]
fn enhanced_error_messages() {
    assert_eq!(ApiError::RateLimited("r".to_string()).message(), "Rate limited: r");
    assert_eq!(ApiError::AuthenticationFailed("a".to_string()).message(), "Authentication failed: a");
    assert_eq!(ApiError::CacheError("c".to_string()).message(), "Cache error: c");
    assert_eq!(ApiError::NetworkError("n".to_string()).message(), "Network error: n");
    assert_eq!(ApiError::ParseError("p".to_string()).message(), "Parse error: p");
    assert_eq!(ApiError::ValidationError("v".to_string()).message(), "Validation error: v");
    assert_eq!(ApiError::FetchError("f".to_string()).message(), "Fetch error: f");
    assert_eq!(ApiError::DataNotFound("d".to_string()).message(), "Data not found: d");
    assert_eq!(ApiError::InvalidParameters("i".to_string()).message(), "Invalid parameters: i");
    assert_eq!(napi::ApiError::FetchError("f".to_string()).message(), "Fetch error: f");
    assert_eq!(napi::ApiError::InvalidParameters("i".to_string()).message(), "Invalid parameters: i");
    assert_eq!(napi::ApiError::RateLimited("r".to_string()).message(), "Rate limited: r");
    assert_eq!(napi::ApiError::AuthenticationFailed("a".to_string()).message(), "Authentication failed: a");
    assert_eq!(napi::ApiError::CacheError("c".to_string()).message(), "Cache error: c");
    assert_eq!(napi::ApiError::NetworkError("n".to_string()).message(), "Network error: n");
    assert_eq!(napi::ApiError::ParseError("p".to_string()).message(), "Parse error: p");
    assert_eq!(napi::ApiError::DataNotFound("d".to_string()).message(), "Data not found: d");
}

#[test]
fn predefined_screens_and_operators() {
    assert_eq!(PredefinedScreener::MostActive.yahoo_id(), "most_actives");
    assert_eq!(PredefinedScreener::LowPERatio.yahoo_id(), "undervalued_large_caps");
    assert_eq!(PredefinedScreener::LowVolatility.yahoo_id(), "conservative_foreign_funds");
    assert_eq!(FilterOperator::GreaterThanOrEqual.short_name(), "gte");
    assert_eq!(FilterOperator::NotIn.short_name(), "not_in");
}

#[test]
fn newer_field_names_and_filters() {
    assert_eq!(napi::map_field_to_yahoo("roe").unwrap(), "returnonequity");
    assert_eq!(napi::map_field_to_yahoo("52w_high").unwrap(), "week52high");
    match napi::map_field_to_yahoo("zzz") {
        Err(napi::ApiError::InvalidParameters(m)) => assert_eq!(m, "Unknown field: zzz"),
        other => panic!("unexpected {:?}", other),
    }
    let filters = vec![
        napi::ScreenerFilter {
            field: "pb_ratio".to_string(),
            operator: FilterOperator::Between,
            value: Json::PosInt(1),
            secondary_value: Some(Json::PosInt(3)),
        },
        napi::ScreenerFilter {
            field: "sector".to_string(),
            operator: FilterOperator::In,
            value: Json::Array(vec![s("Energy")]),
            secondary_value: None,
        },
    ];
    let out = convert_filters_to_yahoo_format(&filters).unwrap();
    assert_eq!(out.len(), 2);
    assert_eq!(out[0].field, "pb");
    assert_eq!(out[0].operator, "between");
    assert!(matches!(out[0].secondary_value, Some(Json::PosInt(3))));
    assert_eq!(out[1].field, "sector");
    assert_eq!(out[1].operator, "in");
    let bad = vec![napi::ScreenerFilter {
        field: "nope".to_string(),
        operator: FilterOperator::Equal,
        value: Json::Null,
        secondary_value: None,
    }];
    match convert_filters_to_yahoo_format(&bad) {
        Err(napi::ApiError::InvalidParameters(m)) => assert_eq!(m, "Unknown field: nope"),
        other => panic!("unexpected {:?}", other),
    }
}
