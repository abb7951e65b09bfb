use yeast::api::{
    build_filter_criterion, build_screener_criteria, choose_screener, cors_headers, crumb_from_endpoint_text,
    crumb_pattern_list, find_crumb_in_html, json_headers, make_criterion, map_field_to_yahoo, parse_news,
    parse_news_item, route_request, sort_ascending, ApiError, Route, ScreenerFilter,
};
use yeast::json::Json;

fn s(x: &str) -> Json {
    Json::Str(x.to_string())
}

fn obj(fields: Vec<(&str, Json)>) -> Json {
    Json::Object(fields.into_iter().map(|(k, v)| (k.to_string(), v)).collect())
}

fn news_item(uuid: &str) -> Json {
    obj(vec![
        ("uuid", s(uuid)),
        ("title", s("Title")),
        ("link", s("https://x")),
        ("publisher", s("Pub")),
        ("providerPublishTime", Json::PosInt(1_700_000_000)),
        ("relatedTickers", Json::Array(vec![s("AAPL"), Json::PosInt(3), s("MSFT")])),
        (
            "thumbnail",
            obj(vec![("resolutions", Json::Array(vec![obj(vec![("url", s("https://img"))])]))]),
        ),
    ])
}

fn criterion_text(j: &Json) -> String {
    match j {
        Json::Null => "null".to_string(),
        Json::Bool(b) => b.to_string(),
        Json::PosInt(n) => n.to_string(),
        Json::NegInt(n) => n.to_string(),
        Json::Float(t) => t.clone(),
        Json::Str(x) => format!("{:?}", x),
        Json::Array(items) => format!("[{}]", items.iter().map(criterion_text).collect::<Vec<_>>().join(",")),
        Json::Object(fields) => format!(
            "{{{}}}",
            fields.iter().map(|(k, v)| format!("{:?}:{}", k, criterion_text(v))).collect::<Vec<_>>().join(",")
        ),
    }
}

fn filter(field: &str, op: &str, value: Json, second: Option<Json>) -> ScreenerFilter {
    ScreenerFilter { field: field.to_string(), operator: op.to_string(), value, secondary_value: second }
}

#[test]
fn news_item_is_read() {
    let story = parse_news_item(&news_item("u1")).unwrap();
    assert_eq!(story.uuid, "u1");
    assert_eq!(story.title, "Title");
    assert_eq!(story.link, "https://x");
    assert_eq!(story.summary, None);
    assert_eq!(story.publisher, "Pub");
    assert_eq!(story.author, None);
    assert_eq!(story.publish_time, 1_700_000_000);
    assert_eq!(story.provider_publish_time, 1_700_000_000);
    assert_eq!(story.news_type, "news");
    assert_eq!(story.thumbnail, Some("https://img".to_string()));
    assert_eq!(story.related_tickers, vec!["AAPL", "MSFT"]);
}

#[test]
fn incomplete_news_item_is_skipped() {
    let item = obj(vec![("uuid", s("u")), ("title", s("t"))]);
    assert!(parse_news_item(&item).is_none());
    let bad_time = obj(vec![
        ("uuid", s("u")),
        ("title", s("t")),
        ("link", s("l")),
        ("publisher", s("p")),
        ("providerPublishTime", s("yesterday")),
    ]);
    assert!(parse_news_item(&bad_time).is_none());
}

#[test]
fn news_list_keeps_complete_items() {
    let json = obj(vec![("news", Json::Array(vec![news_item("a"), obj(vec![]), news_item("b")]))]);
    let r = parse_news(&json).unwrap();
    assert_eq!(r.total_count, 2);
    assert_eq!(r.stories[0].uuid, "a");
    assert_eq!(r.stories[1].uuid, "b");
    match parse_news(&obj(vec![])) {
        Err(ApiError::DataNotFound(m)) => assert_eq!(m, "No news data"),
        other => panic!("unexpected {:?}", other),
    }
}

#[test]
fn field_names_are_mapped() {
    assert_eq!(map_field_to_yahoo("price").unwrap(), "intradayprice");
    assert_eq!(map_field_to_yahoo("eps").unwrap(), "trailingeps");
    assert_eq!(map_field_to_yahoo("exchange").unwrap(), "exchange");
    match map_field_to_yahoo("colour") {
        Err(ApiError::InvalidParameters(m)) => assert_eq!(m, "Unknown field: colour"),
        other => panic!("unexpected {:?}", other),
    }
}

#[test]
fn filter_criteria() {
    let c = build_filter_criterion(&filter("price", "gt", Json::PosInt(10), None)).unwrap();
    assert_eq!(criterion_text(&c), r#"{"operator":"GT","operands":["intradayprice",10]}"#);
    let b = build_filter_criterion(&filter("volume", "between", Json::PosInt(1), Some(Json::PosInt(5)))).unwrap();
    assert_eq!(criterion_text(&b), r#"{"operator":"BTWN","operands":["intradayvolume",1,5]}"#);
    let i = build_filter_criterion(&filter("sector", "in", Json::Array(vec![s("Tech")]), None)).unwrap();
    assert_eq!(criterion_text(&i), r#"{"operator":"IN","operands":["sector",["Tech"]]}"#);
}

#[test]
fn filter_criterion_errors() {
    let cases = vec![
        (filter("colour", "gt", Json::PosInt(1), None), "Unknown field: colour"),
        (filter("price", "between", Json::PosInt(1), None), "Between operator requires secondary_value"),
        (filter("price", "in", Json::PosInt(1), None), "In operator requires array value"),
        (filter("price", "near", Json::PosInt(1), None), "Unknown operator: near"),
    ];
    for (f, msg) in cases {
        match build_filter_criterion(&f) {
            Err(ApiError::InvalidParameters(m)) => assert_eq!(m, msg),
            other => panic!("unexpected {:?}", other),
        }
    }
}

#[test]
fn screener_query_joins_criteria() {
    let none = build_screener_criteria(&vec![]).unwrap();
    assert_eq!(criterion_text(&none), r#"{"operator":"EQ","operands":["region","us"]}"#);
    let one = build_screener_criteria(&vec![filter("beta", "lt", Json::PosInt(2), None)]).unwrap();
    assert_eq!(criterion_text(&one), r#"{"operator":"LT","operands":["beta",2]}"#);
    let two = build_screener_criteria(&vec![
        filter("beta", "lt", Json::PosInt(2), None),
        filter("price", "gte", Json::Float("1.5".to_string()), None),
    ])
    .unwrap();
    assert_eq!(
        criterion_text(&two),
        r#"{"operator":"AND","operands":[{"operator":"LT","operands":["beta",2]},{"operator":"GTE","operands":["intradayprice",1.5]}]}"#
    );
    // the first failing filter decides the error
    match build_screener_criteria(&vec![
        filter("beta", "lt", Json::PosInt(2), None),
        filter("bad", "lt", Json::PosInt(2), None),
        filter("price", "zz", Json::PosInt(2), None),
    ]) {
        Err(ApiError::InvalidParameters(m)) => assert_eq!(m, "Unknown field: bad"),
        other => panic!("unexpected {:?}", other),
    }
}

#[test]
fn make_criterion_shape() {
    let c = make_criterion("EQ", vec![s("a"), Json::NegInt(-1)]);
    assert_eq!(criterion_text(&c), r#"{"operator":"EQ","operands":["a",-1]}"#);
}

#[test]
fn crumb_in_html_page() {
    let pad = "x".repeat(10_000);
    let page = format!("{}\"CrumbStore\":{{\"crumb\":\"AbC123\"}}", pad);
    assert_eq!(find_crumb_in_html(&page).unwrap(), "AbC123");
    let page2 = format!("{}<div data-crumb='zz9'></div>", pad);
    assert_eq!(find_crumb_in_html(&page2).unwrap(), "zz9");
    match find_crumb_in_html(&pad) {
        Err(ApiError::FetchError(m)) => assert_eq!(m, "Could not find crumb in HTML"),
        other => panic!("unexpected {:?}", other),
    }
    match find_crumb_in_html("short page") {
        Err(ApiError::FetchError(m)) => assert_eq!(m, "Page appears to be blocked or incomplete"),
        other => panic!("unexpected {:?}", other),
    }
    let denied = format!("{}Access Denied \"crumb\":\"q\"", pad);
    assert!(matches!(find_crumb_in_html(&denied), Err(ApiError::FetchError(_))));
    assert_eq!(crumb_pattern_list().len(), 6);
}

#[test]
fn crumb_endpoint_answer() {
    assert_eq!(crumb_from_endpoint_text("  \"abcDEF\"\n").unwrap(), "abcDEF");
    match crumb_from_endpoint_text("  \"\" ") {
        Err(ApiError::FetchError(m)) => assert_eq!(m, "Invalid crumb format from endpoint"),
        other => panic!("unexpected {:?}", other),
    }
    assert!(crumb_from_endpoint_text(&"a".repeat(51)).is_err());
    assert!(crumb_from_endpoint_text(&"a".repeat(50)).is_ok());
}

#[test]
fn routes_of_the_first_server() {
    assert_eq!(route_request("GET", "/api/v1/historical"), Route::Historical);
    assert_eq!(route_request("GET", "/api/v1/options"), Route::OptionsChain);
    assert_eq!(route_request("POST", "/api/v1/options/pnl"), Route::OptionsPnl);
    assert_eq!(route_request("GET", "/api/v1/quotes"), Route::Quotes);
    assert_eq!(route_request("POST", "/api/v1/historical"), Route::NotFound);
    assert_eq!(route_request("OPTIONS", "/anything"), Route::Preflight);
    assert!(cors_headers().starts_with("Access-Control-Allow-Origin: http://localhost:3000\r\n"));
    assert_eq!(
        json_headers(),
        "Access-Control-Allow-Origin: http://localhost:3000\r\nAccess-Control-Allow-Credentials: true\r\n"
    );
}

#[test]
fn screener_choice_and_order() {
    assert_eq!(choose_screener(&Some("predefined".to_string()), &None), Some("most_actives".to_string()));
    assert_eq!(
        choose_screener(&Some("predefined".to_string()), &Some("day_gainers".to_string())),
        Some("day_gainers".to_string())
    );
    assert_eq!(choose_screener(&Some("custom".to_string()), &Some("day_gainers".to_string())), None);
    assert_eq!(choose_screener(&None, &None), None);
    assert!(sort_ascending(&None));
    assert!(sort_ascending(&Some("asc".to_string())));
    assert!(!sort_ascending(&Some("desc".to_string())));
}

#[test]
fn first_api_error_messages() {
    assert_eq!(ApiError::InvalidTicker("X".to_string()).message(), "Invalid ticker: X");
    assert_eq!(ApiError::InvalidDateRange("r".to_string()).message(), "Invalid date range: r");
    assert_eq!(ApiError::DataNotFound("d".to_string()).message(), "Data not found: d");
    assert_eq!(ApiError::FetchError("f".to_string()).message(), "Fetch error: f");
    assert_eq!(ApiError::CalculationError("c".to_string()).message(), "Calculation error: c");
    assert_eq!(ApiError::InvalidParameters("p".to_string()).message(), "Invalid parameters: p");
}
