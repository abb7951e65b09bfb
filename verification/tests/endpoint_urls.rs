use yeast::endpoints::{
    analysis_url, calendar_url, crumbless_urls, custom_screener_url, financials_url, news_url,
    predefined_screener_url, quote_page_url, quote_summary_url, screener_body,
};
use yeast::json::Json;

#[test]
fn page_and_crumbless_addresses() {
    assert_eq!(quote_page_url("AAPL"), "https://finance.yahoo.com/quote/AAPL");
    assert_eq!(
        crumbless_urls("IBM"),
        vec![
            "https://query1.finance.yahoo.com/v8/finance/chart/IBM",
            "https://query2.finance.yahoo.com/v10/finance/quoteSummary/IBM?modules=price,summaryDetail",
            "https://query1.finance.yahoo.com/v7/finance/quote?symbols=IBM",
        ]
    );
}

#[test]
fn data_addresses() {
    assert_eq!(
        quote_summary_url("MSFT", "c1"),
        "https://query1.finance.yahoo.com/v10/finance/quoteSummary/MSFT?modules=assetProfile,financialData,defaultKeyStatistics,summaryDetail,price,summaryProfile&crumb=c1"
    );
    assert_eq!(
        news_url("TSLA", None, "c2"),
        "https://query1.finance.yahoo.com/v1/finance/search?q=TSLA&quotesCount=0&newsCount=20&crumb=c2"
    );
    assert_eq!(
        news_url("TSLA", Some(5), "c2"),
        "https://query1.finance.yahoo.com/v1/finance/search?q=TSLA&quotesCount=0&newsCount=5&crumb=c2"
    );
    assert_eq!(
        calendar_url("earnings", "2024-01-01", "2024-01-31", "c3"),
        "https://query1.finance.yahoo.com/v1/finance/calendar/earnings?from=2024-01-01&to=2024-01-31&crumb=c3"
    );
    assert_eq!(
        financials_url("KO", "c4"),
        "https://query1.finance.yahoo.com/v10/finance/quoteSummary/KO?modules=incomeStatementHistory,balanceSheetHistory,cashflowStatementHistory&crumb=c4"
    );
    assert_eq!(
        analysis_url("KO", "c4"),
        "https://query1.finance.yahoo.com/v10/finance/quoteSummary/KO?modules=recommendationTrend,earningsEstimate,revenueEstimate&crumb=c4"
    );
}

#[test]
fn screener_addresses() {
    assert_eq!(
        predefined_screener_url("day_gainers", None, None, "c5"),
        "https://query2.finance.yahoo.com/v1/finance/screener/predefined/saved?count=100&offset=0&scrIds=day_gainers&crumb=c5"
    );
    assert_eq!(
        predefined_screener_url("most_actives", Some(10), Some(20), "c5"),
        "https://query2.finance.yahoo.com/v1/finance/screener/predefined/saved?count=10&offset=20&scrIds=most_actives&crumb=c5"
    );
    assert_eq!(custom_screener_url("c6"), "https://query2.finance.yahoo.com/v1/finance/screener?crumb=c6");
}

#[test]
fn custom_screen_body() {
    let body = screener_body(None, Some(5), None, Some("asc"), Json::Null);
    match body {
        Json::Object(fields) => {
            let keys: Vec<&str> = fields.iter().map(|(k, _)| k.as_str()).collect();
            assert_eq!(keys, vec!["size", "offset", "sortField", "sortType", "quoteType", "query"]);
            assert!(matches!(fields[0].1, Json::PosInt(100)));
            assert!(matches!(fields[1].1, Json::PosInt(5)));
            assert!(matches!(&fields[2].1, Json::Str(s) if s == "ticker"));
            assert!(matches!(&fields[3].1, Json::Str(s) if s == "asc"));
            assert!(matches!(&fields[4].1, Json::Str(s) if s == "EQUITY"));
            assert!(matches!(fields[5].1, Json::Null));
        }
        other => panic!("unexpected {:?}", other),
    }
}
