use yeast::og::{
    bar_dates, bar_datetimes, timestamps_have_dates, LAST_CHRONO_SECOND,
    chart_path, chart_request, chart_url, complete_rows, complete_rows_fit, options_path, options_request, options_url,
    parse_symbols_csv, text_lines, ChartColumns, ChartQueryOptions,
};

#[test]
fn chart_addresses() {
    let opts = ChartQueryOptions::default();
    assert_eq!(opts.interval, "1d");
    assert_eq!(opts.range, "5d");
    assert_eq!(chart_path("AAPL", &opts), "/v8/finance/chart/AAPL?interval=1d&range=5d");
    let minute = ChartQueryOptions { interval: "1m", range: "1d" };
    assert_eq!(
        chart_url("MSFT", &minute),
        "https://query1.finance.yahoo.com/v8/finance/chart/MSFT?interval=1m&range=1d"
    );
    assert_eq!(
        chart_request("IBM", &opts),
        "GET /v8/finance/chart/IBM?interval=1d&range=5d HTTP/1.1\r\nHost: query1.finance.yahoo.com\r\nUser-Agent: stock-client/1.0\r\nConnection: close\r\n\r\n"
    );
}

#[test]
fn option_chain_addresses() {
    assert_eq!(options_path("TSLA"), "/ajax/getOptions?stock=TSLA&reqId=1");
    assert_eq!(options_url("TSLA"), "https://www.optionsprofitcalculator.com/ajax/getOptions?stock=TSLA&reqId=1");
    assert!(options_request("TSLA").starts_with("GET /ajax/getOptions?stock=TSLA&reqId=1 HTTP/1.1\r\nHost: www.optionsprofitcalculator.com\r\n"));
}

#[test]
fn complete_bars_only() {
    let ts = vec![100u64, 200, 300, 400];
    let close = vec![Some(1.0f64), Some(2.0), None, Some(4.0)];
    let open = vec![Some(1.5f64), Some(2.5), Some(3.5), Some(4.5)];
    let high = vec![Some(2.0f64), Some(3.0), Some(4.0)];
    let low = vec![Some(0.5f64), Some(1.5), Some(2.5), Some(3.5)];
    let volume = vec![Some(10u64), None, Some(30), Some(40)];
    let cols = ChartColumns { close: Some(&close), open: Some(&open), high: Some(&high), low: Some(&low), volume: Some(&volume) };
    let rows = complete_rows(&ts, &cols);
    assert_eq!(rows.len(), 1);
    assert_eq!(rows[0].timestamp, 100);
    assert_eq!(rows[0].close, 1.0);
    assert_eq!(rows[0].open, 1.5);
    assert_eq!(rows[0].volume, 10);
    assert!(complete_rows_fit(&ts, &cols));
    let late = vec![u64::MAX, 200, 300, 400];
    assert!(!complete_rows_fit(&late, &cols));
    let late_incomplete = vec![100, u64::MAX, 300, 400];
    assert!(complete_rows_fit(&late_incomplete, &cols));
    let missing = ChartColumns::<f64> { close: None, open: Some(&open), high: Some(&high), low: Some(&low), volume: Some(&volume) };
    assert!(complete_rows(&ts, &missing).is_empty());
}

#[test]
fn lines_of_a_listing() {
    assert_eq!(text_lines("a\r\nb\n\nc\n"), vec!["a", "b", "", "c"]);
    assert!(text_lines("").is_empty());
    assert_eq!(text_lines("x"), vec!["x"]);
    assert_eq!(text_lines("a\r\nb\r"), vec!["a", "b\r"]);
    assert_eq!(text_lines("\r"), vec!["\r"]);
    assert_eq!(text_lines("a\r\n"), vec!["a"]);
}

#[test]
fn symbols_of_a_listing() {
    let csv = "Symbol,Name\nAAPL,Apple Inc\n\n  \nMSFT,Microsoft\r\nT\n";
    assert_eq!(parse_symbols_csv(csv), vec!["AAPL", "MSFT", "T"]);
    assert!(parse_symbols_csv("Symbol,Name\n").is_empty());
    assert_eq!(parse_symbols_csv("Symbol\r\nAAPL\r\nX\r"), vec!["AAPL", "X\r"]);
    assert!(parse_symbols_csv("").is_empty());
}

#[test]
fn bar_times_are_written_in_rfc3339() {
    assert_eq!(
        bar_datetimes(&vec![0, 86_400 + 3_661, 1_700_000_000]),
        vec!["1970-01-01T00:00:00+00:00", "1970-01-02T01:01:01+00:00", "2023-11-14T22:13:20+00:00"]
    );
    assert!(bar_datetimes(&vec![]).is_empty());
    assert_eq!(bar_datetimes(&vec![LAST_CHRONO_SECOND as i64]).len(), 1);
}

#[test]
fn bar_days_are_written_as_dates() {
    assert_eq!(
        bar_dates(&vec![0, 86_399, 86_400, 1_700_000_000]),
        vec!["1970-01-01", "1970-01-01", "1970-01-02", "2023-11-14"]
    );
    assert!(bar_dates(&vec![]).is_empty());
}

#[test]
fn which_timestamps_have_dates() {
    assert!(timestamps_have_dates(&vec![0, 1_700_000_000, LAST_CHRONO_SECOND as i64]));
    assert!(!timestamps_have_dates(&vec![0, -1]));
    assert!(!timestamps_have_dates(&vec![LAST_CHRONO_SECOND as i64 + 1]));
    assert!(timestamps_have_dates(&vec![]));
}
