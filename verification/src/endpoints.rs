//! The addresses and request bodies the market-data clients send.

use vstd::prelude::*;
use crate::json::{Json, JsonView};
use crate::text::{concat_str, decimal, decimal_string};

verus! {

/// The quote page of a symbol.
pub open spec fn quote_page_text(symbol: Seq<char>) -> Seq<char> {
    "https://finance.yahoo.com/quote/"@ + symbol
}

/// The quote page of a symbol (also sent as the referer of its requests).
pub fn quote_page_url(symbol: &str) -> (r: String)
    ensures
        r@ == quote_page_text(symbol@),
{
    concat_str("https://finance.yahoo.com/quote/", symbol)
}

/// The endpoints tried, in order, without a crumb: the chart, a short quote
/// summary and the quote list.
pub open spec fn crumbless_texts(ticker: Seq<char>) -> Seq<Seq<char>> {
    seq![
        "https://query1.finance.yahoo.com/v8/finance/chart/"@ + ticker,
        "https://query2.finance.yahoo.com/v10/finance/quoteSummary/"@ + ticker + "?modules=price,summaryDetail"@,
        "https://query1.finance.yahoo.com/v7/finance/quote?symbols="@ + ticker,
    ]
}

/// The endpoints to try without a crumb.
pub fn crumbless_urls(ticker: &str) -> (r: Vec<String>)
    ensures
        crate::text::views(r@) == crumbless_texts(ticker@),
{
    let mut v: Vec<String> = Vec::new();
    v.push(concat_str("https://query1.finance.yahoo.com/v8/finance/chart/", ticker));
    let mut s = concat_str("https://query2.finance.yahoo.com/v10/finance/quoteSummary/", ticker);
    s.append("?modules=price,summaryDetail");
    v.push(s);
    v.push(concat_str("https://query1.finance.yahoo.com/v7/finance/quote?symbols=", ticker));
    proof {
        assert(crate::text::views(v@) =~= crumbless_texts(ticker@));
    }
    v
}

/// The modules a full quote summary asks for.
pub open spec fn summary_modules() -> Seq<char> {
    "assetProfile,financialData,defaultKeyStatistics,summaryDetail,price,summaryProfile"@
}

/// The quote-summary address of a ticker.
pub open spec fn quote_summary_text(ticker: Seq<char>, crumb: Seq<char>) -> Seq<char> {
    "https://query1.finance.yahoo.com/v10/finance/quoteSummary/"@ + ticker + "?modules="@ + summary_modules()
        + "&crumb="@ + crumb
}

/// The quote-summary address of a ticker.
pub fn quote_summary_url(ticker: &str, crumb: &str) -> (r: String)
    ensures
        r@ == quote_summary_text(ticker@, crumb@),
{
    let mut s = concat_str("https://query1.finance.yahoo.com/v10/finance/quoteSummary/", ticker);
    s.append("?modules=");
    s.append("assetProfile,financialData,defaultKeyStatistics,summaryDetail,price,summaryProfile");
    s.append("&crumb=");
    s.append(crumb);
    s
}

/// The news-search address of a ticker, for `count` stories (20 by default).
pub open spec fn news_text(ticker: Seq<char>, count: Option<u32>, crumb: Seq<char>) -> Seq<char> {
    let n: u32 = match count {
        Some(c) => c,
        None => 20,
    };
    "https://query1.finance.yahoo.com/v1/finance/search?q="@ + ticker + "&quotesCount=0&newsCount="@
        + decimal(n as nat) + "&crumb="@ + crumb
}

/// The news-search address of a ticker.
pub fn news_url(ticker: &str, count: Option<u32>, crumb: &str) -> (r: String)
    ensures
        r@ == news_text(ticker@, count, crumb@),
{
    let n: u32 = match count {
        Some(c) => c,
        None => 20,
    };
    let mut s = concat_str("https://query1.finance.yahoo.com/v1/finance/search?q=", ticker);
    s.append("&quotesCount=0&newsCount=");
    s.append(decimal_string(n as u64).as_str());
    s.append("&crumb=");
    s.append(crumb);
    s
}

/// The calendar address for `kind` (`earnings` or `dividends`) between two dates.
pub open spec fn calendar_text(kind: Seq<char>, from: Seq<char>, to: Seq<char>, crumb: Seq<char>) -> Seq<char> {
    "https://query1.finance.yahoo.com/v1/finance/calendar/"@ + kind + "?from="@ + from + "&to="@ + to
        + "&crumb="@ + crumb
}

/// The calendar address for `kind` between two dates.
pub fn calendar_url(kind: &str, from: &str, to: &str, crumb: &str) -> (r: String)
    ensures
        r@ == calendar_text(kind@, from@, to@, crumb@),
{
    let mut s = concat_str("https://query1.finance.yahoo.com/v1/finance/calendar/", kind);
    s.append("?from=");
    s.append(from);
    s.append("&to=");
    s.append(to);
    s.append("&crumb=");
    s.append(crumb);
    s
}

/// The address of a ticker's financial statements.
pub open spec fn financials_text(ticker: Seq<char>, crumb: Seq<char>) -> Seq<char> {
    "https://query1.finance.yahoo.com/v10/finance/quoteSummary/"@ + ticker
        + "?modules=incomeStatementHistory,balanceSheetHistory,cashflowStatementHistory&crumb="@ + crumb
}

/// The address of a ticker's financial statements.
pub fn financials_url(ticker: &str, crumb: &str) -> (r: String)
    ensures
        r@ == financials_text(ticker@, crumb@),
{
    let mut s = concat_str("https://query1.finance.yahoo.com/v10/finance/quoteSummary/", ticker);
    s.append("?modules=incomeStatementHistory,balanceSheetHistory,cashflowStatementHistory&crumb=");
    s.append(crumb);
    s
}

/// The address of a ticker's analyst estimates.
pub open spec fn analysis_text(ticker: Seq<char>, crumb: Seq<char>) -> Seq<char> {
    "https://query1.finance.yahoo.com/v10/finance/quoteSummary/"@ + ticker
        + "?modules=recommendationTrend,earningsEstimate,revenueEstimate&crumb="@ + crumb
}

/// The address of a ticker's analyst estimates.
pub fn analysis_url(ticker: &str, crumb: &str) -> (r: String)
    ensures
        r@ == analysis_text(ticker@, crumb@),
{
    let mut s = concat_str("https://query1.finance.yahoo.com/v10/finance/quoteSummary/", ticker);
    s.append("?modules=recommendationTrend,earningsEstimate,revenueEstimate&crumb=");
    s.append(crumb);
    s
}

/// The address of a predefined screen: `count` results (100 by default)
/// from `offset` (0 by default).
pub open spec fn predefined_screener_text(
    screener_id: Seq<char>,
    count: Option<u32>,
    offset: Option<u32>,
    crumb: Seq<char>,
) -> Seq<char> {
    let c: u32 = match count {
        Some(c) => c,
        None => 100,
    };
    let o: u32 = match offset {
        Some(o) => o,
        None => 0,
    };
    "https://query2.finance.yahoo.com/v1/finance/screener/predefined/saved?count="@ + decimal(c as nat)
        + "&offset="@ + decimal(o as nat) + "&scrIds="@ + screener_id + "&crumb="@ + crumb
}

/// The address of a predefined screen.
pub fn predefined_screener_url(screener_id: &str, count: Option<u32>, offset: Option<u32>, crumb: &str) -> (r: String)
    ensures
        r@ == predefined_screener_text(screener_id@, count, offset, crumb@),
{
    let c: u32 = match count {
        Some(c) => c,
        None => 100,
    };
    let o: u32 = match offset {
        Some(o) => o,
        None => 0,
    };
    let mut s = concat_str(
        "https://query2.finance.yahoo.com/v1/finance/screener/predefined/saved?count=",
        decimal_string(c as u64).as_str(),
    );
    s.append("&offset=");
    s.append(decimal_string(o as u64).as_str());
    s.append("&scrIds=");
    s.append(screener_id);
    s.append("&crumb=");
    s.append(crumb);
    s
}

/// The address a custom screen is posted to.
pub fn custom_screener_url(crumb: &str) -> (r: String)
    ensures
        r@ == "https://query2.finance.yahoo.com/v1/finance/screener?crumb="@ + crumb@,
{
    concat_str("https://query2.finance.yahoo.com/v1/finance/screener?crumb=", crumb)
}

/// The body of a custom screen: page size (100 by default) and offset (0 by
/// default), sort field (`ticker` by default) and order (`desc` by default),
/// equities only, and the query.
pub open spec fn screener_body_view(
    count: Option<u32>,
    offset: Option<u32>,
    sort_by: Option<Seq<char>>,
    sort_order: Option<Seq<char>>,
    query: JsonView,
) -> JsonView {
    let c: u32 = match count {
        Some(c) => c,
        None => 100,
    };
    let o: u32 = match offset {
        Some(o) => o,
        None => 0,
    };
    JsonView::Object(
        seq![
            ("size"@, JsonView::PosInt(c as u64)),
            ("offset"@, JsonView::PosInt(o as u64)),
            ("sortField"@, JsonView::Str(match sort_by {
                Some(f) => f,
                None => "ticker"@,
            })),
            ("sortType"@, JsonView::Str(match sort_order {
                Some(t) => t,
                None => "desc"@,
            })),
            ("quoteType"@, JsonView::Str("EQUITY"@)),
            ("query"@, query),
        ],
    )
}

/// The body of a custom screen.
pub fn screener_body(
    count: Option<u32>,
    offset: Option<u32>,
    sort_by: Option<&str>,
    sort_order: Option<&str>,
    query: Json,
) -> (r: Json)
    ensures
        r@ == screener_body_view(
            count,
            offset,
            match sort_by {
                Some(f) => Some(f@),
                None => None,
            },
            match sort_order {
                Some(t) => Some(t@),
                None => None,
            },
            query@,
        ),
{
    let c: u32 = match count {
        Some(c) => c,
        None => 100,
    };
    let o: u32 = match offset {
        Some(o) => o,
        None => 0,
    };
    let field = match sort_by {
        Some(f) => f.to_owned(),
        None => "ticker".to_owned(),
    };
    let order = match sort_order {
        Some(t) => t.to_owned(),
        None => "desc".to_owned(),
    };
    let ghost q = query@;
    let mut fields: Vec<(String, Json)> = Vec::new();
    fields.push(("size".to_owned(), Json::PosInt(c as u64)));
    fields.push(("offset".to_owned(), Json::PosInt(o as u64)));
    fields.push(("sortField".to_owned(), Json::Str(field)));
    fields.push(("sortType".to_owned(), Json::Str(order)));
    fields.push(("quoteType".to_owned(), Json::Str("EQUITY".to_owned())));
    fields.push(("query".to_owned(), query));
    let ghost fs = fields@;
    let r = Json::Object(fields);
    proof {
        let a = match r@ {
            JsonView::Object(s) => s,
            _ => Seq::empty(),
        };
        assert(a.len() == 6);
        assert(a[0] == (fs[0].0@, fs[0].1@));
        assert(a[1] == (fs[1].0@, fs[1].1@));
        assert(a[2] == (fs[2].0@, fs[2].1@));
        assert(a[3] == (fs[3].0@, fs[3].1@));
        assert(a[4] == (fs[4].0@, fs[4].1@));
        assert(a[5] == (fs[5].0@, fs[5].1@));
        assert(a =~= seq![
            ("size"@, JsonView::PosInt(c as u64)),
            ("offset"@, JsonView::PosInt(o as u64)),
            ("sortField"@, JsonView::Str(field@)),
            ("sortType"@, JsonView::Str(order@)),
            ("quoteType"@, JsonView::Str("EQUITY"@)),
            ("query"@, q),
        ]);
        let sb = match sort_by {
            Some(f) => Some(f@),
            None => None,
        };
        let so = match sort_order {
            Some(t) => Some(t@),
            None => None,
        };
        assert(field@ == (match sb {
            Some(f) => f,
            None => "ticker"@,
        }));
        assert(order@ == (match so {
            Some(t) => t,
            None => "desc"@,
        }));
        assert(r@ == JsonView::Object(a));
        let expected = screener_body_view(count, offset, sb, so, q);
        let e = match expected {
            JsonView::Object(s) => s,
            _ => Seq::empty(),
        };
        assert(e =~= a);
        assert(r@ == expected);
    }
    r
}

} // verus!
