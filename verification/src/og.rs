//! The chart and options fetchers' own logic: request paths, raw request
//! text, trading periods, candle assembly from the chart's columns, and the
//! symbol list reader.

use vstd::prelude::*;
use crate::http::{get_request_text, http_get_request};
use crate::text::{concat_str, split_char, split_on, substring, trim, trimmed, views};

verus! {

/// How a chart is asked for: bar interval and time range.
#[derive(Debug)]
pub struct ChartQueryOptions<'a> {
    pub interval: &'a str,
    pub range: &'a str,
}

impl Default for ChartQueryOptions<'_> {
    /// Daily bars over five days.
    fn default() -> (r: Self)
        ensures
            r.interval@ == "1d"@,
            r.range@ == "5d"@,
    {
        ChartQueryOptions { interval: "1d", range: "5d" }
    }
}

/// The trading sessions of a day.
#[derive(Debug)]
pub struct TradingPeriodWrapper {
    pub pre: TradingPeriod,
    pub regular: TradingPeriod,
    pub post: TradingPeriod,
}

/// One trading session.
#[derive(Debug)]
pub struct TradingPeriod {
    pub timezone: String,
    pub end: u64,
    pub start: u64,
    pub gmtoffset: i64,
}

/// The host that serves charts.
pub open spec fn chart_domain() -> Seq<char> {
    "query1.finance.yahoo.com"@
}

/// The host that serves option chains.
pub open spec fn options_domain() -> Seq<char> {
    "www.optionsprofitcalculator.com"@
}

/// The path of a chart request.
pub open spec fn chart_path_text(ticker: Seq<char>, interval: Seq<char>, range: Seq<char>) -> Seq<char> {
    "/v8/finance/chart/"@ + ticker + "?interval="@ + interval + "&range="@ + range
}

/// The path that asks for `ticker`'s chart.
pub fn chart_path(ticker: &str, opts: &ChartQueryOptions) -> (r: String)
    ensures
        r@ == chart_path_text(ticker@, opts.interval@, opts.range@),
{
    let mut s = concat_str("/v8/finance/chart/", ticker);
    s.append("?interval=");
    s.append(opts.interval);
    s.append("&range=");
    s.append(opts.range);
    s
}

/// The full address that asks for `ticker`'s chart.
pub fn chart_url(ticker: &str, opts: &ChartQueryOptions) -> (r: String)
    ensures
        r@ == "https://query1.finance.yahoo.com"@ + chart_path_text(ticker@, opts.interval@, opts.range@),
{
    let path = chart_path(ticker, opts);
    concat_str("https://query1.finance.yahoo.com", path.as_str())
}

/// The raw request that asks for `ticker`'s chart.
pub fn chart_request(ticker: &str, opts: &ChartQueryOptions) -> (r: String)
    ensures
        r@ == get_request_text(chart_path_text(ticker@, opts.interval@, opts.range@), chart_domain()),
{
    let path = chart_path(ticker, opts);
    http_get_request(path.as_str(), "query1.finance.yahoo.com")
}

/// The path of an option-chain request.
pub open spec fn options_path_text(ticker: Seq<char>) -> Seq<char> {
    "/ajax/getOptions?stock="@ + ticker + "&reqId=1"@
}

/// The path that asks for `ticker`'s option chain.
pub fn options_path(ticker: &str) -> (r: String)
    ensures
        r@ == options_path_text(ticker@),
{
    let mut s = concat_str("/ajax/getOptions?stock=", ticker);
    s.append("&reqId=1");
    s
}

/// The full address that asks for `ticker`'s option chain.
pub fn options_url(ticker: &str) -> (r: String)
    ensures
        r@ == "https://www.optionsprofitcalculator.com"@ + options_path_text(ticker@),
{
    let path = options_path(ticker);
    concat_str("https://www.optionsprofitcalculator.com", path.as_str())
}

/// The raw request that asks for `ticker`'s option chain.
pub fn options_request(ticker: &str) -> (r: String)
    ensures
        r@ == get_request_text(options_path_text(ticker@), options_domain()),
{
    let path = options_path(ticker);
    http_get_request(path.as_str(), "www.optionsprofitcalculator.com")
}

/// The value at `i` of an optional column, when the column, the row and the
/// value are all there.
pub open spec fn cell<T>(col: Option<Seq<Option<T>>>, i: int) -> Option<T> {
    match col {
        Some(c) => if 0 <= i < c.len() { c[i] } else { None },
        None => None,
    }
}

/// The column's cells, when it is there.
pub open spec fn col_view<T>(col: Option<&Vec<Option<T>>>) -> Option<Seq<Option<T>>> {
    match col {
        Some(c) => Some(c@),
        None => None,
    }
}

/// One complete bar of a chart.
#[derive(Debug, Clone, Copy)]
pub struct CandleRow<T> {
    pub timestamp: i64,
    pub open: T,
    pub high: T,
    pub low: T,
    pub close: T,
    pub volume: u64,
}

/// The price columns of a chart and its volume column.
pub struct ChartColumns<'a, T> {
    pub close: Option<&'a Vec<Option<T>>>,
    pub open: Option<&'a Vec<Option<T>>>,
    pub high: Option<&'a Vec<Option<T>>>,
    pub low: Option<&'a Vec<Option<T>>>,
    pub volume: Option<&'a Vec<Option<u64>>>,
}

/// Every column has a value at row `i`.
pub open spec fn row_complete<T>(cols: ChartColumns<T>, i: int) -> bool {
    &&& cell(col_view(cols.close), i) is Some
    &&& cell(col_view(cols.open), i) is Some
    &&& cell(col_view(cols.high), i) is Some
    &&& cell(col_view(cols.low), i) is Some
    &&& cell(col_view(cols.volume), i) is Some
}

/// The bar of a complete row.
pub open spec fn row_at<T>(ts: Seq<u64>, cols: ChartColumns<T>, i: int) -> CandleRow<T> {
    CandleRow {
        timestamp: ts[i] as i64,
        open: cell(col_view(cols.open), i)->0,
        high: cell(col_view(cols.high), i)->0,
        low: cell(col_view(cols.low), i)->0,
        close: cell(col_view(cols.close), i)->0,
        volume: cell(col_view(cols.volume), i)->0,
    }
}

/// The bars of the first `n` rows that are complete, in order.
pub open spec fn complete_rows_spec<T>(ts: Seq<u64>, cols: ChartColumns<T>, n: int) -> Seq<CandleRow<T>>
    decreases n,
{
    if n <= 0 {
        Seq::empty()
    } else {
        let before = complete_rows_spec(ts, cols, n - 1);
        if row_complete(cols, n - 1) { before.push(row_at(ts, cols, n - 1)) } else { before }
    }
}

/// The rows among the first `n` at which every column has a value, in
/// order.
pub open spec fn complete_row_indices<T>(cols: ChartColumns<T>, n: int) -> Seq<int>
    decreases n,
{
    if n <= 0 {
        Seq::empty()
    } else {
        let before = complete_row_indices(cols, n - 1);
        if row_complete(cols, n - 1) { before.push(n - 1) } else { before }
    }
}

/// Bar `b` is row `i` of the chart: its time is the `i`-th timestamp, and
/// its open, high, low, close and volume are the `i`-th cells of the open,
/// high, low, close and volume columns.
pub open spec fn bar_of_row<T>(b: CandleRow<T>, ts: Seq<u64>, cols: ChartColumns<T>, i: int) -> bool {
    &&& b.timestamp == ts[i] as i64
    &&& (cols.open matches Some(c) && 0 <= i < c@.len() && c@[i] == Some(b.open))
    &&& (cols.high matches Some(c) && 0 <= i < c@.len() && c@[i] == Some(b.high))
    &&& (cols.low matches Some(c) && 0 <= i < c@.len() && c@[i] == Some(b.low))
    &&& (cols.close matches Some(c) && 0 <= i < c@.len() && c@[i] == Some(b.close))
    &&& (cols.volume matches Some(c) && 0 <= i < c@.len() && c@[i] == Some(b.volume))
}

/// The complete bars of the first `n` rows are those rows, one bar per row
/// at which every column has a value, in row order; each bar takes each of
/// its prices and its volume from the column of the same name at its row.
pub proof fn lemma_complete_rows_take_their_columns<T>(ts: Seq<u64>, cols: ChartColumns<T>, n: int)
    ensures
        complete_rows_spec(ts, cols, n).len() == complete_row_indices(cols, n).len(),
        forall|k: int|
            0 <= k < complete_rows_spec(ts, cols, n).len() ==> bar_of_row(
                #[trigger] complete_rows_spec(ts, cols, n)[k],
                ts,
                cols,
                complete_row_indices(cols, n)[k],
            ),
        forall|k: int|
            0 <= k < complete_row_indices(cols, n).len() ==> 0 <= #[trigger] complete_row_indices(cols, n)[k] < n
                && row_complete(cols, complete_row_indices(cols, n)[k]),
        forall|k1: int, k2: int|
            0 <= k1 < k2 < complete_row_indices(cols, n).len() ==> #[trigger] complete_row_indices(cols, n)[k1]
                < #[trigger] complete_row_indices(cols, n)[k2],
        forall|i: int|
            0 <= i < n && row_complete(cols, i) ==> complete_row_indices(cols, n).contains(i),
    decreases n,
{
    if n > 0 {
        lemma_complete_rows_take_their_columns(ts, cols, n - 1);
        let rows = complete_rows_spec(ts, cols, n);
        let idx = complete_row_indices(cols, n);
        let rows0 = complete_rows_spec(ts, cols, n - 1);
        let idx0 = complete_row_indices(cols, n - 1);
        assert forall|k: int| 0 <= k < rows.len() implies bar_of_row(rows[k], ts, cols, idx[k]) by {
            if k < rows0.len() {
                assert(rows[k] == rows0[k]);
                assert(idx[k] == idx0[k]);
            }
        }
        assert forall|i: int| 0 <= i < n && row_complete(cols, i) implies idx.contains(i) by {
            if i < n - 1 {
                let k = choose|k: int| 0 <= k < idx0.len() && idx0[k] == i;
                assert(idx[k] == i);
            } else {
                assert(idx[idx.len() - 1] == i);
            }
        }
        assert forall|k: int| 0 <= k < idx.len() implies 0 <= #[trigger] idx[k] < n && row_complete(cols, idx[k]) by {
            if k < idx0.len() {
                assert(idx[k] == idx0[k]);
            }
        }
        assert forall|k1: int, k2: int| 0 <= k1 < k2 < idx.len() implies #[trigger] idx[k1] < #[trigger] idx[k2] by {
            if k2 < idx0.len() {
                assert(idx[k1] == idx0[k1] && idx[k2] == idx0[k2]);
            } else {
                assert(idx[k1] == idx0[k1]);
            }
        }
    }
}

fn cell_of<T: Copy>(col: Option<&Vec<Option<T>>>, i: usize) -> (r: Option<T>)
    ensures
        r == cell(col_view(col), i as int),
{
    match col {
        Some(c) => if i < c.len() { c[i] } else { None },
        None => None,
    }
}

/// Whether the timestamp of every complete row fits in `i64`.
pub fn complete_rows_fit<T: Copy>(timestamps: &Vec<u64>, cols: &ChartColumns<T>) -> (r: bool)
    ensures
        r == (forall|i: int| 0 <= i < timestamps@.len() && row_complete(*cols, i) ==> timestamps@[i] <= i64::MAX),
{
    let mut i: usize = 0;
    while i < timestamps.len()
        invariant
            i <= timestamps@.len(),
            forall|k: int| 0 <= k < i && row_complete(*cols, k) ==> timestamps@[k] <= i64::MAX,
        decreases timestamps@.len() - i,
    {
        let complete = cell_of(cols.close, i).is_some() && cell_of(cols.open, i).is_some()
            && cell_of(cols.high, i).is_some() && cell_of(cols.low, i).is_some()
            && cell_of(cols.volume, i).is_some();
        if complete && timestamps[i] > i64::MAX as u64 {
            proof {
                assert(row_complete(*cols, i as int) && !(timestamps@[i as int] <= i64::MAX));
            }
            return false;
        }
        i = i + 1;
    }
    true
}

/// The complete bars of a chart: one per timestamp at which every column
/// has a value. Timestamps of complete rows must fit in `i64`.
pub fn complete_rows<T: Copy>(timestamps: &Vec<u64>, cols: &ChartColumns<T>) -> (r: Vec<CandleRow<T>>)
    requires
        forall|i: int| 0 <= i < timestamps@.len() && row_complete(*cols, i) ==> timestamps@[i] <= i64::MAX,
    ensures
        r@ == complete_rows_spec(timestamps@, *cols, timestamps@.len() as int),
        r@.len() == complete_row_indices(*cols, timestamps@.len() as int).len(),
        forall|k: int|
            0 <= k < r@.len() ==> bar_of_row(
                #[trigger] r@[k],
                timestamps@,
                *cols,
                complete_row_indices(*cols, timestamps@.len() as int)[k],
            ),
{
    proof {
        lemma_complete_rows_take_their_columns(timestamps@, *cols, timestamps@.len() as int);
    }
    let mut out: Vec<CandleRow<T>> = Vec::new();
    let mut i: usize = 0;
    while i < timestamps.len()
        invariant
            i <= timestamps@.len(),
            forall|k: int| 0 <= k < timestamps@.len() && row_complete(*cols, k) ==> timestamps@[k] <= i64::MAX,
            out@ == complete_rows_spec(timestamps@, *cols, i as int),
        decreases timestamps@.len() - i,
    {
        let c = cell_of(cols.close, i);
        let o = cell_of(cols.open, i);
        let h = cell_of(cols.high, i);
        let l = cell_of(cols.low, i);
        let v = cell_of(cols.volume, i);
        match (c, o, h, l, v) {
            (Some(c), Some(o), Some(h), Some(l), Some(v)) => {
                out.push(CandleRow { timestamp: timestamps[i] as i64, open: o, high: h, low: l, close: c, volume: v });
            },
            _ => {},
        }
        i = i + 1;
    }
    out
}

/// The lines of a text as `str::lines` gives them: split at line feeds, a
/// carriage return right before a line feed dropped (a bare carriage return
/// at the very end stays), and no empty last line after a final line feed.
pub open spec fn lines_of(text: Seq<char>) -> Seq<Seq<char>> {
    let pieces = split_on(text, '\n');
    let kept = if pieces.last().len() == 0 { pieces.drop_last() } else { pieces };
    Seq::new(
        kept.len(),
        |i: int|
            if i + 1 < pieces.len() && kept[i].len() > 0 && kept[i].last() == '\r' {
                kept[i].drop_last()
            } else {
                kept[i]
            },
    )
}

/// The symbols of a listing file: the first comma-separated field of each
/// line after the header, skipping blank lines.
pub open spec fn symbols_of_lines(lines: Seq<Seq<char>>) -> Seq<Seq<char>>
    decreases lines.len(),
{
    if lines.len() <= 1 {
        Seq::empty()
    } else {
        let before = symbols_of_lines(lines.drop_last());
        if trimmed(lines.last()).len() == 0 { before } else { before.push(split_on(lines.last(), ',')[0]) }
    }
}

/// The lines of a text.
pub fn text_lines(text: &str) -> (r: Vec<String>)
    ensures
        views(r@) == lines_of(text@),
{
    let pieces = split_char(text, '\n');
    proof {
        crate::text::lemma_split_on_nonempty(text@, '\n');
    }
    let mut n: usize = pieces.len();
    if pieces[n - 1].as_str().is_empty() {
        n = n - 1;
    }
    let ghost kept = if views(pieces@).last().len() == 0 { views(pieces@).drop_last() } else { views(pieces@) };
    assert(kept =~= views(pieces@).take(n as int));
    let mut out: Vec<String> = Vec::new();
    let mut i: usize = 0;
    while i < n
        invariant
            i <= n <= pieces@.len(),
            kept == views(pieces@).take(n as int),
            out@.len() == i,
            forall|k: int| 0 <= k < i ==> out@[k]@ == (if k + 1 < pieces@.len() && kept[k].len() > 0 && kept[k].last() == '\r' {
                kept[k].drop_last()
            } else {
                kept[k]
            }),
        decreases n - i,
    {
        let line = pieces[i].as_str();
        let len: usize = crate::text::chars_of(line).len();
        let cs = crate::text::chars_of(line);
        let item = if i + 1 < pieces.len() && len > 0 && cs[len - 1] == '\r' {
            substring(line, 0, len - 1)
        } else {
            line.to_owned()
        };
        proof {
            assert(kept[i as int] == pieces@[i as int]@);
            if i + 1 < pieces.len() && len > 0 && cs@[len - 1] == '\r' {
                assert(item@ =~= kept[i as int].drop_last());
            }
        }
        out.push(item);
        i = i + 1;
    }
    proof {
        assert(views(out@) =~= lines_of(text@));
    }
    out
}

/// Reads the symbols of a listing file.
pub fn parse_symbols_csv(text: &str) -> (r: Vec<String>)
    ensures
        views(r@) == symbols_of_lines(lines_of(text@)),
{
    let lines = text_lines(text);
    let ghost ls = views(lines@);
    let mut out: Vec<String> = Vec::new();
    if lines.len() == 0 {
        return out;
    }
    let mut i: usize = 1;
    proof {
        assert(ls.take(1).len() == 1);
    }
    while i < lines.len()
        invariant
            1 <= i <= lines@.len(),
            ls == views(lines@),
            views(out@) == symbols_of_lines(ls.take(i as int)),
        decreases lines@.len() - i,
    {
        proof {
            assert(ls.take(i + 1).drop_last() =~= ls.take(i as int));
            assert(ls.take(i + 1).last() == lines@[i as int]@);
        }
        let t = trim(lines[i].as_str());
        if !t.as_str().is_empty() {
            let fields = split_char(lines[i].as_str(), ',');
            proof {
                crate::text::lemma_split_on_nonempty(lines@[i as int]@, ',');
                assert(views(fields@)[0] == fields@[0]@);
            }
            let first = fields[0].clone();
            let ghost before = out@;
            out.push(first);
            proof {
                assert(views(out@) =~= views(before).push(first@));
            }
        }
        i = i + 1;
    }
    proof {
        assert(ls.take(lines@.len() as int) =~= ls);
    }
    out
}

} // verus!

verus! {

/// The latest second, counted from the Unix epoch, that the `chrono` crate
/// can represent (the end of year 262142).
pub const LAST_CHRONO_SECOND: u64 = 8_210_266_876_799;

/// The RFC 3339 text (UTC) of the time `secs` seconds after the Unix epoch,
/// as `chrono` writes it.
pub uninterp spec fn rfc3339_of(secs: u64) -> Seq<char>;

/// Calls `chrono::DateTime::<Utc>::from` on the system time `secs` seconds
/// after the epoch, then `to_rfc3339`. The conversion panics past the last
/// time `chrono` represents, which `requires` leaves out; the contract names
/// the text.
#[verifier::external_body]
fn rfc3339_utc(secs: u64) -> (r: String)
    requires
        secs <= LAST_CHRONO_SECOND,
    ensures
        r@ == rfc3339_of(secs),
{
    let t = std::time::UNIX_EPOCH + std::time::Duration::from_secs(secs);
    chrono::DateTime::<chrono::Utc>::from(t).to_rfc3339()
}

/// Whether every timestamp has a calendar date: none is negative, nor later
/// than `chrono` can represent.
pub fn timestamps_have_dates(timestamps: &Vec<i64>) -> (r: bool)
    ensures
        r == (forall|i: int| 0 <= i < timestamps@.len() ==> 0 <= #[trigger] timestamps@[i] <= LAST_CHRONO_SECOND),
{
    let mut i: usize = 0;
    while i < timestamps.len()
        invariant
            i <= timestamps@.len(),
            forall|k: int| 0 <= k < i ==> 0 <= #[trigger] timestamps@[k] <= LAST_CHRONO_SECOND,
        decreases timestamps@.len() - i,
    {
        let t: i64 = timestamps[i];
        if t < 0 || t as u64 > LAST_CHRONO_SECOND {
            proof {
                assert(!(0 <= timestamps@[i as int] <= LAST_CHRONO_SECOND));
            }
            return false;
        }
        i = i + 1;
    }
    true
}

/// The date-and-time text of each bar's timestamp. Timestamps must not be
/// negative, nor later than `chrono` can represent.
pub fn bar_datetimes(timestamps: &Vec<i64>) -> (r: Vec<String>)
    requires
        forall|i: int| 0 <= i < timestamps@.len() ==> 0 <= #[trigger] timestamps@[i] <= LAST_CHRONO_SECOND,
    ensures
        r@.len() == timestamps@.len(),
        forall|i: int| 0 <= i < r@.len() ==> (#[trigger] r@[i])@ == rfc3339_of(timestamps@[i] as u64),
{
    let mut out: Vec<String> = Vec::new();
    let mut i: usize = 0;
    while i < timestamps.len()
        invariant
            i <= timestamps@.len(),
            forall|k: int| 0 <= k < timestamps@.len() ==> 0 <= #[trigger] timestamps@[k] <= LAST_CHRONO_SECOND,
            out@.len() == i,
            forall|k: int| 0 <= k < i ==> (#[trigger] out@[k])@ == rfc3339_of(timestamps@[k] as u64),
        decreases timestamps@.len() - i,
    {
        let t: i64 = timestamps[i];
        out.push(rfc3339_utc(t as u64));
        i = i + 1;
    }
    out
}

/// The calendar date (`YYYY-MM-DD`, UTC) of the time `secs` seconds after
/// the Unix epoch, as `chrono` formats it.
pub uninterp spec fn ymd_of(secs: u64) -> Seq<char>;

/// Calls `chrono::DateTime::<Utc>::from` on the system time `secs` seconds
/// after the epoch, then `format("%Y-%m-%d")`. The conversion panics past the
/// last time `chrono` represents, which `requires` leaves out; the contract
/// names the text.
#[verifier::external_body]
fn ymd_utc(secs: u64) -> (r: String)
    requires
        secs <= LAST_CHRONO_SECOND,
    ensures
        r@ == ymd_of(secs),
{
    let t = std::time::UNIX_EPOCH + std::time::Duration::from_secs(secs);
    chrono::DateTime::<chrono::Utc>::from(t).format("%Y-%m-%d").to_string()
}

/// The calendar date of each bar's timestamp. Timestamps must not be
/// negative, nor later than `chrono` can represent.
pub fn bar_dates(timestamps: &Vec<i64>) -> (r: Vec<String>)
    requires
        forall|i: int| 0 <= i < timestamps@.len() ==> 0 <= #[trigger] timestamps@[i] <= LAST_CHRONO_SECOND,
    ensures
        r@.len() == timestamps@.len(),
        forall|i: int| 0 <= i < r@.len() ==> (#[trigger] r@[i])@ == ymd_of(timestamps@[i] as u64),
{
    let mut out: Vec<String> = Vec::new();
    let mut i: usize = 0;
    while i < timestamps.len()
        invariant
            i <= timestamps@.len(),
            forall|k: int| 0 <= k < timestamps@.len() ==> 0 <= #[trigger] timestamps@[k] <= LAST_CHRONO_SECOND,
            out@.len() == i,
            forall|k: int| 0 <= k < i ==> (#[trigger] out@[k])@ == ymd_of(timestamps@[k] as u64),
        decreases timestamps@.len() - i,
    {
        let t: i64 = timestamps[i];
        out.push(ymd_utc(t as u64));
        i = i + 1;
    }
    out
}

} // verus!
