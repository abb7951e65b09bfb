//! The first API layer: its errors, request types, news parsing, screener
//! criteria, crumb extraction and request routing.

use vstd::prelude::*;
use crate::json::{
    Json, JsonView, view_of, as_array_spec, as_i64_spec, as_str_spec, get_opt, get_spec, str_member,
};
use crate::text::{concat_str, opt_chars, str_eq};

pub use crate::cache::CrumbCache;

verus! {

/// Errors of the first API layer.
#[derive(Debug)]
pub enum ApiError {
    InvalidTicker(String),
    InvalidDateRange(String),
    DataNotFound(String),
    FetchError(String),
    CalculationError(String),
    InvalidParameters(String),
}

/// The message of an error, as it is displayed.
pub open spec fn api_error_message(e: ApiError) -> Seq<char> {
    match e {
        ApiError::InvalidTicker(t) => "Invalid ticker: "@ + t@,
        ApiError::InvalidDateRange(r) => "Invalid date range: "@ + r@,
        ApiError::DataNotFound(m) => "Data not found: "@ + m@,
        ApiError::FetchError(m) => "Fetch error: "@ + m@,
        ApiError::CalculationError(m) => "Calculation error: "@ + m@,
        ApiError::InvalidParameters(m) => "Invalid parameters: "@ + m@,
    }
}

impl ApiError {
    /// The text of the error.
    pub fn message(&self) -> (r: String)
        ensures
            r@ == api_error_message(*self),
    {
        match self {
            ApiError::InvalidTicker(t) => concat_str("Invalid ticker: ", t.as_str()),
            ApiError::InvalidDateRange(r) => concat_str("Invalid date range: ", r.as_str()),
            ApiError::DataNotFound(m) => concat_str("Data not found: ", m.as_str()),
            ApiError::FetchError(m) => concat_str("Fetch error: ", m.as_str()),
            ApiError::CalculationError(m) => concat_str("Calculation error: ", m.as_str()),
            ApiError::InvalidParameters(m) => concat_str("Invalid parameters: ", m.as_str()),
        }
    }
}

/// A request for real-time quotes.
#[derive(Debug)]
pub struct QuoteRequest {
    pub tickers: Vec<String>,
    pub fields: Option<Vec<String>>,
}

/// The summary profile of a company.
#[derive(Debug)]
pub struct SummaryProfile {
    pub address1: Option<String>,
    pub city: Option<String>,
    pub state: Option<String>,
    pub country: Option<String>,
    pub phone: Option<String>,
    pub website: Option<String>,
    pub industry: Option<String>,
    pub sector: Option<String>,
    pub long_business_summary: Option<String>,
    pub full_time_employees: Option<u64>,
}

/// A list of news stories.
#[derive(Debug)]
pub struct NewsResponse {
    pub stories: Vec<NewsStory>,
    pub total_count: usize,
}

/// One news story.
#[derive(Debug)]
pub struct NewsStory {
    pub uuid: String,
    pub title: String,
    pub link: String,
    pub summary: Option<String>,
    pub publisher: String,
    pub author: Option<String>,
    pub publish_time: i64,
    pub provider_publish_time: i64,
    pub news_type: String,
    pub thumbnail: Option<String>,
    pub related_tickers: Vec<String>,
}

/// An integer member that fits in `i64`.
pub open spec fn int_member(j: Json, key: Seq<char>) -> Option<i64> {
    match get_spec(j, key) {
        Some(v) => as_i64_spec(v),
        None => None,
    }
}

/// A news item has every member a story needs.
pub open spec fn news_item_complete(item: Json) -> bool {
    &&& str_member(item, "uuid"@) is Some
    &&& str_member(item, "title"@) is Some
    &&& str_member(item, "link"@) is Some
    &&& str_member(item, "publisher"@) is Some
    &&& int_member(item, "providerPublishTime"@) is Some
}

/// The first thumbnail's address: `thumbnail.resolutions[0].url`.
pub open spec fn thumbnail_of(item: Json) -> Option<Seq<char>> {
    match as_array_opt(get_opt(get_spec(item, "thumbnail"@), "resolutions"@)) {
        Some(res) => if res.len() > 0 {
            match get_spec(res[0], "url"@) {
                Some(u) => as_str_spec(u),
                None => None,
            }
        } else {
            None
        },
        None => None,
    }
}

/// The items of a possibly missing array.
pub open spec fn as_array_opt(j: Option<Json>) -> Option<Seq<Json>> {
    match j {
        Some(v) => as_array_spec(v),
        None => None,
    }
}

/// The string items of a list, in order; other items are left out.
pub open spec fn string_items(items: Seq<Json>) -> Seq<Seq<char>>
    decreases items.len(),
{
    if items.len() == 0 {
        Seq::empty()
    } else {
        let before = string_items(items.drop_last());
        match as_str_spec(items.last()) {
            Some(s) => before.push(s),
            None => before,
        }
    }
}

/// The tickers a story is related to (none when the member is missing).
pub open spec fn related_of(item: Json) -> Seq<Seq<char>> {
    match as_array_opt(get_spec(item, "relatedTickers"@)) {
        Some(items) => string_items(items),
        None => Seq::empty(),
    }
}

/// The story read from a complete news item.
pub open spec fn story_of(st: NewsStory, item: Json) -> bool {
    &&& str_member(item, "uuid"@) == Some(st.uuid@)
    &&& str_member(item, "title"@) == Some(st.title@)
    &&& str_member(item, "link"@) == Some(st.link@)
    &&& opt_chars(st.summary) == str_member(item, "summary"@)
    &&& str_member(item, "publisher"@) == Some(st.publisher@)
    &&& opt_chars(st.author) == str_member(item, "author"@)
    &&& int_member(item, "providerPublishTime"@) == Some(st.publish_time)
    &&& st.provider_publish_time == st.publish_time
    &&& st.news_type@ == (match str_member(item, "type"@) {
        Some(t) => t,
        None => "news"@,
    })
    &&& opt_chars(st.thumbnail) == thumbnail_of(item)
    &&& crate::text::views(st.related_tickers@) == related_of(item)
}

pub(crate) fn str_member_of(item: &Json, key: &str) -> (r: Option<String>)
    ensures
        opt_chars(r) == str_member(*item, key@),
{
    match item.get(key) {
        Some(v) => match v.as_str() {
            Some(s) => Some(s.clone()),
            None => None,
        },
        None => None,
    }
}

fn string_items_of(items: &Vec<Json>) -> (r: Vec<String>)
    ensures
        crate::text::views(r@) == string_items(items@),
{
    let mut out: Vec<String> = Vec::new();
    let mut i: usize = 0;
    proof {
        assert(items@.take(0) =~= Seq::<Json>::empty());
    }
    while i < items.len()
        invariant
            i <= items@.len(),
            crate::text::views(out@) == string_items(items@.take(i as int)),
        decreases items@.len() - i,
    {
        proof {
            assert(items@.take(i + 1).drop_last() =~= items@.take(i as int));
            assert(items@.take(i + 1).last() == items@[i as int]);
        }
        match items[i].as_str() {
            Some(s) => {
                let ghost before = out@;
                out.push(s.clone());
                proof {
                    assert(crate::text::views(out@) =~= crate::text::views(before).push(s@));
                }
            },
            None => {},
        }
        i = i + 1;
    }
    proof {
        assert(items@.take(items@.len() as int) =~= items@);
    }
    out
}

fn thumbnail_url(item: &Json) -> (r: Option<String>)
    ensures
        opt_chars(r) == thumbnail_of(*item),
{
    let thumb = match item.get("thumbnail") {
        Some(t) => t,
        None => return None,
    };
    let res = match thumb.get("resolutions") {
        Some(r) => r,
        None => return None,
    };
    let arr = match res.as_array() {
        Some(a) => a,
        None => return None,
    };
    if arr.len() == 0 {
        return None;
    }
    str_member_of(&arr[0], "url")
}

/// The text fields of a story, in the order of their member names.
pub open spec fn story_texts(st: NewsStory) -> Seq<Option<Seq<char>>> {
    seq![
        Some(st.uuid@),
        Some(st.title@),
        Some(st.link@),
        opt_chars(st.summary),
        Some(st.publisher@),
        opt_chars(st.author),
    ]
}

/// The member names of a story's text fields: each is the field's own name.
pub open spec fn story_text_keys() -> Seq<Seq<char>> {
    seq!["uuid"@, "title"@, "link"@, "summary"@, "publisher"@, "author"@]
}

/// Each text field of a story read from an item is the item's string member
/// of the field's own name, and the story's time is its
/// `providerPublishTime`.
pub proof fn lemma_story_fields_follow_their_names(st: NewsStory, item: Json)
    requires
        story_of(st, item),
    ensures
        forall|j: int| 0 <= j < 6 ==> #[trigger] story_texts(st)[j] == str_member(item, story_text_keys()[j]),
        int_member(item, "providerPublishTime"@) == Some(st.publish_time),
        st.provider_publish_time == st.publish_time,
{
    assert forall|j: int| 0 <= j < 6 implies #[trigger] story_texts(st)[j] == str_member(item, story_text_keys()[j]) by {}
}

/// Reads one news story from a search-result item; `None` when a member the
/// story needs is missing or has the wrong kind.
pub fn parse_news_item(item: &Json) -> (r: Option<NewsStory>)
    ensures
        r is Some <==> news_item_complete(*item),
        r matches Some(st) ==> story_of(st, *item),
        r matches Some(st) ==> forall|j: int|
            0 <= j < 6 ==> #[trigger] story_texts(st)[j] == str_member(*item, story_text_keys()[j]),
{
    let uuid = match str_member_of(item, "uuid") {
        Some(s) => s,
        None => return None,
    };
    let title = match str_member_of(item, "title") {
        Some(s) => s,
        None => return None,
    };
    let link = match str_member_of(item, "link") {
        Some(s) => s,
        None => return None,
    };
    let summary = str_member_of(item, "summary");
    let publisher = match str_member_of(item, "publisher") {
        Some(s) => s,
        None => return None,
    };
    let author = str_member_of(item, "author");
    let publish_time = match item.get("providerPublishTime") {
        Some(v) => match v.as_i64() {
            Some(t) => t,
            None => return None,
        },
        None => return None,
    };
    let news_type = match str_member_of(item, "type") {
        Some(t) => t,
        None => "news".to_owned(),
    };
    let thumbnail = thumbnail_url(item);
    let related_tickers = match item.get("relatedTickers") {
        Some(v) => match v.as_array() {
            Some(items) => string_items_of(items),
            None => Vec::new(),
        },
        None => Vec::new(),
    };
    proof {
        assert(crate::text::views(related_tickers@) =~= related_of(*item));
    }
    let st = NewsStory {
        uuid,
        title,
        link,
        summary,
        publisher,
        author,
        publish_time,
        provider_publish_time: publish_time,
        news_type,
        thumbnail,
        related_tickers,
    };
    proof {
        lemma_story_fields_follow_their_names(st, *item);
    }
    Some(st)
}

/// The complete items of a list, in order.
pub open spec fn complete_items(items: Seq<Json>) -> Seq<Json>
    decreases items.len(),
{
    if items.len() == 0 {
        Seq::empty()
    } else {
        let before = complete_items(items.drop_last());
        if news_item_complete(items.last()) { before.push(items.last()) } else { before }
    }
}

/// Reads the stories of a news search result: every complete item of its
/// `news` array, in order; an error when there is no such array.
pub fn parse_news(json: &Json) -> (r: Result<NewsResponse, ApiError>)
    ensures
        match r {
            Ok(resp) => {
                &&& as_array_opt(get_spec(*json, "news"@)) is Some
                &&& resp.total_count == resp.stories@.len()
                &&& resp.stories@.len() == complete_items(as_array_opt(get_spec(*json, "news"@))->0).len()
                &&& forall|k: int| 0 <= k < resp.stories@.len() ==> story_of(
                    #[trigger] resp.stories@[k],
                    complete_items(as_array_opt(get_spec(*json, "news"@))->0)[k],
                )
            },
            Err(e) => {
                &&& as_array_opt(get_spec(*json, "news"@)) is None
                &&& e matches ApiError::DataNotFound(m) && m@ == "No news data"@
            },
        },
{
    let items = match json.get("news") {
        Some(n) => match n.as_array() {
            Some(a) => a,
            None => return Err(ApiError::DataNotFound("No news data".to_owned())),
        },
        None => return Err(ApiError::DataNotFound("No news data".to_owned())),
    };
    let mut stories: Vec<NewsStory> = Vec::new();
    let mut i: usize = 0;
    proof {
        assert(items@.take(0) =~= Seq::<Json>::empty());
    }
    while i < items.len()
        invariant
            i <= items@.len(),
            stories@.len() == complete_items(items@.take(i as int)).len(),
            forall|k: int| 0 <= k < stories@.len() ==> story_of(
                #[trigger] stories@[k],
                complete_items(items@.take(i as int))[k],
            ),
        decreases items@.len() - i,
    {
        proof {
            assert(items@.take(i + 1).drop_last() =~= items@.take(i as int));
            assert(items@.take(i + 1).last() == items@[i as int]);
        }
        match parse_news_item(&items[i]) {
            Some(story) => {
                stories.push(story);
            },
            None => {},
        }
        i = i + 1;
    }
    proof {
        assert(items@.take(items@.len() as int) =~= items@);
    }
    let total_count: usize = stories.len();
    Ok(NewsResponse { stories, total_count })
}

} // verus!

verus! {

/// The screener field name for one of the API's field names.
pub open spec fn yahoo_field(field: Seq<char>) -> Option<Seq<char>> {
    if field == "price"@ { Some("intradayprice"@) }
    else if field == "volume"@ { Some("intradayvolume"@) }
    else if field == "market_cap"@ { Some("intradaymarketcap"@) }
    else if field == "pe_ratio"@ { Some("pe"@) }
    else if field == "trailing_pe"@ { Some("trailingpe"@) }
    else if field == "forward_pe"@ { Some("forwardpe"@) }
    else if field == "peg_ratio"@ { Some("pegratio"@) }
    else if field == "price_to_book"@ { Some("pb"@) }
    else if field == "price_to_sales"@ { Some("ps"@) }
    else if field == "dividend_yield"@ { Some("dividendyield"@) }
    else if field == "change_percent"@ { Some("percentchange"@) }
    else if field == "change"@ { Some("change"@) }
    else if field == "fifty_two_week_high"@ { Some("week52high"@) }
    else if field == "fifty_two_week_low"@ { Some("week52low"@) }
    else if field == "beta"@ { Some("beta"@) }
    else if field == "eps"@ { Some("trailingeps"@) }
    else if field == "revenue"@ { Some("totalrevenue"@) }
    else if field == "debt_to_equity"@ { Some("debttoequity"@) }
    else if field == "return_on_equity"@ { Some("returnonequity"@) }
    else if field == "return_on_assets"@ { Some("returnonassets"@) }
    else if field == "profit_margin"@ { Some("profitmargin"@) }
    else if field == "operating_margin"@ { Some("operatingmargin"@) }
    else if field == "gross_margin"@ { Some("grossmargin"@) }
    else if field == "current_ratio"@ { Some("currentratio"@) }
    else if field == "quick_ratio"@ { Some("quickratio"@) }
    else if field == "sector"@ { Some("sector"@) }
    else if field == "industry"@ { Some("industry"@) }
    else if field == "country"@ { Some("country"@) }
    else if field == "exchange"@ { Some("exchange"@) }
    else { None }
}

/// Maps an API field name to the screener's field name; unknown names are
/// an `InvalidParameters` error naming the field.
pub fn map_field_to_yahoo(field: &str) -> (r: Result<String, ApiError>)
    ensures
        match r {
            Ok(name) => yahoo_field(field@) == Some(name@),
            Err(e) => yahoo_field(field@) is None
                && (e matches ApiError::InvalidParameters(m) && m@ == "Unknown field: "@ + field@),
        },
{
    let mapped = if str_eq(field, "price") { "intradayprice" }
    else if str_eq(field, "volume") { "intradayvolume" }
    else if str_eq(field, "market_cap") { "intradaymarketcap" }
    else if str_eq(field, "pe_ratio") { "pe" }
    else if str_eq(field, "trailing_pe") { "trailingpe" }
    else if str_eq(field, "forward_pe") { "forwardpe" }
    else if str_eq(field, "peg_ratio") { "pegratio" }
    else if str_eq(field, "price_to_book") { "pb" }
    else if str_eq(field, "price_to_sales") { "ps" }
    else if str_eq(field, "dividend_yield") { "dividendyield" }
    else if str_eq(field, "change_percent") { "percentchange" }
    else if str_eq(field, "change") { "change" }
    else if str_eq(field, "fifty_two_week_high") { "week52high" }
    else if str_eq(field, "fifty_two_week_low") { "week52low" }
    else if str_eq(field, "beta") { "beta" }
    else if str_eq(field, "eps") { "trailingeps" }
    else if str_eq(field, "revenue") { "totalrevenue" }
    else if str_eq(field, "debt_to_equity") { "debttoequity" }
    else if str_eq(field, "return_on_equity") { "returnonequity" }
    else if str_eq(field, "return_on_assets") { "returnonassets" }
    else if str_eq(field, "profit_margin") { "profitmargin" }
    else if str_eq(field, "operating_margin") { "operatingmargin" }
    else if str_eq(field, "gross_margin") { "grossmargin" }
    else if str_eq(field, "current_ratio") { "currentratio" }
    else if str_eq(field, "quick_ratio") { "quickratio" }
    else if str_eq(field, "sector") { "sector" }
    else if str_eq(field, "industry") { "industry" }
    else if str_eq(field, "country") { "country" }
    else if str_eq(field, "exchange") { "exchange" }
    else {
        return Err(ApiError::InvalidParameters(concat_str("Unknown field: ", field)));
    };
    Ok(mapped.to_owned())
}

/// One screener filter: a field, a comparison and the value(s) it is
/// compared with.
#[derive(Debug)]
pub struct ScreenerFilter {
    pub field: String,
    pub operator: String,
    pub value: Json,
    pub secondary_value: Option<Json>,
}

/// The screener criterion `{"operator": op, "operands": operands}`.
pub open spec fn criterion(op: Seq<char>, operands: Seq<JsonView>) -> JsonView {
    JsonView::Object(seq![("operator"@, JsonView::Str(op)), ("operands"@, JsonView::Array(operands))])
}

/// The screener's name for a comparison, for the comparisons that take two
/// operands.
pub open spec fn binary_operator(op: Seq<char>) -> Option<Seq<char>> {
    if op == "gt"@ { Some("GT"@) }
    else if op == "lt"@ { Some("LT"@) }
    else if op == "gte"@ { Some("GTE"@) }
    else if op == "lte"@ { Some("LTE"@) }
    else if op == "eq"@ { Some("EQ"@) }
    else { None }
}

/// A letter `a`..`z` in upper case; any other character unchanged.
pub open spec fn ascii_upper_char(c: char) -> char {
    if 'a' <= c && c <= 'z' { ((c as int) - 32) as char } else { c }
}

/// A text in ASCII upper case.
pub open spec fn ascii_upper(s: Seq<char>) -> Seq<char> {
    s.map_values(|c: char| ascii_upper_char(c))
}

/// The comparisons that take two operands: `gt`, `lt`, `gte`, `lte`, `eq`.
pub open spec fn is_two_operand_comparison(op: Seq<char>) -> bool {
    ||| op == "gt"@
    ||| op == "lt"@
    ||| op == "gte"@
    ||| op == "lte"@
    ||| op == "eq"@
}

/// The screener operator of a two-operand comparison is the comparison's own
/// name in upper case (`lte` is `LTE`, never the operator of another
/// comparison), and only those comparisons have one.
pub proof fn lemma_binary_operator_is_upper_case(op: Seq<char>)
    ensures
        is_two_operand_comparison(op) <==> binary_operator(op) is Some,
        is_two_operand_comparison(op) ==> binary_operator(op) == Some(ascii_upper(op)),
{
    reveal_strlit("gt");
    reveal_strlit("lt");
    reveal_strlit("gte");
    reveal_strlit("lte");
    reveal_strlit("eq");
    reveal_strlit("GT");
    reveal_strlit("LT");
    reveal_strlit("GTE");
    reveal_strlit("LTE");
    reveal_strlit("EQ");
    if op == "gt"@ {
        assert(ascii_upper(op) =~= "GT"@);
    } else if op == "lt"@ {
        assert(ascii_upper(op) =~= "LT"@);
    } else if op == "gte"@ {
        assert(ascii_upper(op) =~= "GTE"@);
    } else if op == "lte"@ {
        assert(ascii_upper(op) =~= "LTE"@);
    } else if op == "eq"@ {
        assert(ascii_upper(op) =~= "EQ"@);
    }
}

/// The outcome of turning one filter into a criterion; errors by message.
pub open spec fn filter_criterion(f: ScreenerFilter) -> Result<JsonView, Seq<char>> {
    match yahoo_field(f.field@) {
        None => Err("Unknown field: "@ + f.field@),
        Some(name) => match binary_operator(f.operator@) {
            Some(op) => Ok(criterion(op, seq![JsonView::Str(name), f.value@])),
            None => if f.operator@ == "between"@ {
                match f.secondary_value {
                    Some(second) => Ok(criterion("BTWN"@, seq![JsonView::Str(name), f.value@, second@])),
                    None => Err("Between operator requires secondary_value"@),
                }
            } else if f.operator@ == "in"@ {
                if f.value@ is Array {
                    Ok(criterion("IN"@, seq![JsonView::Str(name), f.value@]))
                } else {
                    Err("In operator requires array value"@)
                }
            } else {
                Err("Unknown operator: "@ + f.operator@)
            },
        },
    }
}

/// The criteria of the filters taken in order: the first error, or all the
/// criteria.
pub open spec fn filters_criteria(filters: Seq<ScreenerFilter>) -> Result<Seq<JsonView>, Seq<char>>
    decreases filters.len(),
{
    if filters.len() == 0 {
        Ok(Seq::empty())
    } else {
        match filters_criteria(filters.drop_last()) {
            Err(m) => Err(m),
            Ok(before) => match filter_criterion(filters.last()) {
                Err(m) => Err(m),
                Ok(c) => Ok(before.push(c)),
            },
        }
    }
}

/// The query for a list of criteria: the only one; all of them joined by
/// `AND`; or, with none, every US listing.
pub open spec fn query_of_criteria(cs: Seq<JsonView>) -> JsonView {
    if cs.len() == 1 {
        cs[0]
    } else if cs.len() > 1 {
        criterion("AND"@, cs)
    } else {
        criterion("EQ"@, seq![JsonView::Str("region"@), JsonView::Str("us"@)])
    }
}

/// The views of a list of JSON values.
pub open spec fn json_views(v: Seq<Json>) -> Seq<JsonView> {
    v.map_values(|j: Json| j@)
}

/// Builds `{"operator": op, "operands": operands}`.
pub fn make_criterion(op: &str, operands: Vec<Json>) -> (r: Json)
    ensures
        r@ == criterion(op@, json_views(operands@)),
{
    let ghost ops = operands@;
    let list = Json::Array(operands);
    proof {
        let inner = match view_of(list) {
            JsonView::Array(s) => s,
            _ => Seq::empty(),
        };
        assert(inner =~= json_views(ops));
        assert(view_of(list) == JsonView::Array(json_views(ops)));
    }
    let ghost list_view = view_of(list);
    let op_value = Json::Str(op.to_owned());
    proof {
        assert(view_of(op_value) == JsonView::Str(op@));
    }
    let ghost op_view = view_of(op_value);
    let mut fields: Vec<(String, Json)> = Vec::new();
    fields.push(("operator".to_owned(), op_value));
    fields.push(("operands".to_owned(), list));
    let r = Json::Object(fields);
    proof {
        let a = match r@ {
            JsonView::Object(s) => s,
            _ => Seq::empty(),
        };
        assert(a[1].1 == list_view);
        assert(a[0].1 == op_view);
        assert(a =~= seq![("operator"@, JsonView::Str(op@)), ("operands"@, JsonView::Array(json_views(ops)))]);
    }
    r
}

/// A filter on a known field with a two-operand comparison becomes the
/// criterion whose operator is that comparison's name in upper case, applied
/// to the field's screener name and the filter's value.
pub proof fn lemma_two_operand_filter(f: ScreenerFilter)
    requires
        yahoo_field(f.field@) is Some,
        is_two_operand_comparison(f.operator@),
    ensures
        filter_criterion(f) == Ok::<JsonView, Seq<char>>(
            criterion(ascii_upper(f.operator@), seq![JsonView::Str(yahoo_field(f.field@)->0), f.value@]),
        ),
{
    lemma_binary_operator_is_upper_case(f.operator@);
}

/// A `between` filter on a known field is the `BTWN` criterion with the
/// value as lower and the secondary value as upper bound, and needs the
/// secondary value; an `in` filter is the `IN` criterion and needs a list.
pub proof fn lemma_range_and_membership_filters(f: ScreenerFilter)
    requires
        yahoo_field(f.field@) is Some,
    ensures
        f.operator@ == "between"@ ==> filter_criterion(f) == (match f.secondary_value {
            Some(second) => Ok::<JsonView, Seq<char>>(
                criterion("BTWN"@, seq![JsonView::Str(yahoo_field(f.field@)->0), f.value@, second@]),
            ),
            None => Err::<JsonView, Seq<char>>("Between operator requires secondary_value"@),
        }),
        f.operator@ == "in"@ ==> filter_criterion(f) == (if f.value@ is Array {
            Ok::<JsonView, Seq<char>>(criterion("IN"@, seq![JsonView::Str(yahoo_field(f.field@)->0), f.value@]))
        } else {
            Err::<JsonView, Seq<char>>("In operator requires array value"@)
        }),
        !is_two_operand_comparison(f.operator@) && f.operator@ != "between"@ && f.operator@ != "in"@
            ==> filter_criterion(f) == Err::<JsonView, Seq<char>>("Unknown operator: "@ + f.operator@),
{
    lemma_binary_operator_is_upper_case(f.operator@);
    reveal_strlit("between");
    reveal_strlit("in");
    reveal_strlit("gt");
    reveal_strlit("lt");
    reveal_strlit("gte");
    reveal_strlit("lte");
    reveal_strlit("eq");
    assert("between"@.len() == 7 && "in"@.len() == 2 && "in"@[0] == 'i');
    assert("gt"@[0] == 'g' && "lt"@[0] == 'l' && "eq"@[0] == 'e');
}

/// The criterion for one filter.
pub fn build_filter_criterion(filter: &ScreenerFilter) -> (r: Result<Json, ApiError>)
    ensures
        match r {
            Ok(c) => filter_criterion(*filter) == Ok::<JsonView, Seq<char>>(c@),
            Err(e) => e matches ApiError::InvalidParameters(m)
                && filter_criterion(*filter) == Err::<JsonView, Seq<char>>(m@),
        },
        yahoo_field(filter.field@) is Some && is_two_operand_comparison(filter.operator@) ==> (r matches Ok(c)
            && c@ == criterion(
            ascii_upper(filter.operator@),
            seq![JsonView::Str(yahoo_field(filter.field@)->0), filter.value@],
        )),
{
    proof {
        if yahoo_field(filter.field@) is Some && is_two_operand_comparison(filter.operator@) {
            lemma_two_operand_filter(*filter);
        }
    }
    let name = match map_field_to_yahoo(filter.field.as_str()) {
        Ok(n) => n,
        Err(e) => return Err(e),
    };
    let op = filter.operator.as_str();
    let binary = if str_eq(op, "gt") { Some("GT") }
        else if str_eq(op, "lt") { Some("LT") }
        else if str_eq(op, "gte") { Some("GTE") }
        else if str_eq(op, "lte") { Some("LTE") }
        else if str_eq(op, "eq") { Some("EQ") }
        else { None };
    match binary {
        Some(o) => {
            let mut operands: Vec<Json> = Vec::new();
            operands.push(Json::Str(name));
            operands.push(filter.value.duplicate());
            proof {
                assert(json_views(operands@) =~= seq![JsonView::Str(name@), filter.value@]);
            }
            Ok(make_criterion(o, operands))
        },
        None => {
            if str_eq(op, "between") {
                match &filter.secondary_value {
                    Some(second) => {
                        let mut operands: Vec<Json> = Vec::new();
                        operands.push(Json::Str(name));
                        operands.push(filter.value.duplicate());
                        operands.push(second.duplicate());
                        proof {
                            assert(json_views(operands@) =~= seq![JsonView::Str(name@), filter.value@, second@]);
                        }
                        Ok(make_criterion("BTWN", operands))
                    },
                    None => Err(ApiError::InvalidParameters(
                        "Between operator requires secondary_value".to_owned(),
                    )),
                }
            } else if str_eq(op, "in") {
                match &filter.value {
                    Json::Array(_) => {
                        let mut operands: Vec<Json> = Vec::new();
                        operands.push(Json::Str(name));
                        operands.push(filter.value.duplicate());
                        proof {
                            assert(json_views(operands@) =~= seq![JsonView::Str(name@), filter.value@]);
                        }
                        Ok(make_criterion("IN", operands))
                    },
                    _ => Err(ApiError::InvalidParameters("In operator requires array value".to_owned())),
                }
            } else {
                Err(ApiError::InvalidParameters(concat_str("Unknown operator: ", op)))
            }
        },
    }
}

/// Builds the screener query for a list of filters; the first filter that
/// cannot be turned into a criterion is an `InvalidParameters` error.
pub fn build_screener_criteria(filters: &Vec<ScreenerFilter>) -> (r: Result<Json, ApiError>)
    ensures
        match r {
            Ok(q) => filters_criteria(filters@) matches Ok(cs) && q@ == query_of_criteria(cs),
            Err(e) => e matches ApiError::InvalidParameters(m)
                && filters_criteria(filters@) == Err::<Seq<JsonView>, Seq<char>>(m@),
        },
{
    let mut criteria: Vec<Json> = Vec::new();
    let mut i: usize = 0;
    proof {
        assert(filters@.take(0) =~= Seq::<ScreenerFilter>::empty());
        assert(json_views(criteria@) =~= Seq::<JsonView>::empty());
    }
    while i < filters.len()
        invariant
            i <= filters@.len(),
            filters_criteria(filters@.take(i as int)) == Ok::<Seq<JsonView>, Seq<char>>(json_views(criteria@)),
        decreases filters@.len() - i,
    {
        proof {
            assert(filters@.take(i + 1).drop_last() =~= filters@.take(i as int));
            assert(filters@.take(i + 1).last() == filters@[i as int]);
        }
        match build_filter_criterion(&filters[i]) {
            Ok(c) => {
                let ghost before = criteria@;
                criteria.push(c);
                proof {
                    assert(json_views(criteria@) =~= json_views(before).push(c@));
                }
            },
            Err(e) => {
                proof {
                    lemma_criteria_error_stays(filters@, i as int);
                }
                return Err(e);
            },
        }
        i = i + 1;
    }
    proof {
        assert(filters@.take(filters@.len() as int) =~= filters@);
    }
    if criteria.len() == 1 {
        let c = criteria.pop().unwrap();
        proof {
            assert(filters_criteria(filters@)->Ok_0[0] == c@) by {
                assert(json_views(criteria@.push(c)) =~= filters_criteria(filters@)->Ok_0);
            }
        }
        Ok(c)
    } else if criteria.len() > 1 {
        Ok(make_criterion("AND", criteria))
    } else {
        let mut operands: Vec<Json> = Vec::new();
        operands.push(Json::Str("region".to_owned()));
        operands.push(Json::Str("us".to_owned()));
        proof {
            assert(json_views(operands@) =~= seq![JsonView::Str("region"@), JsonView::Str("us"@)]);
        }
        Ok(make_criterion("EQ", operands))
    }
}

/// Once a prefix of the filters fails, every longer prefix fails with the
/// same message.
proof fn lemma_criteria_error_stays(filters: Seq<ScreenerFilter>, i: int)
    requires
        0 <= i < filters.len(),
        filters_criteria(filters.take(i)) is Ok,
        filter_criterion(filters[i]) is Err,
    ensures
        filters_criteria(filters) == Err::<Seq<JsonView>, Seq<char>>(filter_criterion(filters[i])->Err_0),
    decreases filters.len() - i,
{
    assert(filters.take(i + 1).drop_last() =~= filters.take(i));
    assert(filters.take(i + 1).last() == filters[i]);
    lemma_criteria_error_prefix(filters, i + 1);
}

proof fn lemma_criteria_error_prefix(filters: Seq<ScreenerFilter>, k: int)
    requires
        0 <= k <= filters.len(),
        filters_criteria(filters.take(k)) is Err,
    ensures
        filters_criteria(filters) == filters_criteria(filters.take(k)),
    decreases filters.len() - k,
{
    if k == filters.len() {
        assert(filters.take(k) =~= filters);
    } else {
        assert(filters.take(k + 1).drop_last() =~= filters.take(k));
        lemma_criteria_error_prefix(filters, k + 1);
    }
}

} // verus!

verus! {

/// The patterns tried, in order, to find the crumb in a quote page.
pub open spec fn crumb_patterns() -> Seq<Seq<char>> {
    seq![
        r#""CrumbStore":\s*\{\s*"crumb":\s*"([^"]+)"\s*\}"#@,
        r#"CrumbStore":\s*\{\s*crumb:\s*"([^"]+)"\s*\}"#@,
        r#""crumb"\s*:\s*"([^"]+)""#@,
        r#"crumb["\']?\s*:\s*["\']([^"\']+)["\']"#@,
        r#"window\.crumb\s*=\s*["\']([^"\']+)["\']"#@,
        r#"data-crumb\s*=\s*["\']([^"\']+)["\']"#@,
    ]
}

/// The crumb patterns.
pub fn crumb_pattern_list() -> (r: Vec<&'static str>)
    ensures
        crate::crumb::str_views(r@) == crumb_patterns(),
{
    let mut v: Vec<&'static str> = Vec::new();
    v.push(r#""CrumbStore":\s*\{\s*"crumb":\s*"([^"]+)"\s*\}"#);
    v.push(r#"CrumbStore":\s*\{\s*crumb:\s*"([^"]+)"\s*\}"#);
    v.push(r#""crumb"\s*:\s*"([^"]+)""#);
    v.push(r#"crumb["\']?\s*:\s*["\']([^"\']+)["\']"#);
    v.push(r#"window\.crumb\s*=\s*["\']([^"\']+)["\']"#);
    v.push(r#"data-crumb\s*=\s*["\']([^"\']+)["\']"#);
    proof {
        assert(crate::crumb::str_views(v@) =~= crumb_patterns());
    }
    v
}

/// A quote page that is an error page or too short to hold the crumb.
pub open spec fn page_blocked(html: &str) -> bool {
    ||| crate::text::contains_seq(html@, "Access Denied"@)
    ||| crate::text::contains_seq(html@, "blocked"@)
    ||| html.len() < 10000
}

/// What the crumb search gives for a page: an error for a blocked page; else
/// the first pattern hit in the whole page; else the first hit inside a
/// script block; else an error.
pub open spec fn html_crumb(html: &str) -> Result<Seq<char>, Seq<char>> {
    if page_blocked(html) {
        Err("Page appears to be blocked or incomplete"@)
    } else {
        match crate::crumb::first_hit(crumb_patterns(), html@) {
            Some(c) => Ok(c),
            None => match crate::crumb::hit_in_texts(
                crate::crumb::regex_groups1(crate::crumb::script_pattern(), html@),
                crumb_patterns(),
            ) {
                Some(c) => Ok(c),
                None => Err("Could not find crumb in HTML"@),
            },
        }
    }
}

/// Searches a quote page for the crumb; failures are `FetchError`s.
pub fn find_crumb_in_html(html: &str) -> (r: Result<String, ApiError>)
    ensures
        match r {
            Ok(c) => html_crumb(html) == Ok::<Seq<char>, Seq<char>>(c@),
            Err(e) => e matches ApiError::FetchError(m)
                && html_crumb(html) == Err::<Seq<char>, Seq<char>>(m@),
        },
{
    if crate::text::contains_str(html, "Access Denied") || crate::text::contains_str(html, "blocked")
        || html.len() < 10000 {
        return Err(ApiError::FetchError("Page appears to be blocked or incomplete".to_owned()));
    }
    let patterns = crumb_pattern_list();
    match crate::crumb::first_pattern_match(&patterns, html) {
        Some(c) => return Ok(c),
        None => {},
    }
    match crate::crumb::script_pattern_match(&patterns, html) {
        Some(c) => Ok(c),
        None => Err(ApiError::FetchError("Could not find crumb in HTML".to_owned())),
    }
}

/// What the crumb endpoint's answer gives: the cleaned text, unless it is
/// empty or longer than 50 bytes.
pub open spec fn endpoint_crumb(text: Seq<char>) -> Option<Seq<char>> {
    let c = crate::crumb::cleaned_crumb(text);
    if c.len() == 0 || (vstd::utf8::encode_utf8(c).len() as usize) > 50 { None } else { Some(c) }
}

/// Checks the crumb endpoint's answer; a bad one is a `FetchError`.
pub fn crumb_from_endpoint_text(text: &str) -> (r: Result<String, ApiError>)
    ensures
        match r {
            Ok(c) => endpoint_crumb(text@) == Some(c@),
            Err(e) => endpoint_crumb(text@) is None
                && (e matches ApiError::FetchError(m) && m@ == "Invalid crumb format from endpoint"@),
        },
{
    let c = crate::crumb::clean_crumb(text);
    if c.as_str().is_empty() || c.as_str().len() > 50 {
        Err(ApiError::FetchError("Invalid crumb format from endpoint".to_owned()))
    } else {
        Ok(c)
    }
}

} // verus!

verus! {

/// The endpoint a request goes to.
#[derive(Debug, PartialEq, Eq, Structural)]
pub enum Route {
    /// A CORS preflight (`OPTIONS`, any path).
    Preflight,
    Historical,
    OptionsChain,
    Quotes,
    QuoteSummary,
    News,
    Calendar,
    Reports,
    MarketSummary,
    OptionsPnl,
    NotFound,
}

/// Where a request with this method and path goes.
pub open spec fn route_of(method: Seq<char>, path: Seq<char>) -> Route {
    if method == "OPTIONS"@ {
        Route::Preflight
    } else if method == "GET"@ {
        if path == "/api/v1/historical"@ { Route::Historical }
        else if path == "/api/v1/options"@ { Route::OptionsChain }
        else if path == "/api/v1/quotes"@ { Route::Quotes }
        else if path == "/api/v1/quotesummary"@ { Route::QuoteSummary }
        else if path == "/api/v1/news"@ { Route::News }
        else if path == "/api/v1/calendar"@ { Route::Calendar }
        else if path == "/api/v1/reports"@ { Route::Reports }
        else if path == "/api/v1/market/summary"@ { Route::MarketSummary }
        else { Route::NotFound }
    } else if method == "POST"@ && path == "/api/v1/options/pnl"@ {
        Route::OptionsPnl
    } else {
        Route::NotFound
    }
}

/// The method and path of each endpoint the server answers.
pub open spec fn route_endpoint(r: Route) -> Option<(Seq<char>, Seq<char>)> {
    match r {
        Route::Historical => Some(("GET"@, "/api/v1/historical"@)),
        Route::OptionsChain => Some(("GET"@, "/api/v1/options"@)),
        Route::Quotes => Some(("GET"@, "/api/v1/quotes"@)),
        Route::QuoteSummary => Some(("GET"@, "/api/v1/quotesummary"@)),
        Route::News => Some(("GET"@, "/api/v1/news"@)),
        Route::Calendar => Some(("GET"@, "/api/v1/calendar"@)),
        Route::Reports => Some(("GET"@, "/api/v1/reports"@)),
        Route::MarketSummary => Some(("GET"@, "/api/v1/market/summary"@)),
        Route::OptionsPnl => Some(("POST"@, "/api/v1/options/pnl"@)),
        Route::Preflight => None,
        Route::NotFound => None,
    }
}

/// Each endpoint's method and path route to that endpoint; every `OPTIONS`
/// request is a preflight; and any other request is `NotFound` exactly when
/// its method and path are those of no endpoint.
pub proof fn lemma_routes_reach_their_endpoints(r: Route, method: Seq<char>, path: Seq<char>)
    ensures
        route_endpoint(r) matches Some(mp) ==> route_of(mp.0, mp.1) == r,
        method == "OPTIONS"@ ==> route_of(method, path) == Route::Preflight,
        method != "OPTIONS"@ ==> (route_of(method, path) == Route::NotFound <==> forall|e: Route|
            route_endpoint(e) != Some((method, path))),
        method != "OPTIONS"@ && route_of(method, path) != Route::NotFound ==> route_endpoint(
            route_of(method, path),
        ) == Some((method, path)),
{
    reveal_strlit("OPTIONS");
    reveal_strlit("GET");
    reveal_strlit("POST");
    reveal_strlit("/api/v1/historical");
    reveal_strlit("/api/v1/options");
    reveal_strlit("/api/v1/quotes");
    reveal_strlit("/api/v1/quotesummary");
    reveal_strlit("/api/v1/news");
    reveal_strlit("/api/v1/calendar");
    reveal_strlit("/api/v1/reports");
    reveal_strlit("/api/v1/market/summary");
    reveal_strlit("/api/v1/options/pnl");
    // The methods differ in length, the paths in length or in the letter
    // after `/api/v1/`.
    assert("OPTIONS"@.len() == 7 && "GET"@.len() == 3 && "POST"@.len() == 4);
    assert("/api/v1/historical"@.len() == 18 && "/api/v1/historical"@[8] == 'h');
    assert("/api/v1/options"@.len() == 15 && "/api/v1/options"@[8] == 'o');
    assert("/api/v1/quotes"@.len() == 14 && "/api/v1/quotes"@[8] == 'q');
    assert("/api/v1/quotesummary"@.len() == 20 && "/api/v1/quotesummary"@[8] == 'q');
    assert("/api/v1/news"@.len() == 12 && "/api/v1/news"@[8] == 'n');
    assert("/api/v1/calendar"@.len() == 16 && "/api/v1/calendar"@[8] == 'c');
    assert("/api/v1/reports"@.len() == 15 && "/api/v1/reports"@[8] == 'r');
    assert("/api/v1/market/summary"@.len() == 22 && "/api/v1/market/summary"@[8] == 'm');
    assert("/api/v1/options/pnl"@.len() == 19 && "/api/v1/options/pnl"@[8] == 'o');
    if method != "OPTIONS"@ && route_of(method, path) == Route::NotFound {
        assert forall|e: Route| route_endpoint(e) != Some((method, path)) by {
            if route_endpoint(e) == Some((method, path)) {
                assert(route_of(method, path) == e);
            }
        }
    }
}

/// Routes a request by its method and path.
pub fn route_request(method: &str, path: &str) -> (r: Route)
    ensures
        r == route_of(method@, path@),
        forall|e: Route| route_endpoint(e) == Some((method@, path@)) ==> r == e,
        method@ != "OPTIONS"@ && r != Route::NotFound ==> route_endpoint(r) == Some((method@, path@)),
{
    proof {
        assert forall|e: Route| route_endpoint(e) == Some((method@, path@)) implies route_of(method@, path@) == e by {
            lemma_routes_reach_their_endpoints(e, method@, path@);
        }
        lemma_routes_reach_their_endpoints(Route::NotFound, method@, path@);
    }
    if str_eq(method, "OPTIONS") {
        Route::Preflight
    } else if str_eq(method, "GET") {
        if str_eq(path, "/api/v1/historical") { Route::Historical }
        else if str_eq(path, "/api/v1/options") { Route::OptionsChain }
        else if str_eq(path, "/api/v1/quotes") { Route::Quotes }
        else if str_eq(path, "/api/v1/quotesummary") { Route::QuoteSummary }
        else if str_eq(path, "/api/v1/news") { Route::News }
        else if str_eq(path, "/api/v1/calendar") { Route::Calendar }
        else if str_eq(path, "/api/v1/reports") { Route::Reports }
        else if str_eq(path, "/api/v1/market/summary") { Route::MarketSummary }
        else { Route::NotFound }
    } else if str_eq(method, "POST") && str_eq(path, "/api/v1/options/pnl") {
        Route::OptionsPnl
    } else {
        Route::NotFound
    }
}

/// The CORS header lines the server sends with a preflight answer.
pub fn cors_headers() -> (r: &'static str)
    ensures
        r@ == "Access-Control-Allow-Origin: http://localhost:3000\r\nAccess-Control-Allow-Methods: GET, POST, OPTIONS\r\nAccess-Control-Allow-Headers: Content-Type, Authorization\r\nAccess-Control-Allow-Credentials: true\r\n"@,
{
    "Access-Control-Allow-Origin: http://localhost:3000\r\nAccess-Control-Allow-Methods: GET, POST, OPTIONS\r\nAccess-Control-Allow-Headers: Content-Type, Authorization\r\nAccess-Control-Allow-Credentials: true\r\n"
}

/// The header lines this server adds to a JSON answer.
pub fn json_headers() -> (r: &'static str)
    ensures
        r@ == "Access-Control-Allow-Origin: http://localhost:3000\r\nAccess-Control-Allow-Credentials: true\r\n"@,
{
    "Access-Control-Allow-Origin: http://localhost:3000\r\nAccess-Control-Allow-Credentials: true\r\n"
}

/// Which kind of screener a request asks for, and the predefined list's id.
pub open spec fn screener_choice(screener_type: Option<Seq<char>>, predefined: Option<Seq<char>>) -> Option<Seq<char>> {
    if screener_type == Some("predefined"@) {
        Some(match predefined {
            Some(id) => id,
            None => "most_actives"@,
        })
    } else {
        None
    }
}

/// The predefined screener a request runs (`Some(id)`), or `None` for a
/// custom screener built from its filters.
pub fn choose_screener(screener_type: &Option<String>, predefined: &Option<String>) -> (r: Option<String>)
    ensures
        opt_chars(r) == screener_choice(opt_chars(*screener_type), opt_chars(*predefined)),
{
    let is_predefined = match screener_type {
        Some(t) => str_eq(t.as_str(), "predefined"),
        None => false,
    };
    if is_predefined {
        match predefined {
            Some(id) => Some(id.clone()),
            None => Some("most_actives".to_owned()),
        }
    } else {
        None
    }
}

/// Whether results are sorted upwards: any order but `desc`.
pub fn sort_ascending(sort_order: &Option<String>) -> (r: bool)
    ensures
        r == (opt_chars(*sort_order) != Some("desc"@)),
{
    match sort_order {
        Some(o) => !str_eq(o.as_str(), "desc"),
        None => true,
    }
}

/// An HTTP server for the API.
pub trait ApiServer {
    /// Serves on the given port until stopped; the error describes why it
    /// stopped.
    fn start(&self, port: u16) -> Result<(), String>;
}

} // verus!
