//! Reading calendar and financial-report answers: where their lists stand,
//! and which members an event or a statement must have.

use vstd::prelude::*;
use crate::api::{as_array_opt, str_member_of};
use crate::json::{get_opt, get_spec, is_number_spec, str_member, Json, JsonView};
use crate::text::opt_chars;

verus! {

/// The items at `key` of the first `finance.result` entry, if they form an array.
pub open spec fn finance_list(j: Json, key: Seq<char>) -> Option<Seq<Json>> {
    match as_array_opt(get_opt(get_spec(j, "finance"@), "result"@)) {
        Some(results) => if results.len() > 0 {
            as_array_opt(get_spec(results[0], key))
        } else {
            None
        },
        None => None,
    }
}

/// The events listed under `key` (`earnings` or `dividends`) in a calendar answer.
pub fn finance_events<'a>(json: &'a Json, key: &str) -> (r: Option<&'a Vec<Json>>)
    ensures
        match r {
            Some(items) => finance_list(*json, key@) == Some(items@),
            None => finance_list(*json, key@) is None,
        },
{
    let finance = match json.get("finance") {
        Some(f) => f,
        None => return None,
    };
    let result = match finance.get("result") {
        Some(r) => r,
        None => return None,
    };
    let results = match result.as_array() {
        Some(a) => a,
        None => return None,
    };
    if results.len() == 0 {
        return None;
    }
    match results[0].get(key) {
        Some(list) => list.as_array(),
        None => None,
    }
}

/// The statements of a report history: `result[key][key]` as an array.
pub open spec fn history_list(result: Json, key: Seq<char>) -> Option<Seq<Json>> {
    as_array_opt(get_opt(get_spec(result, key), key))
}

/// The statements of one history (`incomeStatementHistory`,
/// `balanceSheetHistory` or `cashflowStatementHistory`) of a report result.
pub fn statement_history<'a>(result: &'a Json, key: &str) -> (r: Option<&'a Vec<Json>>)
    ensures
        match r {
            Some(items) => history_list(*result, key@) == Some(items@),
            None => history_list(*result, key@) is None,
        },
{
    match result.get(key) {
        Some(h) => match h.get(key) {
            Some(list) => list.as_array(),
            None => None,
        },
        None => None,
    }
}

/// The closing date of a statement: `endDate.fmt`.
pub open spec fn statement_date_of(statement: Json) -> Option<Seq<char>> {
    match get_opt(get_spec(statement, "endDate"@), "fmt"@) {
        Some(f) => crate::json::as_str_spec(f),
        None => None,
    }
}

/// The closing date of a statement; a statement without one is skipped.
pub fn statement_date(statement: &Json) -> (r: Option<String>)
    ensures
        opt_chars(r) == statement_date_of(*statement),
{
    match statement.get("endDate") {
        Some(d) => str_member_of(d, "fmt"),
        None => None,
    }
}

/// The members of a statement whose `raw` value is a number, in order, each
/// with that number.
pub open spec fn raw_entries(fields: Seq<(String, Json)>) -> Seq<(Seq<char>, JsonView)>
    decreases fields.len(),
{
    if fields.len() == 0 {
        Seq::empty()
    } else {
        let before = raw_entries(fields.drop_last());
        let last = fields.last();
        match get_spec(last.1, "raw"@) {
            Some(r) => if is_number_spec(r) { before.push((last.0@, r@)) } else { before },
            None => before,
        }
    }
}

/// The raw numbers of a statement (none when it is not an object).
pub open spec fn statement_numbers(statement: Json) -> Seq<(Seq<char>, JsonView)> {
    match statement {
        Json::Object(fields) => raw_entries(fields@),
        _ => Seq::empty(),
    }
}

/// The views of named values.
pub open spec fn entry_views(entries: Seq<(String, Json)>) -> Seq<(Seq<char>, JsonView)> {
    entries.map_values(|e: (String, Json)| (e.0@, e.1@))
}

/// The members of a statement with a numeric `raw` value, and those values.
pub fn raw_numbers(statement: &Json) -> (r: Vec<(String, Json)>)
    ensures
        entry_views(r@) == statement_numbers(*statement),
{
    let mut out: Vec<(String, Json)> = Vec::new();
    match statement {
        Json::Object(fields) => {
            let mut i: usize = 0;
            proof {
                assert(fields@.take(0) =~= Seq::<(String, Json)>::empty());
                assert(entry_views(out@) =~= Seq::<(Seq<char>, JsonView)>::empty());
            }
            while i < fields.len()
                invariant
                    i <= fields@.len(),
                    entry_views(out@) == raw_entries(fields@.take(i as int)),
                decreases fields@.len() - i,
            {
                proof {
                    assert(fields@.take(i + 1).drop_last() =~= fields@.take(i as int));
                    assert(fields@.take(i + 1).last() == fields@[i as int]);
                }
                match fields[i].1.get("raw") {
                    Some(raw) => {
                        if raw.is_number() {
                            let ghost before = out@;
                            let value = raw.duplicate();
                            out.push((fields[i].0.clone(), value));
                            proof {
                                assert(entry_views(out@) =~= entry_views(before).push(
                                    (fields@[i as int].0@, raw@),
                                ));
                            }
                        }
                    },
                    None => {},
                }
                i = i + 1;
            }
            proof {
                assert(fields@.take(fields@.len() as int) =~= fields@);
            }
            out
        },
        _ => {
            proof {
                assert(entry_views(out@) =~= Seq::<(Seq<char>, JsonView)>::empty());
            }
            out
        },
    }
}

/// The text members of an earnings event: ticker, company name and date.
pub open spec fn earnings_text_of(event: Json) -> Option<(Seq<char>, Seq<char>, Seq<char>)> {
    match (
        str_member(event, "ticker"@),
        str_member(event, "companyshortname"@),
        str_member(event, "startdatetime"@),
    ) {
        (Some(t), Some(c), Some(d)) => Some((t, c, d)),
        _ => None,
    }
}

/// The member names of an event's ticker, company name, and date: `ticker`,
/// `companyshortname`, and the date's own member (`startdatetime` for
/// earnings, `exdividenddate` for dividends).
pub open spec fn event_text_keys(date_key: Seq<char>) -> Seq<Seq<char>> {
    seq!["ticker"@, "companyshortname"@, date_key]
}

/// The texts of an event's ticker, company name and date, in that order, are
/// its string members of those names.
pub open spec fn event_texts_follow_keys(event: Json, texts: Seq<Seq<char>>, date_key: Seq<char>) -> bool {
    &&& texts.len() == 3
    &&& forall|j: int| 0 <= j < 3 ==> str_member(event, #[trigger] event_text_keys(date_key)[j]) == Some(texts[j])
}

/// The earnings texts read from an event are its `ticker`,
/// `companyshortname` and `startdatetime` members, in that order, and there
/// are texts exactly when all three are strings.
pub proof fn lemma_earnings_texts_follow_keys(event: Json)
    ensures
        earnings_text_of(event) matches Some(t) ==> event_texts_follow_keys(event, seq![t.0, t.1, t.2], "startdatetime"@),
        earnings_text_of(event) is Some <==> forall|j: int|
            0 <= j < 3 ==> str_member(event, #[trigger] event_text_keys("startdatetime"@)[j]) is Some,
{
    if forall|j: int| 0 <= j < 3 ==> str_member(event, #[trigger] event_text_keys("startdatetime"@)[j]) is Some {
        assert(str_member(event, event_text_keys("startdatetime"@)[0]) is Some);
        assert(str_member(event, event_text_keys("startdatetime"@)[1]) is Some);
        assert(str_member(event, event_text_keys("startdatetime"@)[2]) is Some);
    }
}

/// The ticker, company name and date of an earnings event; `None` (the
/// event is skipped) when one of them is missing or not a string.
pub fn earnings_event_text(event: &Json) -> (r: Option<(String, String, String)>)
    ensures
        match r {
            Some(t) => earnings_text_of(*event) == Some((t.0@, t.1@, t.2@)),
            None => earnings_text_of(*event) is None,
        },
        r matches Some(t) ==> event_texts_follow_keys(*event, seq![t.0@, t.1@, t.2@], "startdatetime"@),
{
    proof {
        lemma_earnings_texts_follow_keys(*event);
    }
    let ticker = match str_member_of(event, "ticker") {
        Some(s) => s,
        None => return None,
    };
    let company = match str_member_of(event, "companyshortname") {
        Some(s) => s,
        None => return None,
    };
    let date = match str_member_of(event, "startdatetime") {
        Some(s) => s,
        None => return None,
    };
    Some((ticker, company, date))
}

/// A member that is present and a number.
pub open spec fn number_member(j: Json, key: Seq<char>) -> bool {
    match get_spec(j, key) {
        Some(v) => is_number_spec(v),
        None => false,
    }
}

/// A dividend event is read when its ticker, company name and ex-dividend
/// date are strings and its amount and yield are numbers.
pub open spec fn dividend_complete(event: Json) -> bool {
    &&& str_member(event, "ticker"@) is Some
    &&& str_member(event, "companyshortname"@) is Some
    &&& str_member(event, "exdividenddate"@) is Some
    &&& number_member(event, "amount"@)
    &&& number_member(event, "yield"@)
}

/// The text members of a dividend event: ticker, company name, ex-dividend
/// date and the optional pay date; `None` (the event is skipped) when the
/// event is not complete.
pub fn dividend_event_text(event: &Json) -> (r: Option<(String, String, String, Option<String>)>)
    ensures
        r is Some <==> dividend_complete(*event),
        r matches Some(t) ==> {
            &&& str_member(*event, "ticker"@) == Some(t.0@)
            &&& str_member(*event, "companyshortname"@) == Some(t.1@)
            &&& str_member(*event, "exdividenddate"@) == Some(t.2@)
            &&& opt_chars(t.3) == str_member(*event, "payoutdate"@)
        },
        r matches Some(t) ==> event_texts_follow_keys(*event, seq![t.0@, t.1@, t.2@], "exdividenddate"@),
{
    let ticker = match str_member_of(event, "ticker") {
        Some(s) => s,
        None => return None,
    };
    let company = match str_member_of(event, "companyshortname") {
        Some(s) => s,
        None => return None,
    };
    let ex_date = match str_member_of(event, "exdividenddate") {
        Some(s) => s,
        None => return None,
    };
    let amount_ok = match event.get("amount") {
        Some(v) => v.is_number(),
        None => false,
    };
    let yield_ok = match event.get("yield") {
        Some(v) => v.is_number(),
        None => false,
    };
    if !amount_ok || !yield_ok {
        return None;
    }
    proof {
        let texts = seq![ticker@, company@, ex_date@];
        assert forall|j: int| 0 <= j < 3 implies str_member(
            *event,
            #[trigger] event_text_keys("exdividenddate"@)[j],
        ) == Some(texts[j]) by {}
    }
    Some((ticker, company, ex_date, str_member_of(event, "payoutdate")))
}

} // verus!
