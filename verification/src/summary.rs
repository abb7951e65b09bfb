//! Reading a quote-summary answer: locating its result, the company profile,
//! and the `raw` numbers of the financial modules.

use vstd::prelude::*;
use crate::api::{as_array_opt, str_member_of, ApiError};
use crate::json::{as_u64_spec, get_opt, get_spec, str_member, Json};
use crate::text::opt_chars;

verus! {

/// The first entry of `quoteSummary.result`, if there is one.
pub open spec fn first_summary_result(j: Json) -> Option<Json> {
    match as_array_opt(get_opt(get_spec(j, "quoteSummary"@), "result"@)) {
        Some(items) => if items.len() > 0 { Some(items[0]) } else { None },
        None => None,
    }
}

/// The result of a quote-summary answer; `DataNotFound` when the answer has
/// no `quoteSummary.result` array or the array is empty.
pub fn summary_result(json: &Json) -> (r: Result<&Json, ApiError>)
    ensures
        match r {
            Ok(v) => first_summary_result(*json) == Some(*v),
            Err(e) => first_summary_result(*json) is None
                && (e matches ApiError::DataNotFound(m) && m@ == "No quote summary data"@),
        },
{
    let missing = ApiError::DataNotFound("No quote summary data".to_owned());
    let qs = match json.get("quoteSummary") {
        Some(q) => q,
        None => return Err(missing),
    };
    let res = match qs.get("result") {
        Some(r) => r,
        None => return Err(missing),
    };
    let arr = match res.as_array() {
        Some(a) => a,
        None => return Err(missing),
    };
    if arr.len() == 0 {
        return Err(missing);
    }
    Ok(&arr[0])
}

/// The company profile of a quote summary (the list of officers is not read).
#[derive(Debug)]
pub struct AssetProfile {
    pub address1: Option<String>,
    pub city: Option<String>,
    pub state: Option<String>,
    pub zip: Option<String>,
    pub country: Option<String>,
    pub phone: Option<String>,
    pub website: Option<String>,
    pub industry: Option<String>,
    pub sector: Option<String>,
    pub long_business_summary: Option<String>,
    pub full_time_employees: Option<u64>,
}

/// An unsigned integer member.
pub open spec fn u64_member(j: Json, key: Seq<char>) -> Option<u64> {
    match get_spec(j, key) {
        Some(v) => as_u64_spec(v),
        None => None,
    }
}

/// The profile read from an `assetProfile` module: each text member when it
/// is a string, and the head count when it is an unsigned integer.
pub open spec fn profile_of(p: AssetProfile, ap: Json) -> bool {
    &&& opt_chars(p.address1) == str_member(ap, "address1"@)
    &&& opt_chars(p.city) == str_member(ap, "city"@)
    &&& opt_chars(p.state) == str_member(ap, "state"@)
    &&& opt_chars(p.zip) == str_member(ap, "zip"@)
    &&& opt_chars(p.country) == str_member(ap, "country"@)
    &&& opt_chars(p.phone) == str_member(ap, "phone"@)
    &&& opt_chars(p.website) == str_member(ap, "website"@)
    &&& opt_chars(p.industry) == str_member(ap, "industry"@)
    &&& opt_chars(p.sector) == str_member(ap, "sector"@)
    &&& opt_chars(p.long_business_summary) == str_member(ap, "longBusinessSummary"@)
    &&& p.full_time_employees == u64_member(ap, "fullTimeEmployees"@)
}

/// The text fields of a profile, in the order of their member names.
pub open spec fn profile_texts(p: AssetProfile) -> Seq<Option<Seq<char>>> {
    seq![
        opt_chars(p.address1),
        opt_chars(p.city),
        opt_chars(p.state),
        opt_chars(p.zip),
        opt_chars(p.country),
        opt_chars(p.phone),
        opt_chars(p.website),
        opt_chars(p.industry),
        opt_chars(p.sector),
        opt_chars(p.long_business_summary),
    ]
}

/// The member names of the text fields of an `assetProfile` module: each is
/// the field's own name (`longBusinessSummary` for `long_business_summary`).
pub open spec fn profile_text_keys() -> Seq<Seq<char>> {
    seq![
        "address1"@,
        "city"@,
        "state"@,
        "zip"@,
        "country"@,
        "phone"@,
        "website"@,
        "industry"@,
        "sector"@,
        "longBusinessSummary"@,
    ]
}

/// `ap` is an object with one member, named `key`, whose value is the
/// string `v`.
pub open spec fn single_text_member(ap: Json, key: Seq<char>, v: Seq<char>) -> bool {
    ap matches Json::Object(fs) && fs@.len() == 1 && fs@[0].0@ == key && (fs@[0].1 matches Json::Str(t) && t@ == v)
}

/// Each text field of a profile is the string member of its own name: a
/// module with one string member fills exactly the field of that name with
/// it, and leaves every other field, and the head count, empty.
pub proof fn lemma_profile_fields_follow_their_names(p: AssetProfile, ap: Json, i: int, v: Seq<char>)
    requires
        0 <= i < 10,
        single_text_member(ap, profile_text_keys()[i], v),
        profile_of(p, ap),
    ensures
        forall|j: int| 0 <= j < 10 ==> #[trigger] profile_texts(p)[j] == (if j == i { Some(v) } else { None }),
        p.full_time_employees is None,
{
    reveal_strlit("address1");
    reveal_strlit("city");
    reveal_strlit("state");
    reveal_strlit("zip");
    reveal_strlit("country");
    reveal_strlit("phone");
    reveal_strlit("website");
    reveal_strlit("industry");
    reveal_strlit("sector");
    reveal_strlit("longBusinessSummary");
    reveal_strlit("fullTimeEmployees");
    // The names differ in length or in their first letter.
    assert("address1"@.len() == 8 && "address1"@[0] == 'a');
    assert("city"@.len() == 4 && "city"@[0] == 'c');
    assert("state"@.len() == 5 && "state"@[0] == 's');
    assert("zip"@.len() == 3 && "zip"@[0] == 'z');
    assert("country"@.len() == 7 && "country"@[0] == 'c');
    assert("phone"@.len() == 5 && "phone"@[0] == 'p');
    assert("website"@.len() == 7 && "website"@[0] == 'w');
    assert("industry"@.len() == 8 && "industry"@[0] == 'i');
    assert("sector"@.len() == 6 && "sector"@[0] == 's');
    assert("longBusinessSummary"@.len() == 19 && "longBusinessSummary"@[0] == 'l');
    assert("fullTimeEmployees"@.len() == 17 && "fullTimeEmployees"@[0] == 'f');
    let fs = match ap {
        Json::Object(fs) => fs@,
        _ => Seq::empty(),
    };
    assert forall|key: Seq<char>| key != profile_text_keys()[i] implies get_spec(ap, key) is None by {
        assert(fs.drop_first().len() == 0);
        assert(crate::json::field_of(fs.drop_first(), key) is None);
        assert(crate::json::field_of(fs, key) is None);
    }
    assert(get_spec(ap, profile_text_keys()[i]) == Some(fs[0].1));
    assert forall|j: int| 0 <= j < 10 implies #[trigger] profile_texts(p)[j] == (if j == i { Some(v) } else { None }) by {
        if j != i {
            assert(profile_text_keys()[j] != profile_text_keys()[i]);
        }
    }
    assert(get_spec(ap, "fullTimeEmployees"@) is None);
}

/// The head count of a profile is the unsigned member `fullTimeEmployees`:
/// a module with that one member gives that count and no text.
pub proof fn lemma_profile_head_count(p: AssetProfile, ap: Json, n: u64)
    requires
        ap matches Json::Object(fs) && fs@.len() == 1 && fs@[0].0@ == "fullTimeEmployees"@ && fs@[0].1 == Json::PosInt(
            n,
        ),
        profile_of(p, ap),
    ensures
        p.full_time_employees == Some(n),
        forall|j: int| 0 <= j < 10 ==> #[trigger] profile_texts(p)[j] is None,
{
    let fs = match ap {
        Json::Object(fs) => fs@,
        _ => Seq::empty(),
    };
    assert(get_spec(ap, "fullTimeEmployees"@) == Some(fs[0].1));
    assert forall|j: int| 0 <= j < 10 implies #[trigger] profile_texts(p)[j] is None by {
        let key = profile_text_keys()[j];
        if get_spec(ap, key) is Some {
            assert(get_spec(ap, key) == Some(fs[0].1) || crate::json::field_of(fs.drop_first(), key) is None);
        }
    }
}

/// Reads the company profile from an `assetProfile` module.
pub fn parse_asset_profile(ap: &Json) -> (r: AssetProfile)
    ensures
        profile_of(r, *ap),
        forall|j: int| 0 <= j < 10 ==> #[trigger] profile_texts(r)[j] == str_member(*ap, profile_text_keys()[j]),
{
    let employees = match ap.get("fullTimeEmployees") {
        Some(v) => v.as_u64(),
        None => None,
    };
    AssetProfile {
        address1: str_member_of(ap, "address1"),
        city: str_member_of(ap, "city"),
        state: str_member_of(ap, "state"),
        zip: str_member_of(ap, "zip"),
        country: str_member_of(ap, "country"),
        phone: str_member_of(ap, "phone"),
        website: str_member_of(ap, "website"),
        industry: str_member_of(ap, "industry"),
        sector: str_member_of(ap, "sector"),
        long_business_summary: str_member_of(ap, "longBusinessSummary"),
        full_time_employees: employees,
    }
}

/// The `raw` value of a member of a financial module: `module[key].raw`.
pub open spec fn raw_of(module: Json, key: Seq<char>) -> Option<Json> {
    get_opt(get_spec(module, key), "raw"@)
}

/// The `raw` value of a member of a financial module.
pub fn raw_field<'a>(module: &'a Json, key: &str) -> (r: Option<&'a Json>)
    ensures
        match r {
            Some(v) => raw_of(*module, key@) == Some(*v),
            None => raw_of(*module, key@) is None,
        },
{
    match module.get(key) {
        Some(m) => m.get("raw"),
        None => None,
    }
}

/// A `raw` count read as an unsigned integer and kept to its low 32 bits.
pub fn raw_count(module: &Json, key: &str) -> (r: Option<u32>)
    ensures
        r == (match raw_of(*module, key@) {
            Some(v) => match as_u64_spec(v) {
                Some(n) => Some(n as u32),
                None => None,
            },
            None => None,
        }),
{
    match raw_field(module, key) {
        Some(v) => match v.as_u64() {
            Some(n) => Some(n as u32),
            None => None,
        },
        None => None,
    }
}

} // verus!
