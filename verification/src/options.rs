//! The discrete part of option-chain handling: which side of a chain a
//! request keeps, and reading the side of a position.

use vstd::prelude::*;
use crate::api::ApiError;
use crate::text::str_eq;

verus! {

/// The side of an option contract.
#[derive(Debug, Clone, Copy, PartialEq, Eq, Structural)]
pub enum OptionSide {
    Call,
    Put,
}

/// A chain request keeps a side unless it asks for the other side only:
/// `put` drops the calls, `call` drops the puts, and any other value (or
/// none) keeps both.
pub open spec fn side_kept(option_type: Option<Seq<char>>, side: OptionSide) -> bool {
    match option_type {
        Some(t) => match side {
            OptionSide::Call => t != "put"@,
            OptionSide::Put => t != "call"@,
        },
        None => true,
    }
}

/// Whether a chain request keeps the contracts of `side`.
pub fn keeps_side(option_type: &Option<String>, side: OptionSide) -> (r: bool)
    ensures
        r == side_kept(crate::text::opt_chars(*option_type), side),
{
    match option_type {
        Some(t) => match side {
            OptionSide::Call => !str_eq(t.as_str(), "put"),
            OptionSide::Put => !str_eq(t.as_str(), "call"),
        },
        None => true,
    }
}

/// The side named by a position: `call` or `put`.
pub open spec fn side_named(name: Seq<char>) -> Option<OptionSide> {
    if name == "call"@ {
        Some(OptionSide::Call)
    } else if name == "put"@ {
        Some(OptionSide::Put)
    } else {
        None
    }
}

/// Reads the side of a position; any other name is refused with
/// `InvalidParameters("Invalid option type")`.
pub fn parse_option_side(name: &str) -> (r: Result<OptionSide, ApiError>)
    ensures
        match r {
            Ok(s) => side_named(name@) == Some(s),
            Err(e) => side_named(name@) is None
                && (e matches ApiError::InvalidParameters(m) && m@ == "Invalid option type"@),
        },
{
    if str_eq(name, "call") {
        Ok(OptionSide::Call)
    } else if str_eq(name, "put") {
        Ok(OptionSide::Put)
    } else {
        Err(ApiError::InvalidParameters("Invalid option type".to_owned()))
    }
}

/// Every request keeps at least one side, and both unless it names one.
pub proof fn lemma_some_side_kept(option_type: Option<Seq<char>>)
    ensures
        side_kept(option_type, OptionSide::Call) || side_kept(option_type, OptionSide::Put),
        (option_type is None) ==> side_kept(option_type, OptionSide::Call) && side_kept(option_type, OptionSide::Put),
{
    if let Some(t) = option_type {
        if t == "put"@ {
            assert(t != "call"@) by {
                reveal_strlit("put");
                reveal_strlit("call");
                assert(t[0] == 'p');
            }
        }
    }
}

} // verus!
