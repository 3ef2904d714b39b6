//! The swap-route grammar.
//!
//! A route is written `"<venue>_to_<venue>"`. The part before the first
//! `"_to_"` names the venue of the first leg; the part after it, up to the
//! next `"_to_"` or the end, names the venue of the second leg. Each part
//! must be one of the four known venue names.

use vstd::prelude::*;

use crate::dispatch::{RoutePath, Venue};
use crate::error::ContractError;
use crate::strutil::str_eq;

verus! {

/// The name of an exchange venue.
pub open spec fn venue_name(v: Venue) -> Seq<char> {
    match v {
        Venue::NativeSwap => "native_swap"@,
        Venue::TerraSwap => "terra_swap"@,
        Venue::Astroport => "astroport"@,
        Venue::Loop => "loop"@,
    }
}

/// The venue a name denotes, if any.
pub open spec fn spec_venue_of(s: Seq<char>) -> Option<Venue> {
    if s == venue_name(Venue::NativeSwap) {
        Some(Venue::NativeSwap)
    } else if s == venue_name(Venue::TerraSwap) {
        Some(Venue::TerraSwap)
    } else if s == venue_name(Venue::Astroport) {
        Some(Venue::Astroport)
    } else if s == venue_name(Venue::Loop) {
        Some(Venue::Loop)
    } else {
        None
    }
}

/// Whether the four characters of the leg separator stand at `i`.
pub open spec fn is_sep_at(s: Seq<char>, i: int) -> bool {
    &&& 0 <= i
    &&& i + 4 <= s.len()
    &&& s[i] == '_'
    &&& s[i + 1] == 't'
    &&& s[i + 2] == 'o'
    &&& s[i + 3] == '_'
}

/// The first position at or after `i` where the leg separator stands.
pub open spec fn spec_find_sep(s: Seq<char>, i: nat) -> Option<int>
    decreases s.len() - i,
{
    if i + 4 > s.len() {
        None
    } else if is_sep_at(s, i as int) {
        Some(i as int)
    } else {
        spec_find_sep(s, i + 1)
    }
}

/// The route a path denotes, if any: the name before the first separator,
/// and the name between the first separator and the next one or the end.
pub open spec fn spec_parse_route(s: Seq<char>) -> Option<RoutePath> {
    match spec_find_sep(s, 0) {
        None => None,
        Some(i) => {
            let rest = s.skip(i + 4);
            let second_end = match spec_find_sep(rest, 0) {
                Some(j) => j,
                None => rest.len() as int,
            };
            match (spec_venue_of(s.take(i)), spec_venue_of(rest.take(second_end))) {
                (Some(first), Some(second)) => Some(RoutePath { first, second }),
                _ => None,
            }
        },
    }
}

/// The venue a name denotes; `FailedToParse` for an unknown name.
pub fn get_swap_oprations_path(route_path: &str) -> (r: Result<Venue, ContractError>)
    ensures
        match r {
            Ok(v) => spec_venue_of(route_path@) == Some(v),
            Err(e) => e == ContractError::FailedToParse && spec_venue_of(route_path@) is None,
        },
{
    if str_eq(route_path, "native_swap") {
        Ok(Venue::NativeSwap)
    } else if str_eq(route_path, "terra_swap") {
        Ok(Venue::TerraSwap)
    } else if str_eq(route_path, "astroport") {
        Ok(Venue::Astroport)
    } else if str_eq(route_path, "loop") {
        Ok(Venue::Loop)
    } else {
        Err(ContractError::FailedToParse)
    }
}

/// Finds the first leg separator at or after `from`.
fn find_sep(s: &str, from: usize) -> (r: Option<usize>)
    requires
        from <= s@.len(),
    ensures
        match r {
            Some(i) => from <= i && i + 4 <= s@.len() && spec_find_sep(s@, from as nat) == Some(
                i as int,
            ),
            None => spec_find_sep(s@, from as nat) is None,
        },
{
    let len = s.unicode_len();
    let mut i: usize = from;
    loop
        invariant
            from <= i <= len,
            len == s@.len(),
            spec_find_sep(s@, from as nat) == spec_find_sep(s@, i as nat),
        decreases len - i,
    {
        if len - i < 4 {
            return None;
        }
        if s.get_char(i) == '_' && s.get_char(i + 1) == 't' && s.get_char(i + 2) == 'o'
            && s.get_char(i + 3) == '_' {
            return Some(i);
        }
        i = i + 1;
    }
}

/// Parses a route path into its two venues; `FailedToParse` when the path
/// has no separator or names an unknown venue.
pub fn parse_route_path(path: &str) -> (r: Result<RoutePath, ContractError>)
    ensures
        match r {
            Ok(route) => spec_parse_route(path@) == Some(route),
            Err(e) => e == ContractError::FailedToParse && spec_parse_route(path@) is None,
        },
{
    let len = path.unicode_len();
    let sep = match find_sep(path, 0) {
        Some(i) => i,
        None => {
            return Err(ContractError::FailedToParse);
        },
    };
    let first_name = path.substring_char(0, sep);
    proof {
        assert(first_name@ =~= path@.take(sep as int));
    }
    let rest_start = sep + 4;
    let rest = path.substring_char(rest_start, len);
    proof {
        assert(rest@ =~= path@.skip(sep + 4));
    }
    let rest_len = rest.unicode_len();
    let second_end = match find_sep(rest, 0) {
        Some(j) => j,
        None => rest_len,
    };
    let second_name = rest.substring_char(0, second_end);
    proof {
        assert(second_name@ =~= rest@.take(second_end as int));
    }
    let first = match get_swap_oprations_path(first_name) {
        Ok(v) => v,
        Err(e) => {
            return Err(e);
        },
    };
    let second = match get_swap_oprations_path(second_name) {
        Ok(v) => v,
        Err(e) => {
            return Err(e);
        },
    };
    Ok(RoutePath { first, second })
}

} // verus!
