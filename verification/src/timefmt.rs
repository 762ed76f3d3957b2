//! Expiry-time display: an RFC 3339 expiry text parsed to an epoch
//! second count, then shown as a wall-clock time in UTC and in EST
//! (approximated as five hours behind UTC).

use vstd::prelude::*;
use vstd::string::StringExecFns;
use vstd::arithmetic::div_mod::lemma_fundamental_div_mod_converse;
use crate::model::Contract;
use crate::text::spec_pad2;
use crate::text::u64_pad2;

verus! {

/// The epoch second count an RFC 3339 date-time text denotes, if any:
/// a function of the text alone.
pub uninterp spec fn rfc3339_epoch(s: Seq<char>) -> Option<i64>;

/// Relies on chrono's `DateTime::parse_from_rfc3339` and `timestamp`:
/// text in RFC 3339 shape parses to a date-time whose epoch second
/// count depends on the text alone; any other text is rejected.
#[verifier::external_body]
fn parse_rfc3339_epoch(s: &str) -> (r: Option<i64>)
    ensures
        r == rfc3339_epoch(s@),
{
    match chrono::DateTime::parse_from_rfc3339(s) {
        Ok(dt) => Some(dt.timestamp()),
        Err(_) => None,
    }
}

/// Seconds since the last midnight, for any epoch second count.
pub open spec fn spec_day_seconds(t: int) -> int {
    t % 86400
}

fn day_seconds(t: i128) -> (r: u64)
    requires
        -170_141_183_460_469_231_731_687_303_715_884_000_000 <= t,
    ensures
        r as int == spec_day_seconds(t as int),
        r < 86400,
{
    if t >= 0 {
        let r = ((t as u128) % 86400u128) as u64;
        proof {
            assert(r as int == (t as int) % 86400);
        }
        r
    } else {
        let m = ((-t) as u128 % 86400u128) as u64;
        let r = if m == 0 {
            0u64
        } else {
            86400u64 - m
        };
        proof {
            let x = t as int;
            let mm = m as int;
            let q = (-x) / 86400;
            assert((-x) == q * 86400 + mm);
            if mm == 0 {
                lemma_fundamental_div_mod_converse(x, 86400, -q, 0);
            } else {
                assert(x == (-q - 1) * 86400 + (86400 - mm)) by (nonlinear_arith)
                    requires
                        -x == q * 86400 + mm,
                ;
                lemma_fundamental_div_mod_converse(x, 86400, -q - 1, 86400 - mm);
            }
        }
        r
    }
}

/// A wall-clock display of an epoch second count: hours and minutes in
/// UTC, then the twelve-hour EST reading, EST taken as five hours
/// behind UTC.
pub open spec fn spec_clock_display(t: int) -> Seq<char> {
    let ds = spec_day_seconds(t);
    let hh = ds / 3600;
    let mm = (ds % 3600) / 60;
    let es = spec_day_seconds(t - 18000);
    let eh = es / 3600;
    let h12 = if eh % 12 == 0 {
        12int
    } else {
        eh % 12
    };
    spec_pad2(hh as nat) + ":"@ + spec_pad2(mm as nat) + " UTC / "@ + spec_pad2(h12 as nat) + (
    if eh < 12 {
        "AM"@
    } else {
        "PM"@
    }) + " EST"@
}

/// What the expiry column shows for an expiry text: the parsed time in
/// UTC and EST, or `N/A` when there is no expiry or the text does not
/// parse.
pub open spec fn spec_expiry_display(expiry: Option<Seq<char>>) -> Seq<char> {
    match expiry {
        None => "N/A"@,
        Some(text) => match rfc3339_epoch(text) {
            None => "N/A"@,
            Some(t) => spec_clock_display(t as int),
        },
    }
}

impl Contract {
    /// Expiry time shown in both UTC and EST, `N/A` when unknown or
    /// unparsable.
    pub fn expiry_display(&self) -> (s: String)
        ensures
            s@ == spec_expiry_display(self@.expiry_time),
    {
        match &self.expiry_time {
            None => String::from_str("N/A"),
            Some(text) => match parse_rfc3339_epoch(text.as_str()) {
                None => String::from_str("N/A"),
                Some(t) => {
                    let ds = day_seconds(t as i128);
                    let hh = ds / 3600;
                    let mm = (ds % 3600) / 60;
                    let es = day_seconds((t as i128) - 18000);
                    let eh = es / 3600;
                    let h12 = if eh % 12 == 0 {
                        12u64
                    } else {
                        eh % 12
                    };
                    let mut s = u64_pad2(hh);
                    s.append(":");
                    let minutes = u64_pad2(mm);
                    s.append(minutes.as_str());
                    s.append(" UTC / ");
                    let hours12 = u64_pad2(h12);
                    s.append(hours12.as_str());
                    s.append(
                        if eh < 12 {
                            "AM"
                        } else {
                            "PM"
                        },
                    );
                    s.append(" EST");
                    s
                },
            },
        }
    }
}

} // verus!
