//! The auto-update interval setting and its parse table.

use vstd::prelude::*;
use vstd::string::*;
use crate::text::{has_prefix, parse_u64, spec_parse_u64, str_eq, str_has_prefix};

verus! {

/// A configured auto-update interval.  An unparseable setting degrades to
/// `Off`, never to an error.
#[derive(Clone, Copy, PartialEq, Eq, Debug, Structural)]
pub enum IntervalSetting {
    /// No automatic updates.
    Off,
    /// One of the fixed recognized tokens, in seconds.
    FixedSeconds(u64),
    /// A user-supplied number of seconds.
    CustomSeconds(u64),
}

/// The parse table for the interval setting: fixed tokens, `off`, a
/// `custom:<n>` prefix, a bare numeric string, and `Off` for everything else.
pub open spec fn spec_parse_interval(s: Seq<char>) -> IntervalSetting {
    if s == "24h"@ || s == "1d"@ {
        IntervalSetting::FixedSeconds(86400)
    } else if s == "7d"@ || s == "1w"@ {
        IntervalSetting::FixedSeconds(604800)
    } else if s == "1h"@ {
        IntervalSetting::FixedSeconds(3600)
    } else if s == "6h"@ {
        IntervalSetting::FixedSeconds(21600)
    } else if s == "off"@ {
        IntervalSetting::Off
    } else if has_prefix(s, "custom:"@) {
        match spec_parse_u64(s.skip("custom:"@.len() as int)) {
            Some(n) => IntervalSetting::CustomSeconds(n),
            None => IntervalSetting::Off,
        }
    } else {
        match spec_parse_u64(s) {
            Some(n) => IntervalSetting::CustomSeconds(n),
            None => IntervalSetting::Off,
        }
    }
}

/// The seconds an interval setting stands for, `None` when off.
pub open spec fn spec_interval_seconds(iv: IntervalSetting) -> Option<u64> {
    match iv {
        IntervalSetting::Off => None,
        IntervalSetting::FixedSeconds(n) => Some(n),
        IntervalSetting::CustomSeconds(n) => Some(n),
    }
}

impl IntervalSetting {
    /// The seconds this setting stands for, `None` when off.
    pub fn seconds(&self) -> (r: Option<u64>)
        ensures
            r == spec_interval_seconds(*self),
    {
        match *self {
            IntervalSetting::Off => None,
            IntervalSetting::FixedSeconds(n) => Some(n),
            IntervalSetting::CustomSeconds(n) => Some(n),
        }
    }
}

/// Parses an interval setting string by the parse table.
pub fn parse_interval(s: &str) -> (r: IntervalSetting)
    ensures
        r == spec_parse_interval(s@),
{
    if str_eq(s, "24h") || str_eq(s, "1d") {
        IntervalSetting::FixedSeconds(86400)
    } else if str_eq(s, "7d") || str_eq(s, "1w") {
        IntervalSetting::FixedSeconds(604800)
    } else if str_eq(s, "1h") {
        IntervalSetting::FixedSeconds(3600)
    } else if str_eq(s, "6h") {
        IntervalSetting::FixedSeconds(21600)
    } else if str_eq(s, "off") {
        IntervalSetting::Off
    } else if str_has_prefix(s, "custom:") {
        proof {
            reveal_strlit("custom:");
        }
        let len = s.unicode_len();
        let rest = s.substring_char(7, len);
        proof {
            assert(rest@ =~= s@.skip("custom:"@.len() as int));
        }
        match parse_u64(rest) {
            Some(n) => IntervalSetting::CustomSeconds(n),
            None => IntervalSetting::Off,
        }
    } else {
        match parse_u64(s) {
            Some(n) => IntervalSetting::CustomSeconds(n),
            None => IntervalSetting::Off,
        }
    }
}

/// The parse table is total: each recognized token parses to its exact
/// second count, `off` parses to `Off`, and a string that is none of the
/// tokens, not a `custom:` form and not numeric parses to `Off`.
pub proof fn lemma_parse_table_total()
    ensures
        spec_parse_interval("1h"@) == IntervalSetting::FixedSeconds(3600),
        spec_parse_interval("6h"@) == IntervalSetting::FixedSeconds(21600),
        spec_parse_interval("24h"@) == IntervalSetting::FixedSeconds(86400),
        spec_parse_interval("1d"@) == IntervalSetting::FixedSeconds(86400),
        spec_parse_interval("7d"@) == IntervalSetting::FixedSeconds(604800),
        spec_parse_interval("1w"@) == IntervalSetting::FixedSeconds(604800),
        spec_parse_interval("off"@) == IntervalSetting::Off,
        forall|s: Seq<char>|
            s != "24h"@ && s != "1d"@ && s != "7d"@ && s != "1w"@ && s != "1h"@ && s != "6h"@
                && s != "off"@ && !has_prefix(s, "custom:"@) && spec_parse_u64(s) is None
                ==> spec_parse_interval(s) == IntervalSetting::Off,
{
    broadcast use vstd::string::group_string_axioms;

    reveal_strlit("1h");
    reveal_strlit("6h");
    reveal_strlit("24h");
    reveal_strlit("1d");
    reveal_strlit("7d");
    reveal_strlit("1w");
    reveal_strlit("off");
    reveal_strlit("custom:");
    assert("1h"@.len() == 2 && "1h"@[0] == '1' && "1h"@[1] == 'h');
    assert("6h"@.len() == 2 && "6h"@[0] == '6' && "6h"@[1] == 'h');
    assert("24h"@.len() == 3 && "24h"@[0] == '2');
    assert("1d"@.len() == 2 && "1d"@[0] == '1' && "1d"@[1] == 'd');
    assert("7d"@.len() == 2 && "7d"@[0] == '7' && "7d"@[1] == 'd');
    assert("1w"@.len() == 2 && "1w"@[0] == '1' && "1w"@[1] == 'w');
    assert("off"@.len() == 3 && "off"@[0] == 'o');
    assert("custom:"@.len() == 7);
}

} // verus!
