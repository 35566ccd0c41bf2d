//! Configuration parsed from line-oriented `key: value` text.
//!
//! Comment lines start with `#`; blank lines and unknown keys are ignored;
//! a value that does not parse leaves that key at its default, so partial
//! files are valid.

use vstd::prelude::*;
use vstd::string::*;

use crate::numeral::{
    is_valid_numeral, is_valid_unsigned, numeral_val, parse_i64, parse_usize, unsigned_val,
};
use crate::text::{find_from, find_pat, lemma_find_from_some, str_eq, strip_cr, trim_spec, trim_str};

verus! {

/// Tunable gating settings.
#[derive(Debug, Clone, Copy, PartialEq, Eq, Structural)]
pub struct Config {
    /// Minutes between periodic evaluations.
    pub eval_interval_minutes: i64,
    /// Recent decisions carried into the next evaluation.
    pub carryover_decision_count: usize,
    /// Minutes of recent messages carried into the next evaluation.
    pub carryover_window_minutes: i64,
}

/// The settings used when the file is absent or silent.
pub open spec fn default_config() -> Config {
    Config { eval_interval_minutes: 5, carryover_decision_count: 2, carryover_window_minutes: 5 }
}

impl Default for Config {
    fn default() -> (c: Self)
        ensures
            c == default_config(),
    {
        Config {
            eval_interval_minutes: 5,
            carryover_decision_count: 2,
            carryover_window_minutes: 5,
        }
    }
}

/// `c` with the setting named by `key` replaced by `value`, where `key`
/// names one and `value` parses; `c` unchanged otherwise.
pub open spec fn set_from_pair(c: Config, key: Seq<char>, value: Seq<char>) -> Config {
    if key == "eval_interval_minutes"@ {
        if is_valid_numeral(value) && i64::MIN <= numeral_val(value) <= i64::MAX {
            Config { eval_interval_minutes: numeral_val(value) as i64, ..c }
        } else {
            c
        }
    } else if key == "carryover_decision_count"@ {
        if is_valid_unsigned(value) && unsigned_val(value) <= usize::MAX {
            Config { carryover_decision_count: unsigned_val(value) as usize, ..c }
        } else {
            c
        }
    } else if key == "carryover_window_minutes"@ {
        if is_valid_numeral(value) && i64::MIN <= numeral_val(value) <= i64::MAX {
            Config { carryover_window_minutes: numeral_val(value) as i64, ..c }
        } else {
            c
        }
    } else {
        c
    }
}

/// One line folded into `c`: trimmed; skipped when blank, a comment, or
/// without a colon; otherwise split at the first colon into a trimmed key
/// and value.
pub open spec fn line_applied(c: Config, raw: Seq<char>) -> Config {
    let t = trim_spec(raw);
    if t.len() == 0 || t[0] == '#' {
        c
    } else {
        match find_from(t, ":"@, 0) {
            None => c,
            Some(i) => set_from_pair(
                c,
                trim_spec(t.take(i)),
                trim_spec(t.subrange(i + 1, t.len() as int)),
            ),
        }
    }
}

/// The lines of `s` from `pos` on, folded into `c` in order.
pub open spec fn config_from(c: Config, s: Seq<char>, pos: int) -> Config
    decreases s.len() - pos,
    via config_from_decreases
{
    if pos < 0 || pos >= s.len() {
        c
    } else {
        match find_from(s, "\n"@, pos) {
            None => line_applied(c, strip_cr(s.subrange(pos, s.len() as int))),
            Some(i) => config_from(line_applied(c, strip_cr(s.subrange(pos, i))), s, i + 1),
        }
    }
}

#[via_fn]
proof fn config_from_decreases(c: Config, s: Seq<char>, pos: int) {
    reveal_strlit("\n");
    if 0 <= pos < s.len() {
        if let Some(i) = find_from(s, "\n"@, pos) {
            lemma_find_from_some(s, "\n"@, pos, i);
        }
    }
}

/// What the whole file means.
pub open spec fn parse_config_spec(s: Seq<char>) -> Config {
    config_from(default_config(), s, 0)
}

fn apply_line(c: Config, raw: &str) -> (r: Config)
    ensures
        r == line_applied(c, raw@),
{
    proof {
        reveal_strlit(":");
    }
    let t = trim_str(raw);
    let tn = t.unicode_len();
    if tn == 0 || t.get_char(0) == '#' {
        return c;
    }
    match find_pat(t, ":", 0) {
        None => c,
        Some(i) => {
            proof {
                lemma_find_from_some(t@, ":"@, 0, i as int);
            }
            let key = trim_str(t.substring_char(0, i));
            let value = trim_str(t.substring_char(i + 1, tn));
            proof {
                assert(t@.subrange(0, i as int) =~= t@.take(i as int));
            }
            if str_eq(key, "eval_interval_minutes") {
                match parse_i64(value) {
                    Some(v) => Config { eval_interval_minutes: v, ..c },
                    None => c,
                }
            } else if str_eq(key, "carryover_decision_count") {
                match parse_usize(value) {
                    Some(v) => Config { carryover_decision_count: v, ..c },
                    None => c,
                }
            } else if str_eq(key, "carryover_window_minutes") {
                match parse_i64(value) {
                    Some(v) => Config { carryover_window_minutes: v, ..c },
                    None => c,
                }
            } else {
                c
            }
        },
    }
}

impl Config {
    /// Parse configuration text; every setting a line does not supply, or
    /// supplies unreadably, keeps its default.
    pub fn from_content(content: &str) -> (c: Config)
        ensures
            c == parse_config_spec(content@),
    {
        proof {
            reveal_strlit("\n");
        }
        let n = content.unicode_len();
        let mut c = Config::default();
        let mut pos: usize = 0;
        while pos < n
            invariant
                pos <= n,
                n == content@.len(),
                parse_config_spec(content@) == config_from(c, content@, pos as int),
            decreases n - pos,
        {
            let (line_end, next_pos): (usize, usize) = match find_pat(content, "\n", pos) {
                Some(nl) => {
                    proof {
                        reveal_strlit("\n");
                        lemma_find_from_some(content@, "\n"@, pos as int, nl as int);
                    }
                    (nl, nl + 1)
                },
                None => (n, n),
            };
            let line = content.substring_char(pos, line_end);
            let ln = line.unicode_len();
            let line = if ln > 0 && line.get_char(ln - 1) == '\r' {
                let r = line.substring_char(0, ln - 1);
                proof {
                    assert(r@ =~= strip_cr(line@));
                }
                r
            } else {
                line
            };
            c = apply_line(c, line);
            pos = next_pos;
        }
        c
    }
}

} // verus!
