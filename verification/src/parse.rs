//! Verified parsing of operator-command tokens: the settings keywords,
//! channel-mention scopes and the shop's numbered reactions.

use vstd::prelude::*;
use vstd::string::StrSliceExecFns;
use crate::rules::RuleSetting;
use crate::server::RuleKind;

verus! {

/// Character-wise string equality.
fn str_eq(a: &str, b: &str) -> (r: bool)
    ensures
        r == (a@ == b@),
{
    let sa = a.to_owned();
    let sb = b.to_owned();
    sa == sb
}

/// The capability a settings keyword names.
pub open spec fn spec_parse_rule_kind(s: Seq<char>) -> Option<RuleKind> {
    if s == "forest"@ || s == "grow"@ {
        Some(RuleKind::Forest)
    } else if s == "commands"@ || s == "command"@ {
        Some(RuleKind::Commands)
    } else {
        None
    }
}

/// Read a settings keyword as a capability.
pub fn parse_rule_kind(token: &str) -> (r: Option<RuleKind>)
    ensures
        r == spec_parse_rule_kind(token@),
{
    if str_eq(token, "forest") || str_eq(token, "grow") {
        Some(RuleKind::Forest)
    } else if str_eq(token, "commands") || str_eq(token, "command") {
        Some(RuleKind::Commands)
    } else {
        None
    }
}

/// The rule setting a settings keyword names.
pub open spec fn spec_parse_allowance(s: Seq<char>) -> Option<RuleSetting> {
    if s == "allow"@ || s == "true"@ || s == "1"@ {
        Some(RuleSetting::Allow)
    } else if s == "deny"@ || s == "false"@ || s == "-1"@ {
        Some(RuleSetting::Deny)
    } else if s == "inherit"@ || s == "0"@ {
        Some(RuleSetting::Inherit)
    } else {
        None
    }
}

/// Read a settings keyword as a rule setting.
pub fn parse_allowance(token: &str) -> (r: Option<RuleSetting>)
    ensures
        r == spec_parse_allowance(token@),
{
    if str_eq(token, "allow") || str_eq(token, "true") || str_eq(token, "1") {
        Some(RuleSetting::Allow)
    } else if str_eq(token, "deny") || str_eq(token, "false") || str_eq(token, "-1") {
        Some(RuleSetting::Deny)
    } else if str_eq(token, "inherit") || str_eq(token, "0") {
        Some(RuleSetting::Inherit)
    } else {
        None
    }
}

/// A decimal digit.
pub open spec fn spec_is_digit(c: char) -> bool {
    '0' <= c <= '9'
}

/// A token's characters with the mention decoration `<`, `#`, `>`
/// removed, wherever it occurs.
pub open spec fn spec_mention_digits(s: Seq<char>) -> Seq<char> {
    s.filter(|c: char| c != '<' && c != '#' && c != '>')
}

/// Whether every character of a sequence is a decimal digit.
pub open spec fn spec_all_digits(s: Seq<char>) -> bool {
    forall|i: int| 0 <= i < s.len() ==> spec_is_digit(#[trigger] s[i])
}

/// The number a digit sequence denotes.
pub open spec fn spec_digits_value(s: Seq<char>) -> int
    decreases s.len(),
{
    if s.len() == 0 {
        0
    } else {
        spec_digits_value(s.drop_last()) * 10 + (s.last() as int - '0' as int)
    }
}

/// The scope a settings token names: the whole community for the
/// keywords `server`, `guild` or `0`, else the channel id spelled by the
/// token's digits once any mention decoration is stripped. A token
/// without digits, with stray characters or spelling a number too large
/// for an id names no scope.
pub open spec fn spec_parse_scope(s: Seq<char>) -> Option<u64> {
    if s == "server"@ || s == "guild"@ || s == "0"@ {
        Some(0u64)
    } else {
        let t = spec_mention_digits(s);
        if t.len() > 0 && spec_all_digits(t) && spec_digits_value(t) <= u64::MAX {
            Some(spec_digits_value(t) as u64)
        } else {
            None
        }
    }
}

/// Read a settings token as a rule scope (whether the named channel
/// exists in the community is for the caller to check).
pub fn parse_scope_token(token: &str) -> (r: Option<u64>)
    ensures
        r == spec_parse_scope(token@),
{
    if str_eq(token, "server") || str_eq(token, "guild") || str_eq(token, "0") {
        return Some(0);
    }
    let n = token.unicode_len();
    let mut i: usize = 0;
    let mut all_digits = true;
    let mut has_kept = false;
    let mut overflowed = false;
    let mut value: u64 = 0;
    while i < n
        invariant
            n == token@.len(),
            i <= n,
            all_digits == spec_all_digits(spec_mention_digits(token@.take(i as int))),
            has_kept == (spec_mention_digits(token@.take(i as int)).len() > 0),
            all_digits && !overflowed ==> value == spec_digits_value(
                spec_mention_digits(token@.take(i as int)),
            ),
            all_digits && overflowed ==> spec_digits_value(
                spec_mention_digits(token@.take(i as int)),
            ) > u64::MAX,
        decreases n - i,
    {
        let c = token.get_char(i);
        proof {
            reveal(Seq::filter);
            assert(token@.take(i + 1int).drop_last() =~= token@.take(i as int));
            assert(token@.take(i + 1int).last() == token@[i as int]);
            let stripped = |x: char| x != '<' && x != '#' && x != '>';
            assert(spec_mention_digits(token@.take(i + 1int)) == (if stripped(
                token@[i as int],
            ) {
                spec_mention_digits(token@.take(i as int)).push(token@[i as int])
            } else {
                spec_mention_digits(token@.take(i as int))
            }));
            if stripped(token@[i as int]) {
                let t = spec_mention_digits(token@.take(i as int));
                assert(t.push(c).drop_last() =~= t);
                assert(t.push(c).last() == c);
            }
        }
        if c == '<' || c == '#' || c == '>' {
            // mention decoration: dropped
        } else if c >= '0' && c <= '9' {
            has_kept = true;
            if all_digits && !overflowed {
                let d = (c as u32 - 48) as u64;
                match value.checked_mul(10) {
                    Some(v10) => match v10.checked_add(d) {
                        Some(v) => {
                            value = v;
                        },
                        None => {
                            overflowed = true;
                        },
                    },
                    None => {
                        overflowed = true;
                    },
                }
            }
        } else {
            has_kept = true;
            all_digits = false;
        }
        i += 1;
    }
    proof {
        assert(token@.take(n as int) =~= token@);
    }
    if all_digits && has_kept && !overflowed {
        Some(value)
    } else {
        None
    }
}

/// The index into the buyable list a numbered shop reaction names: the
/// glyphs for 1 through 9 pick entries 0 through 8; anything else —
/// including the glyph for 0 — picks nothing.
pub open spec fn spec_shop_choice_index(s: Seq<char>) -> Option<usize> {
    if s.len() > 0 && '1' <= s[0] <= '9' {
        Some((s[0] as int - '1' as int) as usize)
    } else {
        None
    }
}

/// Read a numbered shop reaction as an index into the buyable list.
pub fn shop_choice_index(emoji: &str) -> (r: Option<usize>)
    ensures
        r == spec_shop_choice_index(emoji@),
{
    if token_is_empty_chars(emoji) {
        return None;
    }
    let c = emoji.get_char(0);
    if c >= '1' && c <= '9' {
        Some(((c as u32 - 49) as usize))
    } else {
        None
    }
}

/// Whether a token has no characters.
fn token_is_empty_chars(token: &str) -> (r: bool)
    ensures
        r == (token@.len() == 0),
{
    token.unicode_len() == 0
}

} // verus!
