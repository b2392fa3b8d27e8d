//! Startup configuration: the pre-flight bootstrap decision, the required
//! credential, the guild scope identifier, and the startup plan built from
//! them. The process environment itself is read outside the crate and
//! handed in as plain optional strings.

use vstd::prelude::*;
use vstd::string::StrSliceExecFns;
use crate::publish::GuildScope;

verus! {

/// A configuration error: fatal at startup, reported with a non-zero exit
/// code before any gateway connection is attempted.
#[derive(Debug)]
pub enum ConfigError {
    /// The guild scope identifier is not set.
    MissingGuildScope,
    /// The guild scope identifier is set to this text, which is not a
    /// valid platform identifier.
    MalformedGuildScope(String),
    /// The gateway credential is not set.
    MissingToken,
}

/// `c` is a decimal digit.
pub open spec fn is_digit(c: char) -> bool {
    48 <= c as u32 <= 57
}

/// The numeric value of the digit `c`.
pub open spec fn digit_val(c: char) -> nat {
    (c as u32 - 48) as nat
}

/// Every character of `s` is a decimal digit.
pub open spec fn all_digits(s: Seq<char>) -> bool {
    forall|i: int| 0 <= i < s.len() ==> is_digit(#[trigger] s[i])
}

/// The numeric value of the digit string `s`, most significant digit
/// first.
pub open spec fn dec_val(s: Seq<char>) -> nat
    decreases s.len(),
{
    if s.len() == 0 {
        0
    } else {
        dec_val(s.drop_last()) * 10 + digit_val(s.last())
    }
}

/// `s` is a valid platform identifier: a non-empty string of decimal
/// digits whose value fits the identifier width.
pub open spec fn is_valid_scope_text(s: Seq<char>) -> bool {
    &&& s.len() > 0
    &&& all_digits(s)
    &&& dec_val(s) <= u64::MAX
}

/// A digit string is worth at least as much as any of its prefixes.
proof fn lemma_dec_val_prefix_le(s: Seq<char>, k: int)
    requires
        0 <= k <= s.len(),
    ensures
        dec_val(s.subrange(0, k)) <= dec_val(s),
    decreases s.len() - k,
{
    if k == s.len() {
        assert(s.subrange(0, k) =~= s);
    } else {
        assert(s.subrange(0, k + 1).drop_last() =~= s.subrange(0, k));
        assert(dec_val(s.subrange(0, k + 1)) == dec_val(s.subrange(0, k)) * 10 + digit_val(
            s.subrange(0, k + 1).last(),
        ));
        lemma_dec_val_prefix_le(s, k + 1);
    }
}

/// Parses the guild scope identifier from its environment text. Exactly
/// the unset case is the missing-scope error; exactly the texts that are
/// not valid identifiers are malformed (reported with the offending text);
/// every valid identifier parses to its decimal value.
pub fn parse_guild_scope(raw: Option<String>) -> (r: Result<GuildScope, ConfigError>)
    ensures
        match raw {
            Option::None => r == Err::<GuildScope, ConfigError>(ConfigError::MissingGuildScope),
            Option::Some(ref s) => {
                if is_valid_scope_text(s@) {
                    r matches Ok(g) && g.id == dec_val(s@)
                } else {
                    r matches Err(ConfigError::MalformedGuildScope(t)) && t@ == s@
                }
            },
        },
{
    let s = match raw {
        None => {
            return Err(ConfigError::MissingGuildScope);
        },
        Some(s) => s,
    };
    let n = s.as_str().unicode_len();
    if n == 0 {
        return Err(ConfigError::MalformedGuildScope(s));
    }
    let mut acc: u64 = 0;
    let mut i: usize = 0;
    while i < n
        invariant
            raw == Option::Some(s),
            0 <= i <= n,
            n == s@.len(),
            forall|k: int| 0 <= k < i ==> is_digit(#[trigger] s@[k]),
            acc == dec_val(s@.subrange(0, i as int)),
        decreases n - i,
    {
        let c = s.as_str().get_char(i);
        let code = c as u32;
        if code < 48 || 57 < code {
            assert(!all_digits(s@));
            return Err(ConfigError::MalformedGuildScope(s));
        }
        let d = (code - 48) as u64;
        let wide: u128 = (acc as u128) * 10 + (d as u128);
        proof {
            assert(s@.subrange(0, i as int + 1).drop_last() =~= s@.subrange(0, i as int));
            assert(s@.subrange(0, i as int + 1).last() == s@[i as int]);
            assert(dec_val(s@.subrange(0, i as int + 1)) == acc * 10 + d);
        }
        if wide > u64::MAX as u128 {
            // the digits read so far already outgrow the identifier width
            proof {
                if all_digits(s@) {
                    lemma_dec_val_prefix_le(s@, i as int + 1);
                }
            }
            return Err(ConfigError::MalformedGuildScope(s));
        }
        acc = wide as u64;
        i += 1;
    }
    proof {
        assert(s@.subrange(0, n as int) =~= s@);
    }
    Ok(GuildScope { id: acc })
}

/// Takes the gateway credential from its environment text: present means
/// usable as-is, absent is the missing-token error.
pub fn require_token(raw: Option<String>) -> (r: Result<String, ConfigError>)
    ensures
        match raw {
            Option::None => r == Err::<String, ConfigError>(ConfigError::MissingToken),
            Option::Some(ref t) => r matches Ok(t2) && t2 == t,
        },
{
    match raw {
        None => Err(ConfigError::MissingToken),
        Some(t) => Ok(t),
    }
}

/// What startup does after the pre-flight checks.
pub enum StartupPlan {
    /// No configuration file exists yet: put the template in place, print
    /// the instructions, and exit cleanly. A one-time bootstrap, not
    /// steady-state behaviour.
    BootstrapConfigAndExit,
    /// The configuration is unusable: report the cause and exit non-zero,
    /// before any gateway connection is attempted.
    FailConfiguration(ConfigError),
    /// The configuration is complete: connect to the gateway with this
    /// credential and publish into this scope.
    Connect { token: String, scope: GuildScope },
}

/// Only the connect plan ever touches the gateway.
pub open spec fn attempts_connection(p: StartupPlan) -> bool {
    p is Connect
}

/// Decides the whole startup sequence from the pre-flight facts: bootstrap
/// wins first, then the guild scope is demanded and parsed, then the
/// credential is demanded; only a complete configuration reaches the
/// gateway.
pub fn plan_startup(
    config_file_exists: bool,
    token: Option<String>,
    guild_scope: Option<String>,
) -> (p: StartupPlan)
    ensures
        !config_file_exists ==> p is BootstrapConfigAndExit,
        config_file_exists ==> match guild_scope {
            Option::None => p == StartupPlan::FailConfiguration(ConfigError::MissingGuildScope),
            Option::Some(ref s) => {
                if !is_valid_scope_text(s@) {
                    p matches StartupPlan::FailConfiguration(
                        ConfigError::MalformedGuildScope(t),
                    ) && t@ == s@
                } else {
                    match token {
                        Option::None => p == StartupPlan::FailConfiguration(
                            ConfigError::MissingToken,
                        ),
                        Option::Some(ref tok) => p matches StartupPlan::Connect {
                            token: t2,
                            scope,
                        } && t2 == tok && scope.id == dec_val(s@),
                    }
                }
            },
        },
{
    if !config_file_exists {
        return StartupPlan::BootstrapConfigAndExit;
    }
    let scope = match parse_guild_scope(guild_scope) {
        Err(e) => {
            return StartupPlan::FailConfiguration(e);
        },
        Ok(scope) => scope,
    };
    match require_token(token) {
        Err(e) => StartupPlan::FailConfiguration(e),
        Ok(token) => StartupPlan::Connect { token, scope },
    }
}

/// The exit code a terminal plan ends the process with: the one-time
/// bootstrap exits cleanly, a configuration failure exits non-zero, and
/// the connect plan does not exit at all.
pub fn plan_exit_code(p: &StartupPlan) -> (c: Option<i32>)
    ensures
        match *p {
            StartupPlan::BootstrapConfigAndExit => c == Some(0i32),
            StartupPlan::FailConfiguration(_) => c matches Some(code) && code != 0,
            StartupPlan::Connect { .. } => c is None,
        },
{
    match p {
        StartupPlan::BootstrapConfigAndExit => Some(0),
        StartupPlan::FailConfiguration(_) => Some(1),
        StartupPlan::Connect { .. } => None,
    }
}

} // verus!
