//! Settings of the sources, read once at start-up.

use vstd::prelude::*;
use vstd::string::StringExecFns;

verus! {

/// The settings of one source. They are fixed once loaded.
#[derive(Debug)]
pub struct ServiceConfig {
    pub enabled: bool,
    /// Seconds between two checks.
    pub check_interval: u64,
    pub telegram_api_key: String,
    pub telegram_chat_id: String,
    pub buymeacoffee_url: String,
    pub disclaimer: String,
}

impl Clone for ServiceConfig {
    fn clone(&self) -> (r: ServiceConfig)
        ensures
            r == *self,
    {
        ServiceConfig {
            enabled: self.enabled,
            check_interval: self.check_interval,
            telegram_api_key: self.telegram_api_key.clone(),
            telegram_chat_id: self.telegram_chat_id.clone(),
            buymeacoffee_url: self.buymeacoffee_url.clone(),
            disclaimer: self.disclaimer.clone(),
        }
    }
}

/// The settings of all sources.
#[derive(Debug)]
pub struct Config {
    pub earthquake: ServiceConfig,
    pub rocket_launch: ServiceConfig,
    pub space_weather: ServiceConfig,
    pub vulnerability: ServiceConfig,
}

impl Clone for Config {
    fn clone(&self) -> (r: Config)
        ensures
            r == *self,
    {
        Config {
            earthquake: self.earthquake.clone(),
            rocket_launch: self.rocket_launch.clone(),
            space_weather: self.space_weather.clone(),
            vulnerability: self.vulnerability.clone(),
        }
    }
}

/// Whether `c` is a decimal digit.
pub open spec fn is_digit(c: char) -> bool {
    '0' <= c <= '9'
}

/// The number that a run of decimal digits stands for.
pub open spec fn decimal_value(digits: Seq<char>) -> nat
    decreases digits.len(),
{
    if digits.len() == 0 {
        0
    } else {
        decimal_value(digits.drop_last()) * 10 + (digits.last() as nat - '0' as nat) as nat
    }
}

/// A text without its leading plus sign, if it has one.
pub open spec fn unsigned_part(text: Seq<char>) -> Seq<char> {
    if text.len() > 0 && text[0] == '+' {
        text.drop_first()
    } else {
        text
    }
}

/// The number that a text stands for as a `u64`: an optional plus sign and
/// then one or more decimal digits, of a value that fits; `None` for any other
/// text.
pub open spec fn parsed_u64(text: Seq<char>) -> Option<u64> {
    let digits = unsigned_part(text);
    if digits.len() > 0 && (forall|i: int| 0 <= i < digits.len() ==> is_digit(#[trigger] digits[i]))
        && decimal_value(digits) <= u64::MAX {
        Some(decimal_value(digits) as u64)
    } else {
        None
    }
}

/// A run of digits stands for at least as much as each of its beginnings.
proof fn lemma_decimal_value_grows(digits: Seq<char>, n: int)
    requires
        0 <= n <= digits.len(),
        forall|i: int| 0 <= i < digits.len() ==> is_digit(#[trigger] digits[i]),
    ensures
        decimal_value(digits.take(n)) <= decimal_value(digits),
    decreases digits.len() - n,
{
    if n < digits.len() {
        lemma_decimal_value_grows(digits, n + 1);
        assert(digits.take(n + 1).drop_last() == digits.take(n));
        assert(is_digit(digits[n]));
    } else {
        assert(digits.take(n) == digits);
    }
}

fn digit_of(c: char) -> (r: Option<u64>)
    ensures
        match r {
            Some(d) => is_digit(c) && d == c as nat - '0' as nat,
            None => !is_digit(c),
        },
{
    if '0' <= c && c <= '9' {
        Some((c as u32 - '0' as u32) as u64)
    } else {
        None
    }
}

/// Reads a text as a `u64`, as the standard library's `parse` does.
pub fn parse_u64(text: &str) -> (r: Option<u64>)
    ensures
        r == parsed_u64(text@),
{
    let ghost digits = unsigned_part(text@);
    let mut value: u64 = 0;
    let ghost mut count: int = 0;
    let mut any = false;
    let mut signed = false;
    let mut first = true;
    for c in iter: text.chars()
        invariant
            iter.seq() == text@,
            first <==> iter.index() == 0,
            digits == unsigned_part(text@),
            signed <==> (iter.index() > 0 && text@[0] == '+'),
            count == (if signed {
                iter.index() - 1
            } else {
                iter.index()
            }),
            any <==> count > 0,
            forall|i: int| 0 <= i < count ==> is_digit(#[trigger] digits[i]),
            value == decimal_value(digits.take(count)),
    {
        if first && c == '+' {
            first = false;
            signed = true;
            assert(digits.take(0) =~= Seq::<char>::empty());
        } else {
            first = false;
            proof {
                assert(digits[count] == c);
                assert(digits.take(count + 1).drop_last() == digits.take(count));
            }
            let digit = match digit_of(c) {
                Some(d) => d,
                None => { return None; },
            };
            let next = match value.checked_mul(10) {
                Some(tens) => tens.checked_add(digit),
                None => None,
            };
            value = match next {
                Some(v) => v,
                None => {
                    proof {
                        if forall|i: int| 0 <= i < digits.len() ==> is_digit(#[trigger] digits[i]) {
                            lemma_decimal_value_grows(digits, count + 1);
                        }
                    }
                    return None;
                },
            };
            any = true;
            proof {
                count = count + 1;
            }
        }
    }
    proof {
        assert(digits.take(count) == digits);
    }
    if any {
        Some(value)
    } else {
        None
    }
}

/// The value of the variable `key` in the environment `vars`, a list of names
/// with their values: the value beside the first occurrence of the name.
pub open spec fn lookup(vars: Seq<(String, String)>, key: Seq<char>) -> Option<Seq<char>>
    decreases vars.len(),
{
    if vars.len() == 0 {
        None
    } else if vars[0].0@ == key {
        Some(vars[0].1@)
    } else {
        lookup(vars.drop_first(), key)
    }
}

/// The value of `key`, or `default` where the variable is not set.
pub open spec fn value_or(vars: Seq<(String, String)>, key: Seq<char>, default: Seq<char>) -> Seq<
    char,
> {
    match lookup(vars, key) {
        Some(value) => value,
        None => default,
    }
}

/// The seconds that the variable `key` stands for.
pub open spec fn seconds_of(vars: Seq<(String, String)>, key: Seq<char>, default_secs: u64) -> u64 {
    match lookup(vars, key) {
        Some(value) => match parsed_u64(value) {
            Some(secs) => secs,
            None => default_secs,
        },
        None => default_secs,
    }
}

fn find<'a>(vars: &'a Vec<(String, String)>, key: &str) -> (r: Option<&'a String>)
    ensures
        match r {
            Some(value) => lookup(vars@, key@) == Some(value@),
            None => lookup(vars@, key@) is None,
        },
{
    let name = String::from_str(key);
    let mut i: usize = 0;
    proof {
        assert(vars@.skip(0) == vars@);
    }
    while i < vars.len()
        invariant
            i <= vars.len(),
            name@ == key@,
            lookup(vars@, key@) == lookup(vars@.skip(i as int), key@),
        decreases vars.len() - i,
    {
        proof {
            assert(vars@.skip(i as int).drop_first() == vars@.skip(i + 1));
        }
        if vars[i].0 == name {
            return Some(&vars[i].1);
        }
        i += 1;
    }
    None
}

/// The value of the variable `key`, or `default` where it is not set.
pub fn get_env(vars: &Vec<(String, String)>, key: &str, default: &str) -> (r: String)
    ensures
        r@ == value_or(vars@, key@, default@),
{
    match find(vars, key) {
        Some(value) => value.clone(),
        None => String::from_str(default),
    }
}

/// The seconds that the variable `key` stands for, or `default_secs` where it
/// is not set or its value is no number.
pub fn get_env_duration(vars: &Vec<(String, String)>, key: &str, default_secs: u64) -> (r: u64)
    ensures
        r == seconds_of(vars@, key@, default_secs),
{
    match find(vars, key) {
        Some(value) => match parse_u64(value.as_str()) {
            Some(secs) => secs,
            None => default_secs,
        },
        None => default_secs,
    }
}

/// Whether `config` is the settings of the source whose interval is set by
/// `interval_key`, with `default_secs` as the default, and whose disclaimer is
/// set by `disclaimer_key`.
pub open spec fn is_settings_of(
    config: ServiceConfig,
    vars: Seq<(String, String)>,
    interval_key: Seq<char>,
    default_secs: u64,
    disclaimer_key: Seq<char>,
) -> bool {
    &&& config.enabled
    &&& config.check_interval == seconds_of(vars, interval_key, default_secs)
    &&& config.telegram_api_key@ == value_or(vars, "TELEGRAM_API_KEY"@, ""@)
    &&& config.telegram_chat_id@ == value_or(vars, "TELEGRAM_CHAT_ID"@, ""@)
    &&& config.buymeacoffee_url@ == value_or(vars, "BUYMEACOFFEE_URL"@, ""@)
    &&& config.disclaimer@ == value_or(vars, disclaimer_key, ""@)
}

/// Whether the environment names both credentials of the outbound channel.
pub open spec fn has_credentials(vars: Seq<(String, String)>) -> bool {
    value_or(vars, "TELEGRAM_API_KEY"@, ""@).len() > 0 && value_or(
        vars,
        "TELEGRAM_CHAT_ID"@,
        ""@,
    ).len() > 0
}

fn service_config(
    vars: &Vec<(String, String)>,
    interval_key: &str,
    default_secs: u64,
    disclaimer_key: &str,
) -> (r: ServiceConfig)
    ensures
        is_settings_of(r, vars@, interval_key@, default_secs, disclaimer_key@),
{
    ServiceConfig {
        enabled: true,
        check_interval: get_env_duration(vars, interval_key, default_secs),
        telegram_api_key: get_env(vars, "TELEGRAM_API_KEY", ""),
        telegram_chat_id: get_env(vars, "TELEGRAM_CHAT_ID", ""),
        buymeacoffee_url: get_env(vars, "BUYMEACOFFEE_URL", ""),
        disclaimer: get_env(vars, disclaimer_key, ""),
    }
}

impl Config {
    /// The settings that the environment `vars` gives, a list of variable
    /// names with their values; `None` where a credential of the outbound
    /// channel is missing or empty.
    ///
    /// Every source is enabled. The intervals default to 5, 15, 30 and 60
    /// minutes.
    pub fn load(vars: &Vec<(String, String)>) -> (r: Option<Config>)
        ensures
            r is Some <==> has_credentials(vars@),
            r matches Some(c) ==> {
                &&& is_settings_of(
                    c.earthquake,
                    vars@,
                    "EARTHQUAKE_INTERVAL_SECS"@,
                    300,
                    "EARTHQUAKE_DISCLAIMER"@,
                )
                &&& is_settings_of(
                    c.rocket_launch,
                    vars@,
                    "ROCKETLAUNCH_INTERVAL_SECS"@,
                    900,
                    "ROCKETLAUNCH_DISCLAIMER"@,
                )
                &&& is_settings_of(
                    c.space_weather,
                    vars@,
                    "SPACEWEATHER_INTERVAL_SECS"@,
                    1800,
                    "SPACEWEATHER_DISCLAIMER"@,
                )
                &&& is_settings_of(
                    c.vulnerability,
                    vars@,
                    "VULNERABILITY_INTERVAL_SECS"@,
                    3600,
                    "VULNERABILITY_DISCLAIMER"@,
                )
            },
    {
        let telegram_api_key = get_env(vars, "TELEGRAM_API_KEY", "");
        let telegram_chat_id = get_env(vars, "TELEGRAM_CHAT_ID", "");
        if telegram_api_key.as_str().is_empty() || telegram_chat_id.as_str().is_empty() {
            return None;
        }
        Some(
            Config {
                earthquake: service_config(
                    vars,
                    "EARTHQUAKE_INTERVAL_SECS",
                    5 * 60,
                    "EARTHQUAKE_DISCLAIMER",
                ),
                rocket_launch: service_config(
                    vars,
                    "ROCKETLAUNCH_INTERVAL_SECS",
                    15 * 60,
                    "ROCKETLAUNCH_DISCLAIMER",
                ),
                space_weather: service_config(
                    vars,
                    "SPACEWEATHER_INTERVAL_SECS",
                    30 * 60,
                    "SPACEWEATHER_DISCLAIMER",
                ),
                vulnerability: service_config(
                    vars,
                    "VULNERABILITY_INTERVAL_SECS",
                    60 * 60,
                    "VULNERABILITY_DISCLAIMER",
                ),
            },
        )
    }
}

} // verus!
