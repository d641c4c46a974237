//! Configuration for the web search client: API key, endpoint, request
//! timeout and an optional cap on search results.
use vstd::prelude::*;

verus! {

use crate::error::OllamaError;
use vstd::string::StrSliceExecFns;
use vstd::string::StringExecFns;

#[derive(Debug, Clone)]
pub struct Config {
    pub api_key: String,
    pub base_url: String,
    pub timeout_secs: u64,
    pub max_results: Option<usize>,
}

pub const DEFAULT_TIMEOUT_SECS: u64 = 30;

impl Config {
    pub fn new(api_key: String) -> (r: Config)
        ensures
            r.api_key == api_key,
            r.base_url@ == "https://ollama.com/api"@,
            r.timeout_secs == DEFAULT_TIMEOUT_SECS,
            r.max_results is None,
    {
        Config {
            api_key,
            base_url: String::from_str("https://ollama.com/api"),
            timeout_secs: DEFAULT_TIMEOUT_SECS,
            max_results: None,
        }
    }

    pub fn with_base_url(self, url: String) -> (r: Config)
        ensures
            r == (Config { base_url: url, ..self }),
    {
        Config { base_url: url, ..self }
    }

    pub fn with_timeout(self, timeout_secs: u64) -> (r: Config)
        ensures
            r == (Config { timeout_secs, ..self }),
    {
        Config { timeout_secs, ..self }
    }

    pub fn with_max_results(self, max_results: usize) -> (r: Config)
        ensures
            r == (Config { max_results: Some(max_results), ..self }),
    {
        Config { max_results: Some(max_results), ..self }
    }

    /// Builds the configuration from values found in the environment. A
    /// missing key is the only error; a base URL overrides the default; a
    /// timeout string is used only when it parses as a decimal number of
    /// seconds.
    pub fn resolve(
        api_key: Option<String>,
        base_url: Option<String>,
        timeout_str: Option<String>,
    ) -> (r: Result<Config, OllamaError>)
        ensures
            api_key is None <==> (r matches Err(e) && e is MissingApiKey),
            api_key matches Some(k) ==> r matches Ok(c) && {
                &&& c.api_key == k
                &&& c.base_url@ == (match base_url {
                    Some(u) => u@,
                    None => "https://ollama.com/api"@,
                })
                &&& c.timeout_secs == (match timeout_str {
                    Some(t) => (if parse_ok(t@) {
                        parsed_value(t@) as u64
                    } else {
                        DEFAULT_TIMEOUT_SECS
                    }),
                    None => DEFAULT_TIMEOUT_SECS,
                })
                &&& c.max_results is None
            },
    {
        let key = match api_key {
            Some(k) => k,
            None => {
                return Err(OllamaError::MissingApiKey);
            },
        };
        let mut config = Config::new(key);
        if let Some(u) = base_url {
            config = config.with_base_url(u);
        }
        if let Some(t) = timeout_str {
            if let Some(secs) = parse_u64(t.as_str()) {
                config = config.with_timeout(secs);
            }
        }
        Ok(config)
    }
}

/// True for an ASCII decimal digit.
pub open spec fn is_digit(c: char) -> bool {
    48 <= c as u32 <= 57
}

pub open spec fn digit_val(c: char) -> nat {
    (c as u32 - 48) as nat
}

/// The value of a sequence of decimal digits, most significant first.
pub open spec fn dec_value(s: Seq<char>) -> nat
    decreases s.len(),
{
    if s.len() == 0 {
        0
    } else {
        dec_value(s.drop_last()) * 10 + digit_val(s.last())
    }
}

/// The digit part of a decimal literal: everything after an optional leading
/// plus sign.
pub open spec fn digit_part(s: Seq<char>) -> Seq<char> {
    if s.len() > 0 && s[0] == '+' {
        s.skip(1)
    } else {
        s
    }
}

/// True when `s` is a decimal literal that `u64` can hold: an optional plus
/// sign, then at least one digit, with a value of at most `u64::MAX`.
pub open spec fn parse_ok(s: Seq<char>) -> bool {
    let d = digit_part(s);
    d.len() > 0 && (forall|i: int| 0 <= i < d.len() ==> is_digit(#[trigger] d[i])) && dec_value(d)
        <= u64::MAX
}

pub open spec fn parsed_value(s: Seq<char>) -> nat {
    dec_value(digit_part(s))
}

proof fn lemma_dec_value_take_monotonic(s: Seq<char>, i: int)
    requires
        0 <= i <= s.len(),
    ensures
        dec_value(s.take(i)) <= dec_value(s),
    decreases s.len() - i,
{
    if i < s.len() {
        assert(s.take(i + 1).drop_last() =~= s.take(i));
        assert(dec_value(s.take(i)) <= dec_value(s.take(i + 1)));
        lemma_dec_value_take_monotonic(s, i + 1);
    } else {
        assert(s.take(i) =~= s);
    }
}

/// Parses a decimal `u64`, accepting an optional leading plus sign, as the
/// standard library's string-to-integer conversion does. Returns `None` on an
/// empty string, a non-digit character, or overflow.
pub fn parse_u64(s: &str) -> (r: Option<u64>)
    ensures
        match r {
            Some(v) => parse_ok(s@) && v as nat == parsed_value(s@),
            None => !parse_ok(s@),
        },
{
    let n = s.unicode_len();
    let start: usize = if n > 0 && s.get_char(0) == '+' {
        1
    } else {
        0
    };
    proof {
        assert(digit_part(s@) =~= s@.skip(start as int));
    }
    if n == start {
        return None;
    }
    let ghost d = digit_part(s@);
    let mut value: u64 = 0;
    let mut i: usize = start;
    while i < n
        invariant
            start <= i <= n,
            n == s@.len(),
            d == digit_part(s@),
            d == s@.skip(start as int),
            d.len() == n - start,
            forall|j: int| 0 <= j < i - start ==> is_digit(#[trigger] d[j]),
            value as nat == dec_value(d.take(i - start)),
        decreases n - i,
    {
        let c = s.get_char(i);
        proof {
            assert(d[i - start] == s@[i as int]);
        }
        let code = c as u32;
        if code < 48 || code > 57 {
            proof {
                assert(!is_digit(digit_part(s@)[i - start]));
            }
            return None;
        }
        let digit = (code - 48) as u64;
        let shifted = match value.checked_mul(10) {
            Some(v) => v,
            None => {
                proof {
                    assert(d.take(i - start + 1).drop_last() =~= d.take(i - start));
                    assert(d.take(i - start + 1).last() == d[i - start]);
                    assert(dec_value(d.take(i - start + 1)) > u64::MAX);
                    lemma_dec_value_take_monotonic(d, i - start + 1);
                    assert(dec_value(digit_part(s@)) > u64::MAX);
                }
                return None;
            },
        };
        let next = match shifted.checked_add(digit) {
            Some(v) => v,
            None => {
                proof {
                    assert(d.take(i - start + 1).drop_last() =~= d.take(i - start));
                    assert(d.take(i - start + 1).last() == d[i - start]);
                    assert(dec_value(d.take(i - start + 1)) > u64::MAX);
                    lemma_dec_value_take_monotonic(d, i - start + 1);
                    assert(dec_value(digit_part(s@)) > u64::MAX);
                }
                return None;
            },
        };
        proof {
            assert(d.take(i - start + 1).drop_last() =~= d.take(i - start));
            assert(d.take(i - start + 1).last() == d[i - start]);
        }
        value = next;
        i = i + 1;
    }
    proof {
        assert(d.take(n - start) =~= d);
    }
    Some(value)
}

} // verus!
