use vstd::prelude::*;

use crate::model::{Intents, ALL_INTENT_BITS};

verus! {

/// The decimal digit for `d`, which is below ten.
pub open spec fn digit(d: int) -> char {
    if d == 0 {
        '0'
    } else if d == 1 {
        '1'
    } else if d == 2 {
        '2'
    } else if d == 3 {
        '3'
    } else if d == 4 {
        '4'
    } else if d == 5 {
        '5'
    } else if d == 6 {
        '6'
    } else if d == 7 {
        '7'
    } else if d == 8 {
        '8'
    } else {
        '9'
    }
}

/// The decimal text of `n`, without leading zeros.
pub open spec fn decimal(n: nat) -> Seq<char>
    decreases n,
{
    if n < 10 {
        seq![digit(n as int)]
    } else {
        decimal(n / 10).push(digit((n % 10) as int))
    }
}

/// The text of one digit.
fn digit_text(d: u64) -> (r: &'static str)
    requires
        d < 10,
    ensures
        r@ == seq![digit(d as int)],
{
    match d {
        0 => {
            proof {
                reveal_strlit("0");
            }
            "0"
        },
        1 => {
            proof {
                reveal_strlit("1");
            }
            "1"
        },
        2 => {
            proof {
                reveal_strlit("2");
            }
            "2"
        },
        3 => {
            proof {
                reveal_strlit("3");
            }
            "3"
        },
        4 => {
            proof {
                reveal_strlit("4");
            }
            "4"
        },
        5 => {
            proof {
                reveal_strlit("5");
            }
            "5"
        },
        6 => {
            proof {
                reveal_strlit("6");
            }
            "6"
        },
        7 => {
            proof {
                reveal_strlit("7");
            }
            "7"
        },
        8 => {
            proof {
                reveal_strlit("8");
            }
            "8"
        },
        _ => {
            proof {
                reveal_strlit("9");
            }
            "9"
        },
    }
}

/// Appends the decimal text of `n`.
pub fn append_decimal(s: &mut String, n: u64)
    ensures
        final(s)@ == old(s)@ + decimal(n as nat),
    decreases n,
{
    if n >= 10 {
        append_decimal(s, n / 10);
    }
    s.append(digit_text(n % 10));
    proof {
        if n < 10 {
            assert(n % 10 == n);
        }
        assert(decimal(n as nat) == if n < 10 {
            seq![digit(n as int)]
        } else {
            decimal((n / 10) as nat).push(digit((n % 10) as int))
        });
    }
}

/// How a bot connects: the intents it asks for and the API version.
#[derive(Debug, Clone, Copy, PartialEq, Eq, Structural)]
pub struct BotTemplate {
    pub intents: Intents,
    pub api_version: u8,
}

/// The API version a template starts with.
pub const DEFAULT_API_VERSION: u8 = 10;

impl Default for BotTemplate {
    /// Every intent, on the default API version.
    fn default() -> (r: BotTemplate)
        ensures
            r.intents.bits == ALL_INTENT_BITS,
            r.api_version == DEFAULT_API_VERSION,
    {
        BotTemplate { intents: Intents::all(), api_version: DEFAULT_API_VERSION }
    }
}

impl BotTemplate {
    /// The same template asking for `intents`.
    pub fn intents(self, intents: Intents) -> (r: BotTemplate)
        ensures
            r.intents == intents,
            r.api_version == self.api_version,
    {
        BotTemplate { intents, api_version: self.api_version }
    }

    /// The same template on API version `api_version`.
    pub fn api_version(self, api_version: u8) -> (r: BotTemplate)
        ensures
            r.intents == self.intents,
            r.api_version == api_version,
    {
        BotTemplate { intents: self.intents, api_version }
    }

    /// The address to open the gateway socket at, from the base address
    /// the REST discovery call returned.
    pub fn gateway_url(&self, base: &str) -> (r: String)
        ensures
            r@ == base@ + "/?v="@ + decimal(self.api_version as nat) + "&encoding=json"@,
    {
        let mut r = String::from_str(base);
        r.append("/?v=");
        append_decimal(&mut r, self.api_version as u64);
        r.append("&encoding=json");
        r
    }
}

/// The address of a REST route on an API version.
pub fn rest_url(api_version: u8, route: &str) -> (r: String)
    ensures
        r@ == "https://discord.com/api/v"@ + decimal(api_version as nat) + "/"@ + route@,
{
    let mut r = String::from_str("https://discord.com/api/v");
    append_decimal(&mut r, api_version as u64);
    r.append("/");
    r.append(route);
    r
}

/// The REST route of a channel.
pub fn channel_route(channel_id: &str) -> (r: String)
    ensures
        r@ == "/channels/"@ + channel_id@,
{
    let mut r = String::from_str("/channels/");
    r.append(channel_id);
    r
}

/// The REST route that posts a message to a channel.
pub fn channel_messages_route(channel_id: &str) -> (r: String)
    ensures
        r@ == "/channels/"@ + channel_id@ + "/messages"@,
{
    let mut r = channel_route(channel_id);
    r.append("/messages");
    r
}

/// The value of the authorization header for a bot token.
pub fn authorization(token: &str) -> (r: String)
    ensures
        r@ == "Bot "@ + token@,
{
    let mut r = String::from_str("Bot ");
    r.append(token);
    r
}

/// The behaviour a bot gets when it defines no handler of its own.
#[derive(Debug, Clone, Copy, PartialEq, Eq, PartialOrd, Ord, Hash, Structural)]
pub struct BlanketImpl;

} // verus!
