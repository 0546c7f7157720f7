use vstd::prelude::*;

verus! {

/// A borrowed snowflake identifier: the decimal text the server sends.
#[derive(Debug, PartialEq, Eq)]
pub struct ID {
    pub text: String,
}

/// An owned snowflake identifier.
#[derive(Debug, PartialEq, Eq)]
pub struct OwnedID(pub ID);

impl ID {
    pub fn as_str(&self) -> (r: &str)
        ensures
            r@ == self.text@,
    {
        self.text.as_str()
    }

    /// A new owned identifier with the same text.
    pub fn to_owned_id(&self) -> (r: OwnedID)
        ensures
            r.0.text@ == self.text@,
    {
        OwnedID(ID { text: self.text.clone() })
    }
}

impl OwnedID {
    /// An identifier holding `text`.
    pub fn new(text: String) -> (r: OwnedID)
        ensures
            r.0.text == text,
    {
        OwnedID(ID { text })
    }

    pub fn as_str(&self) -> (r: &str)
        ensures
            r@ == self.0.text@,
    {
        self.0.text.as_str()
    }

    pub fn as_id(&self) -> (r: &ID)
        ensures
            *r == self.0,
    {
        &self.0
    }

    pub fn into_string(self) -> (r: String)
        ensures
            r == self.0.text,
    {
        self.0.text
    }

    pub fn into_boxed_str(self) -> (r: Box<str>)
        ensures
            r@ == self.0.text@,
    {
        boxed_text(self.0.text)
    }
}

/// Relies on `String::into_boxed_str`: the same characters, in a box.
#[verifier::external_body]
fn boxed_text(s: String) -> (r: Box<str>)
    ensures
        r@ == s@,
{
    s.into_boxed_str()
}

/// A user as the server describes it. Two users are the same user when
/// their identifiers are equal.
#[derive(Debug)]
pub struct User {
    pub id: OwnedID,
    pub username: String,
}

impl User {
    pub fn id(&self) -> (r: &ID)
        ensures
            *r == self.id.0,
    {
        &self.id.0
    }

    pub fn username(&self) -> (r: &str)
        ensures
            r@ == self.username@,
    {
        self.username.as_str()
    }
}

impl PartialEq for User {
    fn eq(&self, other: &User) -> (r: bool)
        ensures
            r == (self.id.0.text@ == other.id.0.text@),
    {
        self.id.0.text == other.id.0.text
    }
}

impl vstd::std_specs::cmp::PartialEqSpecImpl for User {
    open spec fn obeys_eq_spec() -> bool {
        true
    }

    open spec fn eq_spec(&self, other: &User) -> bool {
        self.id.0.text@ == other.id.0.text@
    }
}

/// A message received from the server. An empty content is held as `None`.
#[derive(Debug)]
pub struct Message {
    pub id: OwnedID,
    pub channel_id: OwnedID,
    pub author: User,
    pub content: Option<String>,
    pub tts: bool,
}

impl Message {
    pub fn id(&self) -> (r: &ID)
        ensures
            *r == self.id.0,
    {
        &self.id.0
    }

    pub fn channel_id(&self) -> (r: &ID)
        ensures
            *r == self.channel_id.0,
    {
        &self.channel_id.0
    }

    pub fn author(&self) -> (r: &User)
        ensures
            *r == self.author,
    {
        &self.author
    }

    pub fn content(&self) -> (r: Option<&str>)
        ensures
            match r {
                Some(s) => self.content is Some && s@ == self.content->Some_0@,
                None => self.content is None,
            },
    {
        match &self.content {
            Some(s) => Some(s.as_str()),
            None => None,
        }
    }

    pub fn is_tts(&self) -> (r: bool)
        ensures
            r == self.tts,
    {
        self.tts
    }
}

/// A message to be posted to a channel.
#[derive(Debug, PartialEq, Eq)]
pub struct SendedMessage {
    pub content: String,
    pub tts: bool,
}

impl SendedMessage {
    /// A message with the given text, not read aloud.
    pub fn plain(text: &str) -> (r: SendedMessage)
        ensures
            r.content@ == text@,
            !r.tts,
    {
        SendedMessage { content: String::from_str(text), tts: false }
    }

    /// The same message, with text-to-speech set to `tts`.
    pub fn tts(self, tts: bool) -> (r: SendedMessage)
        ensures
            r.content == self.content,
            r.tts == tts,
    {
        SendedMessage { content: self.content, tts }
    }
}

/// The secret a bot authenticates with.
pub struct Token {
    pub text: String,
}

impl Token {
    /// A token given directly in the program text.
    pub fn insecure(token: &str) -> (r: Token)
        ensures
            r.text@ == token@,
    {
        Token { text: String::from_str(token) }
    }

    pub fn into_inner(self) -> (r: String)
        ensures
            r == self.text,
    {
        self.text
    }
}

/// The set of event categories a bot asks the server for, as a bit mask.
#[derive(Debug, Clone, Copy, PartialEq, Eq, Hash, Structural)]
pub struct Intents {
    pub bits: u32,
}

/// Every bit that names a known intent.
pub const ALL_INTENT_BITS: u32 = 0x31_ffff;

impl Intents {
    pub const GUILDS: u32 = 1;
    pub const GUILD_MEMBERS: u32 = 2;
    pub const GUILD_MODERATION: u32 = 4;
    pub const GUILD_EMOJIS_AND_STICKERS: u32 = 8;
    pub const GUILD_INTEGRATIONS: u32 = 0x10;
    pub const GUILD_WEBHOOKS: u32 = 0x20;
    pub const GUILD_INVITES: u32 = 0x40;
    pub const GUILD_VOICE_STATES: u32 = 0x80;
    pub const GUILD_PRESENCES: u32 = 0x100;
    pub const GUILD_MESSAGES: u32 = 0x200;
    pub const GUILD_MESSAGE_REACTIONS: u32 = 0x400;
    pub const GUILD_MESSAGE_TYPING: u32 = 0x800;
    pub const DIRECT_MESSAGES: u32 = 0x1000;
    pub const DIRECT_MESSAGE_REACTIONS: u32 = 0x2000;
    pub const DIRECT_MESSAGE_TYPING: u32 = 0x4000;
    pub const MESSAGE_CONTENT: u32 = 0x8000;
    pub const GUILD_SCHEDULED_EVENTS: u32 = 0x1_0000;
    pub const AUTO_MODERATION_CONFIGURATION: u32 = 0x10_0000;
    pub const AUTO_MODERATION_EXECUTION: u32 = 0x20_0000;

    /// Every known intent.
    pub fn all() -> (r: Intents)
        ensures
            r.bits == ALL_INTENT_BITS,
    {
        Intents { bits: ALL_INTENT_BITS }
    }

    /// No intent.
    pub fn empty() -> (r: Intents)
        ensures
            r.bits == 0,
    {
        Intents { bits: 0 }
    }

    /// The intents named by `bits`, with unknown bits dropped.
    pub fn from_bits_truncate(bits: u32) -> (r: Intents)
        ensures
            r.bits == bits & ALL_INTENT_BITS,
    {
        Intents { bits: bits & ALL_INTENT_BITS }
    }

    /// The intents in either set.
    pub fn union(self, other: Intents) -> (r: Intents)
        ensures
            r.bits == self.bits | other.bits,
    {
        Intents { bits: self.bits | other.bits }
    }

    /// Whether every intent of `other` is in this set.
    pub fn contains(&self, other: Intents) -> (r: bool)
        ensures
            r == (self.bits & other.bits == other.bits),
    {
        self.bits & other.bits == other.bits
    }

    pub fn as_u32(&self) -> (r: u32)
        ensures
            r == self.bits,
    {
        self.bits
    }

    pub fn as_u64(&self) -> (r: u64)
        ensures
            r == self.bits as u64,
    {
        self.bits as u64
    }
}

impl core::ops::BitOr for Intents {
    type Output = Intents;

    /// The intents in either set.
    fn bitor(self, other: Intents) -> (r: Intents)
        ensures
            r.bits == self.bits | other.bits,
    {
        self.union(other)
    }
}

impl vstd::std_specs::ops::BitOrSpecImpl for Intents {
    open spec fn obeys_bitor_spec() -> bool {
        true
    }

    open spec fn bitor_req(self, other: Intents) -> bool {
        true
    }

    open spec fn bitor_spec(self, other: Intents) -> Intents {
        Intents { bits: self.bits | other.bits }
    }
}

impl Default for Intents {
    /// Every known intent.
    fn default() -> (r: Intents)
        ensures
            r.bits == ALL_INTENT_BITS,
    {
        Intents::all()
    }
}

} // verus!
