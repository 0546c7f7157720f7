use vstd::prelude::*;

use crate::gateway::string_or_null;
use crate::json::{entry, Json};

verus! {

/// The kind of value a command option takes.
#[derive(Debug, Clone, Copy, PartialEq, Eq, Structural)]
pub enum CommandOptionsType {
    String,
    Integer,
    Boolean,
    User,
    Channel,
    Role,
    Mentionable,
    Number,
    Attachment,
}

impl CommandOptionsType {
    /// The wire code of the kind.
    pub open spec fn code(self) -> u8 {
        match self {
            CommandOptionsType::String => 3,
            CommandOptionsType::Integer => 4,
            CommandOptionsType::Boolean => 5,
            CommandOptionsType::User => 6,
            CommandOptionsType::Channel => 7,
            CommandOptionsType::Role => 8,
            CommandOptionsType::Mentionable => 9,
            CommandOptionsType::Number => 10,
            CommandOptionsType::Attachment => 11,
        }
    }

    pub fn as_u8(&self) -> (r: u8)
        ensures
            r == self.code(),
    {
        match self {
            CommandOptionsType::String => 3,
            CommandOptionsType::Integer => 4,
            CommandOptionsType::Boolean => 5,
            CommandOptionsType::User => 6,
            CommandOptionsType::Channel => 7,
            CommandOptionsType::Role => 8,
            CommandOptionsType::Mentionable => 9,
            CommandOptionsType::Number => 10,
            CommandOptionsType::Attachment => 11,
        }
    }
}

/// The kind of an application command.
#[derive(Debug, Clone, Copy, PartialEq, Eq, Structural)]
pub enum CommandType {
    SlashCommand,
    UserCommand,
    MessageCommand,
}

impl CommandType {
    /// The wire code of the kind.
    pub open spec fn code(self) -> u8 {
        match self {
            CommandType::SlashCommand => 1,
            CommandType::UserCommand => 2,
            CommandType::MessageCommand => 3,
        }
    }

    pub fn as_u8(&self) -> (r: u8)
        ensures
            r == self.code(),
    {
        match self {
            CommandType::SlashCommand => 1,
            CommandType::UserCommand => 2,
            CommandType::MessageCommand => 3,
        }
    }
}

/// Translations of a text, one per supported locale.
#[derive(Debug, Clone)]
pub struct LocalizationMap {
    pub id: Option<String>,
    pub da: Option<String>,
    pub de: Option<String>,
    pub en_gb: Option<String>,
    pub en_us: Option<String>,
    pub es_es: Option<String>,
    pub fr: Option<String>,
    pub hr: Option<String>,
    pub it: Option<String>,
    pub lt: Option<String>,
    pub hu: Option<String>,
    pub nl: Option<String>,
    pub no: Option<String>,
    pub pl: Option<String>,
    pub pt_br: Option<String>,
    pub ro: Option<String>,
    pub fi: Option<String>,
    pub sv_se: Option<String>,
    pub vi: Option<String>,
    pub tr: Option<String>,
    pub cs: Option<String>,
    pub el: Option<String>,
    pub bg: Option<String>,
    pub ru: Option<String>,
    pub uk: Option<String>,
    pub hi: Option<String>,
    pub th: Option<String>,
    pub zh_cn: Option<String>,
    pub ja: Option<String>,
    pub zh_tw: Option<String>,
    pub ko: Option<String>,
}

/// No locale has a translation.
pub open spec fn is_blank(m: LocalizationMap) -> bool {
    &&& m.id is None
    &&& m.da is None
    &&& m.de is None
    &&& m.en_gb is None
    &&& m.en_us is None
    &&& m.es_es is None
    &&& m.fr is None
    &&& m.hr is None
    &&& m.it is None
    &&& m.lt is None
    &&& m.hu is None
    &&& m.nl is None
    &&& m.no is None
    &&& m.pl is None
    &&& m.pt_br is None
    &&& m.ro is None
    &&& m.fi is None
    &&& m.sv_se is None
    &&& m.vi is None
    &&& m.tr is None
    &&& m.cs is None
    &&& m.el is None
    &&& m.bg is None
    &&& m.ru is None
    &&& m.uk is None
    &&& m.hi is None
    &&& m.th is None
    &&& m.zh_cn is None
    &&& m.ja is None
    &&& m.zh_tw is None
    &&& m.ko is None
}

impl Default for LocalizationMap {
    /// No translation at all.
    fn default() -> (r: LocalizationMap)
        ensures
            is_blank(r),
    {
        LocalizationMap {
            id: None,
            da: None,
            de: None,
            en_gb: None,
            en_us: None,
            es_es: None,
            fr: None,
            hr: None,
            it: None,
            lt: None,
            hu: None,
            nl: None,
            no: None,
            pl: None,
            pt_br: None,
            ro: None,
            fi: None,
            sv_se: None,
            vi: None,
            tr: None,
            cs: None,
            el: None,
            bg: None,
            ru: None,
            uk: None,
            hi: None,
            th: None,
            zh_cn: None,
            ja: None,
            zh_tw: None,
            ko: None,
        }
    }
}

/// `j` is the wire form of a translation map: one member per locale, in
/// the order of the fields, `null` where there is no translation.
pub open spec fn localization_map_shape(j: Json, m: LocalizationMap) -> bool {
    match j {
        Json::Object(f) => {
            &&& f@.len() == 31
            &&& f@[0].0@ == "id"@ && f@[0].1 == string_or_null(m.id)
            &&& f@[1].0@ == "da"@ && f@[1].1 == string_or_null(m.da)
            &&& f@[2].0@ == "de"@ && f@[2].1 == string_or_null(m.de)
            &&& f@[3].0@ == "en-GB"@ && f@[3].1 == string_or_null(m.en_gb)
            &&& f@[4].0@ == "en-US"@ && f@[4].1 == string_or_null(m.en_us)
            &&& f@[5].0@ == "es-ES"@ && f@[5].1 == string_or_null(m.es_es)
            &&& f@[6].0@ == "fr"@ && f@[6].1 == string_or_null(m.fr)
            &&& f@[7].0@ == "hr"@ && f@[7].1 == string_or_null(m.hr)
            &&& f@[8].0@ == "it"@ && f@[8].1 == string_or_null(m.it)
            &&& f@[9].0@ == "lt"@ && f@[9].1 == string_or_null(m.lt)
            &&& f@[10].0@ == "hu"@ && f@[10].1 == string_or_null(m.hu)
            &&& f@[11].0@ == "nl"@ && f@[11].1 == string_or_null(m.nl)
            &&& f@[12].0@ == "no"@ && f@[12].1 == string_or_null(m.no)
            &&& f@[13].0@ == "pl"@ && f@[13].1 == string_or_null(m.pl)
            &&& f@[14].0@ == "pt-BR"@ && f@[14].1 == string_or_null(m.pt_br)
            &&& f@[15].0@ == "ro"@ && f@[15].1 == string_or_null(m.ro)
            &&& f@[16].0@ == "fi"@ && f@[16].1 == string_or_null(m.fi)
            &&& f@[17].0@ == "sv-SE"@ && f@[17].1 == string_or_null(m.sv_se)
            &&& f@[18].0@ == "vi"@ && f@[18].1 == string_or_null(m.vi)
            &&& f@[19].0@ == "tr"@ && f@[19].1 == string_or_null(m.tr)
            &&& f@[20].0@ == "cs"@ && f@[20].1 == string_or_null(m.cs)
            &&& f@[21].0@ == "el"@ && f@[21].1 == string_or_null(m.el)
            &&& f@[22].0@ == "bg"@ && f@[22].1 == string_or_null(m.bg)
            &&& f@[23].0@ == "ru"@ && f@[23].1 == string_or_null(m.ru)
            &&& f@[24].0@ == "uk"@ && f@[24].1 == string_or_null(m.uk)
            &&& f@[25].0@ == "hi"@ && f@[25].1 == string_or_null(m.hi)
            &&& f@[26].0@ == "th"@ && f@[26].1 == string_or_null(m.th)
            &&& f@[27].0@ == "zh-CN"@ && f@[27].1 == string_or_null(m.zh_cn)
            &&& f@[28].0@ == "ja"@ && f@[28].1 == string_or_null(m.ja)
            &&& f@[29].0@ == "zh-TW"@ && f@[29].1 == string_or_null(m.zh_tw)
            &&& f@[30].0@ == "ko"@ && f@[30].1 == string_or_null(m.ko)
        },
        _ => false,
    }
}

/// A copy of an optional text as JSON.
fn text_or_null(t: &Option<String>) -> (r: Json)
    ensures
        r == string_or_null(*t),
{
    match t {
        Some(s) => Json::Str(s.clone()),
        None => Json::Null,
    }
}

impl LocalizationMap {
    /// The wire form of the map.
    pub fn to_json(&self) -> (r: Json)
        ensures
            localization_map_shape(r, *self),
    {
        let mut f: Vec<(String, Json)> = Vec::new();
        f.push(entry("id", text_or_null(&self.id)));
        f.push(entry("da", text_or_null(&self.da)));
        f.push(entry("de", text_or_null(&self.de)));
        f.push(entry("en-GB", text_or_null(&self.en_gb)));
        f.push(entry("en-US", text_or_null(&self.en_us)));
        f.push(entry("es-ES", text_or_null(&self.es_es)));
        f.push(entry("fr", text_or_null(&self.fr)));
        f.push(entry("hr", text_or_null(&self.hr)));
        f.push(entry("it", text_or_null(&self.it)));
        f.push(entry("lt", text_or_null(&self.lt)));
        f.push(entry("hu", text_or_null(&self.hu)));
        f.push(entry("nl", text_or_null(&self.nl)));
        f.push(entry("no", text_or_null(&self.no)));
        f.push(entry("pl", text_or_null(&self.pl)));
        f.push(entry("pt-BR", text_or_null(&self.pt_br)));
        f.push(entry("ro", text_or_null(&self.ro)));
        f.push(entry("fi", text_or_null(&self.fi)));
        f.push(entry("sv-SE", text_or_null(&self.sv_se)));
        f.push(entry("vi", text_or_null(&self.vi)));
        f.push(entry("tr", text_or_null(&self.tr)));
        f.push(entry("cs", text_or_null(&self.cs)));
        f.push(entry("el", text_or_null(&self.el)));
        f.push(entry("bg", text_or_null(&self.bg)));
        f.push(entry("ru", text_or_null(&self.ru)));
        f.push(entry("uk", text_or_null(&self.uk)));
        f.push(entry("hi", text_or_null(&self.hi)));
        f.push(entry("th", text_or_null(&self.th)));
        f.push(entry("zh-CN", text_or_null(&self.zh_cn)));
        f.push(entry("ja", text_or_null(&self.ja)));
        f.push(entry("zh-TW", text_or_null(&self.zh_tw)));
        f.push(entry("ko", text_or_null(&self.ko)));
        Json::Object(f)
    }
}

/// A text with its translations.
#[derive(Debug, Clone)]
pub struct Localization {
    pub original: String,
    pub localizations: LocalizationMap,
}

impl Localization {
    /// A text without translations.
    pub fn plain(text: &str) -> (r: Localization)
        ensures
            r.original@ == text@,
            is_blank(r.localizations),
    {
        Localization { original: String::from_str(text), localizations: LocalizationMap::default() }
    }

    /// The wire form of the text under the member `name`, with its
    /// translations under `name` followed by `_localizations`.
    pub fn localization_with(&self, name: &str) -> (r: Json)
        ensures
            r is Object,
            r->Object_0@.len() == 2,
            r->Object_0@[0].0@ == name@,
            r->Object_0@[0].1 == Json::Str(self.original),
            r->Object_0@[1].0@ == name@ + "_localizations"@,
            localization_map_shape(r->Object_0@[1].1, self.localizations),
    {
        let mut key = String::from_str(name);
        key.append("_localizations");
        let mut f: Vec<(String, Json)> = Vec::new();
        f.push((String::from_str(name), Json::Str(self.original.clone())));
        f.push((key, self.localizations.to_json()));
        Json::Object(f)
    }

    /// The same text with these translations.
    pub fn map(self, map: LocalizationMap) -> (r: Localization)
        ensures
            r.original == self.original,
            r.localizations == map,
    {
        Localization { original: self.original, localizations: map }
    }
}

/// The name, description and age restriction of a command.
#[derive(Debug)]
pub struct CommandMetadata {
    pub name: Localization,
    pub description: Localization,
    pub nsfw: bool,
}

impl CommandMetadata {
    /// A command that is not age-restricted.
    pub fn new(name: Localization, description: Localization) -> (r: CommandMetadata)
        ensures
            r.name == name,
            r.description == description,
            !r.nsfw,
    {
        CommandMetadata { name, description, nsfw: false }
    }
}

/// The description of one option of a command.
#[derive(Debug)]
pub struct CommandOptionMetadata {
    pub name: Localization,
    pub description: Localization,
    pub option_type: CommandOptionsType,
    pub required: bool,
}

/// A command as it is registered with the server.
#[derive(Debug)]
pub struct RawCommand<'a> {
    pub command_type: CommandType,
    pub name: &'a Localization,
    pub description: &'a Localization,
    pub nsfw: bool,
}

impl<'a> RawCommand<'a> {
    /// A slash command with this name and description.
    pub fn slash_command(name: &'a Localization, description: &'a Localization, nsfw: bool) -> (r:
        RawCommand<'a>)
        ensures
            r.command_type == CommandType::SlashCommand,
            *r.name == *name,
            *r.description == *description,
            r.nsfw == nsfw,
    {
        RawCommand { command_type: CommandType::SlashCommand, name, description, nsfw }
    }
}

impl<'a> RawCommand<'a> {
    /// The registration payload of the command.
    pub fn to_json(&self) -> (r: Json)
        ensures
            r is Object,
            r->Object_0@.len() == 4,
            r->Object_0@[0].0@ == "type"@,
            r->Object_0@[0].1 == Json::UInt(self.command_type.code() as u64),
            r->Object_0@[1].0@ == "name"@,
            r->Object_0@[1].1 is Object,
            r->Object_0@[1].1->Object_0@[0].1 == Json::Str(self.name.original),
            r->Object_0@[2].0@ == "description"@,
            r->Object_0@[2].1 is Object,
            r->Object_0@[2].1->Object_0@[0].1 == Json::Str(self.description.original),
            r->Object_0@[3].0@ == "nsfw"@,
            r->Object_0@[3].1 == Json::Bool(self.nsfw),
    {
        let mut f: Vec<(String, Json)> = Vec::new();
        f.push(entry("type", Json::UInt(self.command_type.as_u8() as u64)));
        f.push(entry("name", self.name.localization_with("name")));
        f.push(entry("description", self.description.localization_with("description")));
        f.push(entry("nsfw", Json::Bool(self.nsfw)));
        Json::Object(f)
    }
}

/// What a command handler is given besides the bot.
#[derive(Debug, Clone, Copy, PartialEq, Eq, Structural)]
pub struct Context;

/// An option value that could not be read as the type a handler asked for.
#[derive(Debug, Clone, PartialEq, Eq)]
pub struct ConvertError {
    pub target: String,
}

impl ConvertError {
    /// An error for the named target type.
    pub fn new(target: &str) -> (r: ConvertError)
        ensures
            r.target@ == target@,
    {
        ConvertError { target: String::from_str(target) }
    }

    /// The error as text.
    pub fn message(&self) -> (r: String)
        ensures
            r@ == "ConvertError: Cannot convert to "@ + self.target@,
    {
        let mut r = String::from_str("ConvertError: Cannot convert to ");
        r.append(self.target.as_str());
        r
    }
}

/// Why a command did not run to completion: its options could not be
/// read, or the handler itself failed.
#[derive(Debug)]
pub enum CommandError<E> {
    ParseError(String),
    Internal(E),
}

/// The text of the error for a command called with the wrong number of
/// options.
pub open spec fn arity_message() -> Seq<char> {
    "There should be no arguemnt in this command"@
}

/// Checks that a command got as many options as its handler takes.
pub fn check_arity<E>(given: usize, expected: usize) -> (r: Result<(), CommandError<E>>)
    ensures
        given == expected <==> r is Ok,
        r matches Err(CommandError::ParseError(m)) ==> m@ == arity_message(),
        !(r matches Err(CommandError::Internal(_))),
{
    if given == expected {
        Ok(())
    } else {
        Err(CommandError::ParseError(String::from_str("There should be no arguemnt in this command")))
    }
}

/// A type a command option can be read as: the option kind it is
/// registered with, and whether the option must be given.
pub trait FromCommandOption {
    fn option_type() -> CommandOptionsType;

    fn required() -> bool;
}

impl FromCommandOption for bool {
    fn option_type() -> CommandOptionsType {
        CommandOptionsType::Boolean
    }

    fn required() -> bool {
        true
    }
}

impl FromCommandOption for String {
    fn option_type() -> CommandOptionsType {
        CommandOptionsType::String
    }

    fn required() -> bool {
        true
    }
}

impl FromCommandOption for i64 {
    fn option_type() -> CommandOptionsType {
        CommandOptionsType::Integer
    }

    fn required() -> bool {
        true
    }
}

} // verus!
