use mili::command::{
    check_arity, CommandError, CommandMetadata, CommandOptionsType, CommandType, ConvertError,
    Localization, RawCommand,
};
use mili::command::LocalizationMap;
use mili::heartbeat::Heartbeat;
use mili::json::Json;
use mili::model::{Intents, OwnedID, SendedMessage, Token};
use mili::template::{authorization, channel_messages_route, channel_route, rest_url, BotTemplate};
use mili::transport::swap_halves;

#[test]
fn heartbeat_warms_up_then_waits_interval() {
    let mut hb = Heartbeat::new(41250);
    assert_eq!(hb.next_wait(), 0);
    assert_eq!(hb.next_wait(), 41250);
    assert_eq!(hb.next_wait(), 41250);
}

#[test]
fn failed_replace_keeps_both_halves() {
    let mut sender = String::from("old-send");
    let mut receiver = 1u32;
    let r = swap_halves(&mut sender, &mut receiver, Err::<(String, u32), &str>("refused"));
    assert_eq!(r, Err("refused"));
    assert_eq!(sender, "old-send");
    assert_eq!(receiver, 1);
    let r = swap_halves(&mut sender, &mut receiver, Ok::<(String, u32), &str>((String::from("new"), 2)));
    assert_eq!(r, Ok(()));
    assert_eq!(sender, "new");
    assert_eq!(receiver, 2);
}

#[test]
fn template_defaults_and_builders() {
    let t = BotTemplate::default();
    assert_eq!(t.api_version, 10);
    assert_eq!(t.intents, Intents::all());
    let t = t.api_version(9).intents(Intents::from_bits_truncate(Intents::GUILDS));
    assert_eq!(t.api_version, 9);
    assert_eq!(t.intents.as_u32(), 1);
}

#[test]
fn gateway_and_rest_urls() {
    let t = BotTemplate::default();
    assert_eq!(t.gateway_url("wss://gateway.discord.gg"), "wss://gateway.discord.gg/?v=10&encoding=json");
    let t = t.api_version(255);
    assert_eq!(t.gateway_url("wss://g"), "wss://g/?v=255&encoding=json");
    let t = t.api_version(0);
    assert_eq!(t.gateway_url("wss://g"), "wss://g/?v=0&encoding=json");
    assert_eq!(rest_url(10, "/users/@me"), "https://discord.com/api/v10//users/@me");
    assert_eq!(authorization("abc"), "Bot abc");
    assert_eq!(channel_route("42"), "/channels/42");
    assert_eq!(channel_messages_route("42"), "/channels/42/messages");
}

#[test]
fn intents_bits() {
    assert_eq!(Intents::all().as_u32(), 0x31ffff);
    assert_eq!(Intents::all().as_u64(), 0x31ffff);
    assert_eq!(Intents::default(), Intents::all());
    let i = Intents::from_bits_truncate(
        Intents::GUILDS | Intents::MESSAGE_CONTENT | Intents::DIRECT_MESSAGES | Intents::GUILD_MESSAGES,
    );
    assert_eq!(i.as_u32(), 0x9201);
    assert_eq!(Intents::from_bits_truncate(0x40_0000).as_u32(), 0);
    assert!(Intents::all().contains(i));
    assert!(!i.contains(Intents::all()));
    assert_eq!(Intents::empty().union(i), i);
    let guilds = Intents::from_bits_truncate(Intents::GUILDS);
    let content = Intents::from_bits_truncate(Intents::MESSAGE_CONTENT);
    assert_eq!((guilds | content).as_u64(), 0x8001);
}

#[test]
fn command_codes() {
    assert_eq!(CommandOptionsType::String.as_u8(), 3);
    assert_eq!(CommandOptionsType::Attachment.as_u8(), 11);
    assert_eq!(CommandType::SlashCommand.as_u8(), 1);
    assert_eq!(CommandType::MessageCommand.as_u8(), 3);
}

#[test]
fn command_arity_and_errors() {
    assert!(check_arity::<()>(1, 1).is_ok());
    match check_arity::<()>(2, 0) {
        Err(CommandError::ParseError(m)) => assert_eq!(m, "There should be no arguemnt in this command"),
        _ => panic!("expected a parse error"),
    }
    assert_eq!(ConvertError::new("boolean").message(), "ConvertError: Cannot convert to boolean");
}

#[test]
fn command_metadata_and_raw_command() {
    let meta = CommandMetadata::new(Localization::plain("ping"), Localization::plain("replies"));
    assert!(!meta.nsfw);
    assert_eq!(meta.name.original, "ping");
    let raw = RawCommand::slash_command(&meta.name, &meta.description, true);
    assert_eq!(raw.command_type, CommandType::SlashCommand);
    assert_eq!(raw.description.original, "replies");
    assert!(raw.nsfw);
}

#[test]
fn messages_tokens_and_ids() {
    let m = SendedMessage::plain("hello!").tts(true);
    assert_eq!(m.content, "hello!");
    assert!(m.tts);
    assert!(!SendedMessage::plain("x").tts);
    let token = Token::insecure("MTE5NjAyMDM0MzQ4NDE5MDc5MA.GM8za1.XpcGIbmmvwzCNfl4JiVdEPlBLSE-YciTSDvb8A");
    assert_eq!(token.into_inner(), "MTE5NjAyMDM0MzQ4NDE5MDc5MA.GM8za1.XpcGIbmmvwzCNfl4JiVdEPlBLSE-YciTSDvb8A");
    let id = OwnedID::new(String::from("123"));
    assert_eq!(id.as_str(), "123");
    assert_eq!(id.as_id().as_str(), "123");
    assert_eq!(id.as_id().to_owned_id(), id);
    assert_eq!(id.into_string(), "123");
    assert_eq!(&*OwnedID::new(String::from("987")).into_boxed_str(), "987");
}

#[test]
fn localization_and_command_payloads() {
    let mut map = LocalizationMap::default();
    map.en_gb = Some(String::from("colour"));
    let text = Localization::plain("color").map(map);
    let j = text.localization_with("name");
    assert_eq!(j.get("name"), Some(&Json::Str(String::from("color"))));
    let locs = j.get("name_localizations").expect("translations");
    assert_eq!(locs.get("en-GB"), Some(&Json::Str(String::from("colour"))));
    assert_eq!(locs.get("fr"), Some(&Json::Null));
    let desc = Localization::plain("picks");
    let raw = RawCommand::slash_command(&text, &desc, false);
    let payload = raw.to_json();
    assert_eq!(payload.get("type"), Some(&Json::UInt(1)));
    assert_eq!(payload.get("nsfw"), Some(&Json::Bool(false)));
    let d = payload.get("description").expect("description");
    assert_eq!(d.get("description"), Some(&Json::Str(String::from("picks"))));
}
