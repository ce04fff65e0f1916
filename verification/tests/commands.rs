use zeroframe::command::Param;
use zeroframe::responses::{RawReply, ReplyValue};
use zeroframe::{multiuser, ui_server, wrapper, crypt_message, optional_manager, merger_site};
use zeroframe::{bigfile, chart, cors, mute, newsfeed};
use zeroframe::{NotificationType, PromptType, ZeroFrameError};

fn is_text(p: &Param, s: &str) -> bool {
    matches!(p, Param::Text(t) if t == s)
}

#[test]
fn user_login_form_command() {
    let c = multiuser::user_login_form();
    assert_eq!(c.name, "userLoginForm");
    assert!(c.params.is_empty());
}

#[test]
fn user_show_master_seed_command() {
    let c = multiuser::user_show_master_seed();
    assert_eq!(c.name, "userShowMasterSeed");
    assert!(c.params.is_empty());
}

#[test]
fn cert_add_command() {
    let c = ui_server::cert_add(
        "domain.bit".to_string(),
        "web".to_string(),
        "alice".to_string(),
        "cert".to_string(),
    );
    assert_eq!(c.name, "certAdd");
    assert_eq!(c.params.len(), 4);
    assert!(is_text(&c.params[0], "domain.bit"));
    assert!(is_text(&c.params[1], "web"));
    assert!(is_text(&c.params[2], "alice"));
    assert!(is_text(&c.params[3], "cert"));
}

#[test]
fn site_publish_defaults() {
    let c = ui_server::site_publish(None, None, true);
    assert_eq!(c.name, "sitePublish");
    assert!(is_text(&c.params[0], "stored"));
    assert!(is_text(&c.params[1], "content.json"));
    assert!(matches!(c.params[2], Param::Flag(true)));
}

#[test]
fn site_sign_explicit_arguments() {
    let c = ui_server::site_sign(Some("key".to_string()), Some("data/users/content.json".to_string()), false);
    assert_eq!(c.name, "siteSign");
    assert!(is_text(&c.params[0], "key"));
    assert!(is_text(&c.params[1], "data/users/content.json"));
    assert!(matches!(c.params[2], Param::Flag(false)));
}

#[test]
fn file_need_rejects_zero_timeout() {
    let r = ui_server::file_need("data.json".to_string(), 0);
    assert!(matches!(r, Err(ZeroFrameError::RemoteError(m)) if m == "Timeout should not be 0"));
}

#[test]
fn file_need_builds_command() {
    let c = ui_server::file_need("data.json".to_string(), 30).unwrap();
    assert_eq!(c.name, "fileNeed");
    assert!(is_text(&c.params[0], "data.json"));
    assert!(matches!(c.params[1], Param::Uint(30)));
}

#[test]
fn file_get_defaults_timeout_to_zero() {
    let c = ui_server::file_get("index.html".to_string(), true, "text", None);
    assert_eq!(c.name, "fileGet");
    assert!(is_text(&c.params[0], "index.html"));
    assert!(matches!(c.params[1], Param::Flag(true)));
    assert!(is_text(&c.params[2], "text"));
    assert!(matches!(c.params[3], Param::Uint(0)));
}

#[test]
fn file_write_bytes_encodes_base64() {
    let c = ui_server::file_write_bytes("greeting.txt".to_string(), b"hello".to_vec());
    assert_eq!(c.name, "fileWrite");
    assert!(is_text(&c.params[0], "greeting.txt"));
    assert!(is_text(&c.params[1], "aGVsbG8="));
}

#[test]
fn file_write_string_encodes_utf8_base64() {
    let c = ui_server::file_write_string("greeting.txt".to_string(), "hi".to_string());
    assert_eq!(c.name, "fileWrite");
    assert!(is_text(&c.params[1], "aGk="));
}

#[test]
fn file_bytes_from_reply_decodes_base64() {
    let reply = RawReply { value: ReplyValue::Text("aGVsbG8=".to_string()), falsy: false };
    assert_eq!(ui_server::file_bytes_from_reply(reply), Some(b"hello".to_vec()));
}

#[test]
fn file_bytes_from_reply_rejects_bad_base64() {
    let reply = RawReply { value: ReplyValue::Text("!!".to_string()), falsy: false };
    assert!(ui_server::file_bytes_from_reply(reply).is_none());
}

#[test]
fn file_text_from_reply_takes_strings_only() {
    let reply = RawReply { value: ReplyValue::Text("body".to_string()), falsy: false };
    assert_eq!(ui_server::file_text_from_reply(reply), Some("body".to_string()));
    let reply = RawReply { value: ReplyValue::Null, falsy: false };
    assert!(ui_server::file_text_from_reply(reply).is_none());
}

#[test]
fn ping_reply_accepts_pong_only() {
    let pong = RawReply { value: ReplyValue::Text("pong".to_string()), falsy: false };
    assert!(ui_server::ping_reply(pong).is_ok());
    let other = RawReply { value: ReplyValue::Text("ok".to_string()), falsy: false };
    assert!(matches!(ui_server::ping_reply(other), Err(ZeroFrameError::InvalidResponse)));
}

#[test]
fn db_query_command() {
    let c = ui_server::db_query("SELECT * FROM feed".to_string(), Vec::new());
    assert_eq!(c.name, "dbQuery");
    assert!(is_text(&c.params[0], "SELECT * FROM feed"));
    assert!(matches!(&c.params[1], Param::TextMap(m) if m.is_empty()));
}

#[test]
fn cert_select_command() {
    let c = ui_server::cert_select(vec!["zeroid.bit".to_string()], false, "".to_string());
    assert_eq!(c.name, "certSelect");
    assert!(matches!(&c.params[0], Param::TextList(l) if l == &vec!["zeroid.bit".to_string()]));
    assert!(matches!(c.params[1], Param::Flag(false)));
    assert!(is_text(&c.params[2], ""));
}

#[test]
fn notification_with_timeout() {
    let c = wrapper::notification(NotificationType::Info, "saved".to_string(), Some(3000));
    assert_eq!(c.name, "wrapperNotification");
    assert!(is_text(&c.params[0], "info"));
    assert!(is_text(&c.params[1], "saved"));
    assert!(matches!(c.params[2], Param::Uint(3000)));
}

#[test]
fn notification_without_timeout() {
    let c = wrapper::notify_error("broken".to_string(), None);
    assert_eq!(c.name, "wrapperNotification");
    assert_eq!(c.params.len(), 2);
    assert!(is_text(&c.params[0], "error"));
    assert!(is_text(&c.params[1], "broken"));
}

#[test]
fn notification_labels() {
    assert_eq!(NotificationType::Error.to_string(), "error");
    assert_eq!(NotificationType::Info.to_string(), "info");
    assert_eq!(NotificationType::Done.to_string(), "done");
}

#[test]
fn prompt_command() {
    let c = wrapper::prompt("passphrase?".to_string(), PromptType::Password);
    assert_eq!(c.name, "wrapperPrompt");
    assert!(is_text(&c.params[0], "passphrase?"));
    assert!(is_text(&c.params[1], "password"));
    assert_eq!(PromptType::Text.to_string(), "text");
}

#[test]
fn confirm_command_and_reply() {
    let c = wrapper::confirm("Delete?".to_string(), "Yes".to_string());
    assert_eq!(c.name, "wrapperConfirm");
    assert!(is_text(&c.params[0], "Delete?"));
    assert!(is_text(&c.params[1], "Yes"));
    let yes = RawReply { value: ReplyValue::Number("1".to_string()), falsy: false };
    assert!(matches!(wrapper::confirm_reply(yes), Ok(true)));
    let no = RawReply { value: ReplyValue::Number("0".to_string()), falsy: true };
    assert!(matches!(wrapper::confirm_reply(no), Ok(false)));
    let bad = RawReply { value: ReplyValue::Text("1".to_string()), falsy: false };
    assert!(matches!(wrapper::confirm_reply(bad), Err(ZeroFrameError::InvalidResponse)));
}

#[test]
fn permission_reply_checks_ok() {
    let ok = RawReply { value: ReplyValue::Text("ok".to_string()), falsy: false };
    assert!(wrapper::permission_add("ADMIN".to_string()).name == "wrapperPermissionAdd");
    assert!(wrapper::permission_reply(ok));
    let nope = RawReply { value: ReplyValue::Text("denied".to_string()), falsy: false };
    assert!(!wrapper::permission_reply(nope));
}

#[test]
fn open_window_optional_parameters() {
    let c = wrapper::open_window("http://example".to_string(), None, None);
    assert_eq!(c.params.len(), 1);
    let c = wrapper::open_window("http://example".to_string(), Some("_blank".to_string()), None);
    assert_eq!(c.params.len(), 2);
    assert!(is_text(&c.params[1], "_blank"));
}

#[test]
fn push_state_carries_json() {
    let c = wrapper::push_state("{\"page\":2}".to_string(), "t".to_string(), "/2".to_string());
    assert_eq!(c.name, "wrapperPushState");
    assert!(matches!(&c.params[0], Param::Json(j) if j == "{\"page\":2}"));
}

#[test]
fn aes_encrypt_defaults() {
    let c = crypt_message::aes_encrypt("secret".to_string(), None, None);
    assert_eq!(c.name, "aesEncrypt");
    assert!(is_text(&c.params[0], "secret"));
    assert!(is_text(&c.params[1], "generate new"));
    assert!(is_text(&c.params[2], "generate new"));
}

#[test]
fn aes_decrypt_sends_null_slot() {
    let c = crypt_message::aes_decrypt("iv".to_string(), "ct".to_string(), "key".to_string());
    assert_eq!(c.name, "aesDecrypt");
    assert_eq!(c.params.len(), 4);
    assert!(matches!(c.params[2], Param::Null));
    assert!(is_text(&c.params[3], "key"));
}

#[test]
fn ecies_commands() {
    let c = crypt_message::ecies_encrypt("msg".to_string(), 7, true);
    assert_eq!(c.name, "eciesEncrypt");
    assert!(matches!(c.params[1], Param::Uint(7)));
    let c = crypt_message::ecies_decrypt("payload".to_string(), 2);
    assert_eq!(c.name, "eciesDecrypt");
    assert!(matches!(c.params[1], Param::Uint(2)));
    let c = crypt_message::user_publickey(None);
    assert_eq!(c.name, "userPublickey");
    assert!(c.params.is_empty());
}

#[test]
fn optional_file_list_defaults() {
    let c = optional_manager::optional_file_list(None, None, 10);
    assert_eq!(c.name, "optionalFileList");
    assert!(is_text(&c.params[0], "current site"));
    assert!(is_text(&c.params[1], "time_downloaded DESC"));
    assert!(matches!(c.params[2], Param::Uint(10)));
}

#[test]
fn optional_pin_conditional_address() {
    let c = optional_manager::optional_file_pin("img.png".to_string(), None);
    assert_eq!(c.params.len(), 1);
    let c = optional_manager::optional_file_unpin("img.png".to_string(), Some("1Addr".to_string()));
    assert_eq!(c.params.len(), 2);
    assert!(is_text(&c.params[1], "1Addr"));
}

#[test]
fn merger_site_list_flags() {
    let c = merger_site::merger_site_list();
    assert_eq!(c.name, "mergerSiteList");
    assert!(matches!(c.params[0], Param::Flag(false)));
    let c = merger_site::merger_site_info_list();
    assert_eq!(c.name, "mergerSiteList");
    assert!(matches!(c.params[0], Param::Flag(true)));
}

#[test]
fn small_commands() {
    let c = bigfile::bigfile_upload_init("big.bin".to_string(), 1024);
    assert_eq!(c.name, "bigfileUploadInit");
    assert!(matches!(c.params[1], Param::Uint(1024)));
    let c = cors::cors_permission("1Site".to_string());
    assert_eq!(c.name, "corsPermission");
    let c = mute::mute_add("1A".to_string(), "bob@zeroid.bit".to_string(), "spam".to_string());
    assert_eq!(c.name, "muteAdd");
    assert_eq!(c.params.len(), 3);
    let c = newsfeed::feed_query(10, 3);
    assert_eq!(c.name, "feedQuery");
    assert!(matches!(c.params[0], Param::Uint(10)));
    assert!(matches!(c.params[1], Param::Uint(3)));
    let c = chart::db_query("SELECT 1".to_string(), Vec::new());
    assert_eq!(c.name, "chartDbQuery");
    let c = ui_server::site_update(None);
    assert_eq!(c.name, "siteUpdate");
    assert!(c.params.is_empty());
}
