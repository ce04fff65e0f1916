use vstd::prelude::*;
use crate::command::{Command, Param};
use crate::error::{ErrorModel, ZeroFrameError};
use crate::responses::{RawReply, ReplyValue};

verus! {

/// The severity of a host notification.
pub enum NotificationType {
    Error,
    Info,
    Done,
}

impl NotificationType {
    /// The label under which the host knows this severity.
    pub open spec fn label(self) -> Seq<char> {
        match self {
            NotificationType::Error => "error"@,
            NotificationType::Info => "info"@,
            NotificationType::Done => "done"@,
        }
    }

    /// Render the severity as its host-side label.
    pub fn to_string(&self) -> (r: String)
        ensures
            r@ == self.label(),
    {
        match self {
            NotificationType::Error => "error".to_owned(),
            NotificationType::Info => "info".to_owned(),
            NotificationType::Done => "done".to_owned(),
        }
    }
}

/// Show an informational notification.
pub fn notify_info(message: String, timeout: Option<usize>) -> (c: Command)
    ensures
        c.name@ == "wrapperNotification"@,
        c.params@[0].is_text(NotificationType::Info.label()),
        c.params@[1].is_text(message@),
        match timeout {
            Some(d) => c.params@.len() == 3 && c.params@[2].is_uint(d as u64),
            None => c.params@.len() == 2,
        },
{
    notification(NotificationType::Info, message, timeout)
}

/// Show an error notification.
pub fn notify_error(message: String, timeout: Option<usize>) -> (c: Command)
    ensures
        c.name@ == "wrapperNotification"@,
        c.params@[0].is_text(NotificationType::Error.label()),
        c.params@[1].is_text(message@),
        match timeout {
            Some(d) => c.params@.len() == 3 && c.params@[2].is_uint(d as u64),
            None => c.params@.len() == 2,
        },
{
    notification(NotificationType::Error, message, timeout)
}

/// Show a completion notification.
pub fn notify_done(message: String, timeout: Option<usize>) -> (c: Command)
    ensures
        c.name@ == "wrapperNotification"@,
        c.params@[0].is_text(NotificationType::Done.label()),
        c.params@[1].is_text(message@),
        match timeout {
            Some(d) => c.params@.len() == 3 && c.params@[2].is_uint(d as u64),
            None => c.params@.len() == 2,
        },
{
    notification(NotificationType::Done, message, timeout)
}

/// Ask the user to confirm an action, with the given button caption.
pub fn confirm(message: String, button: String) -> (c: Command)
    ensures
        c.name@ == "wrapperConfirm"@,
        c.params@.len() == 2,
        c.params@[0].is_text(message@),
        c.params@[1].is_text(button@),
{
    let mut params: Vec<Param> = Vec::new();
    params.push(Param::Text(message));
    params.push(Param::Text(button));
    Command::with_params("wrapperConfirm", params)
}

/// A confirmation reply is the index of the pressed button: one means
/// confirmed, any other number means declined, and a reply that is not a
/// number is invalid.
pub fn confirm_reply(reply: RawReply) -> (r: Result<bool, ZeroFrameError>)
    ensures
        match reply.value {
            ReplyValue::Number(n) => r == Ok::<bool, ZeroFrameError>(n@ == "1"@),
            _ => r matches Err(e) && e@ == ErrorModel::Invalid,
        },
{
    match reply.value {
        ReplyValue::Number(n) => {
            let one: String = "1".to_owned();
            Ok(n.eq(&one))
        },
        _ => Err(ZeroFrameError::InvalidResponse),
    }
}

/// Tell the wrapper that the inner frame has loaded.
pub fn inner_loaded() -> (c: Command)
    ensures
        c.name@ == "wrapperInnerLoaded"@,
        c.params@.len() == 0,
{
    Command::plain("wrapperInnerLoaded")
}

/// Ask the wrapper for the site's local storage.
pub fn get_local_storage() -> (c: Command)
    ensures
        c.name@ == "wrapperGetLocalStorage"@,
        c.params@.len() == 0,
{
    Command::plain("wrapperGetLocalStorage")
}

/// Ask the wrapper for the browser's navigation state.
pub fn get_state() -> (c: Command)
    ensures
        c.name@ == "wrapperGetState"@,
        c.params@.len() == 0,
{
    Command::plain("wrapperGetState")
}

/// Ask the wrapper for the ajax key.
pub fn get_ajax_key() -> (c: Command)
    ensures
        c.name@ == "wrapperGetAjaxKey"@,
        c.params@.len() == 0,
{
    Command::plain("wrapperGetAjaxKey")
}

/// Show a notification of the given severity; the timeout parameter is sent
/// only when one is given.
pub fn notification(notification_type: NotificationType, message: String, timeout: Option<usize>)
    -> (c: Command)
    ensures
        c.name@ == "wrapperNotification"@,
        c.params@[0].is_text(notification_type.label()),
        c.params@[1].is_text(message@),
        match timeout {
            Some(d) => c.params@.len() == 3 && c.params@[2].is_uint(d as u64),
            None => c.params@.len() == 2,
        },
{
    let mut params: Vec<Param> = Vec::new();
    params.push(Param::Text(notification_type.to_string()));
    params.push(Param::Text(message));
    match timeout {
        Some(d) => params.push(Param::Uint(d as u64)),
        None => (),
    }
    Command::with_params("wrapperNotification", params)
}

/// Open a window; target and window features are sent only when given.
pub fn open_window(url: String, target: Option<String>, specs: Option<String>) -> (c: Command)
    ensures
        c.name@ == "wrapperOpenWindow"@,
        c.params@[0].is_text(url@),
        match (target, specs) {
            (Some(t), Some(s)) => c.params@.len() == 3 && c.params@[1].is_text(t@)
                && c.params@[2].is_text(s@),
            (Some(t), None) => c.params@.len() == 2 && c.params@[1].is_text(t@),
            (None, Some(s)) => c.params@.len() == 2 && c.params@[1].is_text(s@),
            (None, None) => c.params@.len() == 1,
        },
{
    let mut params: Vec<Param> = Vec::new();
    params.push(Param::Text(url));
    match target {
        Some(t) => params.push(Param::Text(t)),
        None => (),
    }
    match specs {
        Some(s) => params.push(Param::Text(s)),
        None => (),
    }
    Command::with_params("wrapperOpenWindow", params)
}

/// Ask the wrapper to grant a permission.
pub fn permission_add(permission: String) -> (c: Command)
    ensures
        c.name@ == "wrapperPermissionAdd"@,
        c.params@.len() == 1,
        c.params@[0].is_text(permission@),
{
    let mut params: Vec<Param> = Vec::new();
    params.push(Param::Text(permission));
    Command::with_params("wrapperPermissionAdd", params)
}

/// A permission reply grants the permission exactly when the host answered
/// "ok".
pub fn permission_reply(reply: RawReply) -> (r: bool)
    ensures
        r == (reply.value matches ReplyValue::Text(s) && s@ == "ok"@),
{
    match reply.value {
        ReplyValue::Text(s) => {
            let ok: String = "ok".to_owned();
            s.eq(&ok)
        },
        _ => false,
    }
}

/// The kind of input a prompt asks for.
pub enum PromptType {
    Text,
    Password,
}

impl PromptType {
    /// The label under which the host knows this prompt kind.
    pub open spec fn label(self) -> Seq<char> {
        match self {
            PromptType::Text => "text"@,
            PromptType::Password => "password"@,
        }
    }

    /// Render the prompt kind as its host-side label.
    pub fn to_string(&self) -> (r: String)
        ensures
            r@ == self.label(),
    {
        match self {
            PromptType::Text => "text".to_owned(),
            PromptType::Password => "password".to_owned(),
        }
    }
}

/// Ask the user for a line of input of the given kind.
pub fn prompt(message: String, prompt_type: PromptType) -> (c: Command)
    ensures
        c.name@ == "wrapperPrompt"@,
        c.params@.len() == 2,
        c.params@[0].is_text(message@),
        c.params@[1].is_text(prompt_type.label()),
{
    let mut params: Vec<Param> = Vec::new();
    params.push(Param::Text(message));
    params.push(Param::Text(prompt_type.to_string()));
    Command::with_params("wrapperPrompt", params)
}

/// Push a navigation state; the state travels as the JSON text that encodes
/// it.
pub fn push_state(state_json: String, title: String, url: String) -> (c: Command)
    ensures
        c.name@ == "wrapperPushState"@,
        c.params@.len() == 3,
        c.params@[0].is_json(state_json@),
        c.params@[1].is_text(title@),
        c.params@[2].is_text(url@),
{
    let mut params: Vec<Param> = Vec::new();
    params.push(Param::Json(state_json));
    params.push(Param::Text(title));
    params.push(Param::Text(url));
    Command::with_params("wrapperPushState", params)
}

/// Replace the navigation state; the state travels as the JSON text that
/// encodes it.
pub fn replace_state(state_json: String, title: String, url: String) -> (c: Command)
    ensures
        c.name@ == "wrapperReplaceState"@,
        c.params@.len() == 3,
        c.params@[0].is_json(state_json@),
        c.params@[1].is_text(title@),
        c.params@[2].is_text(url@),
{
    let mut params: Vec<Param> = Vec::new();
    params.push(Param::Json(state_json));
    params.push(Param::Text(title));
    params.push(Param::Text(url));
    Command::with_params("wrapperReplaceState", params)
}

/// Ask the wrapper to enter fullscreen.
pub fn request_fullscreen() -> (c: Command)
    ensures
        c.name@ == "wrapperRequestFullscreen"@,
        c.params@.len() == 0,
{
    Command::plain("wrapperRequestFullscreen")
}

/// Store the site's local storage; the data travels as the JSON text that
/// encodes it.
pub fn set_local_storage(data_json: String) -> (c: Command)
    ensures
        c.name@ == "wrapperSetLocalStorage"@,
        c.params@.len() == 1,
        c.params@[0].is_json(data_json@),
{
    let mut params: Vec<Param> = Vec::new();
    params.push(Param::Json(data_json));
    Command::with_params("wrapperSetLocalStorage", params)
}

/// Set the page title.
pub fn set_title(title: String) -> (c: Command)
    ensures
        c.name@ == "wrapperSetTitle"@,
        c.params@.len() == 1,
        c.params@[0].is_text(title@),
{
    let mut params: Vec<Param> = Vec::new();
    params.push(Param::Text(title));
    Command::with_params("wrapperSetTitle", params)
}

/// Set the viewport meta tag.
pub fn set_viewport(viewport: String) -> (c: Command)
    ensures
        c.name@ == "wrapperSetViewport"@,
        c.params@.len() == 1,
        c.params@[0].is_text(viewport@),
{
    let mut params: Vec<Param> = Vec::new();
    params.push(Param::Text(viewport));
    Command::with_params("wrapperSetViewport", params)
}

} // verus!
