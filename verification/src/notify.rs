//! Notification channels: their configurations and templates, the choice of
//! sender, the plan of a webhook request, and how the errors of sending and
//! of the channel service are reported through the API.

use vstd::prelude::*;
use crate::errors::AppError;
use crate::encryption::EncryptionError;
use crate::text::{concat_str, str_eq, chars_of, string_from_chars};

verus! {

/// The configuration of a notification channel.
#[derive(Debug)]
pub enum ChannelConfig {
    Telegram { bot_token: String, chat_id: String },
    Webhook {
        url: String,
        method: String,
        /// Header names and values; a name occurs at most once.
        headers: Option<Vec<(String, String)>>,
        body_template: Option<String>,
    },
}

/// One input field of a channel template, for the frontend.
#[derive(Debug)]
pub struct ChannelTemplateField {
    pub name: String,
    pub field_type: String,
    pub required: bool,
    pub label: String,
    pub help_text: Option<String>,
}

/// The template of a channel type, from which the frontend builds its form.
#[derive(Debug)]
pub struct ChannelTemplate {
    pub channel_type: String,
    pub name: String,
    pub fields: Vec<ChannelTemplateField>,
}

/// API response describing a notification channel, without its secrets.
#[derive(Debug)]
pub struct ChannelResponse {
    pub id: i32,
    pub name: String,
    pub channel_type: String,
}

/// API request for sending a test notification.
#[derive(Debug)]
pub struct TestChannelRequest {
    pub message: Option<String>,
}

/// Errors of sending a notification.
#[derive(Debug)]
pub enum SenderError {
    SendFailed(String),
    InvalidConfiguration(String),
    NetworkError(String),
    TemplatingError(String),
}

/// Errors of the notification service; errors of outside libraries are kept
/// as their messages.
#[derive(Debug)]
pub enum NotificationError {
    DatabaseError(String),
    EncryptionError(EncryptionError),
    SerializationError(String),
    NotFound(i32),
    UnsupportedChannel(String),
    SenderError(SenderError),
    PermissionDenied,
    Generic(String),
}

/// The message of an encryption error.
pub open spec fn spec_encryption_error_text(e: EncryptionError) -> Seq<char> {
    match e {
        EncryptionError::EncryptionFailed(m) => "Encryption failed: "@ + m@,
        EncryptionError::DecryptionFailed(m) => "Decryption failed: "@ + m@,
        EncryptionError::InvalidKeyLength => "Invalid key length"@,
    }
}

/// The message of a sender error.
pub open spec fn spec_sender_error_text(e: SenderError) -> Seq<char> {
    match e {
        SenderError::SendFailed(m) => "Failed to send notification: "@ + m@,
        SenderError::InvalidConfiguration(m) => "Invalid configuration for sender: "@ + m@,
        SenderError::NetworkError(m) => "Network error: "@ + m@,
        SenderError::TemplatingError(m) => "Templating error: "@ + m@,
    }
}

/// The message of an encryption error.
pub fn encryption_error_text(e: &EncryptionError) -> (r: String)
    ensures
        r@ == spec_encryption_error_text(*e),
{
    match e {
        EncryptionError::EncryptionFailed(m) => concat_str("Encryption failed: ", m.as_str()),
        EncryptionError::DecryptionFailed(m) => concat_str("Decryption failed: ", m.as_str()),
        EncryptionError::InvalidKeyLength => "Invalid key length".to_string(),
    }
}

/// The message of a sender error.
pub fn sender_error_text(e: &SenderError) -> (r: String)
    ensures
        r@ == spec_sender_error_text(*e),
{
    match e {
        SenderError::SendFailed(m) => concat_str("Failed to send notification: ", m.as_str()),
        SenderError::InvalidConfiguration(m) => concat_str("Invalid configuration for sender: ", m.as_str()),
        SenderError::NetworkError(m) => concat_str("Network error: ", m.as_str()),
        SenderError::TemplatingError(m) => concat_str("Templating error: ", m.as_str()),
    }
}

/// The API error a notification error is reported as.
pub fn notification_error_to_app_error(e: NotificationError) -> (r: AppError)
    ensures
        match e {
            NotificationError::DatabaseError(m) => r matches AppError::DatabaseError(x) && x == m,
            NotificationError::EncryptionError(inner) => r matches AppError::InternalServerError(x) && x@
                == "Encryption error: "@ + spec_encryption_error_text(inner),
            NotificationError::SerializationError(m) => r matches AppError::InvalidInput(x) && x@
                == "Failed to process configuration: "@ + m@,
            NotificationError::NotFound(_) => r matches AppError::NotFound(x) && x@ == "Notification channel not found."@,
            NotificationError::UnsupportedChannel(t) => r matches AppError::InvalidInput(x) && x@
                == "Unsupported channel type: "@ + t@,
            NotificationError::SenderError(inner) => r matches AppError::InternalServerError(x) && x@
                == "Failed to send notification: "@ + spec_sender_error_text(inner),
            NotificationError::PermissionDenied => r matches AppError::Unauthorized(x) && x@
                == "You do not have permission to access this resource."@,
            NotificationError::Generic(s) => r matches AppError::InternalServerError(x) && x == s,
        },
{
    match e {
        NotificationError::DatabaseError(m) => AppError::DatabaseError(m),
        NotificationError::EncryptionError(inner) => {
            let t = encryption_error_text(&inner);
            AppError::InternalServerError(concat_str("Encryption error: ", t.as_str()))
        },
        NotificationError::SerializationError(m) => AppError::InvalidInput(
            concat_str("Failed to process configuration: ", m.as_str()),
        ),
        NotificationError::NotFound(_) => AppError::NotFound("Notification channel not found.".to_string()),
        NotificationError::UnsupportedChannel(t) => AppError::InvalidInput(
            concat_str("Unsupported channel type: ", t.as_str()),
        ),
        NotificationError::SenderError(inner) => {
            let t = sender_error_text(&inner);
            AppError::InternalServerError(concat_str("Failed to send notification: ", t.as_str()))
        },
        NotificationError::PermissionDenied => AppError::Unauthorized(
            "You do not have permission to access this resource.".to_string(),
        ),
        NotificationError::Generic(s) => AppError::InternalServerError(s),
    }
}

/// The kind of sender a channel type is served by.
#[derive(Clone, Copy, Debug, PartialEq, Eq, Structural)]
pub enum SenderKind {
    Telegram,
    Webhook,
}

/// The sender for a channel type: `telegram` and `webhook` are known, any
/// other type is unsupported.
pub fn sender_for_channel(channel_type: &str) -> (r: Result<SenderKind, NotificationError>)
    ensures
        channel_type@ == "telegram"@ ==> r == Ok::<SenderKind, NotificationError>(SenderKind::Telegram),
        channel_type@ == "webhook"@ ==> r == Ok::<SenderKind, NotificationError>(SenderKind::Webhook),
        channel_type@ != "telegram"@ && channel_type@ != "webhook"@ ==> (r matches Err(
            NotificationError::UnsupportedChannel(t),
        ) && t@ == channel_type@),
{
    proof {
        reveal_strlit("telegram");
        reveal_strlit("webhook");
        assert("telegram"@ != "webhook"@) by {
            assert("telegram"@[0] != "webhook"@[0]);
        }
    }
    if str_eq(channel_type, "telegram") {
        Ok(SenderKind::Telegram)
    } else if str_eq(channel_type, "webhook") {
        Ok(SenderKind::Webhook)
    } else {
        Err(NotificationError::UnsupportedChannel(channel_type.to_string()))
    }
}

/// The message of a test notification: the one given, or a default naming
/// the channel.
pub fn test_message(message: Option<String>, channel_name: &str) -> (r: String)
    ensures
        match message {
            Some(m) => r == m,
            None => r@ == "This is a test message from channel '"@ + channel_name@ + "'."@,
        },
{
    match message {
        Some(m) => m,
        None => {
            let a = concat_str("This is a test message from channel '", channel_name);
            concat_str(a.as_str(), "'.")
        },
    }
}

/// Records the outcome of sending through one channel of an alert rule; the
/// error kept is the latest one.
pub fn record_send_outcome(
    last_error: Option<NotificationError>,
    outcome: Result<(), NotificationError>,
) -> (r: Option<NotificationError>)
    ensures
        match outcome {
            Err(e) => r == Some(e),
            Ok(()) => r == last_error,
        },
{
    match outcome {
        Err(e) => Some(e),
        Ok(()) => last_error,
    }
}

/// The result of notifying all channels of an alert rule: the latest error,
/// if any channel failed.
pub fn alert_notification_result(last_error: Option<NotificationError>) -> (r: Result<(), NotificationError>)
    ensures
        match last_error {
            Some(e) => r == Err::<(), NotificationError>(e),
            None => r is Ok,
        },
{
    match last_error {
        Some(e) => Err(e),
        None => Ok(()),
    }
}


/// The upper-case form of a string, as `str::to_uppercase` computes it.
pub uninterp spec fn unicode_uppercase(s: Seq<char>) -> Seq<char>;

/// Whether a character may appear in an HTTP header name: an ASCII letter
/// (of either case; names are lower-cased), digit, or one of
/// ``!#$%&'*+-.^_`|~``. Every byte of a non-ASCII character is refused.
pub open spec fn header_name_char(c: char) -> bool {
    ||| ('a' <= c && c <= 'z')
    ||| ('A' <= c && c <= 'Z')
    ||| ('0' <= c && c <= '9')
    ||| c == '!' || c == '#' || c == '$' || c == '%' || c == '&' || c == '\'' || c == '*'
    ||| c == '+' || c == '-' || c == '.' || c == '^' || c == '_' || c == '`' || c == '|' || c == '~'
}

/// The error text with which the `http` crate refuses a header name, or
/// `None` for a valid name: one of 1 to 65535 header-name characters.
pub open spec fn header_name_error(name: Seq<char>) -> Option<Seq<char>> {
    if 1 <= name.len() <= 65535 && forall|i: int| 0 <= i < name.len() ==> header_name_char(#[trigger] name[i]) {
        None
    } else {
        Some("invalid HTTP header name"@)
    }
}

/// Whether a character may appear in an HTTP header value: a tab, or any
/// character but the other ASCII control characters and DEL (every byte of
/// a non-ASCII character is accepted).
pub open spec fn header_value_char(c: char) -> bool {
    c == '\t' || (' ' <= c && c != '\x7f')
}

/// The error text with which the `http` crate refuses a header value, or
/// `None` for a valid value.
pub open spec fn header_value_error(value: Seq<char>) -> Option<Seq<char>> {
    if forall|i: int| 0 <= i < value.len() ==> header_value_char(#[trigger] value[i]) {
        None
    } else {
        Some("failed to parse header value"@)
    }
}

/// Calls `str::to_uppercase`. The contract claims only that the result is
/// the function's for this string.
#[verifier::external_body]
fn to_uppercase(s: &str) -> (r: String)
    ensures
        r@ == unicode_uppercase(s@),
{
    s.to_uppercase()
}

/// Calls `reqwest::header::HeaderName::from_bytes` on the name's bytes. The
/// contract claims what the `http` crate's source shows: the name is
/// accepted exactly when it is 1 to 65535 bytes of its header-name table,
/// and is refused with the text of `InvalidHeaderName` otherwise.
#[verifier::external_body]
fn check_header_name(name: &str) -> (r: Result<(), String>)
    ensures
        match header_name_error(name@) {
            None => r is Ok,
            Some(m) => r matches Err(e) && e@ == m,
        },
{
    reqwest::header::HeaderName::from_bytes(name.as_bytes()).map(|_| ()).map_err(|e| e.to_string())
}

/// Calls `reqwest::header::HeaderValue::from_str`. The contract claims what
/// the `http` crate's source shows: the value is accepted exactly when every
/// byte is a tab or at least 32 and not 127, and is refused with the text of
/// `InvalidHeaderValue` otherwise.
#[verifier::external_body]
fn check_header_value(value: &str) -> (r: Result<(), String>)
    ensures
        match header_value_error(value@) {
            None => r is Ok,
            Some(m) => r matches Err(e) && e@ == m,
        },
{
    reqwest::header::HeaderValue::from_str(value).map(|_| ()).map_err(|e| e.to_string())
}

/// What `tera::Tera::one_off` answers, with autoescaping, for a template and
/// a context built by inserting the key-value pairs in order, in a given
/// state `env` of what templates can read besides their arguments (the
/// clock, the random source, the process environment): the rendered text or
/// the error's message.
pub uninterp spec fn tera_one_off(template: Seq<char>, context: Seq<(Seq<char>, Seq<char>)>, env: int) -> Result<Seq<char>, Seq<char>>;

/// A rendering outcome as text.
pub open spec fn render_view(r: Result<String, String>) -> Result<Seq<char>, Seq<char>> {
    match r {
        Ok(s) => Ok(s@),
        Err(m) => Err(m@),
    }
}

/// Calls `tera::Tera::one_off` with autoescaping, after inserting each
/// key-value pair into a `tera::Context`. Templates may call `now()`,
/// `get_random()` or `get_env()`, so the outcome is not a function of the
/// arguments alone: the contract claims that it is tera's for this template
/// and this context in some state of the clock, the random source and the
/// environment. It also claims what tera's grammar and renderer show for a
/// template without any `{`: it has no tag, variable or comment, parses to
/// one text node (or none), and renders to itself.
#[verifier::external_body]
fn render_template(template: &str, context: &Vec<(String, String)>) -> (r: Result<String, String>)
    ensures
        exists|e: int| #[trigger] tera_one_off(template@, pairs_view(context@), e) == render_view(r),
        r is Err ==> template@.contains('{'),
        r is Ok && !template@.contains('{') ==> r->Ok_0@ == template@,
{
    let mut ctx = tera::Context::new();
    for (key, value) in context {
        ctx.insert(key.as_str(), value);
    }
    tera::Tera::one_off(template, &ctx, true).map_err(|e| e.to_string())
}

/// The HTTP methods a webhook can use.
#[derive(Clone, Copy, Debug, PartialEq, Eq, Structural)]
pub enum HttpMethod {
    Get,
    Post,
}

/// The request a webhook channel sends, before its body is rendered.
#[derive(Debug)]
pub struct WebhookRequest {
    pub url: String,
    pub method: HttpMethod,
    pub headers: Vec<(String, String)>,
    /// The body template of a POST request (the channel's own template, or
    /// else the message); `None` for GET.
    pub body_template: Option<String>,
}

pub open spec fn pair_view(p: (String, String)) -> (Seq<char>, Seq<char>) {
    (p.0@, p.1@)
}

pub open spec fn pairs_view(v: Seq<(String, String)>) -> Seq<(Seq<char>, Seq<char>)> {
    v.map_values(|p: (String, String)| pair_view(p))
}

/// Whether no header name occurs twice, as in the map of headers a channel
/// is configured with.
pub open spec fn header_names_distinct(headers: Seq<(String, String)>) -> bool {
    forall|i: int, j: int| 0 <= i < j < headers.len() ==> (#[trigger] headers[i]).0@ != (#[trigger] headers[j]).0@
}

/// The error of the first header (in order) whose name or value is refused.
pub open spec fn spec_header_error(headers: Seq<(Seq<char>, Seq<char>)>) -> Option<Seq<char>>
    decreases headers.len(),
{
    if headers.len() == 0 {
        None
    } else {
        match header_name_error(headers[0].0) {
            Some(e) => Some("Invalid header name: "@ + e),
            None => match header_value_error(headers[0].1) {
                Some(e) => Some("Invalid header value: "@ + e),
                None => spec_header_error(headers.drop_first()),
            },
        }
    }
}

fn first_header_error(headers: &Vec<(String, String)>) -> (r: Option<String>)
    ensures
        match spec_header_error(pairs_view(headers@)) {
            None => r is None,
            Some(m) => r matches Some(x) && x@ == m,
        },
{
    let mut i: usize = 0;
    assert(pairs_view(headers@).skip(0) =~= pairs_view(headers@));
    while i < headers.len()
        invariant
            i <= headers.len(),
            spec_header_error(pairs_view(headers@)) == spec_header_error(pairs_view(headers@).skip(i as int)),
        decreases headers.len() - i,
    {
        let ghost rest = pairs_view(headers@).skip(i as int);
        assert(rest[0] == pair_view(headers@[i as int]));
        assert(rest.drop_first() =~= pairs_view(headers@).skip(i + 1));
        let (k, v) = &headers[i];
        match check_header_name(k.as_str()) {
            Err(e) => return Some(concat_str("Invalid header name: ", e.as_str())),
            Ok(()) => {},
        }
        match check_header_value(v.as_str()) {
            Err(e) => return Some(concat_str("Invalid header value: ", e.as_str())),
            Ok(()) => {},
        }
        i = i + 1;
    }
    assert(pairs_view(headers@).skip(i as int).len() == 0);
    None
}

/// Plans the request of a webhook channel for a message: the configuration
/// must be a webhook; its method, upper-cased, must be POST or GET; every
/// header name and value must be valid; a POST request carries the body
/// template (the channel's own, or else the message).
pub fn plan_webhook_request(config: ChannelConfig, message: &str) -> (r: Result<WebhookRequest, SenderError>)
    requires
        config matches ChannelConfig::Webhook { headers: Some(h), .. } ==> header_names_distinct(h@),
    ensures
        match config {
            ChannelConfig::Telegram { .. } => r matches Err(SenderError::InvalidConfiguration(m)) && m@
                == "Expected Webhook config, but found a different type."@,
            ChannelConfig::Webhook { url, method, headers, body_template } => {
                let up = unicode_uppercase(method@);
                let hs = match headers { Some(h) => pairs_view(h@), None => Seq::empty() };
                if up != "POST"@ && up != "GET"@ {
                    r matches Err(SenderError::InvalidConfiguration(m)) && m@ == "Unsupported HTTP method: "@ + method@
                } else {
                    match spec_header_error(hs) {
                        Some(e) => r matches Err(SenderError::InvalidConfiguration(m)) && m@ == e,
                        None => r matches Ok(req) && req.url == url && pairs_view(req.headers@) == hs
                            && req.method == (if up == "POST"@ { HttpMethod::Post } else { HttpMethod::Get })
                            && (match req.body_template {
                            Some(b) => up == "POST"@ && b@ == (match body_template {
                                Some(t) => t@,
                                None => message@,
                            }),
                            None => up != "POST"@,
                        }),
                    }
                }
            },
        },
{
    match config {
        ChannelConfig::Telegram { .. } => Err(SenderError::InvalidConfiguration(
            "Expected Webhook config, but found a different type.".to_string(),
        )),
        ChannelConfig::Webhook { url, method, headers, body_template } => {
            let up = to_uppercase(method.as_str());
            let is_post = str_eq(up.as_str(), "POST");
            let is_get = str_eq(up.as_str(), "GET");
            if !is_post && !is_get {
                return Err(SenderError::InvalidConfiguration(concat_str("Unsupported HTTP method: ", method.as_str())));
            }
            let hs: Vec<(String, String)> = match headers {
                Some(h) => h,
                None => Vec::new(),
            };
            assert(pairs_view(Seq::<(String, String)>::empty()) =~= Seq::<(Seq<char>, Seq<char>)>::empty());
            match first_header_error(&hs) {
                Some(e) => return Err(SenderError::InvalidConfiguration(e)),
                None => {},
            }
            let body = if is_post {
                match body_template {
                    Some(t) => Some(t),
                    None => Some(message.to_string()),
                }
            } else {
                None
            };
            Ok(WebhookRequest {
                url,
                method: if is_post { HttpMethod::Post } else { HttpMethod::Get },
                headers: hs,
                body_template: body,
            })
        },
    }
}

/// Renders a webhook body template with the notification's context: the
/// body is what tera renders for this template and context (in the state of
/// the clock, random source and environment at the call), and a template
/// error becomes a `TemplatingError` with tera's message. A template without
/// any `{` is plain text and is sent as it is.
pub fn render_webhook_body(template: &str, context: &Vec<(String, String)>) -> (r: Result<String, SenderError>)
    ensures
        exists|e: int| match #[trigger] tera_one_off(template@, pairs_view(context@), e) {
            Ok(b) => r matches Ok(body) && body@ == b,
            Err(m) => r matches Err(SenderError::TemplatingError(x)) && x@ == m,
        },
        r matches Err(e) ==> e is TemplatingError,
        !template@.contains('{') ==> (r matches Ok(body) && body@ == template@),
{
    let rendered = render_template(template, context);
    let ghost e = choose|e: int| tera_one_off(template@, pairs_view(context@), e) == render_view(rendered);
    let r = match rendered {
        Ok(body) => Ok(body),
        Err(m) => Err(SenderError::TemplatingError(m)),
    };
    assert(tera_one_off(template@, pairs_view(context@), e) == render_view(rendered));
    r
}

/// The outcome of a webhook call from the response's status: success for a
/// 2xx status, else a `SendFailed` naming the status (its code and reason,
/// as `status_text`) and the response body.
pub fn webhook_response_outcome(status: u16, status_text: &str, body: &str) -> (r: Result<(), SenderError>)
    ensures
        200 <= status <= 299 ==> r is Ok,
        !(200 <= status <= 299) ==> (r matches Err(SenderError::SendFailed(m)) && m@
            == "Webhook returned non-success status: "@ + status_text@ + ". Body: "@ + body@),
{
    if 200 <= status && status <= 299 {
        return Ok(());
    }
    let a = concat_str("Webhook returned non-success status: ", status_text);
    let b = concat_str(a.as_str(), ". Body: ");
    Err(SenderError::SendFailed(concat_str(b.as_str(), body)))
}

/// The view of a template field: name, type, whether required, label, help.
pub open spec fn field_view(f: ChannelTemplateField) -> (Seq<char>, Seq<char>, bool, Seq<char>, Option<Seq<char>>) {
    (f.name@, f.field_type@, f.required, f.label@, match f.help_text { Some(h) => Some(h@), None => None })
}

fn template_field(name: &str, field_type: &str, required: bool, label: &str, help_text: Option<&str>) -> (r: ChannelTemplateField)
    ensures
        field_view(r) == (name@, field_type@, required, label@, match help_text { Some(h) => Some(h@), None => None::<Seq<char>> }),
{
    ChannelTemplateField {
        name: name.to_string(),
        field_type: field_type.to_string(),
        required,
        label: label.to_string(),
        help_text: match help_text { Some(h) => Some(h.to_string()), None => None },
    }
}

/// The templates of the supported channel types, in order: Telegram (bot
/// token and chat id) and a custom webhook (URL, method, headers and body
/// template).
pub open spec fn spec_channel_templates_ok(ts: Seq<ChannelTemplate>) -> bool {
    &&& ts.len() == 2
    &&& ts[0].channel_type@ == "telegram"@ && ts[0].name@ == "Telegram"@
    &&& ts[0].fields@.len() == 2
    &&& field_view(ts[0].fields@[0]) == ("bot_token"@, "password"@, true, "Bot Token"@, Some("Your Telegram Bot Token."@))
    &&& field_view(ts[0].fields@[1]) == ("chat_id"@, "text"@, true, "Chat ID"@, Some("The target chat ID (user, group, or channel)."@))
    &&& ts[1].channel_type@ == "webhook"@ && ts[1].name@ == "Custom Webhook"@
    &&& ts[1].fields@.len() == 4
    &&& field_view(ts[1].fields@[0]) == ("url"@, "text"@, true, "Webhook URL"@, None::<Seq<char>>)
    &&& field_view(ts[1].fields@[1]) == ("method"@, "text"@, true, "HTTP Method"@, Some("Usually POST or GET."@))
    &&& field_view(ts[1].fields@[2]) == ("headers"@, "textarea"@, false, "Headers (JSON)"@, Some("A JSON object of key-value pairs for headers."@))
    &&& field_view(ts[1].fields@[3]) == ("body_template"@, "textarea"@, false, "Body Template (for POST)"@, Some("JSON body with Tera template variables like {{ vps_name }}."@))
}

/// The templates of the supported channel types.
pub fn get_channel_templates() -> (r: Vec<ChannelTemplate>)
    ensures
        spec_channel_templates_ok(r@),
{
    let mut telegram_fields: Vec<ChannelTemplateField> = Vec::new();
    telegram_fields.push(template_field("bot_token", "password", true, "Bot Token", Some("Your Telegram Bot Token.")));
    telegram_fields.push(template_field("chat_id", "text", true, "Chat ID", Some("The target chat ID (user, group, or channel).")));
    let mut webhook_fields: Vec<ChannelTemplateField> = Vec::new();
    webhook_fields.push(template_field("url", "text", true, "Webhook URL", None));
    webhook_fields.push(template_field("method", "text", true, "HTTP Method", Some("Usually POST or GET.")));
    webhook_fields.push(template_field("headers", "textarea", false, "Headers (JSON)", Some("A JSON object of key-value pairs for headers.")));
    webhook_fields.push(template_field("body_template", "textarea", false, "Body Template (for POST)", Some("JSON body with Tera template variables like {{ vps_name }}.")));
    let mut r: Vec<ChannelTemplate> = Vec::new();
    r.push(ChannelTemplate { channel_type: "telegram".to_string(), name: "Telegram".to_string(), fields: telegram_fields });
    r.push(ChannelTemplate { channel_type: "webhook".to_string(), name: "Custom Webhook".to_string(), fields: webhook_fields });
    r
}

} // verus!
