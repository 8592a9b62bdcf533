//! Deciding whether a finished run is reported, what the message says, and
//! what each backend is handed to send it.

use vstd::prelude::*;

use crate::config::Config;
use crate::text::{int_decimal, render_i32, render_two_digits, str_eq, two_digits};

verus! {

/// A wall-clock time of day.
#[derive(PartialEq, Eq, Structural, Clone, Copy, Debug)]
pub struct TimeOfDay {
    pub hour: u8,
    pub minute: u8,
    pub second: u8,
}

impl TimeOfDay {
    pub open spec fn wf(&self) -> bool {
        self.hour < 24 && self.minute < 60 && self.second < 60
    }
}

/// A time of day as `HH:MM:SS`.
pub open spec fn clock_text(t: TimeOfDay) -> Seq<char> {
    two_digits(t.hour as nat) + seq![':'] + two_digits(t.minute as nat) + seq![':'] + two_digits(
        t.second as nat,
    )
}

/// Renders a time of day as `HH:MM:SS`.
pub fn render_clock(t: &TimeOfDay) -> (r: String)
    requires
        t.wf(),
    ensures
        r@ == clock_text(*t),
{
    let mut r = render_two_digits(t.hour);
    r.append(":");
    let m = render_two_digits(t.minute);
    r.append(m.as_str());
    r.append(":");
    let s = render_two_digits(t.second);
    r.append(s.as_str());
    proof {
        reveal_strlit(":");
    }
    r
}

/// The message of a finished run: `completed!` for a zero exit code, else
/// `exited with non-zero code {code}!`, then a line with the time.
pub open spec fn notification_text(exit_code: int, t: TimeOfDay) -> Seq<char> {
    if exit_code == 0 {
        "completed!\n"@ + clock_text(t)
    } else {
        "exited with non-zero code "@ + int_decimal(exit_code) + "!\n"@ + clock_text(t)
    }
}

/// Writes the message of a finished run.
pub fn notification_body(exit_code: i32, t: &TimeOfDay) -> (r: String)
    requires
        t.wf(),
    ensures
        r@ == notification_text(exit_code as int, *t),
{
    let clock = render_clock(t);
    if exit_code == 0 {
        let mut r = String::from_str("completed!\n");
        r.append(clock.as_str());
        r
    } else {
        let mut r = String::from_str("exited with non-zero code ");
        let code = render_i32(exit_code);
        r.append(code.as_str());
        r.append("!\n");
        r.append(clock.as_str());
        r
    }
}


/// The local time of day as chrono reads it from the system clock.
/// Relies on `chrono::Local::now` and on `chrono::Timelike`, whose `hour` is
/// documented to lie in 0..=23 and whose `minute` and `second` in 0..=59.
#[verifier::external_body]
fn local_time_of_day() -> (t: TimeOfDay)
    ensures
        t.wf(),
{
    let now = chrono::Local::now();
    TimeOfDay {
        hour: chrono::Timelike::hour(&now) as u8,
        minute: chrono::Timelike::minute(&now) as u8,
        second: chrono::Timelike::second(&now) as u8,
    }
}

/// What `serde_urlencoded::to_string` makes of a list of name/value pairs.
pub uninterp spec fn form_encoded(pairs: Seq<(Seq<char>, Seq<char>)>) -> Seq<char>;

/// The views of a list of string pairs.
pub open spec fn pair_views(pairs: Seq<(String, String)>) -> Seq<(Seq<char>, Seq<char>)> {
    pairs.map_values(|p: (String, String)| (p.0@, p.1@))
}

/// Encodes name/value pairs as an `application/x-www-form-urlencoded` body.
/// Relies on `serde_urlencoded::to_string`, which on a sequence of pairs of
/// strings serializes each pair with `append_pair` and always returns `Ok`.
#[verifier::external_body]
fn encode_form(pairs: &Vec<(String, String)>) -> (r: Option<String>)
    ensures
        r is Some,
        r matches Some(body) ==> body@ == form_encoded(pair_views(pairs@)),
{
    serde_urlencoded::to_string(pairs).ok()
}

/// What `str::to_lowercase` makes of a string.
pub uninterp spec fn lowercase_of(s: Seq<char>) -> Seq<char>;

/// Relies on `str::to_lowercase`: the result depends on the characters alone.
#[verifier::external_body]
fn to_lowercase(s: &str) -> (r: String)
    ensures
        r@ == lowercase_of(s@),
{
    s.to_lowercase()
}

/// What a backend is handed to deliver a message.
pub enum Delivery {
    /// An HTTPS POST of a form-encoded body.
    FormPost { url: String, body: String },
    /// A bot message to a chat.
    ChatMessage { chat_id: i64, text: String },
}

/// Why no notifier or no delivery could be made.
#[derive(PartialEq, Eq, Structural, Clone, Copy, Debug)]
pub enum NotifierError {
    /// The configuration has no notifier section.
    NoNotifierConfig,
    /// The configured notifier kind is neither `serverchan` nor `telegram`.
    UnknownNotifierKind,
}

/// A reporting backend.
pub trait Notifier {
    /// Whether a run that took `elapsed` seconds is worth reporting.
    fn should_send(&self, elapsed: u64) -> bool;

    /// What to hand the backend to send `content` under `title`.
    fn outgoing(&self, title: &str, content: &str) -> Delivery;
}

/// A ServerChan push endpoint, addressed by its send key.
pub struct ServerChan {
    pub send_key: String,
}

/// The endpoint a ServerChan key posts to.
pub open spec fn serverchan_url(key: Seq<char>) -> Seq<char> {
    "https://sctapi.ftqq.com/"@ + key + ".send"@
}

/// The form a ServerChan push carries: the title as `text`, the content as
/// `desp`.
pub open spec fn serverchan_form(title: Seq<char>, content: Seq<char>) -> Seq<
    (Seq<char>, Seq<char>),
> {
    seq![("text"@, title), ("desp"@, content)]
}

impl ServerChan {
    /// A ServerChan notifier with the configured secret as its key.
    pub fn new_notifer(config: &Config) -> (r: Result<ServerChan, NotifierError>)
        ensures
            match config.notifier {
                Some(n) => r matches Ok(s) && s.send_key@ == n.secret@,
                None => r == Err::<ServerChan, NotifierError>(NotifierError::NoNotifierConfig),
            },
    {
        match &config.notifier {
            Some(n) => Ok(ServerChan { send_key: n.secret.clone() }),
            None => Err(NotifierError::NoNotifierConfig),
        }
    }
}

impl Notifier for ServerChan {
    fn should_send(&self, elapsed: u64) -> (r: bool)
        ensures
            r,
    {
        true
    }

    fn outgoing(&self, title: &str, content: &str) -> (r: Delivery)
        ensures
            r matches Delivery::FormPost { url, body } && url@ == serverchan_url(self.send_key@)
                && body@ == form_encoded(serverchan_form(title@, content@)),
    {
        let mut pairs: Vec<(String, String)> = Vec::new();
        pairs.push((String::from_str("text"), String::from_str(title)));
        pairs.push((String::from_str("desp"), String::from_str(content)));
        assert(pair_views(pairs@) =~= serverchan_form(title@, content@));
        let body = encode_form(&pairs).unwrap();
        let mut url = String::from_str("https://sctapi.ftqq.com/");
        url.append(self.send_key.as_str());
        url.append(".send");
        Delivery::FormPost { url, body }
    }
}

/// A Telegram bot writing to one chat; runs shorter than the threshold are
/// not reported.
pub struct Telegram {
    pub bot_token: String,
    pub chat_id: i64,
    pub elapsed_threshold: u64,
}

/// The text a Telegram message carries: `{title}: {content}`.
pub open spec fn telegram_text(title: Seq<char>, content: Seq<char>) -> Seq<char> {
    title + ": "@ + content
}

impl Telegram {
    /// A Telegram notifier with the configured secret as its bot token.
    pub fn new_notifier(config: &Config) -> (r: Result<Telegram, NotifierError>)
        ensures
            match config.notifier {
                Some(n) => r matches Ok(t) && t.bot_token@ == n.secret@ && t.chat_id == n.chat_id
                    && t.elapsed_threshold == n.elapsed_threshold,
                None => r == Err::<Telegram, NotifierError>(NotifierError::NoNotifierConfig),
            },
    {
        match &config.notifier {
            Some(n) => Ok(
                Telegram {
                    bot_token: n.secret.clone(),
                    chat_id: n.chat_id,
                    elapsed_threshold: n.elapsed_threshold,
                },
            ),
            None => Err(NotifierError::NoNotifierConfig),
        }
    }
}

impl Notifier for Telegram {
    fn should_send(&self, elapsed: u64) -> (r: bool)
        ensures
            r == (elapsed >= self.elapsed_threshold),
    {
        elapsed >= self.elapsed_threshold
    }

    fn outgoing(&self, title: &str, content: &str) -> (r: Delivery)
        ensures
            r matches Delivery::ChatMessage { chat_id, text } && chat_id == self.chat_id
                && text@ == telegram_text(title@, content@),
    {
        let mut text = String::from_str(title);
        text.append(": ");
        text.append(content);
        Delivery::ChatMessage { chat_id: self.chat_id, text }
    }
}


/// A configured backend.
pub enum NotifierTarget {
    ServerChan(ServerChan),
    Telegram(Telegram),
}

/// The kinds of backend a configuration can name.
#[derive(PartialEq, Eq, Structural, Clone, Copy, Debug)]
pub enum NotifierKind {
    ServerChan,
    Telegram,
}

/// The backend a lowercased kind names.
pub open spec fn kind_named(lowered: Seq<char>) -> Option<NotifierKind> {
    if lowered == "serverchan"@ {
        Some(NotifierKind::ServerChan)
    } else if lowered == "telegram"@ {
        Some(NotifierKind::Telegram)
    } else {
        None
    }
}

/// The backend a lowercased kind names, if any.
pub fn notifier_kind(lowered: &str) -> (r: Option<NotifierKind>)
    ensures
        r == kind_named(lowered@),
{
    if str_eq(lowered, "serverchan") {
        Some(NotifierKind::ServerChan)
    } else if str_eq(lowered, "telegram") {
        Some(NotifierKind::Telegram)
    } else {
        None
    }
}

/// The backend a configuration asks for: none without a notifier section,
/// else the one its kind names in any letter case.
pub fn new_notifier(config: &Config) -> (r: Result<Option<NotifierTarget>, NotifierError>)
    ensures
        config.notifier is None ==> r matches Ok(None),
        config.notifier matches Some(n) ==> match kind_named(lowercase_of(n.kind@)) {
            Some(NotifierKind::ServerChan) => r matches Ok(Some(NotifierTarget::ServerChan(s)))
                && s.send_key@ == n.secret@,
            Some(NotifierKind::Telegram) => r matches Ok(Some(NotifierTarget::Telegram(t)))
                && t.bot_token@ == n.secret@ && t.chat_id == n.chat_id && t.elapsed_threshold
                == n.elapsed_threshold,
            None => r == Err::<Option<NotifierTarget>, NotifierError>(
                NotifierError::UnknownNotifierKind,
            ),
        },
{
    match &config.notifier {
        None => Ok(None),
        Some(n) => {
            let lowered = to_lowercase(n.kind.as_str());
            match notifier_kind(lowered.as_str()) {
                Some(NotifierKind::ServerChan) => match ServerChan::new_notifer(config) {
                    Ok(s) => Ok(Some(NotifierTarget::ServerChan(s))),
                    Err(e) => Err(e),
                },
                Some(NotifierKind::Telegram) => match Telegram::new_notifier(config) {
                    Ok(t) => Ok(Some(NotifierTarget::Telegram(t))),
                    Err(e) => Err(e),
                },
                None => Err(NotifierError::UnknownNotifierKind),
            }
        },
    }
}

/// Whether the backend declines to report a run of the given length: only a
/// Telegram backend does, for runs shorter than its threshold.
pub open spec fn gated_out(target: NotifierTarget, elapsed: Option<u64>) -> bool {
    match target {
        NotifierTarget::Telegram(t) => match elapsed {
            Some(e) => e < t.elapsed_threshold,
            None => false,
        },
        NotifierTarget::ServerChan(_) => false,
    }
}

/// Whether `d` is what `target` is handed to send `content` under `title`.
pub open spec fn delivers(
    d: Delivery,
    target: NotifierTarget,
    title: Seq<char>,
    content: Seq<char>,
) -> bool {
    match target {
        NotifierTarget::ServerChan(s) => d matches Delivery::FormPost { url, body } && url@
            == serverchan_url(s.send_key@) && body@ == form_encoded(serverchan_form(title, content)),
        NotifierTarget::Telegram(t) => d matches Delivery::ChatMessage { chat_id, text } && chat_id
            == t.chat_id && text@ == telegram_text(title, content),
    }
}

/// The outcome of reporting a run that ended with `exit_code` at time `t`:
/// nothing without a backend or when the backend declines; else exactly one
/// delivery of the run's message under the title `ubuild`.
pub open spec fn notify_outcome(
    r: Option<Delivery>,
    target: Option<NotifierTarget>,
    exit_code: int,
    elapsed: Option<u64>,
    t: TimeOfDay,
) -> bool {
    match target {
        None => r is None,
        Some(tg) => if gated_out(tg, elapsed) {
            r is None
        } else {
            r matches Some(d) && delivers(d, tg, "ubuild"@, notification_text(exit_code, t))
        },
    }
}

/// Decides whether and how a finished run is reported, at time `t`.
pub fn maybe_notify(
    target: &Option<NotifierTarget>,
    exit_code: i32,
    elapsed: Option<u64>,
    t: &TimeOfDay,
) -> (r: Option<Delivery>)
    requires
        t.wf(),
    ensures
        notify_outcome(r, *target, exit_code as int, elapsed, *t),
{
    match target {
        None => None,
        Some(tg) => {
            let declined = match tg {
                NotifierTarget::Telegram(tel) => match elapsed {
                    Some(e) => !tel.should_send(e),
                    None => false,
                },
                NotifierTarget::ServerChan(_) => false,
            };
            if declined {
                return None;
            }
            let body = notification_body(exit_code, t);
            let sent = match tg {
                NotifierTarget::ServerChan(s) => s.outgoing("ubuild", body.as_str()),
                NotifierTarget::Telegram(tel) => tel.outgoing("ubuild", body.as_str()),
            };
            Some(sent)
        },
    }
}

/// Decides whether and how a finished run is reported, now.
pub fn notify_now(target: &Option<NotifierTarget>, exit_code: i32, elapsed: Option<u64>) -> (r:
    Option<Delivery>)
    ensures
        exists|t: TimeOfDay| t.wf() && notify_outcome(r, *target, exit_code as int, elapsed, t),
{
    let t = local_time_of_day();
    maybe_notify(target, exit_code, elapsed, &t)
}

} // verus!
