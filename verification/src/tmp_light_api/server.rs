//! The rules of the light-control web server: who gets in, what a refused
//! request is told and logged, the short log the server keeps, which scene
//! each web action plays, and how the public tunnel is configured.

use vstd::prelude::*;
use vstd::string::*;
use crate::app_error::AppError;
use crate::text::{contains_seq, lemma_replace_absent, occurs_at, replace_all, replace_all_str, str_eq};
use crate::tools::zigbee::{Brightness, ColorTemp, Scene};

verus! {

/// How many log entries the server keeps.
pub const MAX_LOGS: usize = 20;

/// The `n` last entries of `s` (all of them when there are fewer).
pub open spec fn last_entries<A>(s: Seq<A>, n: nat) -> Seq<A> {
    if s.len() > n {
        s.subrange(s.len() - n, s.len() as int)
    } else {
        s
    }
}

/// The server's log: the most recent messages with the time each was logged,
/// oldest first.
pub struct LogBook<T> {
    entries: Vec<(T, String)>,
}

impl<T> View for LogBook<T> {
    type V = Seq<(T, Seq<char>)>;

    closed spec fn view(&self) -> Seq<(T, Seq<char>)> {
        self.entries@.map_values(|e: (T, String)| (e.0, e.1@))
    }
}

impl<T> LogBook<T> {
    #[verifier::type_invariant]
    spec fn bounded(self) -> bool {
        self.entries@.len() <= MAX_LOGS
    }
}

impl<T: Copy> LogBook<T> {
    /// An empty log.
    pub fn new() -> (b: Self)
        ensures
            b@ == Seq::<(T, Seq<char>)>::empty(),
    {
        let b = LogBook { entries: Vec::new() };
        assert(b@ =~= Seq::<(T, Seq<char>)>::empty());
        b
    }

    /// Records `message` at time `at`, keeping only the last `MAX_LOGS`
    /// entries.
    pub fn log(&mut self, at: T, message: String)
        ensures
            final(self)@ == last_entries(old(self)@.push((at, message@)), MAX_LOGS as nat),
    {
        proof {
            use_type_invariant(&*self);
        }
        let ghost pushed = self@.push((at, message@));
        let mut entries = Vec::new();
        std::mem::swap(&mut entries, &mut self.entries);
        entries.push((at, message));
        assert(entries@.map_values(|e: (T, String)| (e.0, e.1@)) =~= pushed);
        if entries.len() > MAX_LOGS {
            entries.remove(0);
            assert(entries@.map_values(|e: (T, String)| (e.0, e.1@)) =~= last_entries(
                pushed,
                MAX_LOGS as nat,
            ));
        }
        self.entries = entries;
    }

    /// A copy of the entries, oldest first.
    pub fn get_logs(&self) -> (logs: Vec<(T, String)>)
        ensures
            logs@.map_values(|e: (T, String)| (e.0, e.1@)) == self@,
            logs@.len() <= MAX_LOGS,
    {
        proof {
            use_type_invariant(self);
        }
        let mut logs: Vec<(T, String)> = Vec::new();
        let n = self.entries.len();
        for i in 0..n
            invariant
                n == self.entries@.len(),
                logs@.map_values(|e: (T, String)| (e.0, e.1@)) == self.entries@.take(
                    i as int,
                ).map_values(|e: (T, String)| (e.0, e.1@)),
        {
            let entry = &self.entries[i];
            logs.push((entry.0, String::from_str(entry.1.as_str())));
            assert(self.entries@.take(i + 1).map_values(|e: (T, String)| (e.0, e.1@))
                =~= self.entries@.take(i as int).map_values(|e: (T, String)| (e.0, e.1@)).push(
                (entry.0, entry.1@),
            ));
            assert(logs@.map_values(|e: (T, String)| (e.0, e.1@)) =~= self.entries@.take(
                i + 1,
            ).map_values(|e: (T, String)| (e.0, e.1@)));
        }
        assert(self.entries@.take(n as int) =~= self.entries@);
        logs
    }
}

/// The text of `secs` seconds after the Unix epoch in UTC, as chrono
/// formats it with the strftime `pattern`; `None` when the time is out of
/// chrono's range or the pattern is not one chrono accepts.
pub uninterp spec fn utc_text(secs: i64, pattern: Seq<char>) -> Option<Seq<char>>;

/// The current time, in whole seconds since the Unix epoch
/// (`chrono::Utc::now().timestamp()`). It depends on the clock, so nothing
/// is promised of it.
#[verifier::external_body]
fn utc_now_secs() -> i64 {
    chrono::Utc::now().timestamp()
}

/// `secs` seconds after the Unix epoch formatted by chrono with `pattern`
/// (`DateTime::from_timestamp`, then `format(pattern).write_to`); `None`
/// when `from_timestamp` finds the time out of range or `write_to` fails on
/// the pattern. The text depends on the two arguments alone; what it is, is
/// named, not stated.
#[verifier::external_body]
fn format_utc(secs: i64, pattern: &str) -> (t: Option<String>)
    ensures
        utc_text(secs, pattern@) == match t {
            Some(s) => Some(s@),
            None => None,
        },
{
    let time = chrono::DateTime::from_timestamp(secs, 0)?;
    let mut text = String::new();
    match time.format(pattern).write_to(&mut text) {
        Ok(()) => Some(text),
        Err(_) => None,
    }
}

/// How the logs show a time: date, time of day and `UTC`.
pub const LOG_TIME_FORMAT: &'static str = "%Y-%m-%d %H:%M:%S UTC";

/// The text shown for a log time: its UTC text in `LOG_TIME_FORMAT`, or
/// nothing when it cannot be formatted.
pub open spec fn shown_time(secs: i64) -> Seq<char> {
    match utc_text(secs, LOG_TIME_FORMAT@) {
        Some(t) => t,
        None => Seq::empty(),
    }
}

/// `shown` is log entry `e` with its time as UTC text.
pub open spec fn shows_entry(shown: (String, String), e: (i64, Seq<char>)) -> bool {
    shown.0@ == shown_time(e.0) && shown.1@ == e.1
}

impl LogBook<i64> {
    /// Records `message` at the current time (seconds since the epoch).
    pub fn log_now(&mut self, message: String)
        ensures
            exists|at: i64| final(self)@ == last_entries(
                #[trigger] old(self)@.push((at, message@)),
                MAX_LOGS as nat,
            ),
    {
        let at = utc_now_secs();
        self.log(at, message);
    }

    /// The entries with their times as UTC text, oldest first.
    pub fn formatted(&self) -> (logs: Vec<(String, String)>)
        ensures
            logs@.len() == self@.len(),
            forall|i: int| 0 <= i < self@.len() ==> shows_entry(#[trigger] logs@[i], self@[i]),
    {
        let entries = self.get_logs();
        let mut out: Vec<(String, String)> = Vec::new();
        let n = entries.len();
        for i in 0..n
            invariant
                n == entries@.len(),
                entries@.map_values(|e: (i64, String)| (e.0, e.1@)) == self@,
                out@.len() == i,
                forall|j: int| 0 <= j < i ==> shows_entry(#[trigger] out@[j], self@[j]),
        {
            let entry = &entries[i];
            assert(self@[i as int] == (entry.0, entry.1@));
            let ghost before = out@;
            let time = match format_utc(entry.0, LOG_TIME_FORMAT) {
                Some(t) => t,
                None => String::new(),
            };
            out.push((time, String::from_str(entry.1.as_str())));
            assert(forall|j: int| 0 <= j < i ==> out@[j] == before[j]);
        }
        out
    }
}

/// Logging keeps the newest message last, never holds more than `MAX_LOGS`
/// entries, and drops nothing while there is room.
pub proof fn lemma_log_keeps_latest<T>(old_log: Seq<(T, Seq<char>)>, entry: (T, Seq<char>))
    requires
        old_log.len() <= MAX_LOGS,
    ensures
        ({
            let new_log = last_entries(old_log.push(entry), MAX_LOGS as nat);
            &&& new_log.len() <= MAX_LOGS
            &&& new_log.last() == entry
            &&& old_log.len() < MAX_LOGS ==> new_log == old_log.push(entry)
            &&& old_log.len() == MAX_LOGS ==> new_log == old_log.drop_first().push(entry)
        }),
{
    let pushed = old_log.push(entry);
    if old_log.len() == MAX_LOGS {
        assert(last_entries(pushed, MAX_LOGS as nat) =~= old_log.drop_first().push(entry));
    }
}

/// The log after recording `entries` one by one, oldest first, starting
/// from an empty log.
pub open spec fn logged<T>(entries: Seq<(T, Seq<char>)>) -> Seq<(T, Seq<char>)>
    decreases entries.len(),
{
    if entries.len() == 0 {
        Seq::empty()
    } else {
        last_entries(logged(entries.drop_last()).push(entries.last()), MAX_LOGS as nat)
    }
}

/// Whatever sequence of messages is logged into an empty log, the log holds
/// the `MAX_LOGS` most recent of them (all, when fewer), in the order they
/// were logged.
pub proof fn lemma_logging_keeps_most_recent<T>(entries: Seq<(T, Seq<char>)>)
    ensures
        logged(entries) == last_entries(entries, MAX_LOGS as nat),
        logged(entries).len() <= MAX_LOGS,
    decreases entries.len(),
{
    if entries.len() > 0 {
        let d = entries.drop_last();
        let x = entries.last();
        lemma_logging_keeps_most_recent(d);
        assert(entries =~= d.push(x));
        let n = MAX_LOGS as int;
        if d.len() >= n {
            assert(last_entries(d, MAX_LOGS as nat).push(x).subrange(1, n + 1) =~= entries.subrange(
                entries.len() - n,
                entries.len() as int,
            ));
        }
    }
}

/// The password-protected routes of the server.
#[derive(Debug, Clone, Copy, PartialEq, Eq, Structural)]
pub enum Page {
    Login,
    Control,
    Logs,
    LogsApi,
    SetLight,
}

/// What the server logs when a request to `p` brings a wrong password.
pub open spec fn refusal_log(p: Page) -> Seq<char> {
    match p {
        Page::Login => "Login failed: Incorrect password"@,
        Page::Control => "Control page access failed: Incorrect password"@,
        Page::Logs => "Logs page access failed: Incorrect password"@,
        Page::LogsApi => "Logs API access failed: Incorrect password"@,
        Page::SetLight => "Set light failed: Incorrect password"@,
    }
}

/// The body a refused request receives: `Nope`, or an empty JSON list from
/// the logs API.
pub open spec fn refusal_body(p: Page) -> Seq<char> {
    match p {
        Page::LogsApi => "[]"@,
        _ => "Nope"@,
    }
}

/// The status of a refused request: unauthorized.
pub const UNAUTHORIZED: u16 = 401;

/// The answer to a request whose password is wrong.
pub struct Refusal {
    pub status: u16,
    pub body: &'static str,
    pub log_message: &'static str,
}

/// Lets a request in when its password is the server's; otherwise the
/// refusal to send and to log.
pub fn check_password(password: &str, given: &str, page: Page) -> (r: Result<(), Refusal>)
    ensures
        r is Ok <==> given@ == password@,
        r matches Err(f) ==> f.status == UNAUTHORIZED && f.body@ == refusal_body(page)
            && f.log_message@ == refusal_log(page),
{
    if str_eq(given, password) {
        return Ok(());
    }
    let log_message = match page {
        Page::Login => "Login failed: Incorrect password",
        Page::Control => "Control page access failed: Incorrect password",
        Page::Logs => "Logs page access failed: Incorrect password",
        Page::LogsApi => "Logs API access failed: Incorrect password",
        Page::SetLight => "Set light failed: Incorrect password",
    };
    let body = match page {
        Page::LogsApi => "[]",
        _ => "Nope",
    };
    Err(Refusal { status: UNAUTHORIZED, body, log_message })
}

/// The reply to a successful login: status 200, `Success`.
pub fn login_reply() -> (r: (u16, &'static str))
    ensures
        r.0 == 200,
        r.1@ == "Success"@,
{
    (200, "Success")
}

/// The reply to a light action: status 200 either way, `OK` when the
/// controller carried it out, `Controller action failed` otherwise.
pub fn set_light_reply(succeeded: bool) -> (r: (u16, &'static str))
    ensures
        r.0 == 200,
        r.1@ == (if succeeded {
            "OK"@
        } else {
            "Controller action failed"@
        }),
{
    if succeeded {
        (200, "OK")
    } else {
        (200, "Controller action failed")
    }
}

/// The light actions of the web page.
#[derive(Debug, Clone, Copy, PartialEq, Eq, Structural)]
pub enum LightAction {
    AllOff,
    AllOn,
    NightMode,
    MovieMode,
    PartyMode,
}

/// The scene a web action plays; all on means medium and warm.
pub open spec fn action_scene(a: LightAction) -> Scene {
    match a {
        LightAction::AllOff => Scene::AllOff,
        LightAction::AllOn => Scene::AllOn(Brightness::Medium, ColorTemp::Warm),
        LightAction::NightMode => Scene::Night,
        LightAction::MovieMode => Scene::Movie,
        LightAction::PartyMode => Scene::Party,
    }
}

impl LightAction {
    pub fn scene(&self) -> (s: Scene)
        ensures
            s == action_scene(*self),
    {
        match self {
            LightAction::AllOff => Scene::AllOff,
            LightAction::AllOn => Scene::AllOn(Brightness::Medium, ColorTemp::Warm),
            LightAction::NightMode => Scene::Night,
            LightAction::MovieMode => Scene::Movie,
            LightAction::PartyMode => Scene::Party,
        }
    }
}

/// The tunnel's domain with every `https://` and then every `http://`
/// removed.
pub open spec fn tunnel_domain(raw: Seq<char>) -> Seq<char> {
    replace_all(replace_all(raw, "https://"@, ""@), "http://"@, ""@)
}

/// The tunnel's domain as configured, without scheme prefixes.
pub fn ngrok_domain(raw: &str) -> (d: String)
    ensures
        d@ == tunnel_domain(raw@),
{
    proof {
        reveal_strlit("https://");
        reveal_strlit("http://");
    }
    let without_https = replace_all_str(raw, "https://", "");
    replace_all_str(without_https.as_str(), "http://", "")
}

/// Message when the tunnel's auth token is not set.
pub const TOKEN_MISSING: &'static str = "NGROK_AUTHTOKEN environment variable not set. Get your token from https://dashboard.ngrok.com/get-started/your-authtoken";

/// Message when the tunnel's auth token is still a placeholder.
pub const TOKEN_UNCONFIGURED: &'static str = "NGROK_AUTHTOKEN is not configured. Please set it to your actual ngrok auth token from https://dashboard.ngrok.com/get-started/your-authtoken";

/// The tunnel's auth token, refused when it is missing, empty or the
/// placeholder `FILLIN`.
pub fn check_auth_token(token: Option<String>) -> (r: Result<String, AppError>)
    ensures
        match token {
            None => r matches Err(AppError::Internal(m)) && m@ == TOKEN_MISSING@,
            Some(t) => if t@.len() == 0 || t@ == "FILLIN"@ {
                r matches Err(AppError::Internal(m)) && m@ == TOKEN_UNCONFIGURED@
            } else {
                r matches Ok(v) && v@ == t@
            },
        },
{
    match token {
        None => Err(AppError::Internal(String::from_str(TOKEN_MISSING))),
        Some(t) => {
            if t.as_str().unicode_len() == 0 || str_eq(t.as_str(), "FILLIN") {
                Err(AppError::Internal(String::from_str(TOKEN_UNCONFIGURED)))
            } else {
                Ok(t)
            }
        },
    }
}

/// A domain configured without a scheme is used as it is, and one written
/// `https://<host>` or `http://<host>` becomes `<host>`.
pub proof fn lemma_tunnel_domain_strips_scheme(host: Seq<char>)
    requires
        !contains_seq(host, "https://"@),
        !contains_seq(host, "http://"@),
    ensures
        tunnel_domain(host) == host,
        tunnel_domain("https://"@ + host) == host,
        tunnel_domain("http://"@ + host) == host,
{
    reveal_strlit("https://");
    reveal_strlit("http://");
    reveal_strlit("");
    let s = "https://"@;
    let h = "http://"@;
    lemma_replace_absent(host, s, ""@);
    lemma_replace_absent(host, h, ""@);
    let a = s + host;
    assert(a.subrange(0, s.len() as int) =~= s);
    assert(a.subrange(s.len() as int, a.len() as int) =~= host);
    assert(replace_all(a, s, ""@) =~= host);
    let b = h + host;
    assert(b.subrange(0, h.len() as int) =~= h);
    assert(b.subrange(h.len() as int, b.len() as int) =~= host);
    assert(replace_all(b, h, ""@) =~= host);
    assert forall|i: int| !#[trigger] occurs_at(b, s, i) by {
        if occurs_at(b, s, i) {
            if i == 0 {
                assert(b.subrange(0, 8)[4] == s[4]);
            } else if i < h.len() {
                assert(b.subrange(i, i + s.len())[0] == s[0]);
                assert(b[i] == h[i]);
            } else {
                assert(b.subrange(i, i + s.len()) =~= host.subrange(
                    i - h.len(),
                    i - h.len() + s.len(),
                ));
                assert(occurs_at(host, s, i - h.len()));
            }
        }
    }
    lemma_replace_absent(b, s, ""@);
}

/// Each web action plays its own scene and no other: all off, all on at
/// medium brightness and warm, night, movie, party.
pub proof fn lemma_web_actions_choose_scenes(a: LightAction)
    ensures
        action_scene(a) == Scene::AllOff <==> a == LightAction::AllOff,
        action_scene(a) == Scene::AllOn(Brightness::Medium, ColorTemp::Warm) <==> a
            == LightAction::AllOn,
        action_scene(a) == Scene::Night <==> a == LightAction::NightMode,
        action_scene(a) == Scene::Movie <==> a == LightAction::MovieMode,
        action_scene(a) == Scene::Party <==> a == LightAction::PartyMode,
{
}

} // verus!
