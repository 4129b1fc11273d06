//! The session: discovery of the server, the login links, the token, and
//! the order in which a bot goes through them to connect. Each function
//! takes what a request returned and says what to ask for next.

use crate::bot::{lemma_more_lines, lemma_no_line, lemma_one_line, log_lines, Bot};
use crate::bot_info::{ELoginMethod, Info, LogLevel, State};
use crate::login_info::LoginFields;
use crate::text::{
    decimal, decimal_string, find_value, lookup, pairs_of, pairs_view, parse_pairs, texts_of,
};
use vstd::prelude::*;
use vstd::string::StringExecFns;
use vstd::utf8::{decode_utf8, encode_utf8};

verus! {

/// The first status of a reply that carries a body to read.
pub const HTTP_OK: u16 = 200;

/// The last status of a reply that carries a body to read.
pub const HTTP_OK_LAST: u16 = 299;

/// What a request returned: the status and the body.
#[derive(Debug, Clone)]
pub struct HttpReply {
    pub status: u16,
    pub body: String,
}

/// The request that gets a token, by login method.
#[derive(Debug, Clone)]
pub enum TokenRequest {
    Google { url: String, username: String, password: String },
    Legacy { url: String, username: String, password: String },
    Steam {
        recovery_code: String,
        username: String,
        password: String,
        steam_username: String,
        steam_password: String,
    },
}

/// Why no token can be asked for.
#[derive(Debug, Clone, Copy, PartialEq, Eq, Structural)]
pub enum TokenError {
    /// The login method has no way to a token.
    InvalidMethod,
    /// The credentials hold fewer fields than the login method needs.
    MissingCredentials,
}

/// What the refresh endpoint said of a token.
#[derive(Debug, Clone)]
pub enum TokenCheck {
    /// The token holds; this is the one to go on with.
    Valid(String),
    /// The token does not hold.
    Invalid,
}

/// The answer to a request of the session.
#[derive(Debug)]
pub enum Reply {
    /// What a request over HTTP returned, or why the request failed.
    Http(Result<HttpReply, String>),
    /// The token that a login returned, or why the login failed.
    Token(Result<String, String>),
}

/// What the engine does next for the session.
#[derive(Debug, Clone)]
pub enum Command {
    /// Post an empty body to the discovery endpoint at `url`.
    FetchServerData { url: String },
    /// Post `body` to the dashboard.
    FetchOAuthLinks { body: String },
    /// Post the token and the fingerprint to the refresh endpoint.
    CheckToken { refresh_token: String, client_data: String },
    /// Get a token by the login method.
    AcquireToken(TokenRequest),
    /// Back off, then make the last request again.
    Backoff,
    /// Wait a second, then make the last request again.
    Pause,
    /// Open the connection to the server.
    Connect { ip: String, port: String },
    /// Give the attempt up.
    Abort,
}

/// The string member `key` of the JSON object that `text` spells: `None`
/// where `text` is no JSON, no object, or holds no string under `key`.
pub uninterp spec fn json_string_member(text: Seq<char>, key: Seq<char>) -> Option<Seq<char>>;

/// The matches of the regular expression `pattern` in `text`, from left to
/// right and without overlap: `None` where `pattern` is no regular
/// expression.
pub uninterp spec fn regex_matches(pattern: Seq<char>, text: Seq<char>) -> Option<Seq<Seq<char>>>;

/// Whether a byte stands for itself in a percent-encoded text: the ASCII
/// letters and digits, `-`, `.`, `_` and `~`.
pub open spec fn unreserved(b: u8) -> bool {
    ||| 0x30 <= b <= 0x39
    ||| 0x41 <= b <= 0x5A
    ||| 0x61 <= b <= 0x7A
    ||| b == 0x2D
    ||| b == 0x2E
    ||| b == 0x5F
    ||| b == 0x7E
}

/// The ASCII digit of a number below sixteen, in upper case.
pub open spec fn hex_digit(d: u8) -> u8 {
    if d < 10 {
        (0x30 + d) as u8
    } else {
        (0x37 + d) as u8
    }
}

/// The bytes with each one that does not stand for itself replaced by a
/// percent sign and its two hexadecimal digits.
pub open spec fn percent_encoded(bytes: Seq<u8>) -> Seq<u8>
    decreases bytes.len(),
{
    if bytes.len() == 0 {
        Seq::empty()
    } else if unreserved(bytes[0]) {
        seq![bytes[0]] + percent_encoded(bytes.skip(1))
    } else {
        seq![0x25u8, hex_digit(bytes[0] / 16), hex_digit(bytes[0] % 16)] + percent_encoded(
            bytes.skip(1),
        )
    }
}

/// `text` with every byte of its UTF-8 form percent-encoded, but for
/// letters, digits, `-`, `_`, `.` and `~`.
pub open spec fn url_encoded(text: Seq<char>) -> Seq<char> {
    decode_utf8(percent_encoded(encode_utf8(text)))
}

/// Parses `text` with `serde_json::from_str` into a `serde_json::Value`,
/// looks `key` up with `Value::get` and reads the member with
/// `Value::as_str`. The contract names the result and claims only that it
/// depends on the two texts alone.
#[verifier::external_body]
fn json_member(text: &str, key: &str) -> (r: Option<String>)
    ensures
        match r {
            Some(s) => json_string_member(text@, key@) == Some(s@),
            None => json_string_member(text@, key@).is_none(),
        },
{
    let value: serde_json::Value = serde_json::from_str(text).ok()?;
    value.get(key)?.as_str().map(|s| s.to_owned())
}

/// Compiles `pattern` with `regex::Regex::new` and collects the text of
/// each match that `Regex::find_iter` yields in `text`. The contract names
/// the result and claims only that it depends on the two texts alone.
#[verifier::external_body]
fn find_all(pattern: &str, text: &str) -> (r: Option<Vec<String>>)
    ensures
        match r {
            Some(found) => regex_matches(pattern@, text@) == Some(texts_of(found@)),
            None => regex_matches(pattern@, text@).is_none(),
        },
{
    match regex::Regex::new(pattern) {
        Ok(re) => Some(re.find_iter(text).map(|m| m.as_str().to_owned()).collect()),
        Err(_) => None,
    }
}

/// Calls `urlencoding::encode`, which percent-encodes every byte of the
/// text but letters, digits, `-`, `_`, `.` and `~`, with upper-case
/// hexadecimal digits. The contract claims exactly that of the bytes of the
/// result.
#[verifier::external_body]
fn url_encode(text: &str) -> (r: String)
    ensures
        encode_utf8(r@) == percent_encoded(encode_utf8(text@)),
{
    urlencoding::encode(text).into_owned()
}

/// Percent-encodes a text.
pub fn percent_encode(text: &str) -> (r: String)
    ensures
        r@ == url_encoded(text@),
{
    let r = url_encode(text);
    proof {
        vstd::utf8::encode_utf8_decode_utf8(r@);
    }
    r
}

/// The discovery endpoint, the first or the alternate one.
pub open spec fn discovery_url(use_alternate: bool) -> Seq<char> {
    if use_alternate {
        "https://www.growtopia2.com/growtopia/server_data.php"@
    } else {
        "https://www.growtopia1.com/growtopia/server_data.php"@
    }
}

/// The pattern of the three login links in the dashboard's page.
pub open spec fn link_pattern() -> Seq<char> {
    "https://login\\.growtopiagame\\.com/(apple|google|player/growid)/(login|redirect)\\?token=[^\"]+"@
}

/// The links that the matches of the pattern give: the matches, or none
/// where there is no pattern to match.
pub open spec fn links_of(matches: Option<Seq<Seq<char>>>) -> Seq<Seq<char>> {
    match matches {
        Some(found) => found,
        None => Seq::empty(),
    }
}

/// What the refresh endpoint's answer means: the token holds exactly when
/// the status is `success`, and the new token is the one that the answer
/// names, or empty where it names none.
pub open spec fn checked(status: Option<Seq<char>>, token: Option<Seq<char>>) -> Option<Seq<char>> {
    if status == Some("success"@) {
        match token {
            Some(t) => Some(t),
            None => Some(Seq::empty()),
        }
    } else {
        None
    }
}

/// Whether a reply carries a body to read: the request went through and
/// the status is one of success.
pub open spec fn readable(reply: Result<HttpReply, String>) -> bool {
    reply.is_ok() && reply.unwrap().succeeded()
}

/// The line that tells of a request that failed.
pub open spec fn request_error(message: Seq<char>) -> (LogLevel, Seq<char>) {
    (LogLevel::Error, "Request error: "@ + message + ", retrying..."@)
}

/// The line that tells of a login that returned no token.
pub open spec fn token_failure(method: ELoginMethod, message: Seq<char>) -> (LogLevel, Seq<char>) {
    (
        LogLevel::Error,
        match method {
            ELoginMethod::GOOGLE => "Failed to get Google token: "@,
            ELoginMethod::LEGACY => "Failed to get legacy token: "@,
            ELoginMethod::STEAM => "Failed to get Ubisoft token: "@,
            ELoginMethod::APPLE => "Failed to get token: "@,
        } + message,
    )
}

/// The line that tells why no token can be asked for.
pub open spec fn token_error_line(error: TokenError) -> (LogLevel, Seq<char>) {
    match error {
        TokenError::InvalidMethod => (LogLevel::Warn, "Invalid login method"@),
        TokenError::MissingCredentials => (LogLevel::Error, "Login credentials are missing"@),
    }
}

impl HttpReply {
    /// Whether the status is one of success.
    pub open spec fn succeeded(self) -> bool {
        HTTP_OK <= self.status <= HTTP_OK_LAST
    }

    /// Whether the status is one of success.
    pub fn is_success(&self) -> (r: bool)
        ensures
            r == self.succeeded(),
    {
        HTTP_OK <= self.status && self.status <= HTTP_OK_LAST
    }
}

/// The text of a list at `index`, or the empty text where the list is
/// shorter.
pub open spec fn text_at(strings: Seq<String>, index: int) -> Seq<char> {
    if 0 <= index < strings.len() {
        strings[index]@
    } else {
        Seq::empty()
    }
}

/// The value of `key` in the pairs, or the empty text where there is none.
pub open spec fn value_or_empty(pairs: Seq<(Seq<char>, Seq<char>)>, key: Seq<char>) -> Seq<char> {
    match lookup(pairs, key) {
        Some(v) => v,
        None => Seq::empty(),
    }
}

/// The links among the matches of the pattern.
pub fn links_from(matches: Option<Vec<String>>) -> (r: Vec<String>)
    ensures
        texts_of(r@) == links_of(
            match matches {
                Some(found) => Some(texts_of(found@)),
                None => None,
            },
        ),
{
    match matches {
        Some(found) => found,
        None => {
            let none: Vec<String> = Vec::new();
            assert(texts_of(none@) =~= Seq::<Seq<char>>::empty());
            none
        },
    }
}

/// The login links in the dashboard's page.
pub fn extract_links(body: &str) -> (r: Vec<String>)
    ensures
        texts_of(r@) == links_of(regex_matches(link_pattern(), body@)),
{
    let found = find_all(
        "https://login\\.growtopiagame\\.com/(apple|google|player/growid)/(login|redirect)\\?token=[^\"]+",
        body,
    );
    links_from(found)
}

/// What the refresh endpoint's answer means, given its `status` and `token`
/// members.
pub fn token_check_outcome(status: Option<String>, token: Option<String>) -> (r: TokenCheck)
    ensures
        match r {
            TokenCheck::Valid(t) => checked(
                match status {
                    Some(s) => Some(s@),
                    None => None,
                },
                match token {
                    Some(s) => Some(s@),
                    None => None,
                },
            ) == Some(t@),
            TokenCheck::Invalid => checked(
                match status {
                    Some(s) => Some(s@),
                    None => None,
                },
                match token {
                    Some(s) => Some(s@),
                    None => None,
                },
            ).is_none(),
        },
{
    match status {
        Some(s) => {
            let success = String::from_str("success");
            if s == success {
                match token {
                    Some(t) => TokenCheck::Valid(t),
                    None => TokenCheck::Valid(String::new()),
                }
            } else {
                TokenCheck::Invalid
            }
        },
        None => TokenCheck::Invalid,
    }
}

/// Reads the answer of the refresh endpoint.
pub fn read_token_check(body: &str) -> (r: TokenCheck)
    ensures
        match r {
            TokenCheck::Valid(t) => checked(
                json_string_member(body@, "status"@),
                json_string_member(body@, "token"@),
            ) == Some(t@),
            TokenCheck::Invalid => checked(
                json_string_member(body@, "status"@),
                json_string_member(body@, "token"@),
            ).is_none(),
        },
{
    let status = json_member(body, "status");
    let token = json_member(body, "token");
    token_check_outcome(status, token)
}

fn text_or_empty(strings: &Vec<String>, index: usize) -> (r: String)
    ensures
        r@ == text_at(strings@, index as int),
{
    if index < strings.len() {
        strings[index].clone()
    } else {
        String::new()
    }
}

impl Bot {
    /// Whether the session still has to get its login links: every method
    /// but the platform's own needs them, once.
    pub open spec fn needs_links(&self) -> bool {
        self.info.login_method != ELoginMethod::STEAM && self.info.oauth_links@.len() == 0
    }

    /// Whether everything but the status line, the token, the fingerprint,
    /// what discovery returned and the login links is as in `other`.
    pub open spec fn same_surroundings(&self, other: &Bot) -> bool {
        self.same_but_logs(other) && self.logs == other.logs
    }

    /// Whether the log is the one of `before` with `lines` after it.
    pub open spec fn wrote(&self, before: &Bot, lines: Seq<(LogLevel, Seq<char>)>) -> bool {
        log_lines(self.logs@) == log_lines(before.logs@) + lines
    }

    /// The lines that a session writes when it goes on to get a token: the
    /// reason, where no token can be asked for.
    pub open spec fn acquire_lines(&self) -> Seq<(LogLevel, Seq<char>)> {
        match self.token_request() {
            Ok(()) => Seq::empty(),
            Err(e) => seq![token_error_line(e)],
        }
    }

    /// The lines that a session writes when it goes on to its token: none
    /// where a stored token is checked.
    pub open spec fn token_lines(&self) -> Seq<(LogLevel, Seq<char>)> {
        if self.info.token@.len() == 0 {
            self.acquire_lines()
        } else {
            Seq::empty()
        }
    }

    /// Whether everything but the log, the status line, the token, the
    /// fingerprint, what discovery returned and the login links is as in
    /// `other`.
    pub open spec fn same_but_logs(&self, other: &Bot) -> bool {
        &&& self.info.payload == other.info.payload
        &&& self.info.recovery_code == other.info.recovery_code
        &&& self.info.login_method == other.info.login_method
        &&& self.info.ping == other.info.ping
        &&& self.info.timeout == other.info.timeout
        &&& self.state == other.state
        &&& self.server == other.server
        &&& self.position == other.position
        &&& self.temporary_data == other.temporary_data
        &&& self.peer_id == other.peer_id
        &&& self.world == other.world
        &&& self.inventory == other.inventory
        &&& self.astar == other.astar
    }

    /// What the session tells the server of itself when it asks for its
    /// token: the command that checks the stored token, or, without a
    /// token, the command that gets one.
    pub open spec fn token_step(&self, r: Command) -> bool {
        if self.info.token@.len() == 0 {
            self.acquire_step(r)
        } else {
            match r {
                Command::CheckToken { refresh_token, client_data } => {
                    &&& refresh_token@ == self.info.token@
                    &&& client_data@ == self.info.login_info@.request_body()
                    &&& self.info.status@ == "Checking refresh token"@
                },
                _ => false,
            }
        }
    }

    /// The command that gets a token by the login method, or gives up where
    /// the method has no way to one or the credentials fall short.
    pub open spec fn acquire_step(&self, r: Command) -> bool {
        &&& self.info.status@ == "Getting token"@
        &&& match self.token_request() {
            Ok(()) => match r {
                Command::AcquireToken(request) => self.asks(request),
                _ => false,
            },
            Err(_) => r is Abort,
        }
    }

    /// Whether the login method has a way to a token and the credentials
    /// hold the fields it needs, and if not, why not.
    pub open spec fn token_request(&self) -> Result<(), TokenError> {
        match self.info.login_method {
            ELoginMethod::GOOGLE | ELoginMethod::LEGACY => if self.info.payload@.len() >= 2 {
                Ok(())
            } else {
                Err(TokenError::MissingCredentials)
            },
            ELoginMethod::STEAM => if self.info.payload@.len() >= 4 {
                Ok(())
            } else {
                Err(TokenError::MissingCredentials)
            },
            ELoginMethod::APPLE => Err(TokenError::InvalidMethod),
        }
    }

    /// Whether `request` is the one that the login method asks for: the
    /// second login link for Google, the third for the legacy login, each
    /// with the first two credentials; for the platform's own login the
    /// recovery code and the first four credentials.
    pub open spec fn asks(&self, request: TokenRequest) -> bool {
        match request {
            TokenRequest::Google { url, username, password } => {
                &&& self.info.login_method == ELoginMethod::GOOGLE
                &&& self.info.payload@.len() >= 2
                &&& url@ == text_at(self.info.oauth_links@, 1)
                &&& username@ == self.info.payload@[0]@
                &&& password@ == self.info.payload@[1]@
            },
            TokenRequest::Legacy { url, username, password } => {
                &&& self.info.login_method == ELoginMethod::LEGACY
                &&& self.info.payload@.len() >= 2
                &&& url@ == text_at(self.info.oauth_links@, 2)
                &&& username@ == self.info.payload@[0]@
                &&& password@ == self.info.payload@[1]@
            },
            TokenRequest::Steam {
                recovery_code,
                username,
                password,
                steam_username,
                steam_password,
            } => {
                &&& self.info.login_method == ELoginMethod::STEAM
                &&& self.info.payload@.len() >= 4
                &&& recovery_code@ == self.info.recovery_code@
                &&& username@ == self.info.payload@[0]@
                &&& password@ == self.info.payload@[1]@
                &&& steam_username@ == self.info.payload@[2]@
                &&& steam_password@ == self.info.payload@[3]@
            },
        }
    }

    /// The fingerprint after the session went on to get a token: the
    /// platform's own login writes its platform into it.
    pub open spec fn acquiring(&self, fields: LoginFields) -> LoginFields {
        if self.info.login_method == ELoginMethod::STEAM {
            fields.with("platformID"@, "15,1,0"@)
        } else {
            fields
        }
    }

    /// The fingerprint after the session went on to its token: it stays as
    /// it is where a stored token is checked, and is the one of a session
    /// that gets a token where none is stored.
    pub open spec fn going_for_token(&self, fields: LoginFields) -> LoginFields {
        if self.info.token@.len() == 0 {
            self.acquiring(fields)
        } else {
            fields
        }
    }

    /// The command that ends the cycle: give up where the bot was stopped
    /// meanwhile, else connect to the server that discovery named.
    pub open spec fn connect_step(&self, r: Command) -> bool {
        if !self.state.is_running {
            r is Abort
        } else {
            match r {
                Command::Connect { ip, port } => {
                    &&& ip@ == value_or_empty(pairs_view(self.info.server_data@), "server"@)
                    &&& port@ == value_or_empty(pairs_view(self.info.server_data@), "port"@)
                    &&& self.info.status@ == "Connecting to the server"@
                },
                _ => false,
            }
        }
    }

    /// Whether this is the session after `before` took the answer of
    /// discovery, and `r` what it does next. A failed request or a status
    /// that is not one of success goes to the log, changes nothing else and
    /// is answered by a backoff. Else the body is read, the fingerprint takes
    /// the `meta` value that it names, and the session goes on to its login
    /// links, where it needs them, or to its token.
    pub open spec fn took_server_data(
        &self,
        before: &Bot,
        reply: Result<HttpReply, String>,
        r: Command,
    ) -> bool {
        &&& self.same_but_logs(before)
        &&& self.info.token == before.info.token
        &&& self.info.oauth_links == before.info.oauth_links
        &&& match reply {
            Err(message) => {
                &&& r is Backoff
                &&& self.info == before.info
                &&& self.wrote(before, seq![request_error(message@)])
            },
            Ok(answer) => if !answer.succeeded() {
                &&& r is Backoff
                &&& self.info == before.info
                &&& self.wrote(before, seq![(LogLevel::Warn, "Failed to fetch server data"@)])
            } else {
                &&& pairs_view(self.info.server_data@) == pairs_of(answer.body@)
                &&& self.info.login_info@ == {
                    let fields = match lookup(pairs_of(answer.body@), "meta"@) {
                        Some(meta) => before.info.login_info@.with("meta"@, meta),
                        None => before.info.login_info@,
                    };
                    if before.needs_links() {
                        fields
                    } else {
                        before.going_for_token(fields)
                    }
                }
                &&& if before.needs_links() {
                    &&& self.wrote(before, Seq::empty())
                    &&& match r {
                        Command::FetchOAuthLinks { body } => body@ == url_encoded(
                            self.info.login_info@.request_body(),
                        ) && self.info.status@ == "Getting OAuth links"@,
                        _ => false,
                    }
                } else {
                    &&& self.wrote(before, before.token_lines())
                    &&& self.token_step(r)
                }
            },
        }
    }

    /// Whether this is the session after `before` took the dashboard's
    /// answer, and `r` what it does next. A failed request or a status that
    /// is not one of success goes to the log, changes nothing else and is
    /// answered by a backoff. Else the links in the page become the session's
    /// login links (none, where the page holds none), and the session goes
    /// on to its token.
    pub open spec fn took_oauth_links(
        &self,
        before: &Bot,
        reply: Result<HttpReply, String>,
        r: Command,
    ) -> bool {
        &&& self.same_but_logs(before)
        &&& self.info.token == before.info.token
        &&& self.info.server_data == before.info.server_data
        &&& match reply {
            Err(message) => {
                &&& r is Backoff
                &&& self.info == before.info
                &&& self.wrote(before, seq![request_error(message@)])
            },
            Ok(answer) => if !answer.succeeded() {
                &&& r is Backoff
                &&& self.info == before.info
                &&& self.wrote(before, seq![(LogLevel::Warn, "Failed to get OAuth links"@)])
            } else {
                &&& self.info.login_info@ == before.going_for_token(before.info.login_info@)
                &&& texts_of(self.info.oauth_links@) == links_of(
                    regex_matches(link_pattern(), answer.body@),
                )
                &&& self.wrote(before, before.token_lines())
                &&& self.token_step(r)
            },
        }
    }

    /// Whether this is the session after `before` took the answer of the
    /// refresh endpoint, and `r` what it does next. A failed request or a
    /// status that is not one of success goes to the log, changes nothing
    /// else and is answered by a pause of a second. A token that holds is
    /// replaced by the new one and the session connects; one that does not
    /// hold goes to the log and makes the session get a new one.
    pub open spec fn took_token_check(
        &self,
        before: &Bot,
        reply: Result<HttpReply, String>,
        r: Command,
    ) -> bool {
        &&& self.same_but_logs(before)
        &&& self.info.server_data == before.info.server_data
        &&& self.info.oauth_links == before.info.oauth_links
        &&& match reply {
            Err(message) => {
                &&& r is Pause
                &&& self.info == before.info
                &&& self.wrote(before, seq![request_error(message@)])
            },
            Ok(answer) => if !answer.succeeded() {
                &&& r is Pause
                &&& self.info == before.info
                &&& self.wrote(
                    before,
                    seq![(LogLevel::Error, "Failed to refresh token, retrying..."@)],
                )
            } else {
                match checked(
                    json_string_member(answer.body@, "status"@),
                    json_string_member(answer.body@, "token"@),
                ) {
                    Some(token) => {
                        &&& self.info.token@ == token
                        &&& self.info.login_info == before.info.login_info
                        &&& self.wrote(before, Seq::empty())
                        &&& self.connect_step(r)
                        &&& r is Abort ==> self.info.status == before.info.status
                    },
                    None => {
                        &&& self.info.token == before.info.token
                        &&& self.info.login_info@ == before.acquiring(before.info.login_info@)
                        &&& self.wrote(
                            before,
                            seq![(LogLevel::Error, "Token is invalid"@)] + before.acquire_lines(),
                        )
                        &&& self.acquire_step(r)
                    },
                }
            },
        }
    }

    /// Whether this is the session after `before` took what the login
    /// returned, and `r` what it does next: a token, which the session keeps
    /// unless it is empty, and then connects; or the reason why there is
    /// none, which goes to the log and ends the attempt.
    pub open spec fn took_token(&self, before: &Bot, token: Result<String, String>, r: Command) -> bool {
        &&& self.same_but_logs(before)
        &&& self.info.server_data == before.info.server_data
        &&& self.info.oauth_links == before.info.oauth_links
        &&& self.info.login_info == before.info.login_info
        &&& match token {
            Ok(t) => {
                &&& self.info.token@ == if t@.len() == 0 {
                    before.info.token@
                } else {
                    t@
                }
                &&& self.wrote(before, Seq::empty())
                &&& self.connect_step(r)
                &&& r is Abort ==> self.info.status == before.info.status
            },
            Err(message) => {
                &&& r is Abort
                &&& self.info == before.info
                &&& self.wrote(before, seq![token_failure(before.info.login_method, message@)])
            },
        }
    }

    /// Starts to fetch the server data: returns the discovery endpoint to
    /// post to.
    pub fn to_http(&mut self, use_alternate: bool) -> (r: String)
        ensures
            r@ == discovery_url(use_alternate),
            final(self).info.status@ == "Fetching server data"@,
            final(self).same_surroundings(old(self)),
            final(self).info.token == old(self).info.token,
            final(self).info.login_info == old(self).info.login_info,
            final(self).info.server_data == old(self).info.server_data,
            final(self).info.oauth_links == old(self).info.oauth_links,
    {
        self.set_status("Fetching server data");
        if use_alternate {
            String::from_str("https://www.growtopia2.com/growtopia/server_data.php")
        } else {
            String::from_str("https://www.growtopia1.com/growtopia/server_data.php")
        }
    }

    /// Reads what discovery returned: one `key|value` pair a line.
    pub fn parse_server_data(&mut self, data: &str)
        ensures
            pairs_view(final(self).info.server_data@) == pairs_of(data@),
            final(self).info.status@ == "Parsing server data"@,
            final(self).same_surroundings(old(self)),
            final(self).info.token == old(self).info.token,
            final(self).info.login_info == old(self).info.login_info,
            final(self).info.oauth_links == old(self).info.oauth_links,
    {
        self.set_status("Parsing server data");
        self.info.server_data = parse_pairs(data);
    }

    /// Starts a cycle that ends in a connection: asks for the server data.
    pub fn reconnect(&mut self, use_alternate: bool) -> (r: Command)
        ensures
            match r {
                Command::FetchServerData { url } => url@ == discovery_url(use_alternate),
                _ => false,
            },
            final(self).info.status@ == "Fetching server data"@,
            final(self).same_surroundings(old(self)),
            final(self).info.token == old(self).info.token,
            final(self).info.login_info == old(self).info.login_info,
            final(self).info.server_data == old(self).info.server_data,
            final(self).info.oauth_links == old(self).info.oauth_links,
    {
        self.set_status("Reconnecting...");
        let url = self.to_http(use_alternate);
        Command::FetchServerData { url }
    }

    /// Takes the answer of discovery. A failed request or a status that is
    /// not one of success is answered by a backoff. Else the body is read, the
    /// fingerprint takes the `meta` value that it names, and the session
    /// goes on to its login links, where it needs them, or to its token.
    pub fn on_server_data(&mut self, reply: &Result<HttpReply, String>) -> (r: Command)
        ensures
            final(self).took_server_data(old(self), *reply, r),
    {
        match reply {
            Ok(answer) => {
                if !answer.is_success() {
                    self.log_warn("Failed to fetch server data");
                    proof {
                        lemma_one_line(
                            log_lines(old(self).logs@),
                            (LogLevel::Warn, "Failed to fetch server data"@),
                        );
                    }
                    return Command::Backoff;
                }
                self.parse_server_data(answer.body.as_str());
                match find_value(&self.info.server_data, "meta") {
                    Some(meta) => {
                        self.info.login_info.set("meta", meta);
                    },
                    None => {},
                }
                if !matches!(self.info.login_method, ELoginMethod::STEAM)
                    && self.info.oauth_links.len() == 0 {
                    proof {
                        lemma_no_line(log_lines(old(self).logs@));
                    }
                    self.get_oauth_links()
                } else {
                    self.begin_token()
                }
            },
            Err(message) => {
                self.log_request_error(message.as_str());
                Command::Backoff
            },
        }
    }

    /// Asks the dashboard for the login links: the fingerprint, rendered as
    /// a request body and percent-encoded.
    pub fn get_oauth_links(&mut self) -> (r: Command)
        ensures
            match r {
                Command::FetchOAuthLinks { body } => body@ == url_encoded(
                    old(self).info.login_info@.request_body(),
                ),
                _ => false,
            },
            final(self).info.status@ == "Getting OAuth links"@,
            final(self).same_surroundings(old(self)),
            final(self).info.token == old(self).info.token,
            final(self).info.login_info == old(self).info.login_info,
            final(self).info.server_data == old(self).info.server_data,
            final(self).info.oauth_links == old(self).info.oauth_links,
    {
        self.set_status("Getting OAuth links");
        let plain = self.info.login_info.to_string();
        Command::FetchOAuthLinks { body: percent_encode(plain.as_str()) }
    }

    /// Takes the dashboard's answer. A failed request or a status that is
    /// not one of success is answered by a backoff. Else the links in the page become
    /// the session's login links (none, where the page holds none), and the
    /// session goes on to its token.
    pub fn on_oauth_links(&mut self, reply: &Result<HttpReply, String>) -> (r: Command)
        ensures
            final(self).took_oauth_links(old(self), *reply, r),
    {
        match reply {
            Ok(answer) => {
                if !answer.is_success() {
                    self.log_warn("Failed to get OAuth links");
                    proof {
                        lemma_one_line(
                            log_lines(old(self).logs@),
                            (LogLevel::Warn, "Failed to get OAuth links"@),
                        );
                    }
                    return Command::Backoff;
                }
                self.info.oauth_links = extract_links(answer.body.as_str());
                self.begin_token()
            },
            Err(message) => {
                self.log_request_error(message.as_str());
                Command::Backoff
            },
        }
    }

    /// Writes the line that tells of a request that failed.
    fn log_request_error(&mut self, message: &str)
        ensures
            final(self).wrote(old(self), seq![request_error(message@)]),
            *final(self) == (Bot { logs: final(self).logs, ..*old(self) }),
    {
        let mut line = String::from_str("Request error: ");
        line.append(message);
        line.append(", retrying...");
        self.log_error(line.as_str());
        proof {
            lemma_one_line(log_lines(old(self).logs@), request_error(message@));
        }
    }

    /// Goes on to the token: checks the stored one, or, without one, gets a
    /// new one.
    fn begin_token(&mut self) -> (r: Command)
        ensures
            final(self).same_but_logs(old(self)),
            final(self).wrote(old(self), old(self).token_lines()),
            final(self).info.token == old(self).info.token,
            final(self).info.server_data == old(self).info.server_data,
            final(self).info.oauth_links == old(self).info.oauth_links,
            final(self).info.login_info@ == old(self).going_for_token(old(self).info.login_info@),
            final(self).token_step(r),
    {
        if self.info.token.as_str().unicode_len() == 0 {
            self.acquire()
        } else {
            self.set_status("Checking refresh token");
            proof {
                lemma_no_line(log_lines(old(self).logs@));
            }
            Command::CheckToken {
                refresh_token: self.info.token.clone(),
                client_data: self.info.login_info.to_string(),
            }
        }
    }

    /// Takes the answer of the refresh endpoint. A failed request or a
    /// status that is not one of success is answered by a pause of a second. A token
    /// that holds is replaced by the new one and the session connects; one
    /// that does not hold makes the session get a new one.
    pub fn on_token_check(&mut self, reply: &Result<HttpReply, String>) -> (r: Command)
        ensures
            final(self).took_token_check(old(self), *reply, r),
    {
        match reply {
            Ok(answer) => {
                if !answer.is_success() {
                    self.log_error("Failed to refresh token, retrying...");
                    proof {
                        lemma_one_line(
                            log_lines(old(self).logs@),
                            (LogLevel::Error, "Failed to refresh token, retrying..."@),
                        );
                    }
                    return Command::Pause;
                }
                match read_token_check(answer.body.as_str()) {
                    TokenCheck::Valid(token) => {
                        self.info.token = token;
                        proof {
                            lemma_no_line(log_lines(old(self).logs@));
                        }
                        self.connect_to_server()
                    },
                    TokenCheck::Invalid => {
                        self.log_error("Token is invalid");
                        let r = self.acquire();
                        proof {
                            lemma_more_lines(
                                log_lines(old(self).logs@),
                                (LogLevel::Error, "Token is invalid"@),
                                old(self).acquire_lines(),
                            );
                        }
                        r
                    },
                }
            },
            Err(message) => {
                self.log_request_error(message.as_str());
                Command::Pause
            },
        }
    }

    /// The request that gets a token by the login method. The platform's
    /// own login first writes its platform into the fingerprint.
    pub fn get_token(&mut self) -> (r: Result<TokenRequest, TokenError>)
        ensures
            final(self).same_but_logs(old(self)),
            final(self).wrote(old(self), old(self).acquire_lines()),
            final(self).info.token == old(self).info.token,
            final(self).info.server_data == old(self).info.server_data,
            final(self).info.oauth_links == old(self).info.oauth_links,
            final(self).info.status@ == "Getting token"@,
            final(self).info.login_info@ == old(self).acquiring(old(self).info.login_info@),
            match r {
                Ok(request) => old(self).token_request().is_ok() && old(self).asks(request),
                Err(e) => old(self).token_request() == Err::<(), TokenError>(e),
            },
    {
        self.set_status("Getting token");
        match self.info.login_method {
            ELoginMethod::GOOGLE => {
                if self.info.payload.len() < 2 {
                    return Err(self.no_token(TokenError::MissingCredentials));
                }
                proof {
                    lemma_no_line(log_lines(old(self).logs@));
                }
                Ok(
                    TokenRequest::Google {
                        url: text_or_empty(&self.info.oauth_links, 1),
                        username: self.info.payload[0].clone(),
                        password: self.info.payload[1].clone(),
                    },
                )
            },
            ELoginMethod::LEGACY => {
                if self.info.payload.len() < 2 {
                    return Err(self.no_token(TokenError::MissingCredentials));
                }
                proof {
                    lemma_no_line(log_lines(old(self).logs@));
                }
                Ok(
                    TokenRequest::Legacy {
                        url: text_or_empty(&self.info.oauth_links, 2),
                        username: self.info.payload[0].clone(),
                        password: self.info.payload[1].clone(),
                    },
                )
            },
            ELoginMethod::STEAM => {
                self.info.login_info.set("platformID", String::from_str("15,1,0"));
                if self.info.payload.len() < 4 {
                    return Err(self.no_token(TokenError::MissingCredentials));
                }
                proof {
                    lemma_no_line(log_lines(old(self).logs@));
                }
                Ok(
                    TokenRequest::Steam {
                        recovery_code: self.info.recovery_code.clone(),
                        username: self.info.payload[0].clone(),
                        password: self.info.payload[1].clone(),
                        steam_username: self.info.payload[2].clone(),
                        steam_password: self.info.payload[3].clone(),
                    },
                )
            },
            ELoginMethod::APPLE => Err(self.no_token(TokenError::InvalidMethod)),
        }
    }

    /// Writes the line that tells why no token can be asked for, and hands
    /// the reason back.
    fn no_token(&mut self, error: TokenError) -> (r: TokenError)
        ensures
            r == error,
            final(self).wrote(old(self), seq![token_error_line(error)]),
            *final(self) == (Bot { logs: final(self).logs, ..*old(self) }),
    {
        match error {
            TokenError::InvalidMethod => {
                self.log_warn("Invalid login method");
            },
            TokenError::MissingCredentials => {
                self.log_error("Login credentials are missing");
            },
        }
        proof {
            lemma_one_line(log_lines(old(self).logs@), token_error_line(error));
        }
        error
    }

    fn acquire(&mut self) -> (r: Command)
        ensures
            final(self).acquire_step(r),
            final(self).same_but_logs(old(self)),
            final(self).wrote(old(self), old(self).acquire_lines()),
            final(self).info.token == old(self).info.token,
            final(self).info.server_data == old(self).info.server_data,
            final(self).info.oauth_links == old(self).info.oauth_links,
            final(self).info.login_info@ == old(self).acquiring(old(self).info.login_info@),
    {
        match self.get_token() {
            Ok(request) => Command::AcquireToken(request),
            Err(_) => Command::Abort,
        }
    }

    /// Takes what the login returned: a token, which the session keeps
    /// unless it is empty, and then connects; or the reason why there is
    /// none, which goes to the log and ends the attempt.
    pub fn on_token(&mut self, token: Result<String, String>) -> (r: Command)
        ensures
            final(self).took_token(old(self), token, r),
    {
        match token {
            Ok(t) => {
                if t.as_str().unicode_len() != 0 {
                    self.info.token = t;
                }
                proof {
                    lemma_no_line(log_lines(old(self).logs@));
                }
                self.connect_to_server()
            },
            Err(message) => {
                let mut line = match self.info.login_method {
                    ELoginMethod::GOOGLE => String::from_str("Failed to get Google token: "),
                    ELoginMethod::LEGACY => String::from_str("Failed to get legacy token: "),
                    ELoginMethod::STEAM => String::from_str("Failed to get Ubisoft token: "),
                    ELoginMethod::APPLE => String::from_str("Failed to get token: "),
                };
                line.append(message.as_str());
                self.log_error(line.as_str());
                proof {
                    lemma_one_line(
                        log_lines(old(self).logs@),
                        token_failure(old(self).info.login_method, message@),
                    );
                }
                Command::Abort
            },
        }
    }

    /// Ends the cycle: gives up where the bot was stopped meanwhile, else
    /// connects to the server and port that discovery named.
    pub fn connect_to_server(&mut self) -> (r: Command)
        ensures
            final(self).connect_step(r),
            final(self).same_surroundings(old(self)),
            final(self).info.token == old(self).info.token,
            final(self).info.login_info == old(self).info.login_info,
            final(self).info.server_data == old(self).info.server_data,
            final(self).info.oauth_links == old(self).info.oauth_links,
            r is Abort ==> final(self).info == old(self).info,
    {
        if !self.state.is_running {
            return Command::Abort;
        }
        self.set_status("Connecting to the server");
        let ip = match find_value(&self.info.server_data, "server") {
            Some(v) => v,
            None => String::new(),
        };
        let port = match find_value(&self.info.server_data, "port") {
            Some(v) => v,
            None => String::new(),
        };
        Command::Connect { ip, port }
    }

    /// What the engine does before it serves the connection: nothing more
    /// where the bot was stopped, a connection to the redirect's target
    /// where the server sent the bot on, else a new cycle.
    pub fn next_connection(&mut self, use_alternate: bool) -> (r: Command)
        ensures
            final(self).same_surroundings(old(self)),
            final(self).info.token == old(self).info.token,
            final(self).info.login_info == old(self).info.login_info,
            final(self).info.server_data == old(self).info.server_data,
            final(self).info.oauth_links == old(self).info.oauth_links,
            if !old(self).state.is_running {
                r is Abort && final(self).info == old(self).info
            } else if old(self).state.is_redirecting {
                match r {
                    Command::Connect { ip, port } => {
                        &&& ip@ == old(self).server.ip@
                        &&& port@ == decimal(old(self).server.port as nat)
                        &&& final(self).info.status@ == "Connecting to the server"@
                    },
                    _ => false,
                }
            } else {
                match r {
                    Command::FetchServerData { url } => url@ == discovery_url(use_alternate)
                        && final(self).info.status@ == "Fetching server data"@,
                    _ => false,
                }
            },
    {
        if !self.state.is_running {
            Command::Abort
        } else if self.state.is_redirecting {
            self.set_status("Connecting to the server");
            Command::Connect {
                ip: self.server.ip.clone(),
                port: decimal_string(self.server.port as u32),
            }
        } else {
            self.reconnect(use_alternate)
        }
    }

    /// Takes the answer to a request of the session and says what the
    /// engine does next. An answer of the wrong kind, or to a command that
    /// asks for none, goes to the log and ends the attempt.
    pub fn answer(&mut self, request: &Command, reply: Reply) -> (r: Command)
        ensures
            match (*request, reply) {
                (Command::FetchServerData { .. }, Reply::Http(answer)) => final(self).took_server_data(old(self), answer, r),
                (Command::FetchOAuthLinks { .. }, Reply::Http(answer)) => final(self).took_oauth_links(old(self), answer, r),
                (Command::CheckToken { .. }, Reply::Http(answer)) => final(self).took_token_check(
                    old(self),
                    answer,
                    r,
                ),
                (Command::AcquireToken(_), Reply::Token(token)) => final(self).took_token(
                    old(self),
                    token,
                    r,
                ),
                _ => {
                    &&& r is Abort
                    &&& *final(self) == (Bot { logs: final(self).logs, ..*old(self) })
                    &&& final(self).wrote(
                        old(self),
                        seq![(LogLevel::Error, "The answer fits no request"@)],
                    )
                },
            },
    {
        match (request, reply) {
            (Command::FetchServerData { .. }, Reply::Http(answer)) => self.on_server_data(&answer),
            (Command::FetchOAuthLinks { .. }, Reply::Http(answer)) => self.on_oauth_links(&answer),
            (Command::CheckToken { .. }, Reply::Http(answer)) => self.on_token_check(&answer),
            (Command::AcquireToken(_), Reply::Token(token)) => self.on_token(token),
            _ => {
                self.log_error("The answer fits no request");
                proof {
                    lemma_one_line(
                        log_lines(old(self).logs@),
                        (LogLevel::Error, "The answer fits no request"@),
                    );
                }
                Command::Abort
            },
        }
    }

    /// What follows a backoff or a pause: the request that failed is made
    /// again, unless the bot was stopped meanwhile.
    pub fn retry(&self, request: Command) -> (r: Command)
        ensures
            if self.state.is_running {
                r == request
            } else {
                r is Abort
            },
    {
        if self.state.is_running {
            request
        } else {
            Command::Abort
        }
    }

    /// Stops the bot and ends a redirect, and starts a new cycle. Returns
    /// the peer to disconnect, if the bot has one, and the first request of
    /// the cycle.
    pub fn relog(&mut self, use_alternate: bool) -> (r: (Option<usize>, Command))
        ensures
            *final(self) == (Bot {
                state: State { is_running: false, is_redirecting: false, ..old(self).state },
                info: Info { status: final(self).info.status, ..old(self).info },
                ..*old(self)
            }),
            r.0 == old(self).peer_id,
            match r.1 {
                Command::FetchServerData { url } => url@ == discovery_url(use_alternate),
                _ => false,
            },
            final(self).info.status@ == "Fetching server data"@,
    {
        self.state.is_running = false;
        self.state.is_redirecting = false;
        self.set_status("Relogging");
        let peer = self.disconnect();
        let command = self.reconnect(use_alternate);
        (peer, command)
    }

    /// Starts the bot: reads the login data into the fingerprint and sets
    /// the running flag. Returns whether the fingerprint is still to be
    /// made up, which is so where no login data was given.
    pub fn logon(&mut self, data: &str) -> (spoof: bool)
        ensures
            spoof == (data@.len() == 0),
            *final(self) == (Bot {
                state: State { is_running: true, ..old(self).state },
                info: Info {
                    status: final(self).info.status,
                    login_info: final(self).info.login_info,
                    ..old(self).info
                },
                ..*old(self)
            }),
            final(self).info.login_info@ == old(self).info.login_info@.with_all(pairs_of(data@)),
            final(self).info.status@ == if spoof {
                "Logging in..."@
            } else {
                "Updating login info"@
            },
    {
        self.set_status("Logging in...");
        let empty: bool = data.unicode_len() == 0;
        if !empty {
            self.update_login_info(data);
        } else {
            assert(pairs_of(data@) =~= Seq::<(Seq<char>, Seq<char>)>::empty());
        }
        self.state.is_running = true;
        empty
    }

    /// Reads login data, one `key|value` pair a line, into the fingerprint.
    pub fn update_login_info(&mut self, data: &str)
        ensures
            final(self).info.login_info@ == old(self).info.login_info@.with_all(pairs_of(data@)),
            final(self).info.status@ == "Updating login info"@,
            final(self).same_surroundings(old(self)),
            final(self).info.token == old(self).info.token,
            final(self).info.server_data == old(self).info.server_data,
            final(self).info.oauth_links == old(self).info.oauth_links,
    {
        self.set_status("Updating login info");
        self.info.login_info.update(data);
    }

    /// Gives the fingerprint the made-up values of a device that the caller
    /// drew: the key-length value and the two hashes.
    pub fn spoof(&mut self, klv: String, hash: String, hash2: String)
        ensures
            final(self).info.login_info@ == (LoginFields {
                klv: klv@,
                hash: hash@,
                hash2: hash2@,
                ..old(self).info.login_info@
            }),
            final(self).info.status@ == "Spoofing core data"@,
            final(self).same_surroundings(old(self)),
            final(self).info.token == old(self).info.token,
            final(self).info.server_data == old(self).info.server_data,
            final(self).info.oauth_links == old(self).info.oauth_links,
    {
        self.set_status("Spoofing core data");
        self.info.login_info.klv = klv;
        self.info.login_info.hash = hash;
        self.info.login_info.hash2 = hash2;
    }

    /// Starts a backoff of `timeout` seconds on top of what is left of the
    /// last one.
    pub fn begin_sleep(&mut self, timeout: u32)
        ensures
            final(self).info.timeout == if old(self).info.timeout + timeout > u32::MAX {
                u32::MAX
            } else {
                (old(self).info.timeout + timeout) as u32
            },
            *final(self) == (Bot {
                info: Info { timeout: final(self).info.timeout, ..old(self).info },
                ..*old(self)
            }),
    {
        self.info.timeout = if self.info.timeout > u32::MAX - timeout {
            u32::MAX
        } else {
            self.info.timeout + timeout
        };
    }

    /// Takes one second off the backoff. Returns whether there was a second
    /// to take, which is a second for the caller to wait.
    pub fn tick(&mut self) -> (waited: bool)
        ensures
            waited == (old(self).info.timeout > 0),
            final(self).info.timeout == if waited {
                (old(self).info.timeout - 1) as u32
            } else {
                0u32
            },
            *final(self) == (Bot {
                info: Info { timeout: final(self).info.timeout, ..old(self).info },
                ..*old(self)
            }),
    {
        if self.info.timeout > 0 {
            self.info.timeout = self.info.timeout - 1;
            true
        } else {
            false
        }
    }

    /// Runs a whole backoff of `timeout` seconds, second by second, and
    /// returns the number of seconds taken: as many as were left and were
    /// added.
    pub fn sleep(&mut self, timeout: u32) -> (seconds: u32)
        ensures
            seconds == if old(self).info.timeout + timeout > u32::MAX {
                u32::MAX as int
            } else {
                old(self).info.timeout + timeout
            },
            final(self).info.timeout == 0,
            *final(self) == (Bot { info: Info { timeout: 0, ..old(self).info }, ..*old(self) }),
    {
        self.begin_sleep(timeout);
        let ghost total = self.info.timeout;
        let mut seconds: u32 = 0;
        while self.tick()
            invariant
                seconds + self.info.timeout == total,
                *self == (Bot {
                    info: Info { timeout: self.info.timeout, ..old(self).info },
                    ..*old(self)
                }),
            decreases self.info.timeout,
        {
            seconds = seconds + 1;
        }
        seconds
    }

    /// Takes the peer of a connection that was made, and writes the
    /// connection to the log.
    pub fn on_connect(&mut self, peer: usize)
        ensures
            final(self).info.status@ == "Connected"@,
            final(self).wrote(old(self), seq![(LogLevel::Info, "Connected to the server"@)]),
            *final(self) == (Bot {
                peer_id: Some(peer),
                info: Info { status: final(self).info.status, ..old(self).info },
                logs: final(self).logs,
                ..*old(self)
            }),
    {
        self.log_info("Connected to the server");
        self.set_status("Connected");
        self.peer_id = Some(peer);
        proof {
            lemma_one_line(log_lines(old(self).logs@), (LogLevel::Info, "Connected to the server"@));
        }
    }

    /// Forgets the peer of a connection that ended, and writes the end to
    /// the log.
    pub fn on_disconnect(&mut self)
        ensures
            final(self).info.status@ == "Disconnected"@,
            final(self).wrote(old(self), seq![(LogLevel::Warn, "Disconnected from the server"@)]),
            *final(self) == (Bot {
                peer_id: None,
                info: Info { status: final(self).info.status, ..old(self).info },
                logs: final(self).logs,
                ..*old(self)
            }),
    {
        self.log_warn("Disconnected from the server");
        self.set_status("Disconnected");
        self.peer_id = None;
        proof {
            lemma_one_line(
                log_lines(old(self).logs@),
                (LogLevel::Warn, "Disconnected from the server"@),
            );
        }
    }
}

} // verus!
