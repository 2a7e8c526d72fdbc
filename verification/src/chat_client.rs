//! The network side of the panel, without the network: who talks to whom,
//! which request a click asks for, and what a response means.

use crate::text::{chars_of, find_chars, find_from, parse_u32_chars, spec_contains, spec_parse_u32};
use vstd::prelude::*;

verus! {

/// A participant: a display name and the address messages for them go to.
#[derive(Debug)]
pub struct User {
    username: String,
    addr: String,
}

/// What a user is, as plain values.
pub struct UserView {
    pub username: Seq<char>,
    pub addr: Seq<char>,
}

impl View for User {
    type V = UserView;

    closed spec fn view(&self) -> UserView {
        UserView { username: self.username@, addr: self.addr@ }
    }
}

impl Clone for User {
    fn clone(&self) -> (u: Self)
        ensures
            u == *self,
    {
        User { username: self.username.clone(), addr: self.addr.clone() }
    }
}

impl User {
    pub fn new(username: String, addr: String) -> (u: Self)
        ensures
            u@ == (UserView { username: username@, addr: addr@ }),
    {
        Self { username, addr }
    }

    pub fn username(&self) -> (name: &String)
        ensures
            name@ == self@.username,
    {
        &self.username
    }

    pub fn addr(&self) -> (addr: &String)
        ensures
            addr@ == self@.addr,
    {
        &self.addr
    }
}

/// A request that a click asks the host to make. The host performs it
/// without holding up input, and reports how it ended.
#[derive(Debug)]
pub struct PendingAction {
    /// On whose behalf, or to whom, the request goes.
    pub target: User,
    /// Where the request goes.
    pub url: String,
    /// What is posted there; a request without a body only fetches.
    pub body: Option<String>,
}

/// What a pending action is, as plain values.
pub struct PendingActionView {
    pub target: UserView,
    pub url: Seq<char>,
    pub body: Option<Seq<char>>,
}

impl View for PendingAction {
    type V = PendingActionView;

    open spec fn view(&self) -> PendingActionView {
        PendingActionView {
            target: self.target@,
            url: self.url@,
            body: match self.body {
                Some(b) => Some(b@),
                None => None,
            },
        }
    }
}

/// The address that reports how many players the server has.
pub open spec fn spec_server_info_url() -> Seq<char> {
    "http://194.163.183.44:8000/api/playercount"@
}

pub fn server_info_url() -> (url: String)
    ensures
        url@ == spec_server_info_url(),
{
    "http://194.163.183.44:8000/api/playercount".to_owned()
}

/// The address that `yeehaw_partner` asks, as the panel has always
/// written it: without a scheme.
pub open spec fn spec_greeting_url() -> Seq<char> {
    "194.163.183.44:8000/api/playercount"@
}

/// Something that can send a message to a user.
pub trait Messenger {
    /// The request that delivers `msg` to `recv`.
    fn send_message_to(&self, recv: User, msg: String) -> PendingAction;
}

impl Messenger for User {
    /// Posts the message to the receiver's address.
    fn send_message_to(&self, recv: User, msg: String) -> (request: PendingAction)
        ensures
            request@ == (PendingActionView {
                target: recv@,
                url: recv@.addr,
                body: Some(msg@),
            }),
    {
        let url = recv.addr.clone();
        PendingAction { target: recv, url, body: Some(msg) }
    }
}

/// Whether the server is up, as far as the panel knows.
#[derive(Clone, Copy, Debug, PartialEq, Eq, Structural)]
pub enum Status {
    Online,
    Offline,
    /// The last request failed, or its answer could not be read.
    Error,
}

impl Status {
    /// The word the panel shows for a status.
    pub open spec fn spec_label(self) -> Seq<char> {
        match self {
            Status::Online => "online"@,
            Status::Offline => "offline"@,
            Status::Error => "error"@,
        }
    }

    pub fn label(&self) -> (word: String)
        ensures
            word@ == self.spec_label(),
    {
        match self {
            Status::Online => "online".to_owned(),
            Status::Offline => "offline".to_owned(),
            Status::Error => "error".to_owned(),
        }
    }
}

/// What the panel knows of the server.
#[derive(Clone, Copy, Debug, PartialEq, Eq, Structural)]
pub struct ServerInfo {
    pub player_count: u32,
    pub status: Status,
}

impl ServerInfo {
    /// What is known before any answer came: nobody there, offline.
    pub open spec fn spec_default() -> ServerInfo {
        ServerInfo { player_count: 0, status: Status::Offline }
    }

    /// What a failed request leaves behind.
    pub open spec fn spec_error() -> ServerInfo {
        ServerInfo { player_count: 0, status: Status::Error }
    }

    pub fn error() -> (info: ServerInfo)
        ensures
            info == ServerInfo::spec_error(),
    {
        ServerInfo { player_count: 0, status: Status::Error }
    }
}

impl Default for ServerInfo {
    fn default() -> (info: Self)
        ensures
            info == ServerInfo::spec_default(),
    {
        Self { player_count: 0, status: Status::Offline }
    }
}

/// The body of the server's answer, decoded.
#[derive(Debug)]
pub struct ApiResponse {
    pub status: String,
    pub message: String,
}

/// How a request for the server's status ended.
#[derive(Debug)]
pub enum FetchOutcome {
    /// The request did not get through.
    TransportFailure,
    /// The server answered with a status that is not a success.
    Refused,
    /// The server answered, and the body could not be decoded.
    Malformed,
    /// The server answered with this body.
    Body(ApiResponse),
}

/// The words before the number of players in the server's message.
pub open spec fn count_prefix() -> Seq<char> {
    "currently has "@
}

/// The words after the number of players in the server's message.
pub open spec fn count_suffix() -> Seq<char> {
    " players"@
}

/// The number of players that a message of the server states: the number
/// between the first `currently has ` and the first ` players` after it.
/// A message without those words, or without a number between them,
/// counts as stating none.
pub open spec fn spec_player_count(message: Seq<char>) -> u32 {
    match find_from(message, count_prefix(), 0) {
        Some(start) => {
            let from = start + count_prefix().len();
            match find_from(message, count_suffix(), from) {
                Some(end) => match spec_parse_u32(message.subrange(from, end)) {
                    Some(n) => n,
                    None => 0,
                },
                None => 0,
            }
        },
        None => 0,
    }
}

/// The status that a message of the server states.
pub open spec fn spec_message_status(message: Seq<char>) -> Status {
    if spec_contains(message, "online"@) {
        Status::Online
    } else {
        Status::Offline
    }
}

/// What the panel knows of the server after a request ended as `outcome`.
/// Whatever went wrong, the result is the same: no players, status error.
pub open spec fn spec_server_info(outcome: FetchOutcome) -> ServerInfo {
    match outcome {
        FetchOutcome::Body(response) => ServerInfo {
            player_count: spec_player_count(response.message@),
            status: spec_message_status(response.message@),
        },
        _ => ServerInfo::spec_error(),
    }
}

/// Reads the number of players out of a message of the server.
pub fn player_count_of(message: &str) -> (count: u32)
    ensures
        count == spec_player_count(message@),
{
    let text = chars_of(message);
    let prefix = chars_of("currently has ");
    let suffix = chars_of(" players");
    match find_chars(&text, &prefix, 0) {
        Some(start) => {
            proof {
                crate::text::lemma_find_from_is_first(text@, prefix@, 0);
                assert(crate::text::occurs_at(text@, prefix@, start as int));
                assert(start + prefix.len() <= text.len());
            }
            let from: usize = start + prefix.len();
            match find_chars(&text, &suffix, from) {
                Some(end) => {
                    proof {
                        crate::text::lemma_find_from_is_first(text@, suffix@, from as int);
                        assert(crate::text::occurs_at(text@, suffix@, end as int));
                        assert(end + suffix.len() <= text.len());
                    }
                    match parse_u32_chars(&text, from, end) {
                        Some(n) => n,
                        None => 0,
                    }
                },
                None => 0,
            }
        },
        None => 0,
    }
}

/// Works out what the panel knows of the server once a request has ended.
pub fn server_info_of(outcome: &FetchOutcome) -> (info: ServerInfo)
    ensures
        info == spec_server_info(*outcome),
{
    match outcome {
        FetchOutcome::Body(response) => {
            let player_count = player_count_of(response.message.as_str());
            let text = chars_of(response.message.as_str());
            let online = chars_of("online");
            let status = match find_chars(&text, &online, 0) {
                Some(_) => Status::Online,
                None => Status::Offline,
            };
            ServerInfo { player_count, status }
        },
        _ => ServerInfo::error(),
    }
}

impl User {
    /// The request that greets the server: a fetch of the player count,
    /// on this user's behalf.
    pub fn yeehaw_partner(&self) -> (request: PendingAction)
        ensures
            request@ == (PendingActionView {
                target: self@,
                url: spec_greeting_url(),
                body: None,
            }),
    {
        PendingAction {
            target: self.clone(),
            url: "194.163.183.44:8000/api/playercount".to_owned(),
            body: None,
        }
    }

    /// The request for the server's status, on this user's behalf.
    pub fn server_info_request(&self) -> (request: PendingAction)
        ensures
            request@ == (PendingActionView {
                target: self@,
                url: spec_server_info_url(),
                body: None,
            }),
    {
        PendingAction { target: self.clone(), url: server_info_url(), body: None }
    }

    /// What the server's status is, given how the request for it ended.
    pub fn get_server_info(&self, outcome: &FetchOutcome) -> (info: ServerInfo)
        ensures
            info == spec_server_info(*outcome),
    {
        server_info_of(outcome)
    }

    /// Reads the number of players out of a message of the server.
    pub fn extract_player_count(&self, message: &str) -> (count: u32)
        ensures
            count == spec_player_count(message@),
    {
        player_count_of(message)
    }
}

} // verus!
