//! The local API server settings: the address shown for a port, the status
//! line, when a change needs the server restarted, and how the access token
//! is shown.

use vstd::prelude::*;
use crate::text::{decimal, owned, push_str, push_decimal};

verus! {

/// The address the server listens on for a port (loopback only).
pub open spec fn address_of(port: u16) -> Seq<char> {
    "http://127.0.0.1:"@ + decimal(port as nat)
}

/// The address text for a port.
pub fn address_text(port: u16) -> (s: String)
    ensures
        s@ == address_of(port),
{
    let mut s = owned("http://127.0.0.1:");
    push_decimal(&mut s, port as u64);
    s
}

/// The status line: listening (with the address) when enabled and running,
/// starting when enabled but not yet running, stopped otherwise.
pub open spec fn status_of(enabled: bool, running: bool, port: u16) -> Seq<char> {
    if enabled {
        if running {
            "Listening on "@ + address_of(port)
        } else {
            "Starting…"@
        }
    } else {
        "Stopped"@
    }
}

/// The text shown for the token while it is held: a fixed mask.
pub open spec fn token_mask() -> Seq<char> {
    "••••••••••••"@
}

/// What a settings change asks of the running server.
#[derive(Debug, Clone, Copy, PartialEq, Eq, Structural)]
pub enum ServerAction {
    Start,
    Stop,
    Restart,
    Nothing,
}

pub struct ApiPage {
    enabled: bool,
    port: u16,
    token_required: bool,
    address: String,
    status: String,
    token_label: String,
    current_token: Option<String>,
}

pub struct ApiPageView {
    pub enabled: bool,
    pub port: u16,
    pub token_required: bool,
    pub address: Seq<char>,
    pub status: Seq<char>,
    pub token_label: Seq<char>,
    /// The token held for copying, once loaded or generated.
    pub current_token: Option<Seq<char>>,
}

impl View for ApiPage {
    type V = ApiPageView;

    closed spec fn view(&self) -> ApiPageView {
        ApiPageView {
            enabled: self.enabled,
            port: self.port,
            token_required: self.token_required,
            address: self.address@,
            status: self.status@,
            token_label: self.token_label@,
            current_token: match self.current_token {
                Some(t) => Some(t@),
                None => None,
            },
        }
    }
}

impl ApiPage {
    /// The page for the saved settings, before the status and token are refreshed.
    pub fn new(enabled: bool, port: u16, token_required: bool) -> (p: Self)
        ensures
            p@.enabled == enabled,
            p@.port == port,
            p@.token_required == token_required,
            p@.address == address_of(port),
            p@.status.len() == 0,
            p@.token_label == "Hidden — enable the server to create it"@,
            p@.current_token is None,
    {
        ApiPage {
            enabled,
            port,
            token_required,
            address: address_text(port),
            status: String::new(),
            token_label: owned("Hidden — enable the server to create it"),
            current_token: None,
        }
    }

    /// Refresh the status line from whether the server is running.
    pub fn refresh_status(&mut self, running: bool)
        ensures
            final(self)@ == (ApiPageView { status: status_of(old(self)@.enabled, running, old(self)@.port), ..old(self)@ }),
    {
        if self.enabled {
            if running {
                let mut s = owned("Listening on ");
                push_str(&mut s, address_text(self.port).as_str());
                self.status = s;
            } else {
                self.status = owned("Starting…");
            }
        } else {
            self.status = owned("Stopped");
        }
    }

    /// The server switch changed: start or stop the server.
    pub fn set_enabled(&mut self, active: bool) -> (a: ServerAction)
        ensures
            final(self)@ == (ApiPageView { enabled: active, ..old(self)@ }),
            a == (if active { ServerAction::Start } else { ServerAction::Stop }),
    {
        self.enabled = active;
        if active {
            ServerAction::Start
        } else {
            ServerAction::Stop
        }
    }

    /// The port changed. The same port changes nothing; a new one is saved,
    /// shown in the address, and restarts a running server.
    pub fn set_port(&mut self, port: u16) -> (a: ServerAction)
        ensures
            port == old(self)@.port ==> a == ServerAction::Nothing && final(self)@ == old(self)@,
            port != old(self)@.port ==> final(self)@ == (ApiPageView {
                port: port,
                address: address_of(port),
                ..old(self)@
            }) && a == (if old(self)@.enabled { ServerAction::Restart } else { ServerAction::Nothing }),
    {
        if self.port == port {
            return ServerAction::Nothing;
        }
        self.port = port;
        self.address = address_text(port);
        if self.enabled {
            ServerAction::Restart
        } else {
            ServerAction::Nothing
        }
    }

    /// The require-token switch changed; a running server restarts to apply it.
    pub fn set_token_required(&mut self, required: bool) -> (a: ServerAction)
        ensures
            final(self)@ == (ApiPageView { token_required: required, ..old(self)@ }),
            a == (if old(self)@.enabled { ServerAction::Restart } else { ServerAction::Nothing }),
    {
        self.token_required = required;
        if self.enabled {
            ServerAction::Restart
        } else {
            ServerAction::Nothing
        }
    }

    /// Start refreshing the token display: the held token is dropped; returns
    /// whether the stored token is to be loaded (only when one is required).
    pub fn begin_token_refresh(&mut self) -> (load: bool)
        ensures
            load == old(self)@.token_required,
            final(self)@ == (ApiPageView {
                current_token: None,
                token_label: if old(self)@.token_required {
                    "Loading…"@
                } else {
                    "Token not required"@
                },
                ..old(self)@
            }),
    {
        self.current_token = None;
        if !self.token_required {
            self.token_label = owned("Token not required");
            return false;
        }
        self.token_label = owned("Loading…");
        true
    }

    /// The stored token was read: a non-empty token is held and masked;
    /// otherwise the page says the server will create one.
    pub fn token_loaded(&mut self, token: Option<&str>)
        ensures
            match token {
                Some(t) => if t@.len() > 0 {
                    final(self)@ == (ApiPageView {
                        current_token: Some(t@),
                        token_label: token_mask(),
                        ..old(self)@
                    })
                } else {
                    final(self)@ == (ApiPageView {
                        token_label: "Enable the server to create a token"@,
                        ..old(self)@
                    })
                },
                None => final(self)@ == (ApiPageView {
                    token_label: "Enable the server to create a token"@,
                    ..old(self)@
                }),
            },
    {
        match token {
            Some(t) => {
                if t.unicode_len() > 0 {
                    self.current_token = Some(owned(t));
                    self.token_label = owned("••••••••••••");
                    return;
                }
            },
            None => {},
        }
        self.token_label = owned("Enable the server to create a token");
    }

    /// A regenerated token was stored (`Ok`) or the keyring failed. On
    /// success the token is held and masked and a running server restarts.
    pub fn token_regenerated(&mut self, result: Result<&str, &str>) -> (a: ServerAction)
        ensures
            match result {
                Ok(t) => final(self)@ == (ApiPageView {
                    current_token: Some(t@),
                    token_label: token_mask(),
                    ..old(self)@
                }) && a == (if old(self)@.enabled {
                    ServerAction::Restart
                } else {
                    ServerAction::Nothing
                }),
                Err(_) => final(self)@ == (ApiPageView {
                    token_label: "Keyring error — token unchanged"@,
                    ..old(self)@
                }) && a == ServerAction::Nothing,
            },
    {
        match result {
            Ok(t) => {
                self.current_token = Some(owned(t));
                self.token_label = owned("••••••••••••");
                if self.enabled {
                    ServerAction::Restart
                } else {
                    ServerAction::Nothing
                }
            },
            Err(_) => {
                self.token_label = owned("Keyring error — token unchanged");
                ServerAction::Nothing
            },
        }
    }

    /// The token to copy, if one is held.
    pub fn token_to_copy(&self) -> (t: Option<String>)
        ensures
            match t {
                Some(s) => self@.current_token == Some(s@),
                None => self@.current_token is None,
            },
    {
        match &self.current_token {
            Some(s) => Some(owned(s.as_str())),
            None => None,
        }
    }

    pub fn status(&self) -> (s: &str)
        ensures
            s@ == self@.status,
    {
        self.status.as_str()
    }

    pub fn address(&self) -> (s: &str)
        ensures
            s@ == self@.address,
    {
        self.address.as_str()
    }

    pub fn token_label(&self) -> (s: &str)
        ensures
            s@ == self@.token_label,
    {
        self.token_label.as_str()
    }
}

} // verus!
