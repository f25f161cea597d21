//! Values that are fixed when the device starts.

use vstd::prelude::*;

verus! {

/// Default time that one association attempt may take, in milliseconds.
pub const DEFAULT_CONNECT_TIMEOUT_MS: u64 = 10000;

/// Default number of consecutive broker failures after which the session
/// gives up.
pub const DEFAULT_MAX_SESSION_ATTEMPTS: u32 = 5;

/// Default keep-alive interval of the session, in milliseconds.
pub const DEFAULT_KEEP_ALIVE_MS: u64 = 60000;

/// Default longest command text, in bytes.
pub const DEFAULT_MAX_COMMAND_BYTES: usize = 128;

/// Default period within which the event loop must yield, in milliseconds.
pub const DEFAULT_WATCHDOG_PERIOD_MS: u64 = 1000;

/// What the credentials stand for.
pub struct CredentialsView {
    pub network_name: Seq<char>,
    pub passphrase: Seq<char>,
    pub broker_address: Seq<char>,
    pub client_id: Seq<char>,
    pub username: Option<Seq<char>>,
    pub password: Option<Seq<char>>,
}

/// Identity of the device towards the wireless network and the broker.
/// The values are handed on as they are; nothing in this crate reads into
/// them.
#[derive(Clone, Debug, PartialEq, Eq)]
pub struct Credentials {
    network_name: String,
    passphrase: String,
    broker_address: String,
    client_id: String,
    username: Option<String>,
    password: Option<String>,
}

/// The text that an optional string stands for.
pub open spec fn optional_text(text: Option<String>) -> Option<Seq<char>> {
    match text {
        Some(t) => Some(t@),
        None => None,
    }
}

impl View for Credentials {
    type V = CredentialsView;

    closed spec fn view(&self) -> CredentialsView {
        CredentialsView {
            network_name: self.network_name@,
            passphrase: self.passphrase@,
            broker_address: self.broker_address@,
            client_id: self.client_id@,
            username: optional_text(self.username),
            password: optional_text(self.password),
        }
    }
}

impl Credentials {
    /// Credentials without a broker login.
    pub fn new(
        network_name: String,
        passphrase: String,
        broker_address: String,
        client_id: String,
    ) -> (credentials: Credentials)
        ensures
            credentials@ == (CredentialsView {
                network_name: network_name@,
                passphrase: passphrase@,
                broker_address: broker_address@,
                client_id: client_id@,
                username: None,
                password: None,
            }),
    {
        Credentials {
            network_name,
            passphrase,
            broker_address,
            client_id,
            username: None,
            password: None,
        }
    }

    /// The same credentials with a broker login.
    pub fn with_login(self, username: String, password: String) -> (credentials: Credentials)
        ensures
            credentials@ == (CredentialsView {
                username: Some(username@),
                password: Some(password@),
                ..self@
            }),
    {
        Credentials {
            network_name: self.network_name,
            passphrase: self.passphrase,
            broker_address: self.broker_address,
            client_id: self.client_id,
            username: Some(username),
            password: Some(password),
        }
    }

    /// Name of the wireless network.
    pub fn network_name(&self) -> (text: &String)
        ensures
            text@ == self@.network_name,
    {
        &self.network_name
    }

    /// Passphrase of the wireless network.
    pub fn passphrase(&self) -> (text: &String)
        ensures
            text@ == self@.passphrase,
    {
        &self.passphrase
    }

    /// Address of the broker.
    pub fn broker_address(&self) -> (text: &String)
        ensures
            text@ == self@.broker_address,
    {
        &self.broker_address
    }

    /// Identifier of this device towards the broker.
    pub fn client_id(&self) -> (text: &String)
        ensures
            text@ == self@.client_id,
    {
        &self.client_id
    }

    /// User name of the broker login, if there is one.
    pub fn username(&self) -> (text: &Option<String>)
        ensures
            optional_text(*text) == self@.username,
    {
        &self.username
    }

    /// Password of the broker login, if there is one.
    pub fn password(&self) -> (text: &Option<String>)
        ensures
            optional_text(*text) == self@.password,
    {
        &self.password
    }
}

} // verus!
