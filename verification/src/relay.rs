//! How the relay is reached: over TLS, or not at all.
use std::time::Duration;

use lettre::transport::smtp::authentication::Credentials;
use lettre::transport::smtp::AsyncSmtpTransportBuilder;
use lettre::{AsyncSmtpTransport, Tokio1Executor};
use vstd::prelude::*;
use vstd::string::*;

use crate::config::{SmtpConfig, TlsMode};
use crate::response::SendOutcome;

verus! {

#[verifier::external_type_specification]
#[verifier::external_body]
pub struct ExAsyncSmtpTransportBuilder(lettre::transport::smtp::AsyncSmtpTransportBuilder);

/// The relay, the credentials to show it, and how long each of its commands may take.
pub struct Relay {
    pub host: String,
    pub port: u16,
    pub username: String,
    pub password: String,
    pub command_timeout_ms: u64,
}

#[verifier::ext_equal]
pub struct RelayView {
    pub host: Seq<char>,
    pub port: u16,
    pub username: Seq<char>,
    pub password: Seq<char>,
    pub command_timeout_ms: u64,
}

impl View for Relay {
    type V = RelayView;

    open spec fn view(&self) -> RelayView {
        RelayView {
            host: self.host@,
            port: self.port,
            username: self.username@,
            password: self.password@,
            command_timeout_ms: self.command_timeout_ms,
        }
    }
}

/// `builder` is one that `lettre` makes for a connection to `relay` that is encrypted from its
/// first byte. There are many: each holds the name of the machine that it was made on.
pub uninterp spec fn is_implicit_tls_builder(
    builder: AsyncSmtpTransportBuilder,
    relay: RelayView,
) -> bool;

/// `builder` is one that `lettre` makes for a connection to `relay` that is given up unless it is
/// encrypted by STARTTLS. There are many: each holds the name of the machine that it was made on.
pub uninterp spec fn is_starttls_builder(
    builder: AsyncSmtpTransportBuilder,
    relay: RelayView,
) -> bool;

/// `lettre::AsyncSmtpTransport::relay`, with the port, the credentials and the timeout set on its
/// builder. Whether there is a builder rests on the TLS library of the process, so nothing is said
/// of that.
#[verifier::external_body]
fn implicit_tls_builder(relay: Relay) -> (builder: Option<AsyncSmtpTransportBuilder>)
    ensures
        builder matches Some(builder) ==> is_implicit_tls_builder(builder, relay@),
{
    let builder = AsyncSmtpTransport::<Tokio1Executor>::relay(&relay.host).ok()?;
    Some(
        builder
            .port(relay.port)
            .credentials(Credentials::new(relay.username, relay.password))
            .timeout(Some(Duration::from_millis(relay.command_timeout_ms))),
    )
}

/// `lettre::AsyncSmtpTransport::starttls_relay`, with the port, the credentials and the timeout set
/// on its builder. Whether there is a builder rests on the TLS library of the process, so nothing
/// is said of that.
#[verifier::external_body]
fn starttls_builder(relay: Relay) -> (builder: Option<AsyncSmtpTransportBuilder>)
    ensures
        builder matches Some(builder) ==> is_starttls_builder(builder, relay@),
{
    let builder = AsyncSmtpTransport::<Tokio1Executor>::starttls_relay(&relay.host).ok()?;
    Some(
        builder
            .port(relay.port)
            .credentials(Credentials::new(relay.username, relay.password))
            .timeout(Some(Duration::from_millis(relay.command_timeout_ms))),
    )
}

/// The configured relay, with these credentials.
pub open spec fn relay_of(
    config: SmtpConfig,
    username: Seq<char>,
    password: Seq<char>,
) -> RelayView {
    RelayView {
        host: config.smtp_host@,
        port: config.smtp_port,
        username,
        password,
        command_timeout_ms: config.command_timeout_ms,
    }
}

/// The builder encrypts the connection in the configured way.
pub open spec fn encrypts_as_configured(
    builder: AsyncSmtpTransportBuilder,
    config: SmtpConfig,
    relay: RelayView,
) -> bool {
    match config.tls_mode {
        TlsMode::ImplicitTls => is_implicit_tls_builder(builder, relay),
        TlsMode::StarttlsRequired => is_starttls_builder(builder, relay),
    }
}

/// Describes the configured relay.
pub fn configured_relay(config: &SmtpConfig, username: &str, password: &str) -> (relay: Relay)
    ensures
        relay@ == relay_of(*config, username@, password@),
{
    Relay {
        host: config.smtp_host.clone(),
        port: config.smtp_port,
        username: String::from_str(username),
        password: String::from_str(password),
        command_timeout_ms: config.command_timeout_ms,
    }
}

/// Sets up the connection to the configured relay, encrypted as configured. Whether it can be set
/// up rests on the TLS library of the process; `usable_relay` says what follows from either.
pub fn relay_builder(config: &SmtpConfig, username: &str, password: &str) -> (builder: Option<
    AsyncSmtpTransportBuilder,
>)
    ensures
        builder matches Some(builder) ==> encrypts_as_configured(
            builder,
            *config,
            relay_of(*config, username@, password@),
        ),
{
    let relay = configured_relay(config, username, password);
    match config.tls_mode {
        TlsMode::ImplicitTls => implicit_tls_builder(relay),
        TlsMode::StarttlsRequired => starttls_builder(relay),
    }
}

/// The builder to submit with; without one, nothing is sent, and the submission ends as one to an
/// unusable relay.
pub fn usable_relay(builder: Option<AsyncSmtpTransportBuilder>) -> (usable: Result<
    AsyncSmtpTransportBuilder,
    SendOutcome,
>)
    ensures
        match builder {
            Some(builder) => usable == Ok::<AsyncSmtpTransportBuilder, SendOutcome>(builder),
            None => usable == Err::<AsyncSmtpTransportBuilder, SendOutcome>(
                SendOutcome::RelayUnusable,
            ),
        },
{
    match builder {
        Some(builder) => Ok(builder),
        None => Err(SendOutcome::RelayUnusable),
    }
}

/// The connection goes to the configured host and port, with these credentials and the configured
/// command timeout, whatever the TLS mode.
pub proof fn the_connection_goes_to_the_configured_relay(
    config: SmtpConfig,
    mode: TlsMode,
    username: Seq<char>,
    password: Seq<char>,
)
    ensures
        ({
            let relay = relay_of(config, username, password);
            &&& relay.host == config.smtp_host@
            &&& relay.port == config.smtp_port
            &&& relay.username == username
            &&& relay.password == password
            &&& relay.command_timeout_ms == config.command_timeout_ms
            &&& relay_of(SmtpConfig { tls_mode: mode, ..config }, username, password) == relay
        }),
{
}

/// A connection that is configured for implicit TLS is encrypted from its first byte, and one that
/// is configured for STARTTLS is given up without it: no other builder will do for either.
pub proof fn each_mode_has_its_own_encryption(
    builder: AsyncSmtpTransportBuilder,
    config: SmtpConfig,
    relay: RelayView,
)
    ensures
        config.tls_mode == TlsMode::ImplicitTls ==> encrypts_as_configured(builder, config, relay)
            == is_implicit_tls_builder(builder, relay),
        config.tls_mode == TlsMode::StarttlsRequired ==> encrypts_as_configured(
            builder,
            config,
            relay,
        ) == is_starttls_builder(builder, relay),
{
}

/// The relay is described by every field of it.
pub proof fn a_relay_shows_every_field(relay: Relay)
    ensures
        relay@ == (RelayView {
            host: relay.host@,
            port: relay.port,
            username: relay.username@,
            password: relay.password@,
            command_timeout_ms: relay.command_timeout_ms,
        }),
{
}

} // verus!
