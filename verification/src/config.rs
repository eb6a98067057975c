//! Configuration of the SMTP provider and the rules that a configuration keeps.
use lettre::Address;
use vstd::prelude::*;
use vstd::string::*;
use vstd::utf8::encode_utf8;

use crate::failure::{RuntimeFailure, RuntimeFailureView};
use crate::schema::{is_owned_schema_name, schema_plan};
use crate::text::{
    contains_line_break, contains_white_space, has_line_break, has_white_space, same_text,
    text_views, utf8_is_no_shorter,
};

verus! {

/// How the connection to the relay is encrypted. There is no plaintext mode.
#[derive(Clone, Copy, Debug, PartialEq, Eq, Structural)]
pub enum TlsMode {
    ImplicitTls,
    StarttlsRequired,
}

#[derive(Clone, PartialEq, Eq)]
pub struct SmtpConfig {
    pub schema: String,
    pub database_url_secret: String,
    pub provider: String,
    pub smtp_host: String,
    pub smtp_port: u16,
    pub tls_mode: TlsMode,
    pub username_secret_ref: String,
    pub password_secret_ref: String,
    pub from_address: String,
    pub from_name: Option<String>,
    pub message_id_domain: String,
    pub command_timeout_ms: u64,
    pub effect_lease_ms: u64,
    pub max_message_bytes: usize,
    pub allowed_callers: Vec<String>,
}

/// What a configuration shows of itself: no secret reference and no sender mailbox.
#[derive(Clone, Debug, PartialEq, Eq)]
pub struct RedactedSmtpConfig {
    pub schema: String,
    pub provider: String,
    pub smtp_host: String,
    pub smtp_port: u16,
    pub tls_mode: TlsMode,
    pub from_address: String,
    pub message_id_domain: String,
    pub command_timeout_ms: u64,
    pub effect_lease_ms: u64,
    pub max_message_bytes: usize,
    pub allowed_callers: Vec<String>,
}

/// The first rule that a configuration breaks.
#[derive(Clone, Copy, Debug, PartialEq, Eq, Structural)]
pub enum ConfigError {
    Schema,
    Secrets,
    Endpoint,
    Sender,
    Limits,
    Callers,
}

/// Whether `lettre` parses `text` as an address.
pub uninterp spec fn is_mail_address(text: Seq<char>) -> bool;

/// `<lettre::Address as FromStr>::from_str`: whether it accepts depends on the text alone.
#[verifier::external_body]
pub(crate) fn parses_as_address(text: &str) -> (accepted: bool)
    ensures
        accepted == is_mail_address(text@),
{
    text.parse::<Address>().is_ok()
}

/// A reference to a secret: one to two hundred and fifty-six bytes without white space.
pub open spec fn is_secret_ref(value: Seq<char>) -> bool {
    &&& value.len() > 0
    &&& encode_utf8(value).len() <= 256
    &&& !has_white_space(value)
}

pub open spec fn is_ascii_alphanumeric(c: char) -> bool {
    '0' <= c <= '9' || 'A' <= c <= 'Z' || 'a' <= c <= 'z'
}

pub open spec fn is_id_char(c: char) -> bool {
    is_ascii_alphanumeric(c) || c == '-' || c == '_' || c == '.' || c == ':' || c == '/'
}

/// An identifier: one to `maximum` characters out of letters, digits and `-_.:/`.
pub open spec fn is_id(value: Seq<char>, maximum: nat) -> bool {
    &&& value.len() > 0
    &&& encode_utf8(value).len() <= maximum
    &&& forall|i: int| 0 <= i < value.len() ==> is_id_char(#[trigger] value[i])
}

/// The pieces of `value` between its dots, from left to right.
pub open spec fn dot_labels(value: Seq<char>) -> Seq<Seq<char>>
    decreases value.len(),
{
    if value.len() == 0 {
        seq![Seq::empty()]
    } else {
        let before = dot_labels(value.drop_last());
        if value.last() == '.' {
            before.push(Seq::empty())
        } else {
            before.drop_last().push(before.last().push(value.last()))
        }
    }
}

pub open spec fn is_label_char(c: char) -> bool {
    is_ascii_alphanumeric(c) || c == '-'
}

/// One to sixty-three letters, digits and hyphens, with no hyphen at either end.
pub open spec fn is_host_label(label: Seq<char>) -> bool {
    &&& 1 <= label.len() <= 63
    &&& label[0] != '-'
    &&& label.last() != '-'
    &&& forall|i: int| 0 <= i < label.len() ==> is_label_char(#[trigger] label[i])
}

/// A host name: dotted labels, at most two hundred and fifty-three bytes in all.
pub open spec fn is_hostname(value: Seq<char>) -> bool {
    &&& encode_utf8(value).len() <= 253
    &&& forall|i: int|
        0 <= i < dot_labels(value).len() ==> is_host_label(#[trigger] dot_labels(value)[i])
}

/// Whether `value` can refer to a secret.
pub fn valid_secret_ref(value: &str) -> (valid: bool)
    ensures
        valid == is_secret_ref(value@),
{
    !value.is_empty() && value.as_bytes().len() <= 256 && !contains_white_space(value)
}

fn ascii_alphanumeric(c: char) -> (yes: bool)
    ensures
        yes == is_ascii_alphanumeric(c),
{
    ('0' <= c && c <= '9') || ('A' <= c && c <= 'Z') || ('a' <= c && c <= 'z')
}

/// Whether `value` is an identifier of at most `maximum` bytes.
pub fn valid_id(value: &str, maximum: usize) -> (valid: bool)
    ensures
        valid == is_id(value@, maximum as nat),
{
    if value.is_empty() || value.as_bytes().len() > maximum {
        return false;
    }
    for c in it: value.chars()
        invariant
            it.seq() == value@,
            forall|i: int| 0 <= i < it.index() ==> is_id_char(#[trigger] value@[i]),
    {
        if !(ascii_alphanumeric(c) || c == '-' || c == '_' || c == '.' || c == ':' || c == '/') {
            assert(!is_id_char(value@[it.index()]));
            return false;
        }
    }
    true
}

/// Whether `value` is a host name: no scheme, no port, no dot at either end.
pub fn valid_hostname(value: &str) -> (valid: bool)
    ensures
        valid == is_hostname(value@),
{
    if value.as_bytes().len() > 253 {
        return false;
    }
    let mut done_valid: bool = true;
    let mut length: usize = 0;
    let mut chars_valid: bool = true;
    let mut first_hyphen: bool = false;
    let mut last_hyphen: bool = false;
    proof {
        utf8_is_no_shorter(value@);
    }
    let ghost mut labels: Seq<Seq<char>> = dot_labels(value@.take(0));
    for c in it: value.chars()
        invariant
            it.seq() == value@,
            labels == dot_labels(value@.take(it.index())),
            labels.len() > 0,
            it.index() <= value@.len() <= 253,
            length == labels.last().len(),
            length <= it.index(),
            done_valid == (forall|i: int|
                0 <= i < labels.len() - 1 ==> is_host_label(#[trigger] labels[i])),
            chars_valid == (forall|i: int|
                0 <= i < length ==> is_label_char(#[trigger] labels.last()[i])),
            first_hyphen == (length > 0 && labels.last()[0] == '-'),
            last_hyphen == (length > 0 && labels.last().last() == '-'),
    {
        let ghost before = labels;
        let ghost index = it.index();
        proof {
            assert(value@.take(index + 1).drop_last() =~= value@.take(index));
            assert(value@.take(index + 1).last() == c);
            labels = dot_labels(value@.take(index + 1));
        }
        if c == '.' {
            let label_valid = 1 <= length && length <= 63 && chars_valid && !first_hyphen
                && !last_hyphen;
            assert(label_valid == is_host_label(before.last()));
            proof {
                assert(labels.drop_last() =~= before);
                assert forall|i: int| 0 <= i < before.len() implies labels[i] == before[i] by {}
                if done_valid && label_valid {
                    assert forall|i: int| 0 <= i < labels.len() - 1 implies is_host_label(
                        #[trigger] labels[i],
                    ) by {
                        assert(labels[i] == before[i]);
                    }
                } else if !done_valid {
                    let bad = choose|i: int|
                        0 <= i < before.len() - 1 && !is_host_label(#[trigger] before[i]);
                    assert(!is_host_label(labels[bad]));
                } else {
                    assert(!is_host_label(labels[before.len() - 1]));
                }
            }
            done_valid = done_valid && label_valid;
            length = 0;
            chars_valid = true;
            first_hyphen = false;
            last_hyphen = false;
        } else {
            proof {
                assert(labels.last() =~= before.last().push(c));
                assert forall|i: int| 0 <= i < before.len() - 1 implies labels[i] == before[i] by {}
                if done_valid {
                    assert forall|i: int| 0 <= i < labels.len() - 1 implies is_host_label(
                        #[trigger] labels[i],
                    ) by {
                        assert(labels[i] == before[i]);
                    }
                } else {
                    let bad = choose|i: int|
                        0 <= i < before.len() - 1 && !is_host_label(#[trigger] before[i]);
                    assert(!is_host_label(labels[bad]));
                }
                if chars_valid && is_label_char(c) {
                    assert forall|i: int| 0 <= i < length + 1 implies is_label_char(
                        #[trigger] labels.last()[i],
                    ) by {
                        if i < length {
                            assert(labels.last()[i] == before.last()[i]);
                        }
                    }
                } else if !chars_valid {
                    let bad = choose|i: int|
                        0 <= i < length && !is_label_char(#[trigger] before.last()[i]);
                    assert(!is_label_char(labels.last()[bad]));
                } else {
                    assert(!is_label_char(labels.last()[length as int]));
                }
            }
            let allowed = ascii_alphanumeric(c) || c == '-';
            chars_valid = chars_valid && allowed;
            first_hyphen = if length == 0 { c == '-' } else { first_hyphen };
            last_hyphen = c == '-';
            length = length + 1;
        }
    }
    assert(value@.take(value@.len() as int) =~= value@);
    let last_valid = 1 <= length && length <= 63 && chars_valid && !first_hyphen && !last_hyphen;
    assert(last_valid == is_host_label(labels.last()));
    proof {
        if done_valid && last_valid {
            assert forall|i: int| 0 <= i < labels.len() implies is_host_label(
                #[trigger] labels[i],
            ) by {
                if i == labels.len() - 1 {
                    assert(labels[i] == labels.last());
                }
            }
        } else if !last_valid {
            assert(!is_host_label(labels[labels.len() - 1]));
        }
    }
    done_valid && last_valid
}

/// Three references to secrets, the two credentials apart from each other.
pub open spec fn keeps_secrets_rule(config: SmtpConfig) -> bool {
    &&& is_secret_ref(config.database_url_secret@)
    &&& is_secret_ref(config.username_secret_ref@)
    &&& is_secret_ref(config.password_secret_ref@)
    &&& config.username_secret_ref@ != config.password_secret_ref@
}

pub open spec fn keeps_endpoint_rule(config: SmtpConfig) -> bool {
    &&& is_id(config.provider@, 160)
    &&& is_hostname(config.smtp_host@)
    &&& is_hostname(config.message_id_domain@)
    &&& config.smtp_port != 0
}

/// A display name that fits on one header line.
pub open spec fn is_sender_name(name: Option<String>) -> bool {
    name matches Some(name) ==> name@.len() <= 160 && !has_line_break(name@)
}

pub open spec fn keeps_sender_rule(config: SmtpConfig, address_accepted: bool) -> bool {
    &&& 3 <= config.from_address@.len() <= 320
    &&& address_accepted
    &&& is_sender_name(config.from_name)
}

/// Bounded times and sizes, and a lease that outlasts the command timeout by a second and a half.
pub open spec fn keeps_limits_rule(config: SmtpConfig) -> bool {
    &&& 1_000 <= config.command_timeout_ms <= 120_000
    &&& 2_000 <= config.effect_lease_ms <= 300_000
    &&& config.effect_lease_ms >= config.command_timeout_ms + 1_500
    &&& 1_024 <= config.max_message_bytes <= 1_048_576
}

/// One to sixty-four different instance keys.
pub open spec fn keeps_callers_rule(config: SmtpConfig) -> bool {
    let callers = config.allowed_callers@;
    &&& 1 <= callers.len() <= 64
    &&& forall|i: int| 0 <= i < callers.len() ==> is_id((#[trigger] callers[i])@, 200)
    &&& forall|i: int, j: int|
        0 <= i < j < callers.len() ==> (#[trigger] callers[i])@ != (#[trigger] callers[j])@
}

/// The first broken rule, where the schema name and the sender address have been judged.
pub open spec fn config_verdict(
    config: SmtpConfig,
    schema_accepted: bool,
    address_accepted: bool,
) -> Result<(), ConfigError> {
    if !schema_accepted {
        Err(ConfigError::Schema)
    } else if !keeps_secrets_rule(config) {
        Err(ConfigError::Secrets)
    } else if !keeps_endpoint_rule(config) {
        Err(ConfigError::Endpoint)
    } else if !keeps_sender_rule(config, address_accepted) {
        Err(ConfigError::Sender)
    } else if !keeps_limits_rule(config) {
        Err(ConfigError::Limits)
    } else if !keeps_callers_rule(config) {
        Err(ConfigError::Callers)
    } else {
        Ok(())
    }
}

/// The verdict on a configuration.
pub open spec fn config_result(config: SmtpConfig) -> Result<(), ConfigError> {
    config_verdict(
        config,
        is_owned_schema_name(config.schema@),
        is_mail_address(config.from_address@),
    )
}

pub open spec fn config_error_text(error: ConfigError) -> Seq<char> {
    match error {
        ConfigError::Schema => "invalid PostgreSQL schema"@,
        ConfigError::Secrets => "invalid or aliased secret reference"@,
        ConfigError::Endpoint => "invalid SMTP endpoint or provider identifier"@,
        ConfigError::Sender => "invalid sender mailbox"@,
        ConfigError::Limits => "invalid timeout, lease, or message-size limit"@,
        ConfigError::Callers => "caller allowlist must contain unique Instance keys"@,
    }
}

impl ConfigError {
    /// The rule in words.
    pub fn message(&self) -> (text: &'static str)
        ensures
            text@ == config_error_text(*self),
    {
        match self {
            ConfigError::Schema => "invalid PostgreSQL schema",
            ConfigError::Secrets => "invalid or aliased secret reference",
            ConfigError::Endpoint => "invalid SMTP endpoint or provider identifier",
            ConfigError::Sender => "invalid sender mailbox",
            ConfigError::Limits => "invalid timeout, lease, or message-size limit",
            ConfigError::Callers => "caller allowlist must contain unique Instance keys",
        }
    }
}

/// How long a whole submission may take: the command timeout and one second more.
pub open spec fn send_timeout_of(config: SmtpConfig) -> int {
    if config.command_timeout_ms + 1_000 <= u64::MAX {
        config.command_timeout_ms + 1_000
    } else {
        u64::MAX as int
    }
}

/// The lease as the storage takes it.
pub open spec fn lease_of(config: SmtpConfig) -> int {
    if config.effect_lease_ms <= i64::MAX {
        config.effect_lease_ms as int
    } else {
        i64::MAX as int
    }
}

/// The caller is one of the allowed instances.
pub open spec fn is_allowed_caller(config: SmtpConfig, caller: Option<Seq<char>>) -> bool {
    caller matches Some(caller) && exists|i: int|
        0 <= i < config.allowed_callers@.len() && (#[trigger] config.allowed_callers@[i])@ == caller
}

impl SmtpConfig {
    /// Judges every rule, given whether the schema name and the sender address are accepted.
    pub fn check_rules(&self, schema_accepted: bool, address_accepted: bool) -> (verdict: Result<
        (),
        ConfigError,
    >)
        ensures
            verdict == config_verdict(*self, schema_accepted, address_accepted),
    {
        if !schema_accepted {
            return Err(ConfigError::Schema);
        }
        if !valid_secret_ref(self.database_url_secret.as_str()) || !valid_secret_ref(
            self.username_secret_ref.as_str(),
        ) || !valid_secret_ref(self.password_secret_ref.as_str()) || self.username_secret_ref
            == self.password_secret_ref {
            return Err(ConfigError::Secrets);
        }
        if !valid_id(self.provider.as_str(), 160) || !valid_hostname(self.smtp_host.as_str())
            || !valid_hostname(self.message_id_domain.as_str()) || self.smtp_port == 0 {
            return Err(ConfigError::Endpoint);
        }
        let address_length: usize = self.from_address.as_str().unicode_len();
        if address_length < 3 || address_length > 320 || !address_accepted
            || !self.sender_name_is_valid() {
            return Err(ConfigError::Sender);
        }
        if self.command_timeout_ms < 1_000 || self.command_timeout_ms > 120_000
            || self.effect_lease_ms < 2_000 || self.effect_lease_ms > 300_000
            || self.effect_lease_ms < self.command_timeout_ms.saturating_add(1_500)
            || self.max_message_bytes < 1_024 || self.max_message_bytes > 1_048_576 {
            return Err(ConfigError::Limits);
        }
        if !self.callers_are_valid() {
            return Err(ConfigError::Callers);
        }
        Ok(())
    }

    /// Whether the sender has no display name, or one that fits on one header line.
    pub fn sender_name_is_valid(&self) -> (valid: bool)
        ensures
            valid == is_sender_name(self.from_name),
    {
        match &self.from_name {
            Some(name) => name.as_str().unicode_len() <= 160 && !contains_line_break(name.as_str()),
            None => true,
        }
    }

    fn callers_are_valid(&self) -> (valid: bool)
        ensures
            valid == keeps_callers_rule(*self),
    {
        let callers = &self.allowed_callers;
        if callers.len() == 0 || callers.len() > 64 {
            return false;
        }
        let mut i: usize = 0;
        while i < callers.len()
            invariant
                callers == self.allowed_callers,
                i <= callers.len(),
                forall|k: int| 0 <= k < i ==> is_id((#[trigger] callers@[k])@, 200),
                forall|k: int, l: int|
                    0 <= k < l < i ==> (#[trigger] callers@[k])@ != (#[trigger] callers@[l])@,
            decreases callers.len() - i,
        {
            if !valid_id(callers[i].as_str(), 200) {
                return false;
            }
            let mut j: usize = 0;
            while j < i
                invariant
                    callers == self.allowed_callers,
                    j <= i < callers.len(),
                    forall|k: int| 0 <= k < j ==> (#[trigger] callers@[k])@ != callers@[i as int]@,
                decreases i - j,
            {
                if callers[j] == callers[i] {
                    assert(callers@[j as int]@ == callers@[i as int]@);
                    return false;
                }
                j += 1;
            }
            i += 1;
        }
        true
    }

    /// Judges the configuration: the error names the first broken rule.
    pub fn validate(&self) -> (verdict: Result<(), ConfigError>)
        ensures
            verdict == config_result(*self),
    {
        let schema_accepted = match schema_plan(self.schema.as_str()) {
            Ok(_) => true,
            Err(_) => false,
        };
        self.check_rules(schema_accepted, parses_as_address(self.from_address.as_str()))
    }

    /// What may be shown of the configuration.
    pub fn redacted(&self) -> (shown: RedactedSmtpConfig)
        ensures
            shown@ == redacted_view(*self),
    {
        RedactedSmtpConfig {
            schema: self.schema.clone(),
            provider: self.provider.clone(),
            smtp_host: self.smtp_host.clone(),
            smtp_port: self.smtp_port,
            tls_mode: self.tls_mode,
            from_address: String::from_str("<redacted>"),
            message_id_domain: self.message_id_domain.clone(),
            command_timeout_ms: self.command_timeout_ms,
            effect_lease_ms: self.effect_lease_ms,
            max_message_bytes: self.max_message_bytes,
            allowed_callers: copy_texts(&self.allowed_callers),
        }
    }

    /// How long a whole submission may take.
    pub fn send_timeout_ms(&self) -> (timeout: u64)
        ensures
            timeout == send_timeout_of(*self),
    {
        self.command_timeout_ms.saturating_add(1_000)
    }

    /// The lease as the storage takes it.
    pub fn lease_ms(&self) -> (lease: i64)
        ensures
            lease == lease_of(*self),
    {
        if self.effect_lease_ms <= i64::MAX as u64 {
            self.effect_lease_ms as i64
        } else {
            i64::MAX
        }
    }

    /// Whether the calling instance may dispatch.
    pub fn allowed(&self, caller: Option<&str>) -> (allowed: bool)
        ensures
            allowed == is_allowed_caller(
                *self,
                match caller {
                    Some(caller) => Some(caller@),
                    None => None,
                },
            ),
    {
        match caller {
            None => false,
            Some(name) => {
                let mut i: usize = 0;
                while i < self.allowed_callers.len()
                    invariant
                        caller == Some(name),
                        i <= self.allowed_callers.len(),
                        forall|k: int|
                            0 <= k < i ==> (#[trigger] self.allowed_callers@[k])@ != name@,
                    decreases self.allowed_callers.len() - i,
                {
                    if same_text(self.allowed_callers[i].as_str(), name) {
                        assert(self.allowed_callers@[i as int]@ == name@);
                        return true;
                    }
                    i += 1;
                }
                false
            },
        }
    }
}

fn copy_texts(texts: &Vec<String>) -> (copies: Vec<String>)
    ensures
        text_views(copies@) == text_views(texts@),
{
    let mut copies: Vec<String> = Vec::new();
    let mut i: usize = 0;
    while i < texts.len()
        invariant
            i <= texts.len(),
            copies@.len() == i,
            forall|k: int| 0 <= k < i ==> (#[trigger] copies@[k])@ == texts@[k]@,
        decreases texts.len() - i,
    {
        copies.push(texts[i].clone());
        i += 1;
    }
    assert(text_views(copies@) =~= text_views(texts@));
    copies
}

#[verifier::ext_equal]
pub struct RedactedSmtpConfigView {
    pub schema: Seq<char>,
    pub provider: Seq<char>,
    pub smtp_host: Seq<char>,
    pub smtp_port: u16,
    pub tls_mode: TlsMode,
    pub from_address: Seq<char>,
    pub message_id_domain: Seq<char>,
    pub command_timeout_ms: u64,
    pub effect_lease_ms: u64,
    pub max_message_bytes: usize,
    pub allowed_callers: Seq<Seq<char>>,
}

impl View for RedactedSmtpConfig {
    type V = RedactedSmtpConfigView;

    open spec fn view(&self) -> RedactedSmtpConfigView {
        RedactedSmtpConfigView {
            schema: self.schema@,
            provider: self.provider@,
            smtp_host: self.smtp_host@,
            smtp_port: self.smtp_port,
            tls_mode: self.tls_mode,
            from_address: self.from_address@,
            message_id_domain: self.message_id_domain@,
            command_timeout_ms: self.command_timeout_ms,
            effect_lease_ms: self.effect_lease_ms,
            max_message_bytes: self.max_message_bytes,
            allowed_callers: text_views(self.allowed_callers@),
        }
    }
}

/// A configuration as it may be shown: the sender is blotted out, and the secret references and
/// the display name are left out.
pub open spec fn redacted_view(config: SmtpConfig) -> RedactedSmtpConfigView {
    RedactedSmtpConfigView {
        schema: config.schema@,
        provider: config.provider@,
        smtp_host: config.smtp_host@,
        smtp_port: config.smtp_port,
        tls_mode: config.tls_mode,
        from_address: "<redacted>"@,
        message_id_domain: config.message_id_domain@,
        command_timeout_ms: config.command_timeout_ms,
        effect_lease_ms: config.effect_lease_ms,
        max_message_bytes: config.max_message_bytes,
        allowed_callers: text_views(config.allowed_callers@),
    }
}

/// What the kernel is told of a broken rule.
pub open spec fn config_failure(error: ConfigError) -> RuntimeFailureView {
    RuntimeFailureView::InvalidResolvedPlan {
        detail: "SMTP Plugin configuration is invalid: "@ + config_error_text(error),
    }
}

/// Judges a configuration for the kernel that loads it.
pub fn validate_config(config: &SmtpConfig) -> (verdict: Result<(), RuntimeFailure>)
    ensures
        match (verdict, config_result(*config)) {
            (Ok(()), Ok(())) => true,
            (Err(failure), Err(error)) => failure@ == config_failure(error),
            _ => false,
        },
{
    match config.validate() {
        Ok(()) => Ok(()),
        Err(error) => {
            let mut detail = String::from_str("SMTP Plugin configuration is invalid: ");
            detail.append(error.message());
            Err(RuntimeFailure::InvalidResolvedPlan { detail })
        },
    }
}

/// A valid configuration gives the effect a lease that outlasts the whole submission by half a
/// second, so that a sender still waiting for the relay holds its fence.
pub proof fn the_lease_outlasts_the_submission(config: SmtpConfig)
    requires
        config_result(config) is Ok,
    ensures
        send_timeout_of(config) + 500 <= lease_of(config),
{
}

/// What is shown of a configuration depends neither on a secret reference nor on the sender
/// mailbox.
pub proof fn redaction_hides_secrets_and_sender(left: SmtpConfig, right: SmtpConfig)
    requires
        right == (SmtpConfig {
            database_url_secret: right.database_url_secret,
            username_secret_ref: right.username_secret_ref,
            password_secret_ref: right.password_secret_ref,
            from_address: right.from_address,
            from_name: right.from_name,
            ..left
        }),
    ensures
        redacted_view(left) == redacted_view(right),
{
}

proof fn labels_hold_every_char(value: Seq<char>, index: int)
    requires
        0 <= index < value.len(),
        value[index] != '.',
    ensures
        exists|i: int, k: int|
            0 <= i < dot_labels(value).len() && 0 <= k < dot_labels(value)[i].len() && (
            #[trigger] dot_labels(value)[i][k]) == value[index],
    decreases value.len(),
{
    let before = dot_labels(value.drop_last());
    let labels = dot_labels(value);
    dot_labels_is_never_empty(value.drop_last());
    if index == value.len() - 1 {
        let i = labels.len() - 1;
        let k = labels[i].len() - 1;
        assert(labels[i][k] == value[index]);
    } else {
        labels_hold_every_char(value.drop_last(), index);
        let (i, k) = choose|i: int, k: int|
            0 <= i < before.len() && 0 <= k < before[i].len() && (#[trigger] before[i][k])
                == value[index];
        assert(labels[i][k] == value[index]);
    }
}

proof fn dot_labels_is_never_empty(value: Seq<char>)
    ensures
        dot_labels(value).len() > 0,
    decreases value.len(),
{
    if value.len() > 0 {
        dot_labels_is_never_empty(value.drop_last());
    }
}

/// A host name holds letters, digits, hyphens and dots only: no scheme, port, path, user, space
/// or line break fits in it.
pub proof fn hostnames_hold_no_other_chars(value: Seq<char>)
    requires
        is_hostname(value),
    ensures
        forall|i: int|
            0 <= i < value.len() ==> is_label_char(#[trigger] value[i]) || value[i] == '.',
{
    assert forall|i: int| 0 <= i < value.len() implies is_label_char(#[trigger] value[i])
        || value[i] == '.' by {
        if value[i] != '.' {
            labels_hold_every_char(value, i);
            let (l, k) = choose|l: int, k: int|
                0 <= l < dot_labels(value).len() && 0 <= k < dot_labels(value)[l].len() && (
                #[trigger] dot_labels(value)[l][k]) == value[i];
            assert(is_host_label(dot_labels(value)[l]));
        }
    }
}

/// The verdict on a configuration does not depend on its TLS mode: both are valid, and every other
/// fault is found in both.
pub proof fn both_tls_modes_are_judged_alike(
    config: SmtpConfig,
    mode: TlsMode,
    schema_accepted: bool,
    address_accepted: bool,
)
    ensures
        config_verdict(
            SmtpConfig { tls_mode: mode, ..config },
            schema_accepted,
            address_accepted,
        ) == config_verdict(config, schema_accepted, address_accepted),
        config_result(SmtpConfig { tls_mode: mode, ..config }) == config_result(config),
{
}

/// A configuration is valid exactly when it keeps every promise that is made of it, and no other
/// condition is put on it. The schema is accepted when one plugin can own it, and the sender when
/// its address parses.
pub proof fn a_configuration_is_valid_exactly_when_it_keeps_its_promises(
    config: SmtpConfig,
    schema_accepted: bool,
    address_accepted: bool,
)
    ensures
        config_result(config) == config_verdict(
            config,
            is_owned_schema_name(config.schema@),
            is_mail_address(config.from_address@),
        ),
        config_verdict(config, schema_accepted, address_accepted) is Ok <==> {
            &&& schema_accepted
            &&& config.database_url_secret@.len() > 0
            &&& encode_utf8(config.database_url_secret@).len() <= 256
            &&& !has_white_space(config.database_url_secret@)
            &&& config.username_secret_ref@.len() > 0
            &&& encode_utf8(config.username_secret_ref@).len() <= 256
            &&& !has_white_space(config.username_secret_ref@)
            &&& config.password_secret_ref@.len() > 0
            &&& encode_utf8(config.password_secret_ref@).len() <= 256
            &&& !has_white_space(config.password_secret_ref@)
            &&& config.username_secret_ref@ != config.password_secret_ref@
            &&& is_id(config.provider@, 160)
            &&& is_hostname(config.smtp_host@)
            &&& is_hostname(config.message_id_domain@)
            &&& config.smtp_port > 0
            &&& 3 <= config.from_address@.len() <= 320
            &&& address_accepted
            &&& config.from_name matches Some(name) ==> name@.len() <= 160 && !has_line_break(name@)
            &&& 1_000 <= config.command_timeout_ms <= 120_000
            &&& 2_000 <= config.effect_lease_ms <= 300_000
            &&& config.effect_lease_ms - config.command_timeout_ms >= 1_500
            &&& 1_024 <= config.max_message_bytes <= 1_048_576
            &&& 1 <= config.allowed_callers@.len() <= 64
            &&& forall|i: int|
                0 <= i < config.allowed_callers@.len() ==> is_id(
                    (#[trigger] config.allowed_callers@[i])@,
                    200,
                )
            &&& text_views(config.allowed_callers@).no_duplicates()
        },
{
    let callers = config.allowed_callers@;
    assert(text_views(callers).no_duplicates() <==> forall|i: int, j: int|
        0 <= i < j < callers.len() ==> (#[trigger] callers[i])@ != (#[trigger] callers[j])@) by {
        assert forall|i: int| 0 <= i < callers.len() implies text_views(callers)[i]
            == #[trigger] callers[i]@ by {}
        if text_views(callers).no_duplicates() {
            assert forall|i: int, j: int| 0 <= i < j < callers.len() implies (
            #[trigger] callers[i])@ != (#[trigger] callers[j])@ by {
                assert(text_views(callers)[i] != text_views(callers)[j]);
            }
        }
    }
}

/// The fields that each error speaks of, taken over from another configuration.
pub open spec fn with_fields_of(
    config: SmtpConfig,
    error: ConfigError,
    source: SmtpConfig,
) -> SmtpConfig {
    match error {
        ConfigError::Schema => SmtpConfig { schema: source.schema, ..config },
        ConfigError::Secrets => SmtpConfig {
            database_url_secret: source.database_url_secret,
            username_secret_ref: source.username_secret_ref,
            password_secret_ref: source.password_secret_ref,
            ..config
        },
        ConfigError::Endpoint => SmtpConfig {
            provider: source.provider,
            smtp_host: source.smtp_host,
            smtp_port: source.smtp_port,
            message_id_domain: source.message_id_domain,
            ..config
        },
        ConfigError::Sender => SmtpConfig {
            from_address: source.from_address,
            from_name: source.from_name,
            ..config
        },
        ConfigError::Limits => SmtpConfig {
            command_timeout_ms: source.command_timeout_ms,
            effect_lease_ms: source.effect_lease_ms,
            max_message_bytes: source.max_message_bytes,
            ..config
        },
        ConfigError::Callers => SmtpConfig { allowed_callers: source.allowed_callers, ..config },
    }
}

/// Where in the list of rules an error stands.
pub open spec fn rule_number(error: ConfigError) -> int {
    match error {
        ConfigError::Schema => 0,
        ConfigError::Secrets => 1,
        ConfigError::Endpoint => 2,
        ConfigError::Sender => 3,
        ConfigError::Limits => 4,
        ConfigError::Callers => 5,
    }
}

/// An error names the fields that are at fault: a configuration that is valid but for the fields of
/// one rule is valid or has that rule's error.
pub proof fn an_error_names_the_fields_at_fault(
    valid: SmtpConfig,
    other: SmtpConfig,
    error: ConfigError,
    schema_accepted: bool,
    address_accepted: bool,
)
    requires
        config_verdict(valid, true, true) is Ok,
        schema_accepted || error == ConfigError::Schema,
        address_accepted || error == ConfigError::Sender,
    ensures
        ({
            let verdict = config_verdict(
                with_fields_of(valid, error, other),
                schema_accepted,
                address_accepted,
            );
            verdict is Ok || verdict == Err::<(), ConfigError>(error)
        }),
{
}

/// The first error is reported: mending its fields gives a valid configuration or a later error,
/// and the fields of later rules do not change it.
pub proof fn the_first_error_is_reported(
    config: SmtpConfig,
    error: ConfigError,
    schema_accepted: bool,
    address_accepted: bool,
    valid: SmtpConfig,
    other: SmtpConfig,
    other_accepted: bool,
    later: ConfigError,
)
    requires
        config_verdict(config, schema_accepted, address_accepted) == Err::<(), ConfigError>(error),
        config_verdict(valid, true, true) is Ok,
        rule_number(error) < rule_number(later),
    ensures
        config_verdict(
            with_fields_of(config, later, other),
            schema_accepted,
            if later == ConfigError::Sender {
                other_accepted
            } else {
                address_accepted
            },
        ) == Err::<(), ConfigError>(error),
        config_verdict(
            with_fields_of(config, error, valid),
            schema_accepted || error == ConfigError::Schema,
            address_accepted || error == ConfigError::Sender,
        ) matches Err(next) ==> rule_number(next) > rule_number(error),
{
}

/// The kernel is told the broken rule behind the same words for every rule, and different rules in
/// different words.
pub proof fn each_broken_rule_is_told_apart(left: ConfigError, right: ConfigError)
    ensures
        config_failure(left) == (RuntimeFailureView::InvalidResolvedPlan {
            detail: "SMTP Plugin configuration is invalid: "@ + config_error_text(left),
        }),
        config_failure(left) == config_failure(right) ==> left == right,
        config_error_text(left) == match left {
            ConfigError::Schema => "invalid PostgreSQL schema"@,
            ConfigError::Secrets => "invalid or aliased secret reference"@,
            ConfigError::Endpoint => "invalid SMTP endpoint or provider identifier"@,
            ConfigError::Sender => "invalid sender mailbox"@,
            ConfigError::Limits => "invalid timeout, lease, or message-size limit"@,
            ConfigError::Callers => "caller allowlist must contain unique Instance keys"@,
        },
{
    reveal_strlit("invalid PostgreSQL schema");
    reveal_strlit("invalid or aliased secret reference");
    reveal_strlit("invalid SMTP endpoint or provider identifier");
    reveal_strlit("invalid sender mailbox");
    reveal_strlit("invalid timeout, lease, or message-size limit");
    reveal_strlit("caller allowlist must contain unique Instance keys");
    let prefix = "SMTP Plugin configuration is invalid: "@;
    if config_failure(left) == config_failure(right) {
        let a = config_error_text(left);
        let b = config_error_text(right);
        assert(a =~= (prefix + a).skip(prefix.len() as int));
        assert(b =~= (prefix + b).skip(prefix.len() as int));
        assert(a == b);
        assert(a.len() == b.len());
    }
}

/// The characters of an identifier are checked one by one, and its length as a whole: it is one
/// exactly when both of its halves are and it is short enough.
pub proof fn identifiers_are_checked_piece_by_piece(
    left: Seq<char>,
    right: Seq<char>,
    c: char,
    maximum: nat,
)
    requires
        left.len() > 0,
        right.len() > 0,
    ensures
        !is_id(Seq::empty(), maximum),
        is_id(seq![c], maximum) <==> maximum > 0 && {
            let code = c as u32;
            ||| 48 <= code <= 57
            ||| 65 <= code <= 90
            ||| 97 <= code <= 122
            ||| code == 45
            ||| code == 95
            ||| code == 46
            ||| code == 58
            ||| code == 47
        },
        is_id(left + right, maximum) <==> is_id(left, maximum) && is_id(right, maximum) && (left
            + right).len() <= maximum,
{
    let whole = left + right;
    if is_id_char(c) {
        ascii_takes_one_byte_each(seq![c]);
    }
    assert(seq![c][0] == c);
    if is_id(whole, maximum) {
        assert forall|i: int| 0 <= i < left.len() implies is_id_char(#[trigger] left[i]) by {
            assert(whole[i] == left[i]);
        }
        assert forall|i: int| 0 <= i < right.len() implies is_id_char(#[trigger] right[i]) by {
            assert(whole[left.len() + i] == right[i]);
        }
        ascii_takes_one_byte_each(whole);
        ascii_takes_one_byte_each(left);
        ascii_takes_one_byte_each(right);
    }
    if is_id(left, maximum) && is_id(right, maximum) {
        ascii_takes_one_byte_each(whole);
    }
}

/// ASCII takes one byte for each character.
proof fn ascii_takes_one_byte_each(text: Seq<char>)
    requires
        forall|i: int| 0 <= i < text.len() ==> (#[trigger] text[i]) as u32 <= 127,
    ensures
        encode_utf8(text).len() == text.len(),
    decreases text.len(),
{
    if text.len() > 0 {
        let rest = text.drop_first();
        assert forall|i: int| 0 <= i < rest.len() implies (#[trigger] rest[i]) as u32 <= 127 by {
            assert(rest[i] == text[i + 1]);
        }
        ascii_takes_one_byte_each(rest);
    }
}

proof fn labels_around_a_dot(left: Seq<char>, right: Seq<char>)
    ensures
        dot_labels(left + seq!['.'] + right) == dot_labels(left) + dot_labels(right),
    decreases right.len(),
{
    let whole = left + seq!['.'] + right;
    dot_labels_is_never_empty(left);
    dot_labels_is_never_empty(right);
    if right.len() == 0 {
        assert(whole.drop_last() =~= left);
        assert(whole.last() == '.');
        assert(dot_labels(whole) =~= dot_labels(left) + dot_labels(right));
    } else {
        let front = right.drop_last();
        dot_labels_is_never_empty(front);
        assert(whole.drop_last() =~= left + seq!['.'] + front);
        assert(whole.last() == right.last());
        labels_around_a_dot(left, front);
        assert(dot_labels(whole) =~= dot_labels(left) + dot_labels(right));
    }
}

proof fn a_name_without_dots_is_one_label(name: Seq<char>)
    requires
        !name.contains('.'),
    ensures
        dot_labels(name) == seq![name],
    decreases name.len(),
{
    if name.len() > 0 {
        let front = name.drop_last();
        assert forall|i: int| 0 <= i < front.len() implies #[trigger] front[i] != '.' by {
            assert(name[i] == front[i]);
        }
        a_name_without_dots_is_one_label(front);
        assert(name[name.len() - 1] != '.');
        assert(dot_labels(name) =~= seq![name]) by {
            assert(front.push(name.last()) =~= name);
        }
    } else {
        assert(name =~= Seq::empty());
    }
}

/// A host name is made of labels: what stands on either side of a dot is a host name itself, and a
/// name without a dot is one exactly when it is a label.
pub proof fn host_names_are_made_of_labels(left: Seq<char>, right: Seq<char>, label: Seq<char>)
    requires
        !label.contains('.'),
    ensures
        is_hostname(left + seq!['.'] + right) <==> is_hostname(left) && is_hostname(right)
            && left.len() + 1 + right.len() <= 253,
        is_hostname(label) <==> {
            &&& 1 <= label.len() <= 63
            &&& label[0] != '-'
            &&& label[label.len() - 1] != '-'
            &&& forall|i: int|
                0 <= i < label.len() ==> {
                    let c = #[trigger] label[i];
                    '0' <= c <= '9' || 'A' <= c <= 'Z' || 'a' <= c <= 'z' || c == '-'
                }
        },
{
    let whole = left + seq!['.'] + right;
    labels_around_a_dot(left, right);
    let before = dot_labels(left);
    let after = dot_labels(right);
    if is_hostname(whole) {
        hostnames_hold_no_other_chars(whole);
        assert forall|i: int| 0 <= i < before.len() implies is_host_label(#[trigger] before[i]) by {
            assert(dot_labels(whole)[i] == before[i]);
        }
        assert forall|i: int| 0 <= i < after.len() implies is_host_label(#[trigger] after[i]) by {
            assert(dot_labels(whole)[before.len() + i] == after[i]);
        }
        assert forall|i: int| 0 <= i < left.len() implies (#[trigger] left[i]) as u32 <= 127 by {
            assert(whole[i] == left[i]);
        }
        assert forall|i: int| 0 <= i < right.len() implies (#[trigger] right[i]) as u32 <= 127 by {
            assert(whole[left.len() + 1 + i] == right[i]);
        }
        ascii_takes_one_byte_each(whole);
        ascii_takes_one_byte_each(left);
        ascii_takes_one_byte_each(right);
    }
    if is_hostname(left) && is_hostname(right) {
        hostnames_hold_no_other_chars(left);
        hostnames_hold_no_other_chars(right);
        ascii_takes_one_byte_each(whole);
    }
    a_name_without_dots_is_one_label(label);
    assert(dot_labels(label)[0] == label);
    assert(is_hostname(label) ==> is_host_label(label));
    if is_host_label(label) {
        ascii_takes_one_byte_each(label);
        assert(is_hostname(label));
    }
}

/// Exactly the listed instances are allowed, whatever else is configured, and nobody without a
/// name.
pub proof fn exactly_the_listed_callers_are_allowed(
    config: SmtpConfig,
    other: SmtpConfig,
    caller: Seq<char>,
)
    requires
        other.allowed_callers == config.allowed_callers,
    ensures
        !is_allowed_caller(config, None),
        is_allowed_caller(config, Some(caller)) <==> text_views(config.allowed_callers@).contains(
            caller,
        ),
        is_allowed_caller(other, Some(caller)) == is_allowed_caller(config, Some(caller)),
{
    let callers = config.allowed_callers@;
    if is_allowed_caller(config, Some(caller)) {
        let i = choose|i: int| 0 <= i < callers.len() && (#[trigger] callers[i])@ == caller;
        assert(text_views(callers)[i] == caller);
    }
    if text_views(callers).contains(caller) {
        let i = choose|i: int|
            0 <= i < text_views(callers).len() && #[trigger] text_views(callers)[i] == caller;
        assert(callers[i]@ == caller);
    }
}

/// A whole submission gets a second more than a command, and the storage gets the lease as it is
/// configured; numbers that are too large are cut off and never wrap.
pub proof fn times_are_taken_as_configured(config: SmtpConfig)
    ensures
        config.command_timeout_ms <= u64::MAX - 1_000 ==> send_timeout_of(config)
            - config.command_timeout_ms == 1_000,
        config.command_timeout_ms > u64::MAX - 1_000 ==> send_timeout_of(config) == u64::MAX,
        config.effect_lease_ms <= i64::MAX ==> lease_of(config) == config.effect_lease_ms,
        config.effect_lease_ms > i64::MAX ==> lease_of(config) == i64::MAX,
{
}

/// All that is no secret is shown as it is, and the sender as the same words for everyone.
pub proof fn the_rest_is_shown_as_it_is(config: SmtpConfig)
    ensures
        ({
            let shown = redacted_view(config);
            &&& shown.schema == config.schema@
            &&& shown.provider == config.provider@
            &&& shown.smtp_host == config.smtp_host@
            &&& shown.smtp_port == config.smtp_port
            &&& shown.tls_mode == config.tls_mode
            &&& shown.message_id_domain == config.message_id_domain@
            &&& shown.command_timeout_ms == config.command_timeout_ms
            &&& shown.effect_lease_ms == config.effect_lease_ms
            &&& shown.max_message_bytes == config.max_message_bytes
            &&& shown.allowed_callers.len() == config.allowed_callers@.len()
            &&& forall|i: int|
                0 <= i < shown.allowed_callers.len() ==> #[trigger] shown.allowed_callers[i]
                    == config.allowed_callers@[i]@
            &&& shown.from_address == "<redacted>"@
        }),
{
}

/// What may be shown of a configuration shows every field of it.
pub proof fn a_redacted_configuration_shows_every_field(shown: RedactedSmtpConfig)
    ensures
        shown@.schema == shown.schema@,
        shown@.provider == shown.provider@,
        shown@.smtp_host == shown.smtp_host@,
        shown@.smtp_port == shown.smtp_port,
        shown@.tls_mode == shown.tls_mode,
        shown@.from_address == shown.from_address@,
        shown@.message_id_domain == shown.message_id_domain@,
        shown@.command_timeout_ms == shown.command_timeout_ms,
        shown@.effect_lease_ms == shown.effect_lease_ms,
        shown@.max_message_bytes == shown.max_message_bytes,
        shown@.allowed_callers == text_views(shown.allowed_callers@),
{
}

} // verus!
