//! The checks on a request, the digests by which it is known, and the message that is made of it.
use lettre::message::header::ContentType;
use lettre::message::{Mailbox, MultiPart, SinglePart};
use lettre::{Address, Message};
use vstd::prelude::*;
use vstd::string::*;
use vstd::utf8::encode_utf8;

use crate::config::{config_result, hostnames_hold_no_other_chars, is_mail_address, SmtpConfig};
use crate::digest::{
    digest_identity, digest_of, digest_parts, equal_digests_mean_equal_parts_or_a_collision,
    framable, frame, hex_text, hex_text_holds_hex_digits, identity_digest_of, is_collision,
    is_digest, part_bytes, sha256_of, DIGEST_PREFIX,
};
use crate::email::{DispatchRequest, DispatchRequestMessage};
use crate::text::{
    contains_line_break, has_line_break, is_line_break, same_text, utf8_is_injective,
};

verus! {

/// How the sending program names itself in a message.
pub const USER_AGENT: &'static str = "lenso-email-smtp-plugin/0.1";

#[verifier::external_type_specification]
#[verifier::external_body]
pub struct ExMessage(lettre::Message);

/// A message that is ready for the relay, with the identities of its dispatch.
#[derive(Debug)]
pub struct PreparedDispatch {
    pub message: Message,
    pub message_id: String,
    pub idempotency_key_hash: String,
    pub delivery_id_hash: String,
    pub attempt_id_hash: String,
    pub request_fingerprint: String,
}

/// Why a request is refused before any effect.
#[derive(Clone, Copy, Debug, PartialEq, Eq, Structural)]
pub enum PrepareError {
    Invalid,
    Unsupported,
}

/// The fields of a message to one recipient, with a text and an HTML body.
pub struct Mail {
    pub from_name: Option<String>,
    pub from_address: String,
    pub to_address: String,
    pub subject: String,
    pub message_id: String,
    pub user_agent: String,
    pub text: String,
    pub html: String,
}

/// One of the bodies that a message offers for the same content.
#[verifier::ext_equal]
pub struct MailPartView {
    pub content_type: Seq<char>,
    pub body: Seq<char>,
}

/// What a message says: its header fields, and its alternative bodies in their order.
#[verifier::ext_equal]
pub struct MailView {
    pub from_name: Option<Seq<char>>,
    pub from_address: Seq<char>,
    pub to_address: Seq<char>,
    pub subject: Seq<char>,
    pub message_id: Seq<char>,
    pub user_agent: Seq<char>,
    pub alternatives: Seq<MailPartView>,
}

/// A plain text and, as the richer alternative behind it, HTML.
pub open spec fn text_then_html(text: Seq<char>, html: Seq<char>) -> Seq<MailPartView> {
    seq![
        MailPartView { content_type: "text/plain; charset=utf-8"@, body: text },
        MailPartView { content_type: "text/html; charset=utf-8"@, body: html },
    ]
}

pub open spec fn optional_text(text: Option<String>) -> Option<Seq<char>> {
    match text {
        Some(text) => Some(text@),
        None => None,
    }
}

impl View for Mail {
    type V = MailView;

    open spec fn view(&self) -> MailView {
        MailView {
            from_name: optional_text(self.from_name),
            from_address: self.from_address@,
            to_address: self.to_address@,
            subject: self.subject@,
            message_id: self.message_id@,
            user_agent: self.user_agent@,
            alternatives: text_then_html(self.text@, self.html@),
        }
    }
}

/// Whether `lettre` makes a message of these mailboxes: both addresses parse, and it reads them
/// back from the header lines that it wrote.
pub uninterp spec fn mailboxes_build(
    from_name: Option<Seq<char>>,
    from_address: Seq<char>,
    to_address: Seq<char>,
) -> bool;

/// `message` is one that `lettre` makes of `mail`: its `From`, `To`, `Subject`, `Message-ID` and
/// `User-Agent` are those of `mail`, beside them it has only the fields that `lettre` gives to
/// every such message (`Date`, `MIME-Version` and `Content-Type`), and its body is
/// `multipart/alternative` with the bodies of `mail` in their order. There are many: each holds the
/// time at which it was made and a random boundary between its parts.
pub uninterp spec fn is_message_of(message: Message, mail: MailView) -> bool;

/// `lettre::message::MessageBuilder::multipart`, with the addresses parsed, the given header
/// fields, and a `multipart/alternative` body of the text and then the HTML. There is a message
/// only when both addresses parse, and whether there is one depends on the two mailboxes alone.
/// A display name with a line break is left out: writing its header line panics. The clock is taken
/// to show a time between 1970 and the year 9999, as `lettre` takes it.
#[verifier::external_body]
fn build_message(mail: Mail) -> (built: Option<Message>)
    requires
        mail@.from_name matches Some(name) ==> !has_line_break(name),
    ensures
        built is Some ==> (is_mail_address(mail@.from_address) && is_mail_address(
            mail@.to_address,
        )),
        built is Some <==> mailboxes_build(
            mail@.from_name,
            mail@.from_address,
            mail@.to_address,
        ),
        built matches Some(message) ==> is_message_of(message, mail@),
{
    let sender = mail.from_address.parse::<Address>().ok()?;
    let recipient = mail.to_address.parse::<Address>().ok()?;
    let text = SinglePart::builder().header(ContentType::TEXT_PLAIN).body(mail.text);
    let html = SinglePart::builder().header(ContentType::TEXT_HTML).body(mail.html);
    Message::builder()
        .from(Mailbox::new(mail.from_name, sender))
        .to(Mailbox::new(None, recipient))
        .subject(mail.subject)
        .message_id(Some(mail.message_id))
        .user_agent(mail.user_agent)
        .multipart(MultiPart::alternative().singlepart(text).singlepart(html))
        .ok()
}

pub open spec fn is_bounded(value: Seq<char>, minimum: nat, maximum: nat) -> bool {
    minimum <= value.len() <= maximum
}

/// Whether `value` has from `minimum` to `maximum` characters.
pub fn bounded(value: &str, minimum: usize, maximum: usize) -> (within: bool)
    ensures
        within == is_bounded(value@, minimum as nat, maximum as nat),
{
    let length: usize = value.unicode_len();
    minimum <= length && length <= maximum
}

/// Whether `value` is as long as a locale may be.
pub fn valid_locale(value: &str) -> (valid: bool)
    ensures
        valid == is_bounded(value@, 2, 32),
{
    bounded(value, 2, 32)
}

/// The parts of a message that its content digest covers.
pub open spec fn content_parts(message: DispatchRequestMessage) -> Seq<Seq<u8>> {
    seq![
        encode_utf8(message.subject@),
        encode_utf8(message.text@),
        encode_utf8(message.html@),
    ]
}

/// The digest of the subject and both bodies.
pub fn content_digest(message: &DispatchRequestMessage) -> (digest: String)
    ensures
        digest@ == digest_of(content_parts(*message)),
        is_digest(digest@),
{
    let parts = [
        message.subject.as_str().as_bytes(),
        message.text.as_str().as_bytes(),
        message.html.as_str().as_bytes(),
    ];
    let digest = digest_parts(&parts);
    assert(part_bytes(parts@) =~= content_parts(*message));
    digest
}

/// Every field of a request, in the order in which its fingerprint covers them.
pub open spec fn request_parts(request: DispatchRequest) -> Seq<Seq<u8>> {
    seq![
        encode_utf8(request.delivery_id@),
        encode_utf8(request.attempt_id@),
        encode_utf8(request.run_id@),
        encode_utf8(request.idempotency_key@),
        encode_utf8(request.recipient.address@),
        encode_utf8(request.message.template_id@),
        encode_utf8(request.message.template_version@),
        encode_utf8(request.message.locale@),
        encode_utf8(request.message.subject@),
        encode_utf8(request.message.text@),
        encode_utf8(request.message.html@),
        encode_utf8(request.message.content_digest@),
        encode_utf8(request.correlation_id@),
    ]
}

/// The digest of every field of the request.
pub fn request_fingerprint(request: &DispatchRequest) -> (digest: String)
    ensures
        digest@ == digest_of(request_parts(*request)),
        is_digest(digest@),
{
    let parts = [
        request.delivery_id.as_str().as_bytes(),
        request.attempt_id.as_str().as_bytes(),
        request.run_id.as_str().as_bytes(),
        request.idempotency_key.as_str().as_bytes(),
        request.recipient.address.as_str().as_bytes(),
        request.message.template_id.as_str().as_bytes(),
        request.message.template_version.as_str().as_bytes(),
        request.message.locale.as_str().as_bytes(),
        request.message.subject.as_str().as_bytes(),
        request.message.text.as_str().as_bytes(),
        request.message.html.as_str().as_bytes(),
        request.message.content_digest.as_str().as_bytes(),
        request.correlation_id.as_str().as_bytes(),
    ];
    let digest = digest_parts(&parts);
    assert(part_bytes(parts@) =~= request_parts(*request));
    digest
}

/// An upper estimate of the encoded message: three bytes for each byte of content, and room for
/// the header fields.
pub open spec fn estimated_size(request: DispatchRequest) -> nat {
    3 * (encode_utf8(request.message.subject@).len() + encode_utf8(request.message.text@).len()
        + encode_utf8(request.message.html@).len() + encode_utf8(request.recipient.address@).len())
        + 8192
}

/// The estimate, where it can be counted.
pub fn estimated_encoded_size(request: &DispatchRequest) -> (size: Option<usize>)
    ensures
        match size {
            Some(size) => size == estimated_size(*request),
            None => estimated_size(*request) > usize::MAX,
        },
{
    let subject: usize = request.message.subject.as_str().as_bytes().len();
    let text: usize = request.message.text.as_str().as_bytes().len();
    let html: usize = request.message.html.as_str().as_bytes().len();
    let address: usize = request.recipient.address.as_str().as_bytes().len();
    let content: usize = subject.checked_add(text)?.checked_add(html)?.checked_add(address)?;
    content.checked_mul(3)?.checked_add(8192)
}

/// Every bound of the contract holds, the subject fits on one header line, and the content has the
/// digest that the request names.
pub open spec fn is_well_formed(request: DispatchRequest, content_digest: Seq<char>) -> bool {
    &&& is_bounded(request.delivery_id@, 1, 160)
    &&& is_bounded(request.attempt_id@, 1, 160)
    &&& is_bounded(request.run_id@, 1, 160)
    &&& is_bounded(request.idempotency_key@, 1, 240)
    &&& is_bounded(request.correlation_id@, 1, 240)
    &&& is_bounded(request.message.template_id@, 1, 160)
    &&& is_bounded(request.message.template_version@, 1, 80)
    &&& is_bounded(request.message.locale@, 2, 32)
    &&& is_bounded(request.recipient.address@, 3, 320)
    &&& is_bounded(request.message.subject@, 1, 998)
    &&& !has_line_break(request.message.subject@)
    &&& is_bounded(request.message.text@, 1, 131_072)
    &&& is_bounded(request.message.html@, 1, 262_144)
    &&& content_digest == request.message.content_digest@
}

/// The verdict on a request whose content has the digest `content_digest`, before its mailboxes
/// are looked at.
pub open spec fn request_verdict(
    config: SmtpConfig,
    request: DispatchRequest,
    content_digest: Seq<char>,
) -> Result<(), PrepareError> {
    if !is_well_formed(request, content_digest) {
        Err(PrepareError::Invalid)
    } else if estimated_size(request) > config.max_message_bytes {
        Err(PrepareError::Unsupported)
    } else {
        Ok(())
    }
}

/// Judges a request, given the digest of its content.
pub fn check_request(
    config: &SmtpConfig,
    request: &DispatchRequest,
    content_digest: &str,
) -> (verdict: Result<(), PrepareError>)
    ensures
        verdict == request_verdict(*config, *request, content_digest@),
{
    let message = &request.message;
    if !bounded(request.delivery_id.as_str(), 1, 160) || !bounded(
        request.attempt_id.as_str(),
        1,
        160,
    ) || !bounded(request.run_id.as_str(), 1, 160) || !bounded(
        request.idempotency_key.as_str(),
        1,
        240,
    ) || !bounded(request.correlation_id.as_str(), 1, 240) || !bounded(
        message.template_id.as_str(),
        1,
        160,
    ) || !bounded(message.template_version.as_str(), 1, 80) || !valid_locale(
        message.locale.as_str(),
    ) || !bounded(request.recipient.address.as_str(), 3, 320) || !bounded(
        message.subject.as_str(),
        1,
        998,
    ) || contains_line_break(message.subject.as_str()) || !bounded(
        message.text.as_str(),
        1,
        131_072,
    ) || !bounded(message.html.as_str(), 1, 262_144) || !same_text(
        content_digest,
        message.content_digest.as_str(),
    ) {
        return Err(PrepareError::Invalid);
    }
    match estimated_encoded_size(request) {
        Some(size) => if size > config.max_message_bytes {
            Err(PrepareError::Unsupported)
        } else {
            Ok(())
        },
        None => Err(PrepareError::Unsupported),
    }
}

/// The identifiers that make up a message's own identifier.
pub open spec fn message_key_parts(
    idempotency_key: Seq<char>,
    delivery_id: Seq<char>,
    attempt_id: Seq<char>,
) -> Seq<Seq<u8>> {
    seq![encode_utf8(idempotency_key), encode_utf8(delivery_id), encode_utf8(attempt_id)]
}

/// The RFC 5322 identifier of an attempt's message: the hexadecimal digest of its identifiers, at
/// `domain`.
pub open spec fn message_id_of(
    domain: Seq<char>,
    idempotency_key: Seq<char>,
    delivery_id: Seq<char>,
    attempt_id: Seq<char>,
) -> Seq<char> {
    "<"@ + digest_of(message_key_parts(idempotency_key, delivery_id, attempt_id)).skip(7) + "@"@
        + domain + ">"@
}

/// The message identifier of a request.
pub open spec fn request_message_id(config: SmtpConfig, request: DispatchRequest) -> Seq<char> {
    message_id_of(
        config.message_id_domain@,
        request.idempotency_key@,
        request.delivery_id@,
        request.attempt_id@,
    )
}

/// The same identifiers give the same message identifier.
pub fn message_id(config: &SmtpConfig, request: &DispatchRequest) -> (id: String)
    ensures
        id@ == request_message_id(*config, *request),
{
    let parts = [
        request.idempotency_key.as_str().as_bytes(),
        request.delivery_id.as_str().as_bytes(),
        request.attempt_id.as_str().as_bytes(),
    ];
    let key = digest_parts(&parts);
    proof {
        assert(part_bytes(parts@) =~= message_key_parts(
            request.idempotency_key@,
            request.delivery_id@,
            request.attempt_id@,
        ));
        reveal_strlit("sha256:");
        assert forall|i: int| 0 <= i < key@.len() implies (#[trigger] key@[i]) as nat <= 127 by {
            if i < 7 {
                assert(key@[i] == key@.take(7)[i]);
            }
        }
        assert(key@.subrange(7, 71) =~= key@.skip(7));
    }
    let mut id = String::from_str("<");
    id.append(key.as_str().substring_ascii(7, 71));
    id.append("@");
    id.append(config.message_id_domain.as_str());
    id.append(">");
    id
}

/// The message that a request asks for.
pub open spec fn mail_of(config: SmtpConfig, request: DispatchRequest) -> MailView {
    MailView {
        from_name: optional_text(config.from_name),
        from_address: config.from_address@,
        to_address: request.recipient.address@,
        subject: request.message.subject@,
        message_id: request_message_id(config, request),
        user_agent: USER_AGENT@,
        alternatives: text_then_html(request.message.text@, request.message.html@),
    }
}

/// Lays out the message that a request asks for.
pub fn compose_mail(config: &SmtpConfig, request: &DispatchRequest) -> (mail: Mail)
    ensures
        mail@ == mail_of(*config, *request),
{
    Mail {
        from_name: match &config.from_name {
            Some(name) => Some(name.clone()),
            None => None,
        },
        from_address: config.from_address.clone(),
        to_address: request.recipient.address.clone(),
        subject: request.message.subject.clone(),
        message_id: message_id(config, request),
        user_agent: String::from_str(USER_AGENT),
        text: request.message.text.clone(),
        html: request.message.html.clone(),
    }
}

/// The mailboxes of a request give a message.
pub open spec fn request_builds(config: SmtpConfig, request: DispatchRequest) -> bool {
    mailboxes_build(
        optional_text(config.from_name),
        config.from_address@,
        request.recipient.address@,
    )
}

/// The verdict on a request: the error with which it is refused, if any.
pub open spec fn prepare_verdict(config: SmtpConfig, request: DispatchRequest) -> Result<
    (),
    PrepareError,
> {
    let digest = digest_of(content_parts(request.message));
    match request_verdict(config, request, digest) {
        Err(error) => Err(error),
        Ok(()) => if request_builds(config, request) {
            Ok(())
        } else {
            Err(PrepareError::Invalid)
        },
    }
}

/// What a prepared dispatch holds beside its message.
pub open spec fn carries_identities(
    prepared: PreparedDispatch,
    config: SmtpConfig,
    request: DispatchRequest,
) -> bool {
    &&& prepared.message_id@ == request_message_id(config, request)
    &&& prepared.idempotency_key_hash@ == identity_digest_of(request.idempotency_key@)
    &&& prepared.delivery_id_hash@ == identity_digest_of(request.delivery_id@)
    &&& prepared.attempt_id_hash@ == identity_digest_of(request.attempt_id@)
    &&& prepared.request_fingerprint@ == digest_of(request_parts(request))
}

/// Every identity is a digest: none shows what it stands for.
pub open spec fn shows_digests_only(prepared: PreparedDispatch) -> bool {
    &&& is_digest(prepared.idempotency_key_hash@)
    &&& is_digest(prepared.delivery_id_hash@)
    &&& is_digest(prepared.attempt_id_hash@)
    &&& is_digest(prepared.request_fingerprint@)
}

/// Joins the identities of a request to the message that was made of it; without one, the request
/// is refused.
pub fn attach_identities(
    config: &SmtpConfig,
    request: &DispatchRequest,
    built: Option<Message>,
) -> (prepared: Result<PreparedDispatch, PrepareError>)
    ensures
        match (prepared, built) {
            (Ok(prepared), Some(message)) => prepared.message == message && carries_identities(
                prepared,
                *config,
                *request,
            ) && shows_digests_only(prepared),
            (Err(error), None) => error == PrepareError::Invalid,
            _ => false,
        },
{
    match built {
        Some(message) => Ok(
            PreparedDispatch {
                message,
                message_id: message_id(config, request),
                idempotency_key_hash: digest_identity(request.idempotency_key.as_str()),
                delivery_id_hash: digest_identity(request.delivery_id.as_str()),
                attempt_id_hash: digest_identity(request.attempt_id.as_str()),
                request_fingerprint: request_fingerprint(request),
            },
        ),
        None => Err(PrepareError::Invalid),
    }
}

/// Checks a request and makes its message, before anything is stored or sent.
pub fn prepare_dispatch(config: &SmtpConfig, request: &DispatchRequest) -> (prepared: Result<
    PreparedDispatch,
    PrepareError,
>)
    requires
        config.from_name matches Some(name) ==> !has_line_break(name@),
    ensures
        match prepared {
            Ok(prepared) => prepare_verdict(*config, *request) is Ok && is_message_of(
                prepared.message,
                mail_of(*config, *request),
            ) && carries_identities(prepared, *config, *request) && shows_digests_only(prepared)
                && is_digest(request.message.content_digest@) && is_mail_address(
                config.from_address@,
            ) && is_mail_address(request.recipient.address@),
            Err(error) => prepare_verdict(*config, *request) == Err::<(), PrepareError>(error),
        },
{
    let digest = content_digest(&request.message);
    match check_request(config, request, digest.as_str()) {
        Err(error) => Err(error),
        Ok(()) => {
            let built = build_message(compose_mail(config, request));
            attach_identities(config, request, built)
        },
    }
}

/// The two requests agree in every field.
pub open spec fn same_request(left: DispatchRequest, right: DispatchRequest) -> bool {
    &&& left.delivery_id@ == right.delivery_id@
    &&& left.attempt_id@ == right.attempt_id@
    &&& left.run_id@ == right.run_id@
    &&& left.idempotency_key@ == right.idempotency_key@
    &&& left.recipient.address@ == right.recipient.address@
    &&& left.message.template_id@ == right.message.template_id@
    &&& left.message.template_version@ == right.message.template_version@
    &&& left.message.locale@ == right.message.locale@
    &&& same_content(left.message, right.message)
    &&& left.message.content_digest@ == right.message.content_digest@
    &&& left.correlation_id@ == right.correlation_id@
}

/// The two messages have the same subject and the same bodies.
pub open spec fn same_content(left: DispatchRequestMessage, right: DispatchRequestMessage) -> bool {
    &&& left.subject@ == right.subject@
    &&& left.text@ == right.text@
    &&& left.html@ == right.html@
}

/// The fingerprint covers every field: requests with one fingerprint agree in all of them, unless
/// they are a SHA-256 collision.
pub proof fn the_fingerprint_covers_every_field(left: DispatchRequest, right: DispatchRequest)
    requires
        framable(request_parts(left)),
        framable(request_parts(right)),
        digest_of(request_parts(left)) == digest_of(request_parts(right)),
    ensures
        same_request(left, right) || is_collision(request_parts(left), request_parts(right)),
{
    let a = request_parts(left);
    let b = request_parts(right);
    equal_digests_mean_equal_parts_or_a_collision(a, b);
    if a == b {
        assert(a[0] == b[0] && a[1] == b[1] && a[2] == b[2] && a[3] == b[3] && a[4] == b[4]);
        assert(a[5] == b[5] && a[6] == b[6] && a[7] == b[7] && a[8] == b[8] && a[9] == b[9]);
        assert(a[10] == b[10] && a[11] == b[11] && a[12] == b[12]);
        utf8_is_injective(left.delivery_id@, right.delivery_id@);
        utf8_is_injective(left.attempt_id@, right.attempt_id@);
        utf8_is_injective(left.run_id@, right.run_id@);
        utf8_is_injective(left.idempotency_key@, right.idempotency_key@);
        utf8_is_injective(left.recipient.address@, right.recipient.address@);
        utf8_is_injective(left.message.template_id@, right.message.template_id@);
        utf8_is_injective(left.message.template_version@, right.message.template_version@);
        utf8_is_injective(left.message.locale@, right.message.locale@);
        utf8_is_injective(left.message.subject@, right.message.subject@);
        utf8_is_injective(left.message.text@, right.message.text@);
        utf8_is_injective(left.message.html@, right.message.html@);
        utf8_is_injective(left.message.content_digest@, right.message.content_digest@);
        utf8_is_injective(left.correlation_id@, right.correlation_id@);
    }
}

/// A content digest names one content: two requests that are not refused as invalid and name the
/// same digest have the same subject and bodies, unless the contents are a SHA-256 collision.
pub proof fn the_content_digest_names_the_content(
    left_config: SmtpConfig,
    left: DispatchRequest,
    right_config: SmtpConfig,
    right: DispatchRequest,
)
    requires
        framable(content_parts(left.message)),
        framable(content_parts(right.message)),
        prepare_verdict(left_config, left) != Err::<(), PrepareError>(PrepareError::Invalid),
        prepare_verdict(right_config, right) != Err::<(), PrepareError>(PrepareError::Invalid),
        left.message.content_digest@ == right.message.content_digest@,
    ensures
        same_content(left.message, right.message) || is_collision(
            content_parts(left.message),
            content_parts(right.message),
        ),
{
    let a = content_parts(left.message);
    let b = content_parts(right.message);
    equal_digests_mean_equal_parts_or_a_collision(a, b);
    if a == b {
        assert(a[0] == b[0] && a[1] == b[1] && a[2] == b[2]);
        utf8_is_injective(left.message.subject@, right.message.subject@);
        utf8_is_injective(left.message.text@, right.message.text@);
        utf8_is_injective(left.message.html@, right.message.html@);
    }
}

/// Content that was changed after its digest was taken is refused as invalid, unless it and the
/// content before are a SHA-256 collision.
pub proof fn changed_content_is_refused(
    config: SmtpConfig,
    before: DispatchRequestMessage,
    request: DispatchRequest,
)
    requires
        framable(content_parts(before)),
        framable(content_parts(request.message)),
        before.content_digest@ == digest_of(content_parts(before)),
        request.message.content_digest@ == before.content_digest@,
        !same_content(before, request.message),
    ensures
        prepare_verdict(config, request) == Err::<(), PrepareError>(PrepareError::Invalid)
            || is_collision(content_parts(before), content_parts(request.message)),
{
    let a = content_parts(before);
    let b = content_parts(request.message);
    if digest_of(a) == digest_of(b) {
        equal_digests_mean_equal_parts_or_a_collision(a, b);
        if a == b {
            assert(a[0] == b[0] && a[1] == b[1] && a[2] == b[2]);
            utf8_is_injective(before.subject@, request.message.subject@);
            utf8_is_injective(before.text@, request.message.text@);
            utf8_is_injective(before.html@, request.message.html@);
        }
    }
}

/// A message identifier is stable, and tells nothing but the attempt: requests with the same key,
/// delivery and attempt have the same one, whatever their recipient and content.
pub proof fn the_message_id_names_the_attempt_alone(
    config: SmtpConfig,
    left: DispatchRequest,
    right: DispatchRequest,
)
    requires
        left.idempotency_key@ == right.idempotency_key@,
        left.delivery_id@ == right.delivery_id@,
        left.attempt_id@ == right.attempt_id@,
    ensures
        request_message_id(config, left) == request_message_id(config, right),
{
}

spec fn attempt_parts(request: DispatchRequest) -> Seq<Seq<u8>> {
    message_key_parts(request.idempotency_key@, request.delivery_id@, request.attempt_id@)
}

/// Different attempts have different message identifiers, unless they are a SHA-256 collision.
pub proof fn equal_message_ids_mean_one_attempt_or_a_collision(
    config: SmtpConfig,
    left: DispatchRequest,
    right: DispatchRequest,
)
    requires
        framable(request_parts(left)),
        framable(request_parts(right)),
        request_message_id(config, left) == request_message_id(config, right),
    ensures
        ({
            &&& left.idempotency_key@ == right.idempotency_key@
            &&& left.delivery_id@ == right.delivery_id@
            &&& left.attempt_id@ == right.attempt_id@
        }) || is_collision(
            message_key_parts(left.idempotency_key@, left.delivery_id@, left.attempt_id@),
            message_key_parts(right.idempotency_key@, right.delivery_id@, right.attempt_id@),
        ),
{
    let a = attempt_parts(left);
    let b = attempt_parts(right);
    assert(framable(a)) by {
        let parts = request_parts(left);
        assert(a[0] == parts[3] && a[1] == parts[0] && a[2] == parts[1]);
    }
    assert(framable(b)) by {
        let parts = request_parts(right);
        assert(b[0] == parts[3] && b[1] == parts[0] && b[2] == parts[1]);
    }
    let left_hex = digest_of(a).skip(7);
    let right_hex = digest_of(b).skip(7);
    let domain = config.message_id_domain@;
    let left_id = "<"@ + left_hex + "@"@ + domain + ">"@;
    let right_id = "<"@ + right_hex + "@"@ + domain + ">"@;
    assert(left_id.len() == right_id.len());
    assert(left_hex.len() == right_hex.len());
    let open = "<"@.len() as int;
    assert(left_hex =~= left_id.subrange(open, open + left_hex.len()));
    assert(right_hex =~= right_id.subrange(open, open + right_hex.len()));
    reveal_strlit("sha256:");
    assert(digest_of(a) =~= DIGEST_PREFIX@ + left_hex);
    assert(digest_of(b) =~= DIGEST_PREFIX@ + right_hex);
    equal_digests_mean_equal_parts_or_a_collision(a, b);
    if a == b {
        assert(a[0] == b[0] && a[1] == b[1] && a[2] == b[2]);
        utf8_is_injective(left.idempotency_key@, right.idempotency_key@);
        utf8_is_injective(left.delivery_id@, right.delivery_id@);
        utf8_is_injective(left.attempt_id@, right.attempt_id@);
    }
}

/// The free texts of an accepted message fit on one header line each: with a valid configuration,
/// neither the subject nor the sender's name nor the message identifier holds a line break.
pub proof fn header_texts_hold_no_line_break(config: SmtpConfig, request: DispatchRequest)
    requires
        config_result(config) is Ok,
        prepare_verdict(config, request) is Ok,
    ensures
        !has_line_break(mail_of(config, request).subject),
        !has_line_break(mail_of(config, request).message_id),
        mail_of(config, request).from_name matches Some(name) ==> !has_line_break(name),
        !has_line_break(mail_of(config, request).user_agent),
{
    let id = request_message_id(config, request);
    let domain = config.message_id_domain@;
    hostnames_hold_no_other_chars(domain);
    reveal_strlit("<");
    reveal_strlit("@");
    reveal_strlit(">");
    reveal_strlit("sha256:");
    reveal_strlit("lenso-email-smtp-plugin/0.1");
    let parts = attempt_parts(request);
    let hex = hex_text(sha256_of(frame(parts)));
    assert(digest_of(parts).skip(7) =~= hex);
    assert forall|i: int| 0 <= i < id.len() implies !is_line_break(#[trigger] id[i]) by {
        if 1 <= i < 1 + hex.len() {
            let digit = hex[i - 1];
            assert(id[i] == digit);
            hex_text_holds_hex_digits(sha256_of(frame(parts)), i - 1);
        } else if 2 + hex.len() <= i < 2 + hex.len() + domain.len() {
            assert(id[i] == domain[i - 2 - hex.len()]);
        }
    }
}

/// A request that asks for more than the message budget is refused as unsupported, whoever it is
/// for; a request that breaks the contract is refused as invalid whatever its size.
pub proof fn oversized_messages_are_unsupported(config: SmtpConfig, request: DispatchRequest)
    requires
        estimated_size(request) > config.max_message_bytes,
    ensures
        prepare_verdict(config, request) == (if is_well_formed(
            request,
            digest_of(content_parts(request.message)),
        ) {
            Err::<(), PrepareError>(PrepareError::Unsupported)
        } else {
            Err::<(), PrepareError>(PrepareError::Invalid)
        }),
{
}

/// What a request says in its bodies is not looked at: for two requests that agree in everything
/// but text, HTML and content digest, whose bodies are within their bounds, have the digests that
/// are named, and fit the message budget, the verdict is the same.
pub proof fn the_bodies_may_hold_any_characters(
    config: SmtpConfig,
    left: DispatchRequest,
    right: DispatchRequest,
)
    requires
        right == (DispatchRequest {
            message: DispatchRequestMessage {
                text: right.message.text,
                html: right.message.html,
                content_digest: right.message.content_digest,
                ..left.message
            },
            ..left
        }),
        1 <= left.message.text@.len() <= 131_072,
        1 <= right.message.text@.len() <= 131_072,
        1 <= left.message.html@.len() <= 262_144,
        1 <= right.message.html@.len() <= 262_144,
        left.message.content_digest@ == digest_of(content_parts(left.message)),
        right.message.content_digest@ == digest_of(content_parts(right.message)),
        estimated_size(left) <= config.max_message_bytes,
        estimated_size(right) <= config.max_message_bytes,
    ensures
        request_verdict(config, left, left.message.content_digest@) == request_verdict(
            config,
            right,
            right.message.content_digest@,
        ),
        prepare_verdict(config, left) == prepare_verdict(config, right),
{
}

/// A request is accepted exactly when its fields keep their bounds, its subject has no line break,
/// its content has the digest that it names, it fits the message budget, and its mailboxes give a
/// message. It is unsupported exactly when only the budget, or the budget and the mailboxes, stand
/// against it, and invalid for every other reason.
pub proof fn a_request_is_accepted_exactly_when_it_keeps_the_contract(
    config: SmtpConfig,
    request: DispatchRequest,
)
    ensures
        ({
            let message = request.message;
            let subject = message.subject@;
            let keeps_contract = {
                &&& 1 <= request.delivery_id@.len() <= 160
                &&& 1 <= request.attempt_id@.len() <= 160
                &&& 1 <= request.run_id@.len() <= 160
                &&& 1 <= request.idempotency_key@.len() <= 240
                &&& 1 <= request.correlation_id@.len() <= 240
                &&& 1 <= message.template_id@.len() <= 160
                &&& 1 <= message.template_version@.len() <= 80
                &&& 2 <= message.locale@.len() <= 32
                &&& 3 <= request.recipient.address@.len() <= 320
                &&& 1 <= subject.len() <= 998
                &&& !subject.contains('\r') && !subject.contains('\n')
                &&& 1 <= message.text@.len() <= 131_072
                &&& 1 <= message.html@.len() <= 262_144
                &&& message.content_digest@ == digest_of(content_parts(message))
            };
            let fits = 8_192 + 3 * (encode_utf8(subject).len() + encode_utf8(message.text@).len()
                + encode_utf8(message.html@).len() + encode_utf8(request.recipient.address@).len())
                <= config.max_message_bytes;
            let builds = mailboxes_build(
                match config.from_name {
                    Some(name) => Some(name@),
                    None => None,
                },
                config.from_address@,
                request.recipient.address@,
            );
            let verdict = prepare_verdict(config, request);
            &&& verdict is Ok <==> keeps_contract && fits && builds
            &&& verdict == Err::<(), PrepareError>(PrepareError::Unsupported) <==> keeps_contract
                && !fits
        }),
{
    let subject = request.message.subject@;
    assert(has_line_break(subject) <==> subject.contains('\r') || subject.contains('\n')) by {
        if has_line_break(subject) {
            let i = choose|i: int| 0 <= i < subject.len() && is_line_break(#[trigger] subject[i]);
            assert(subject.contains(subject[i]));
        }
        if subject.contains('\r') {
            let i = choose|i: int| 0 <= i < subject.len() && subject[i] == '\r';
            assert(is_line_break(subject[i]));
        }
        if subject.contains('\n') {
            let i = choose|i: int| 0 <= i < subject.len() && subject[i] == '\n';
            assert(is_line_break(subject[i]));
        }
    }
}

/// Before its mailboxes are looked at, a request is accepted exactly when its fields keep their
/// bounds, its subject has no line break, its content has the digest that it names, whatever that
/// is, and it fits the message budget; it is unsupported exactly when only the budget stands
/// against it.
pub proof fn a_request_is_judged_field_by_field(
    config: SmtpConfig,
    request: DispatchRequest,
    content_digest: Seq<char>,
)
    ensures
        ({
            let message = request.message;
            let keeps_contract = {
                &&& 1 <= request.delivery_id@.len() <= 160
                &&& 1 <= request.attempt_id@.len() <= 160
                &&& 1 <= request.run_id@.len() <= 160
                &&& 1 <= request.idempotency_key@.len() <= 240
                &&& 1 <= request.correlation_id@.len() <= 240
                &&& 1 <= message.template_id@.len() <= 160
                &&& 1 <= message.template_version@.len() <= 80
                &&& 2 <= message.locale@.len() <= 32
                &&& 3 <= request.recipient.address@.len() <= 320
                &&& 1 <= message.subject@.len() <= 998
                &&& !has_line_break(message.subject@)
                &&& 1 <= message.text@.len() <= 131_072
                &&& 1 <= message.html@.len() <= 262_144
                &&& message.content_digest@ == content_digest
            };
            let fits = 8_192 + 3 * (encode_utf8(message.subject@).len() + encode_utf8(
                message.text@,
            ).len() + encode_utf8(message.html@).len() + encode_utf8(
                request.recipient.address@,
            ).len()) <= config.max_message_bytes;
            let verdict = request_verdict(config, request, content_digest);
            &&& verdict is Ok <==> keeps_contract && fits
            &&& verdict == Err::<(), PrepareError>(PrepareError::Unsupported) <==> keeps_contract
                && !fits
            &&& verdict == Err::<(), PrepareError>(PrepareError::Invalid) <==> !keeps_contract
        }),
{
}

/// A text is within its bounds exactly when it is not too short and not too long: what it holds
/// does not matter, and both bounds belong to it.
pub proof fn bounds_count_characters_alone(
    left: Seq<char>,
    right: Seq<char>,
    minimum: nat,
    maximum: nat,
)
    ensures
        left.len() == right.len() ==> is_bounded(left, minimum, maximum) == is_bounded(
            right,
            minimum,
            maximum,
        ),
        is_bounded(left, minimum, maximum) <==> left.len() >= minimum && left.len() <= maximum,
{
}

/// A request is judged by its own fields and the message budget alone, before its mailboxes are
/// looked at; who sends it does not matter there.
pub proof fn a_request_is_judged_against_the_budget_alone(
    config: SmtpConfig,
    other: SmtpConfig,
    request: DispatchRequest,
    content_digest: Seq<char>,
)
    requires
        config.max_message_bytes == other.max_message_bytes,
    ensures
        request_verdict(config, request, content_digest) == request_verdict(
            other,
            request,
            content_digest,
        ),
{
}

/// The message says what was asked for: it goes from the configured sender to the recipient, under
/// the request's subject, as plain text with the request's text and then as HTML with its HTML, and
/// there is no third body.
pub proof fn the_message_says_what_was_asked_for(config: SmtpConfig, request: DispatchRequest)
    ensures
        ({
            let mail = mail_of(config, request);
            &&& mail.from_address == config.from_address@
            &&& match config.from_name {
                Some(name) => mail.from_name == Some(name@),
                None => mail.from_name is None,
            }
            &&& mail.to_address == request.recipient.address@
            &&& mail.subject == request.message.subject@
            &&& mail.user_agent == "lenso-email-smtp-plugin/0.1"@
            &&& mail.message_id == request_message_id(config, request)
            &&& mail.alternatives.len() == 2
            &&& mail.alternatives[0].content_type == "text/plain; charset=utf-8"@
            &&& mail.alternatives[0].body == request.message.text@
            &&& mail.alternatives[1].content_type == "text/html; charset=utf-8"@
            &&& mail.alternatives[1].body == request.message.html@
        }),
{
}

/// Nothing that is asked for is lost: requests whose messages are the same, under one
/// configuration, agree in recipient, subject, text and HTML.
pub proof fn equal_messages_mean_equal_requests(
    config: SmtpConfig,
    left: DispatchRequest,
    right: DispatchRequest,
)
    requires
        mail_of(config, left) == mail_of(config, right),
    ensures
        left.recipient.address@ == right.recipient.address@,
        left.message.subject@ == right.message.subject@,
        left.message.text@ == right.message.text@,
        left.message.html@ == right.message.html@,
{
    let a = mail_of(config, left).alternatives;
    let b = mail_of(config, right).alternatives;
    assert(a[0].body == b[0].body && a[1].body == b[1].body);
}

/// The layout of a message shows every field of it.
pub proof fn a_message_shows_every_field(mail: Mail)
    ensures
        mail@.from_address == mail.from_address@,
        match mail.from_name {
            Some(name) => mail@.from_name == Some(name@),
            None => mail@.from_name is None,
        },
        mail@.to_address == mail.to_address@,
        mail@.subject == mail.subject@,
        mail@.message_id == mail.message_id@,
        mail@.user_agent == mail.user_agent@,
        mail@.alternatives.len() == 2,
        mail@.alternatives[0].content_type == "text/plain; charset=utf-8"@,
        mail@.alternatives[0].body == mail.text@,
        mail@.alternatives[1].content_type == "text/html; charset=utf-8"@,
        mail@.alternatives[1].body == mail.html@,
{
}

/// The content digest covers subject, text and HTML, in this order and nothing else.
pub proof fn the_content_is_subject_text_and_html(message: DispatchRequestMessage)
    ensures
        content_parts(message) == seq![
            encode_utf8(message.subject@),
            encode_utf8(message.text@),
            encode_utf8(message.html@),
        ],
{
}

/// The fingerprint covers the identifiers, the recipient, the template, the locale, the content and
/// its digest, each once and in this order.
pub proof fn the_fingerprint_covers_the_fields_in_order(request: DispatchRequest)
    ensures
        ({
            let parts = request_parts(request);
            let message = request.message;
            &&& parts.len() == 13
            &&& parts.take(5) == seq![
                encode_utf8(request.delivery_id@),
                encode_utf8(request.attempt_id@),
                encode_utf8(request.run_id@),
                encode_utf8(request.idempotency_key@),
                encode_utf8(request.recipient.address@),
            ]
            &&& parts.subrange(5, 8) == seq![
                encode_utf8(message.template_id@),
                encode_utf8(message.template_version@),
                encode_utf8(message.locale@),
            ]
            &&& parts.subrange(8, 11) == content_parts(message)
            &&& parts.skip(11) == seq![
                encode_utf8(message.content_digest@),
                encode_utf8(request.correlation_id@),
            ]
        }),
{
    let parts = request_parts(request);
    let message = request.message;
    assert(parts.take(5) =~= seq![
        encode_utf8(request.delivery_id@),
        encode_utf8(request.attempt_id@),
        encode_utf8(request.run_id@),
        encode_utf8(request.idempotency_key@),
        encode_utf8(request.recipient.address@),
    ]);
    assert(parts.subrange(5, 8) =~= seq![
        encode_utf8(message.template_id@),
        encode_utf8(message.template_version@),
        encode_utf8(message.locale@),
    ]);
    assert(parts.subrange(8, 11) =~= content_parts(message));
    assert(parts.skip(11) =~= seq![
        encode_utf8(message.content_digest@),
        encode_utf8(request.correlation_id@),
    ]);
}

/// Every byte of content or address adds three to the estimate, which starts at eight kibibytes.
pub proof fn the_estimate_grows_by_three_for_each_byte(
    left: DispatchRequest,
    right: DispatchRequest,
)
    ensures
        ({
            let bytes = |request: DispatchRequest|
                encode_utf8(request.message.subject@).len() + encode_utf8(
                    request.message.text@,
                ).len() + encode_utf8(request.message.html@).len() + encode_utf8(
                    request.recipient.address@,
                ).len();
            &&& estimated_size(left) - estimated_size(right) == 3 * (bytes(left) - bytes(right))
            &&& bytes(left) == 0 ==> estimated_size(left) == 8_192
            &&& estimated_size(left) >= 8_192
        }),
{
}

/// A message identifier stands in angle brackets and ends with the configured domain; before the
/// `@` it has the hexadecimal digits of the digest of the key, the delivery and the attempt.
pub proof fn the_message_id_has_its_form(config: SmtpConfig, request: DispatchRequest)
    ensures
        ({
            let id = request_message_id(config, request);
            let hex = hex_text(
                sha256_of(
                    frame(
                        seq![
                            encode_utf8(request.idempotency_key@),
                            encode_utf8(request.delivery_id@),
                            encode_utf8(request.attempt_id@),
                        ],
                    ),
                ),
            );
            id == seq!['<'] + hex + seq!['@'] + config.message_id_domain@ + seq!['>']
        }),
{
    reveal_strlit("<");
    reveal_strlit("@");
    reveal_strlit(">");
    reveal_strlit("sha256:");
    let parts = attempt_parts(request);
    assert(digest_of(parts).skip(7) =~= hex_text(sha256_of(frame(parts))));
    assert("<"@ =~= seq!['<']);
    assert("@"@ =~= seq!['@']);
    assert(">"@ =~= seq!['>']);
}

/// A prepared dispatch is known by the hashes of its own identifiers, the fingerprint of the whole
/// request and the message identifier, each in its place.
pub proof fn a_prepared_dispatch_is_known_by_its_own_hashes(
    prepared: PreparedDispatch,
    config: SmtpConfig,
    request: DispatchRequest,
)
    requires
        carries_identities(prepared, config, request),
    ensures
        prepared.idempotency_key_hash@ == "sha256:"@ + hex_text(
            sha256_of(encode_utf8(request.idempotency_key@)),
        ),
        prepared.delivery_id_hash@ == "sha256:"@ + hex_text(
            sha256_of(encode_utf8(request.delivery_id@)),
        ),
        prepared.attempt_id_hash@ == "sha256:"@ + hex_text(
            sha256_of(encode_utf8(request.attempt_id@)),
        ),
        prepared.request_fingerprint@ == digest_of(request_parts(request)),
        prepared.message_id@ == request_message_id(config, request),
{
}

} // verus!
