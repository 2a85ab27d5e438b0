//! Socket errors raised by exchange connections, as the bindings report them:
//! a variant name, the error's message and a few named details per variant.
use vstd::prelude::*;

verus! {

/// A socket error with its payloads held as plain values: the source errors
/// are kept as their messages, the HTTP status as its number and the
/// subscription identifier as its text.
#[derive(Clone, Debug, PartialEq, Eq)]
pub enum SocketFault {
    Sink,
    Deserialise { error: String, payload: String },
    DeserialiseBinary { error: String, payload: Vec<u8> },
    DeserialiseProtobuf { error: String, payload: Vec<u8> },
    Serialise { error: String },
    QueryParams { error: String },
    UrlEncoded { error: String },
    UrlParse { error: String },
    Subscribe { message: String },
    Terminated { reason: String },
    Unsupported { entity: String, item: String },
    WebSocket { error: String },
    Http { error: String },
    HttpTimeout { error: String },
    HttpResponse { status: u16, error: String },
    Unidentifiable { subscription_id: String },
    Exchange { message: String },
}

/// The details that accompany a socket error, grouped by their shape.
#[derive(Clone, Debug, PartialEq, Eq)]
pub enum SocketErrorDetails {
    Json { error: String, payload: String },
    JsonBinary { error: String, payload: Vec<u8> },
    Protobuf { error: String, payload: Vec<u8> },
    Serialise { error: String },
    QueryParams { error: String },
    UrlEncoded { error: String },
    UrlParse { error: String },
    Subscribe { message: String },
    Terminated { reason: String },
    Unsupported { entity: String, item: String },
    WebSocket { error: String },
    Http { error: String },
    HttpTimeout { error: String },
    HttpResponse { status: u16, error: String },
    Unidentifiable { subscription_id: String },
    Exchange { message: String },
}

/// The value of one named detail.
#[derive(Clone, Debug, PartialEq, Eq)]
pub enum DetailValue {
    Text(String),
    Bytes(Vec<u8>),
    Number(u64),
}

/// What the bindings expose of a socket error.
#[derive(Clone, Debug, PartialEq, Eq)]
pub struct SocketErrorInfo {
    /// The name of the error's variant.
    pub kind: &'static str,
    /// The error's message.
    pub message: String,
    /// The variant's details; a sink error has none.
    pub details: Option<SocketErrorDetails>,
}

/// The name under which a socket error is reported: its variant's name.
pub open spec fn fault_kind(fault: SocketFault) -> &'static str {
    match fault {
        SocketFault::Sink => "Sink",
        SocketFault::Deserialise { .. } => "Deserialise",
        SocketFault::DeserialiseBinary { .. } => "DeserialiseBinary",
        SocketFault::DeserialiseProtobuf { .. } => "DeserialiseProtobuf",
        SocketFault::Serialise { .. } => "Serialise",
        SocketFault::QueryParams { .. } => "QueryParams",
        SocketFault::UrlEncoded { .. } => "UrlEncoded",
        SocketFault::UrlParse { .. } => "UrlParse",
        SocketFault::Subscribe { .. } => "Subscribe",
        SocketFault::Terminated { .. } => "Terminated",
        SocketFault::Unsupported { .. } => "Unsupported",
        SocketFault::WebSocket { .. } => "WebSocket",
        SocketFault::Http { .. } => "Http",
        SocketFault::HttpTimeout { .. } => "HttpTimeout",
        SocketFault::HttpResponse { .. } => "HttpResponse",
        SocketFault::Unidentifiable { .. } => "Unidentifiable",
        SocketFault::Exchange { .. } => "Exchange",
    }
}

/// The details reported for a socket error: every payload of the variant,
/// unchanged, and none for a sink error.
pub open spec fn fault_details(fault: SocketFault) -> Option<SocketErrorDetails> {
    match fault {
        SocketFault::Sink => None,
        SocketFault::Deserialise { error, payload } => Some(
            SocketErrorDetails::Json { error, payload },
        ),
        SocketFault::DeserialiseBinary { error, payload } => Some(
            SocketErrorDetails::JsonBinary { error, payload },
        ),
        SocketFault::DeserialiseProtobuf { error, payload } => Some(
            SocketErrorDetails::Protobuf { error, payload },
        ),
        SocketFault::Serialise { error } => Some(SocketErrorDetails::Serialise { error }),
        SocketFault::QueryParams { error } => Some(SocketErrorDetails::QueryParams { error }),
        SocketFault::UrlEncoded { error } => Some(SocketErrorDetails::UrlEncoded { error }),
        SocketFault::UrlParse { error } => Some(SocketErrorDetails::UrlParse { error }),
        SocketFault::Subscribe { message } => Some(SocketErrorDetails::Subscribe { message }),
        SocketFault::Terminated { reason } => Some(SocketErrorDetails::Terminated { reason }),
        SocketFault::Unsupported { entity, item } => Some(
            SocketErrorDetails::Unsupported { entity, item },
        ),
        SocketFault::WebSocket { error } => Some(SocketErrorDetails::WebSocket { error }),
        SocketFault::Http { error } => Some(SocketErrorDetails::Http { error }),
        SocketFault::HttpTimeout { error } => Some(SocketErrorDetails::HttpTimeout { error }),
        SocketFault::HttpResponse { status, error } => Some(
            SocketErrorDetails::HttpResponse { status, error },
        ),
        SocketFault::Unidentifiable { subscription_id } => Some(
            SocketErrorDetails::Unidentifiable { subscription_id },
        ),
        SocketFault::Exchange { message } => Some(SocketErrorDetails::Exchange { message }),
    }
}

impl SocketErrorDetails {
    /// The named entries of the details, in the order they are reported:
    /// source errors under `error`, payloads under `payload`, messages and
    /// closing reasons under `message`, and the remaining fields under their
    /// own names.
    pub open spec fn entries(self) -> Seq<(&'static str, DetailValue)> {
        match self {
            SocketErrorDetails::Json { error, payload } => seq![
                ("error", DetailValue::Text(error)),
                ("payload", DetailValue::Text(payload)),
            ],
            SocketErrorDetails::JsonBinary { error, payload } => seq![
                ("error", DetailValue::Text(error)),
                ("payload", DetailValue::Bytes(payload)),
            ],
            SocketErrorDetails::Protobuf { error, payload } => seq![
                ("error", DetailValue::Text(error)),
                ("payload", DetailValue::Bytes(payload)),
            ],
            SocketErrorDetails::Serialise { error } => seq![("error", DetailValue::Text(error))],
            SocketErrorDetails::QueryParams { error } => seq![("error", DetailValue::Text(error))],
            SocketErrorDetails::UrlEncoded { error } => seq![("error", DetailValue::Text(error))],
            SocketErrorDetails::UrlParse { error } => seq![("error", DetailValue::Text(error))],
            SocketErrorDetails::WebSocket { error } => seq![("error", DetailValue::Text(error))],
            SocketErrorDetails::Http { error } => seq![("error", DetailValue::Text(error))],
            SocketErrorDetails::HttpTimeout { error } => seq![("error", DetailValue::Text(error))],
            SocketErrorDetails::Subscribe { message } => seq![
                ("message", DetailValue::Text(message)),
            ],
            SocketErrorDetails::Terminated { reason } => seq![
                ("message", DetailValue::Text(reason)),
            ],
            SocketErrorDetails::Exchange { message } => seq![
                ("message", DetailValue::Text(message)),
            ],
            SocketErrorDetails::Unsupported { entity, item } => seq![
                ("entity", DetailValue::Text(entity)),
                ("item", DetailValue::Text(item)),
            ],
            SocketErrorDetails::HttpResponse { status, error } => seq![
                ("status", DetailValue::Number(status as u64)),
                ("error", DetailValue::Text(error)),
            ],
            SocketErrorDetails::Unidentifiable { subscription_id } => seq![
                ("subscription_id", DetailValue::Text(subscription_id)),
            ],
        }
    }

    /// The named entries of the details, consuming them.
    pub fn into_entries(self) -> (r: Vec<(&'static str, DetailValue)>)
        ensures
            r@ == self.entries(),
    {
        match self {
            SocketErrorDetails::Json { error, payload } => vec![
                ("error", DetailValue::Text(error)),
                ("payload", DetailValue::Text(payload)),
            ],
            SocketErrorDetails::JsonBinary { error, payload } => vec![
                ("error", DetailValue::Text(error)),
                ("payload", DetailValue::Bytes(payload)),
            ],
            SocketErrorDetails::Protobuf { error, payload } => vec![
                ("error", DetailValue::Text(error)),
                ("payload", DetailValue::Bytes(payload)),
            ],
            SocketErrorDetails::Serialise { error } => vec![("error", DetailValue::Text(error))],
            SocketErrorDetails::QueryParams { error } => vec![("error", DetailValue::Text(error))],
            SocketErrorDetails::UrlEncoded { error } => vec![("error", DetailValue::Text(error))],
            SocketErrorDetails::UrlParse { error } => vec![("error", DetailValue::Text(error))],
            SocketErrorDetails::WebSocket { error } => vec![("error", DetailValue::Text(error))],
            SocketErrorDetails::Http { error } => vec![("error", DetailValue::Text(error))],
            SocketErrorDetails::HttpTimeout { error } => vec![("error", DetailValue::Text(error))],
            SocketErrorDetails::Subscribe { message } => vec![
                ("message", DetailValue::Text(message)),
            ],
            SocketErrorDetails::Terminated { reason } => vec![
                ("message", DetailValue::Text(reason)),
            ],
            SocketErrorDetails::Exchange { message } => vec![
                ("message", DetailValue::Text(message)),
            ],
            SocketErrorDetails::Unsupported { entity, item } => vec![
                ("entity", DetailValue::Text(entity)),
                ("item", DetailValue::Text(item)),
            ],
            SocketErrorDetails::HttpResponse { status, error } => vec![
                ("status", DetailValue::Number(status as u64)),
                ("error", DetailValue::Text(error)),
            ],
            SocketErrorDetails::Unidentifiable { subscription_id } => vec![
                ("subscription_id", DetailValue::Text(subscription_id)),
            ],
        }
    }
}

/// The kind reported for a socket error, by its length and first two
/// characters, tells the variants apart.
proof fn lemma_kind_shape(f: SocketFault)
    ensures
        (f is Sink) <==> (fault_kind(f)@.len() == 4 && fault_kind(f)@[0] == 'S' && fault_kind(f)@[1] == 'i'),
        (f is Deserialise) <==> (fault_kind(f)@.len() == 11 && fault_kind(f)@[0] == 'D' && fault_kind(f)@[1] == 'e'),
        (f is DeserialiseBinary) <==> (fault_kind(f)@.len() == 17 && fault_kind(f)@[0] == 'D' && fault_kind(f)@[1] == 'e'),
        (f is DeserialiseProtobuf) <==> (fault_kind(f)@.len() == 19 && fault_kind(f)@[0] == 'D' && fault_kind(f)@[1] == 'e'),
        (f is Serialise) <==> (fault_kind(f)@.len() == 9 && fault_kind(f)@[0] == 'S' && fault_kind(f)@[1] == 'e'),
        (f is QueryParams) <==> (fault_kind(f)@.len() == 11 && fault_kind(f)@[0] == 'Q' && fault_kind(f)@[1] == 'u'),
        (f is UrlEncoded) <==> (fault_kind(f)@.len() == 10 && fault_kind(f)@[0] == 'U' && fault_kind(f)@[1] == 'r'),
        (f is UrlParse) <==> (fault_kind(f)@.len() == 8 && fault_kind(f)@[0] == 'U' && fault_kind(f)@[1] == 'r'),
        (f is Subscribe) <==> (fault_kind(f)@.len() == 9 && fault_kind(f)@[0] == 'S' && fault_kind(f)@[1] == 'u'),
        (f is Terminated) <==> (fault_kind(f)@.len() == 10 && fault_kind(f)@[0] == 'T' && fault_kind(f)@[1] == 'e'),
        (f is Unsupported) <==> (fault_kind(f)@.len() == 11 && fault_kind(f)@[0] == 'U' && fault_kind(f)@[1] == 'n'),
        (f is WebSocket) <==> (fault_kind(f)@.len() == 9 && fault_kind(f)@[0] == 'W' && fault_kind(f)@[1] == 'e'),
        (f is Http) <==> (fault_kind(f)@.len() == 4 && fault_kind(f)@[0] == 'H' && fault_kind(f)@[1] == 't'),
        (f is HttpTimeout) <==> (fault_kind(f)@.len() == 11 && fault_kind(f)@[0] == 'H' && fault_kind(f)@[1] == 't'),
        (f is HttpResponse) <==> (fault_kind(f)@.len() == 12 && fault_kind(f)@[0] == 'H' && fault_kind(f)@[1] == 't'),
        (f is Unidentifiable) <==> (fault_kind(f)@.len() == 14 && fault_kind(f)@[0] == 'U' && fault_kind(f)@[1] == 'n'),
        (f is Exchange) <==> (fault_kind(f)@.len() == 8 && fault_kind(f)@[0] == 'E' && fault_kind(f)@[1] == 'x'),
{
    reveal_strlit("Sink");
    reveal_strlit("Deserialise");
    reveal_strlit("DeserialiseBinary");
    reveal_strlit("DeserialiseProtobuf");
    reveal_strlit("Serialise");
    reveal_strlit("QueryParams");
    reveal_strlit("UrlEncoded");
    reveal_strlit("UrlParse");
    reveal_strlit("Subscribe");
    reveal_strlit("Terminated");
    reveal_strlit("Unsupported");
    reveal_strlit("WebSocket");
    reveal_strlit("Http");
    reveal_strlit("HttpTimeout");
    reveal_strlit("HttpResponse");
    reveal_strlit("Unidentifiable");
    reveal_strlit("Exchange");
}

/// Socket errors of different variants are reported under different kinds:
/// the kind determines the variant.
pub proof fn law_kind_determines_variant(a: SocketFault, b: SocketFault)
    requires
        fault_kind(a)@ == fault_kind(b)@,
    ensures
        (a is Sink) <==> (b is Sink),
        (a is Deserialise) <==> (b is Deserialise),
        (a is DeserialiseBinary) <==> (b is DeserialiseBinary),
        (a is DeserialiseProtobuf) <==> (b is DeserialiseProtobuf),
        (a is Serialise) <==> (b is Serialise),
        (a is QueryParams) <==> (b is QueryParams),
        (a is UrlEncoded) <==> (b is UrlEncoded),
        (a is UrlParse) <==> (b is UrlParse),
        (a is Subscribe) <==> (b is Subscribe),
        (a is Terminated) <==> (b is Terminated),
        (a is Unsupported) <==> (b is Unsupported),
        (a is WebSocket) <==> (b is WebSocket),
        (a is Http) <==> (b is Http),
        (a is HttpTimeout) <==> (b is HttpTimeout),
        (a is HttpResponse) <==> (b is HttpResponse),
        (a is Unidentifiable) <==> (b is Unidentifiable),
        (a is Exchange) <==> (b is Exchange),
{
    lemma_kind_shape(a);
    lemma_kind_shape(b);
}

/// A socket error is reported under the name of its own variant.
pub proof fn law_kind_is_variant_name(f: SocketFault)
    ensures
        f is Sink ==> fault_kind(f)@ == "Sink"@,
        f is Deserialise ==> fault_kind(f)@ == "Deserialise"@,
        f is DeserialiseBinary ==> fault_kind(f)@ == "DeserialiseBinary"@,
        f is DeserialiseProtobuf ==> fault_kind(f)@ == "DeserialiseProtobuf"@,
        f is Serialise ==> fault_kind(f)@ == "Serialise"@,
        f is QueryParams ==> fault_kind(f)@ == "QueryParams"@,
        f is UrlEncoded ==> fault_kind(f)@ == "UrlEncoded"@,
        f is UrlParse ==> fault_kind(f)@ == "UrlParse"@,
        f is Subscribe ==> fault_kind(f)@ == "Subscribe"@,
        f is Terminated ==> fault_kind(f)@ == "Terminated"@,
        f is Unsupported ==> fault_kind(f)@ == "Unsupported"@,
        f is WebSocket ==> fault_kind(f)@ == "WebSocket"@,
        f is Http ==> fault_kind(f)@ == "Http"@,
        f is HttpTimeout ==> fault_kind(f)@ == "HttpTimeout"@,
        f is HttpResponse ==> fault_kind(f)@ == "HttpResponse"@,
        f is Unidentifiable ==> fault_kind(f)@ == "Unidentifiable"@,
        f is Exchange ==> fault_kind(f)@ == "Exchange"@,
{
}

/// The details `d` hold an entry named `key` with the value `v`.
pub open spec fn has_entry(d: Option<SocketErrorDetails>, key: Seq<char>, v: DetailValue) -> bool {
    d matches Some(x) && exists|i: int|
        0 <= i < x.entries().len() && (#[trigger] x.entries()[i]).0@ == key && x.entries()[i].1 == v
}

/// The details `d` hold an entry named `key`.
pub open spec fn has_key(d: SocketErrorDetails, key: Seq<char>) -> bool {
    exists|i: int| 0 <= i < d.entries().len() && (#[trigger] d.entries()[i]).0@ == key
}

/// Only a sink error comes without details; every other socket error keeps
/// each payload of its variant, unchanged, as an entry of its details: source
/// errors under `error`, payloads under `payload`, messages and closing reasons
/// under `message`, the status as a number.
pub proof fn law_details_carry_payloads(f: SocketFault)
    ensures
        fault_details(f) is None <==> f is Sink,
        match f {
            SocketFault::Sink => true,
            SocketFault::Deserialise { error, payload } => has_entry(
                fault_details(f),
                "error"@,
                DetailValue::Text(error),
            ) && has_entry(fault_details(f), "payload"@, DetailValue::Text(payload)),
            SocketFault::DeserialiseBinary { error, payload } => has_entry(
                fault_details(f),
                "error"@,
                DetailValue::Text(error),
            ) && has_entry(fault_details(f), "payload"@, DetailValue::Bytes(payload)),
            SocketFault::DeserialiseProtobuf { error, payload } => has_entry(
                fault_details(f),
                "error"@,
                DetailValue::Text(error),
            ) && has_entry(fault_details(f), "payload"@, DetailValue::Bytes(payload)),
            SocketFault::Serialise { error } => has_entry(fault_details(f), "error"@, DetailValue::Text(error)),
            SocketFault::QueryParams { error } => has_entry(fault_details(f), "error"@, DetailValue::Text(error)),
            SocketFault::UrlEncoded { error } => has_entry(fault_details(f), "error"@, DetailValue::Text(error)),
            SocketFault::UrlParse { error } => has_entry(fault_details(f), "error"@, DetailValue::Text(error)),
            SocketFault::Subscribe { message } => has_entry(
                fault_details(f),
                "message"@,
                DetailValue::Text(message),
            ),
            SocketFault::Terminated { reason } => has_entry(
                fault_details(f),
                "message"@,
                DetailValue::Text(reason),
            ),
            SocketFault::Unsupported { entity, item } => has_entry(
                fault_details(f),
                "entity"@,
                DetailValue::Text(entity),
            ) && has_entry(fault_details(f), "item"@, DetailValue::Text(item)),
            SocketFault::WebSocket { error } => has_entry(fault_details(f), "error"@, DetailValue::Text(error)),
            SocketFault::Http { error } => has_entry(fault_details(f), "error"@, DetailValue::Text(error)),
            SocketFault::HttpTimeout { error } => has_entry(fault_details(f), "error"@, DetailValue::Text(error)),
            SocketFault::HttpResponse { status, error } => has_entry(
                fault_details(f),
                "status"@,
                DetailValue::Number(status as u64),
            ) && has_entry(fault_details(f), "error"@, DetailValue::Text(error)),
            SocketFault::Unidentifiable { subscription_id } => has_entry(
                fault_details(f),
                "subscription_id"@,
                DetailValue::Text(subscription_id),
            ),
            SocketFault::Exchange { message } => has_entry(
                fault_details(f),
                "message"@,
                DetailValue::Text(message),
            ),
        },
{
    match fault_details(f) {
        Some(d) => {
            let e = d.entries();
            assert(e.len() >= 1 ==> e[0] == e[0]);
            assert(e.len() >= 2 ==> e[1] == e[1]);
        },
        None => {},
    }
}

/// Details that hold a source error name it `error`; only a subscription
/// failure, a closing reason or an exchange message is named `message`.
pub proof fn law_error_and_message_entries(d: SocketErrorDetails)
    ensures
        match d {
            SocketErrorDetails::Json { error, .. } => has_entry(Some(d), "error"@, DetailValue::Text(error)),
            SocketErrorDetails::JsonBinary { error, .. } => has_entry(Some(d), "error"@, DetailValue::Text(error)),
            SocketErrorDetails::Protobuf { error, .. } => has_entry(Some(d), "error"@, DetailValue::Text(error)),
            SocketErrorDetails::Serialise { error } => has_entry(Some(d), "error"@, DetailValue::Text(error)),
            SocketErrorDetails::QueryParams { error } => has_entry(Some(d), "error"@, DetailValue::Text(error)),
            SocketErrorDetails::UrlEncoded { error } => has_entry(Some(d), "error"@, DetailValue::Text(error)),
            SocketErrorDetails::UrlParse { error } => has_entry(Some(d), "error"@, DetailValue::Text(error)),
            SocketErrorDetails::WebSocket { error } => has_entry(Some(d), "error"@, DetailValue::Text(error)),
            SocketErrorDetails::Http { error } => has_entry(Some(d), "error"@, DetailValue::Text(error)),
            SocketErrorDetails::HttpTimeout { error } => has_entry(Some(d), "error"@, DetailValue::Text(error)),
            SocketErrorDetails::HttpResponse { error, .. } => has_entry(Some(d), "error"@, DetailValue::Text(error)),
            _ => true,
        },
        has_key(d, "message"@) <==> (d is Subscribe || d is Terminated || d is Exchange),
{
    reveal_strlit("error");
    reveal_strlit("payload");
    reveal_strlit("message");
    reveal_strlit("entity");
    reveal_strlit("item");
    reveal_strlit("status");
    reveal_strlit("subscription_id");
    let e = d.entries();
    if e.len() >= 1 {
        assert(e[0] == e[0]);
    }
    if e.len() >= 2 {
        assert(e[1] == e[1]);
    }
    assert("payload"@ != "message"@) by {
        assert("payload"@[0] != "message"@[0]);
    }
    if d is Subscribe || d is Terminated || d is Exchange {
        assert(e[0].0@ == "message"@);
    } else {
        assert forall|i: int| 0 <= i < e.len() implies (#[trigger] e[i]).0@ != "message"@ by {
            assert(e.len() <= 2);
            match d {
                SocketErrorDetails::Json { .. } => {
                    assert(e[i].0@ == "error"@ || e[i].0@ == "payload"@);
                },
                SocketErrorDetails::JsonBinary { .. } => {
                    assert(e[i].0@ == "error"@ || e[i].0@ == "payload"@);
                },
                SocketErrorDetails::Protobuf { .. } => {
                    assert(e[i].0@ == "error"@ || e[i].0@ == "payload"@);
                },
                SocketErrorDetails::Unsupported { .. } => {
                    assert(e[i].0@ == "entity"@ || e[i].0@ == "item"@);
                },
                SocketErrorDetails::HttpResponse { .. } => {
                    assert(e[i].0@ == "status"@ || e[i].0@ == "error"@);
                },
                SocketErrorDetails::Unidentifiable { .. } => {
                    assert(e[i].0@ == "subscription_id"@);
                },
                _ => {
                    assert(e[i].0@ == "error"@);
                },
            }
        }
    }
}

impl SocketErrorInfo {
    /// Classify a socket error: its variant's name, the given message, and
    /// the variant's payloads as details.
    pub fn from_fault(fault: SocketFault, message: String) -> (r: SocketErrorInfo)
        ensures
            r.kind == fault_kind(fault),
            r.message == message,
            r.details == fault_details(fault),
            r.details is None <==> fault is Sink,
    {
        proof {
            law_details_carry_payloads(fault);
        }
        let (kind, details) = match fault {
            SocketFault::Sink => ("Sink", None),
            SocketFault::Deserialise { error, payload } => (
                "Deserialise",
                Some(SocketErrorDetails::Json { error, payload }),
            ),
            SocketFault::DeserialiseBinary { error, payload } => (
                "DeserialiseBinary",
                Some(SocketErrorDetails::JsonBinary { error, payload }),
            ),
            SocketFault::DeserialiseProtobuf { error, payload } => (
                "DeserialiseProtobuf",
                Some(SocketErrorDetails::Protobuf { error, payload }),
            ),
            SocketFault::Serialise { error } => (
                "Serialise",
                Some(SocketErrorDetails::Serialise { error }),
            ),
            SocketFault::QueryParams { error } => (
                "QueryParams",
                Some(SocketErrorDetails::QueryParams { error }),
            ),
            SocketFault::UrlEncoded { error } => (
                "UrlEncoded",
                Some(SocketErrorDetails::UrlEncoded { error }),
            ),
            SocketFault::UrlParse { error } => (
                "UrlParse",
                Some(SocketErrorDetails::UrlParse { error }),
            ),
            SocketFault::Subscribe { message } => (
                "Subscribe",
                Some(SocketErrorDetails::Subscribe { message }),
            ),
            SocketFault::Terminated { reason } => (
                "Terminated",
                Some(SocketErrorDetails::Terminated { reason }),
            ),
            SocketFault::Unsupported { entity, item } => (
                "Unsupported",
                Some(SocketErrorDetails::Unsupported { entity, item }),
            ),
            SocketFault::WebSocket { error } => (
                "WebSocket",
                Some(SocketErrorDetails::WebSocket { error }),
            ),
            SocketFault::Http { error } => ("Http", Some(SocketErrorDetails::Http { error })),
            SocketFault::HttpTimeout { error } => (
                "HttpTimeout",
                Some(SocketErrorDetails::HttpTimeout { error }),
            ),
            SocketFault::HttpResponse { status, error } => (
                "HttpResponse",
                Some(SocketErrorDetails::HttpResponse { status, error }),
            ),
            SocketFault::Unidentifiable { subscription_id } => (
                "Unidentifiable",
                Some(SocketErrorDetails::Unidentifiable { subscription_id }),
            ),
            SocketFault::Exchange { message } => (
                "Exchange",
                Some(SocketErrorDetails::Exchange { message }),
            ),
        };
        SocketErrorInfo { kind, message, details }
    }

    /// The name of the error's variant.
    pub fn kind(&self) -> (r: &'static str)
        ensures
            r == self.kind,
    {
        self.kind
    }

    /// The error's message.
    pub fn message(&self) -> (r: &String)
        ensures
            *r == self.message,
    {
        &self.message
    }

    /// The error's details, if its variant has any.
    pub fn details(&self) -> (r: Option<&SocketErrorDetails>)
        ensures
            match r {
                Some(d) => self.details == Some(*d),
                None => self.details is None,
            },
    {
        match &self.details {
            Some(d) => Some(d),
            None => None,
        }
    }
}

} // verus!
