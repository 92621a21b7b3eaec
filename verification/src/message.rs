//! Decoding one status line of a sensor node into a typed message.
//!
//! A line has the shape
//! `<host>: [<elapsed seconds>] <identifier>:<remainder>`. The host is the
//! text before the first `:`. The elapsed time is the literal between the
//! first `[` behind that `:` and the first `]` behind the `[`. The payload is
//! the text behind the second space of the line; its identifier selects the
//! kind of the message, and the extractor of that kind reads the remainder.

use crate::extract::{
    aircasting_fields, lemma_note_words_names, loop_fields, nodeup_fields, note_words,
    ntp_fields, ntpsync_fields, ntpsync_rejected, parse_aircasting, parse_loop, parse_nodeup,
    parse_ntp, parse_ntpsync, parse_session, session_fields, Fields,
};
use crate::fields::FieldMap;
use crate::text::{
    after, before, between, lowercase, lowercase_of, rest_after, same_text, skip_pieces,
    split_first, text_between, trim, trimmed, value_after,
};
use vstd::prelude::*;
use vstd::string::*;

verus! {

/// The kinds of message that a node sends.
#[derive(Debug, Eq, PartialEq, Clone, Copy, Structural)]
pub enum MessageType {
    UnknownMessage,
    NodeUp,
    Ntp,
    Loop,
    NtpSync,
    Session,
    AirCasting,
}

/// The kind of a message and its fields.
#[derive(Debug)]
pub struct MessageContent {
    pub mtype: MessageType,
    pub mvals: FieldMap,
}

/// A decoded line.
///
/// `time` holds the elapsed-seconds literal as the node wrote it, and is
/// `None` where the line has no bracketed literal. Reading the literal as a
/// number is left to the caller.
#[derive(Debug)]
pub struct NetworkMsg {
    pub host: String,
    pub time: Option<String>,
    pub msg: MessageContent,
}

/// What a `MessageContent` holds.
pub struct Content {
    pub kind: MessageType,
    pub fields: Fields,
}

/// What a `NetworkMsg` holds.
pub struct Decoded {
    pub host: Seq<char>,
    pub time: Option<Seq<char>>,
    pub content: Content,
}

impl View for MessageContent {
    type V = Content;

    open spec fn view(&self) -> Content {
        Content { kind: self.mtype, fields: self.mvals@ }
    }
}

impl View for NetworkMsg {
    type V = Decoded;

    open spec fn view(&self) -> Decoded {
        Decoded {
            host: self.host@,
            time: match self.time {
                Some(t) => Some(t@),
                None => None,
            },
            content: self.msg@,
        }
    }
}

/// The kind that a trigger token, in lowercase, stands for.
pub open spec fn kind_named(token: Seq<char>) -> MessageType {
    if token == "up"@ {
        MessageType::NodeUp
    } else if token == "ntp"@ {
        MessageType::Ntp
    } else if token == "loop"@ {
        MessageType::Loop
    } else if token == "ntpsyncevent"@ {
        MessageType::NtpSync
    } else if token == "sessionuuid"@ {
        MessageType::Session
    } else if token == "ac"@ {
        MessageType::AirCasting
    } else {
        MessageType::UnknownMessage
    }
}

/// The kind that an identifier selects, whatever its case. An empty
/// identifier selects none.
pub open spec fn kind_of(identifier: Seq<char>) -> MessageType {
    if identifier.len() == 0 {
        MessageType::UnknownMessage
    } else {
        kind_named(lowercase_of(identifier))
    }
}

/// The fields that the extractor of `kind` reads from a trimmed remainder.
pub open spec fn fields_of(kind: MessageType, remainder: Seq<char>) -> Fields {
    match kind {
        MessageType::NodeUp => nodeup_fields(remainder, Map::empty()),
        MessageType::Ntp => ntp_fields(remainder, Map::empty()),
        MessageType::Loop => loop_fields(remainder, Map::empty()),
        MessageType::NtpSync => ntpsync_fields(remainder, Map::empty()),
        MessageType::Session => session_fields(remainder, Map::empty()),
        MessageType::AirCasting => aircasting_fields(remainder, Map::empty()),
        MessageType::UnknownMessage => Map::empty(),
    }
}

/// Whether a message of `kind` may have a field called `name`.
pub open spec fn allowed(kind: MessageType, name: Seq<char>) -> bool {
    match kind {
        MessageType::NodeUp => name == "version"@ || name == "builddate"@ || name == "ip_addr"@,
        MessageType::Ntp => name == "datetime"@ || name == "pm2.5"@ || name == "UUID"@ || name
            == "sent"@,
        MessageType::Loop => name == "action"@ || name == "slowdownfactor"@ || name
            == "deepsleepduration"@ || name == "sleepwakecycles"@ || name == "ntperrors"@,
        MessageType::NtpSync => name == "ntpdate"@,
        MessageType::Session => name == "UUID"@,
        MessageType::AirCasting => name == "command"@ || name == "http_code"@,
        MessageType::UnknownMessage => false,
    }
}

/// Every field of a content is one that its kind may have.
pub open spec fn well_formed(content: Content) -> bool {
    forall|name: Seq<char>| #[trigger]
        content.fields.contains_key(name) ==> allowed(content.kind, name)
}

/// The content with no kind and no field.
pub open spec fn unknown_content() -> Content {
    Content { kind: MessageType::UnknownMessage, fields: Map::empty() }
}

/// The content of a payload `<identifier>:<remainder>`: the identifier is
/// the text before the first `:`; the fields are read from the trimmed text
/// behind that `:`, and there is none where the payload holds no `:`.
pub open spec fn content_of(payload: Seq<char>) -> Content {
    let kind = kind_of(before(payload, ':'));
    Content {
        kind,
        fields: match value_after(Some(payload), ':') {
            Some(r) => fields_of(kind, trim(r)),
            None => Map::empty(),
        },
    }
}

/// The elapsed-seconds literal of a line: the text between the first `[`
/// behind the first `:` and the first `]` behind that `[`.
pub open spec fn time_of(line: Seq<char>) -> Option<Seq<char>> {
    between(value_after(Some(line), ':'), '[', ']')
}

/// The payload of a line: the text behind its second space.
pub open spec fn payload_of(line: Seq<char>) -> Option<Seq<char>> {
    rest_after(line, ' ', 2)
}

/// The message that a line decodes to.
///
/// A line without `:` is a host and nothing more. A line without a payload
/// has the unknown content.
pub open spec fn decode(line: Seq<char>) -> Decoded {
    Decoded {
        host: before(line, ':'),
        time: time_of(line),
        content: if line.contains(':') {
            match payload_of(line) {
                Some(p) => content_of(p),
                None => unknown_content(),
            }
        } else {
            unknown_content()
        },
    }
}

/// The kind that a trigger token in lowercase stands for.
pub fn classify(token: &str) -> (kind: MessageType)
    ensures
        kind == kind_named(token@),
{
    if same_text(token, "up") {
        MessageType::NodeUp
    } else if same_text(token, "ntp") {
        MessageType::Ntp
    } else if same_text(token, "loop") {
        MessageType::Loop
    } else if same_text(token, "ntpsyncevent") {
        MessageType::NtpSync
    } else if same_text(token, "sessionuuid") {
        MessageType::Session
    } else if same_text(token, "ac") {
        MessageType::AirCasting
    } else {
        MessageType::UnknownMessage
    }
}

/// Reads the fields of a message of kind `msg_identifier` from the text
/// behind the identifier.
pub fn parse_to_hashmap(msg_identifier: MessageType, end_str: &str) -> (hashmap: FieldMap)
    ensures
        hashmap@ == fields_of(msg_identifier, trim(end_str@)),
{
    let mut hashmap = FieldMap::new();
    let end_str_clean = trimmed(end_str);
    match msg_identifier {
        MessageType::NodeUp => parse_nodeup(end_str_clean, &mut hashmap),
        MessageType::Ntp => parse_ntp(end_str_clean, &mut hashmap),
        MessageType::Loop => parse_loop(end_str_clean, &mut hashmap),
        MessageType::NtpSync => parse_ntpsync(end_str_clean, &mut hashmap),
        MessageType::Session => parse_session(end_str_clean, &mut hashmap),
        MessageType::AirCasting => parse_aircasting(end_str_clean, &mut hashmap),
        MessageType::UnknownMessage => {},
    }
    hashmap
}

/// Classifies a payload and reads its fields.
pub fn parse_msg_content(s: &str) -> (content: MessageContent)
    ensures
        content@ == content_of(s@),
{
    let (identifier, rest) = split_first(s, ':');
    let mtype = if identifier.is_empty() {
        MessageType::UnknownMessage
    } else {
        classify(lowercase(identifier).as_str())
    };
    let mvals = match rest {
        Some(end_str) => parse_to_hashmap(mtype, end_str),
        None => FieldMap::new(),
    };
    MessageContent { mtype, mvals }
}

/// Decodes one line. Every line decodes to a message.
pub fn parse_from_string(s: String) -> (m: NetworkMsg)
    ensures
        m@ == decode(s@),
        well_formed(m@.content),
{
    proof {
        lemma_decode_well_formed(s@);
    }
    let line = s.as_str();
    let (host, rest) = split_first(line, ':');
    let time = match text_between(rest, '[', ']') {
        Some(t) => Some(t.to_owned()),
        None => None,
    };
    let payload = if rest.is_some() {
        skip_pieces(line, ' ', 2)
    } else {
        None
    };
    let msg = match payload {
        Some(p) => parse_msg_content(p),
        None => MessageContent { mtype: MessageType::UnknownMessage, mvals: FieldMap::new() },
    };
    NetworkMsg { host: host.to_owned(), time, msg }
}

/// Decoding has no hidden state: two messages decoded from the same line
/// agree in host, time, kind and every field.
pub proof fn lemma_decode_deterministic(line: Seq<char>, a: NetworkMsg, b: NetworkMsg)
    requires
        a@ == decode(line),
        b@ == decode(line),
    ensures
        a.host@ == b.host@,
        a@.time == b@.time,
        a.msg.mtype == b.msg.mtype,
        a.msg.mvals@ == b.msg.mvals@,
{
}

/// An extractor records no field but those of its kind.
pub proof fn lemma_fields_allowed(kind: MessageType, remainder: Seq<char>)
    ensures
        well_formed(Content { kind, fields: fields_of(kind, remainder) }),
{
    let fields = fields_of(kind, remainder);
    assert forall|name: Seq<char>| #[trigger] fields.contains_key(name) implies allowed(
        kind,
        name,
    ) by {
        if kind == MessageType::Loop {
            let state = value_after(Some(remainder), ' ');
            match state {
                Some(r) => {
                    if note_words(trim(r), Map::empty()).contains_key(name) {
                        lemma_note_words_names(trim(r), Map::empty(), name);
                    }
                },
                None => {},
            }
        }
    }
}

/// Every line decodes to a well-formed content.
pub proof fn lemma_decode_well_formed(line: Seq<char>)
    ensures
        well_formed(decode(line).content),
{
    let content = decode(line).content;
    if line.contains(':') {
        match payload_of(line) {
            Some(p) => {
                match value_after(Some(p), ':') {
                    Some(r) => {
                        lemma_fields_allowed(content.kind, trim(r));
                    },
                    None => {},
                }
            },
            None => {},
        }
    }
}

/// A time-synchronisation report whose trimmed remainder holds ` -- ` or
/// ` => ` has no `ntpdate`, and no other field.
pub proof fn lemma_ntpsync_rejects(payload: Seq<char>)
    requires
        kind_of(before(payload, ':')) == MessageType::NtpSync,
        payload.contains(':'),
        ntpsync_rejected(trim(after(payload, ':'))),
    ensures
        content_of(payload).kind == MessageType::NtpSync,
        !content_of(payload).fields.contains_key("ntpdate"@),
        content_of(payload).fields == Map::<Seq<char>, Seq<char>>::empty(),
{
}

} // verus!
