use vstd::prelude::*;

use crate::json::{
    field_of, is_absent, json_view, member, parse_json, parsed_json, print_json, printed_json, Json, JsonV,
};

verus! {

/// The tag that tells the three kinds of envelope apart.
#[derive(PartialEq, Eq, Structural, Clone, Copy, Debug)]
pub enum MsgTypes {
    Users,
    Register,
    Message,
}

/// Why an inbound text could not be taken in.
#[derive(PartialEq, Eq, Structural, Clone, Copy, Debug)]
pub enum DecodeError {
    /// The frame is not an envelope of a known kind with the fields its kind needs.
    Malformed,
    /// The chat message nested in a `Message` envelope cannot be read.
    MalformedPayload,
}

/// The unit sent and received on the wire.
pub enum Envelope {
    /// The full roster of names currently online.
    Users { names: Vec<String> },
    /// A client announcing its username.
    Register { username: String },
    /// Chat traffic: inbound, an encoded chat message; outbound, the raw text typed.
    Message { data: String },
}

/// The value of an envelope.
pub enum EnvelopeV {
    Users(Seq<Seq<char>>),
    Register(Seq<char>),
    Message(Seq<char>),
}

impl View for Envelope {
    type V = EnvelopeV;

    open spec fn view(&self) -> EnvelopeV {
        match self {
            Envelope::Users { names } => EnvelopeV::Users(names@.map_values(|n: String| n@)),
            Envelope::Register { username } => EnvelopeV::Register(username@),
            Envelope::Message { data } => EnvelopeV::Message(data@),
        }
    }
}

/// A chat line: who sent it and what it says.
pub struct ChatMessage {
    pub from: String,
    pub body: String,
}

/// The value of a chat message.
pub struct ChatMessageV {
    pub from: Seq<char>,
    pub body: Seq<char>,
}

impl View for ChatMessage {
    type V = ChatMessageV;

    open spec fn view(&self) -> ChatMessageV {
        ChatMessageV { from: self.from@, body: self.body@ }
    }
}

/// The tag of an envelope.
pub open spec fn kind_of(e: EnvelopeV) -> MsgTypes {
    match e {
        EnvelopeV::Users(_) => MsgTypes::Users,
        EnvelopeV::Register(_) => MsgTypes::Register,
        EnvelopeV::Message(_) => MsgTypes::Message,
    }
}

/// The wire text of each tag.
pub open spec fn tag_of(k: MsgTypes) -> Seq<char> {
    match k {
        MsgTypes::Users => "users"@,
        MsgTypes::Register => "register"@,
        MsgTypes::Message => "message"@,
    }
}

pub open spec fn kind_of_tag(t: Seq<char>) -> Option<MsgTypes> {
    if t == tag_of(MsgTypes::Users) {
        Some(MsgTypes::Users)
    } else if t == tag_of(MsgTypes::Register) {
        Some(MsgTypes::Register)
    } else if t == tag_of(MsgTypes::Message) {
        Some(MsgTypes::Message)
    } else {
        None
    }
}

pub open spec fn key_type() -> Seq<char> {
    "messageType"@
}

pub open spec fn key_array() -> Seq<char> {
    "dataArray"@
}

pub open spec fn key_data() -> Seq<char> {
    "data"@
}

pub open spec fn key_from() -> Seq<char> {
    "from"@
}

pub open spec fn key_message() -> Seq<char> {
    "message"@
}

/// The text held by a field, where the field holds a string.
pub open spec fn text_of(f: Option<JsonV>) -> Option<Seq<char>> {
    match f {
        Some(JsonV::Str(s)) => Some(s),
        _ => None,
    }
}

/// The strings of an array, where every item is a string.
pub open spec fn texts_of(f: Option<JsonV>) -> Option<Seq<Seq<char>>> {
    match f {
        Some(JsonV::Array(items)) => if forall|i: int| 0 <= i < items.len() ==> (#[trigger] items[i]) is Str {
            Some(items.map_values(|x: JsonV| x->Str_0))
        } else {
            None
        },
        _ => None,
    }
}

/// The envelope that a JSON document stands for, checked strictly against its tag.
pub open spec fn envelope_of_json(v: JsonV) -> Result<EnvelopeV, DecodeError> {
    let arr = member(v, key_array());
    let data = member(v, key_data());
    match text_of(member(v, key_type())) {
        Some(t) => match kind_of_tag(t) {
            Some(MsgTypes::Users) => if texts_of(arr) is Some && is_absent(data) {
                Ok(EnvelopeV::Users(texts_of(arr)->Some_0))
            } else {
                Err(DecodeError::Malformed)
            },
            Some(MsgTypes::Register) => if text_of(data) is Some && is_absent(arr) {
                Ok(EnvelopeV::Register(text_of(data)->Some_0))
            } else {
                Err(DecodeError::Malformed)
            },
            Some(MsgTypes::Message) => if text_of(data) is Some && is_absent(arr) {
                Ok(EnvelopeV::Message(text_of(data)->Some_0))
            } else {
                Err(DecodeError::Malformed)
            },
            None => Err(DecodeError::Malformed),
        },
        None => Err(DecodeError::Malformed),
    }
}

/// The JSON document written for an envelope: the tag, then the roster or `null`,
/// then the text or `null`.
pub open spec fn json_of_envelope(e: EnvelopeV) -> JsonV {
    JsonV::Object(
        seq![
            (key_type(), JsonV::Str(tag_of(kind_of(e)))),
            (key_array(), match e {
                EnvelopeV::Users(names) => JsonV::Array(names.map_values(|n: Seq<char>| JsonV::Str(n))),
                _ => JsonV::Null,
            }),
            (key_data(), match e {
                EnvelopeV::Users(_) => JsonV::Null,
                EnvelopeV::Register(u) => JsonV::Str(u),
                EnvelopeV::Message(d) => JsonV::Str(d),
            }),
        ],
    )
}

/// What decoding a text frame yields.
pub open spec fn envelope_of_text(t: Seq<char>) -> Result<EnvelopeV, DecodeError> {
    match parsed_json(t) {
        Some(v) => envelope_of_json(v),
        None => Err(DecodeError::Malformed),
    }
}

/// The chat message that a JSON document stands for.
pub open spec fn chat_message_of_json(v: JsonV) -> Result<ChatMessageV, DecodeError> {
    let from = text_of(member(v, key_from()));
    let body = text_of(member(v, key_message()));
    if from is Some && body is Some {
        Ok(ChatMessageV { from: from->Some_0, body: body->Some_0 })
    } else {
        Err(DecodeError::MalformedPayload)
    }
}

/// What decoding the payload of a `Message` envelope yields.
pub open spec fn chat_message_of_text(t: Seq<char>) -> Result<ChatMessageV, DecodeError> {
    match parsed_json(t) {
        Some(v) => chat_message_of_json(v),
        None => Err(DecodeError::MalformedPayload),
    }
}

pub open spec fn json_of_chat_message(m: ChatMessageV) -> JsonV {
    JsonV::Object(seq![(key_from(), JsonV::Str(m.from)), (key_message(), JsonV::Str(m.body))])
}

pub open spec fn envelope_result(r: Result<Envelope, DecodeError>) -> Result<EnvelopeV, DecodeError> {
    match r {
        Ok(e) => Ok(e@),
        Err(x) => Err(x),
    }
}

pub open spec fn chat_result(r: Result<ChatMessage, DecodeError>) -> Result<ChatMessageV, DecodeError> {
    match r {
        Ok(m) => Ok(m@),
        Err(x) => Err(x),
    }
}

/// A body that ends in `.gif`, exactly and case-sensitively.
pub open spec fn ends_with_gif(s: Seq<char>) -> bool {
    s.len() >= 4 && s.subrange(s.len() - 4, s.len() as int) == ".gif"@
}

impl MsgTypes {
    /// The wire text of this tag.
    pub fn tag(&self) -> (r: String)
        ensures
            r@ == tag_of(*self),
    {
        match self {
            MsgTypes::Users => String::from_str("users"),
            MsgTypes::Register => String::from_str("register"),
            MsgTypes::Message => String::from_str("message"),
        }
    }

    /// The tag whose wire text is `t`, if any.
    pub fn from_tag(t: &String) -> (r: Option<MsgTypes>)
        ensures
            r == kind_of_tag(t@),
    {
        if *t == MsgTypes::Users.tag() {
            Some(MsgTypes::Users)
        } else if *t == MsgTypes::Register.tag() {
            Some(MsgTypes::Register)
        } else if *t == MsgTypes::Message.tag() {
            Some(MsgTypes::Message)
        } else {
            None
        }
    }
}

impl Envelope {
    pub fn kind(&self) -> (k: MsgTypes)
        ensures
            k == kind_of(self@),
    {
        match self {
            Envelope::Users { .. } => MsgTypes::Users,
            Envelope::Register { .. } => MsgTypes::Register,
            Envelope::Message { .. } => MsgTypes::Message,
        }
    }
}

impl ChatMessage {
    /// Whether the body is to be shown as an image: it ends in `.gif`.
    pub fn is_gif(&self) -> (r: bool)
        ensures
            r == ends_with_gif(self.body@),
    {
        proof {
            reveal_strlit(".gif");
        }
        let s = self.body.as_str();
        let n = s.unicode_len();
        if n < 4 {
            return false;
        }
        let r = s.get_char(n - 4) == '.' && s.get_char(n - 3) == 'g' && s.get_char(n - 2) == 'i'
            && s.get_char(n - 1) == 'f';
        assert(r ==> s@.subrange(n - 4, n as int) =~= ".gif"@);
        assert(s@.subrange(n - 4, n as int) == ".gif"@ ==> r) by {
            if s@.subrange(n - 4, n as int) == ".gif"@ {
                assert(s@.subrange(n - 4, n as int)[0] == '.');
                assert(s@.subrange(n - 4, n as int)[1] == 'g');
                assert(s@.subrange(n - 4, n as int)[2] == 'i');
                assert(s@.subrange(n - 4, n as int)[3] == 'f');
            }
        }
        r
    }
}

/// The string that a field holds, if it holds one.
fn field_text(f: Option<&Json>) -> (r: Option<String>)
    ensures
        text_of(match f { Some(x) => Some(x@), None => None }) == match r {
            Some(s) => Some(s@),
            None => None,
        },
{
    match f {
        Some(Json::Str(s)) => Some(s.clone()),
        _ => None,
    }
}

/// Whether a field is missing or `null`.
fn field_absent(f: Option<&Json>) -> (r: bool)
    ensures
        r == is_absent(match f { Some(x) => Some(x@), None => None }),
{
    match f {
        None => true,
        Some(Json::Null) => true,
        Some(_) => false,
    }
}

/// The strings of a field that holds an array of strings only.
fn field_texts(f: Option<&Json>) -> (r: Option<Vec<String>>)
    ensures
        texts_of(match f { Some(x) => Some(x@), None => None }) == match r {
            Some(v) => Some(v@.map_values(|n: String| n@)),
            None => None,
        },
{
    match f {
        Some(Json::Array(items)) => {
            let ghost iv = json_view(f.unwrap())->Array_0;
            let mut names: Vec<String> = Vec::new();
            let mut i: usize = 0;
            while i < items.len()
                invariant
                    0 <= i <= items@.len(),
                    iv.len() == items@.len(),
                    f == Some(&Json::Array(*items)),
                    json_view(f.unwrap()) == JsonV::Array(iv),
                    forall|j: int| 0 <= j < iv.len() ==> #[trigger] iv[j] == json_view(&items@[j]),
                    names@.len() == i,
                    forall|j: int| 0 <= j < i ==> (#[trigger] iv[j]) is Str,
                    forall|j: int| 0 <= j < i ==> #[trigger] names@[j]@ == iv[j]->Str_0,
                decreases items@.len() - i,
            {
                match &items[i] {
                    Json::Str(s) => {
                        assert(iv[i as int] == JsonV::Str(s@));
                        names.push(s.clone());
                    },
                    _ => {
                        assert(!(iv[i as int] is Str));
                        return None;
                    },
                }
                i = i + 1;
            }
            assert(names@.map_values(|n: String| n@) =~= iv.map_values(|x: JsonV| x->Str_0));
            assert(forall|j: int| 0 <= j < iv.len() ==> (#[trigger] iv[j]) is Str);
            Some(names)
        },
        _ => None,
    }
}

/// Reads an envelope out of a JSON document, checking its fields against its tag.
pub fn envelope_from_json(v: &Json) -> (r: Result<Envelope, DecodeError>)
    ensures
        envelope_result(r) == envelope_of_json(v@),
{
    let arr = v.get(&String::from_str("dataArray"));
    let data = v.get(&String::from_str("data"));
    let tag = match field_text(v.get(&String::from_str("messageType"))) {
        Some(t) => t,
        None => return Err(DecodeError::Malformed),
    };
    match MsgTypes::from_tag(&tag) {
        Some(MsgTypes::Users) => match field_texts(arr) {
            Some(names) => if field_absent(data) {
                Ok(Envelope::Users { names })
            } else {
                Err(DecodeError::Malformed)
            },
            None => Err(DecodeError::Malformed),
        },
        Some(MsgTypes::Register) => match field_text(data) {
            Some(username) => if field_absent(arr) {
                Ok(Envelope::Register { username })
            } else {
                Err(DecodeError::Malformed)
            },
            None => Err(DecodeError::Malformed),
        },
        Some(MsgTypes::Message) => match field_text(data) {
            Some(text) => if field_absent(arr) {
                Ok(Envelope::Message { data: text })
            } else {
                Err(DecodeError::Malformed)
            },
            None => Err(DecodeError::Malformed),
        },
        None => Err(DecodeError::Malformed),
    }
}

/// Decodes one text frame into an envelope.
pub fn decode(text: &str) -> (r: Result<Envelope, DecodeError>)
    ensures
        envelope_result(r) == envelope_of_text(text@),
{
    match parse_json(text) {
        Some(v) => envelope_from_json(&v),
        None => Err(DecodeError::Malformed),
    }
}

/// Builds the JSON document of an envelope.
pub fn envelope_to_json(e: &Envelope) -> (r: Json)
    ensures
        r@ == json_of_envelope(e@),
{
    let roster = match e {
        Envelope::Users { names } => {
            let mut items: Vec<Json> = Vec::new();
            let mut i: usize = 0;
            while i < names.len()
                invariant
                    0 <= i <= names@.len(),
                    items@.len() == i,
                    forall|j: int| 0 <= j < i ==> #[trigger] items@[j] == Json::Str(names@[j]),
                decreases names@.len() - i,
            {
                items.push(Json::Str(names[i].clone()));
                i = i + 1;
            }
            let r = Json::Array(items);
            assert forall|j: int| 0 <= j < names@.len() implies json_view(&items@[j]) == JsonV::Str(
                names@[j]@,
            ) by {
                assert(items@[j] == Json::Str(names@[j]));
            }
            assert(json_view(&r)->Array_0 =~= names@.map_values(|n: String| n@).map_values(
                |n: Seq<char>| JsonV::Str(n),
            ));
            r
        },
        _ => Json::Null,
    };
    let text = match e {
        Envelope::Users { .. } => Json::Null,
        Envelope::Register { username } => Json::Str(username.clone()),
        Envelope::Message { data } => Json::Str(data.clone()),
    };
    let mut fields: Vec<(String, Json)> = Vec::new();
    fields.push((String::from_str("messageType"), Json::Str(e.kind().tag())));
    fields.push((String::from_str("dataArray"), roster));
    fields.push((String::from_str("data"), text));
    let r = Json::Object(fields);
    assert(json_view(&fields@[0].1) == JsonV::Str(tag_of(kind_of(e@))));
    assert(json_view(&fields@[1].1) == json_of_envelope(e@)->Object_0[1].1);
    assert(json_view(&fields@[2].1) == json_of_envelope(e@)->Object_0[2].1);
    assert(json_view(&r)->Object_0 =~~= json_of_envelope(e@)->Object_0);
    r
}

/// Encodes an envelope as one text frame.
pub fn encode(e: &Envelope) -> (r: String)
    ensures
        r@ == printed_json(json_of_envelope(e@)),
{
    print_json(&envelope_to_json(e))
}

/// Reads a chat message out of a JSON document.
pub fn chat_message_from_json(v: &Json) -> (r: Result<ChatMessage, DecodeError>)
    ensures
        chat_result(r) == chat_message_of_json(v@),
{
    let from = field_text(v.get(&String::from_str("from")));
    let body = field_text(v.get(&String::from_str("message")));
    match (from, body) {
        (Some(from), Some(body)) => Ok(ChatMessage { from, body }),
        _ => Err(DecodeError::MalformedPayload),
    }
}

/// Decodes the payload of a `Message` envelope.
pub fn decode_chat_message(text: &str) -> (r: Result<ChatMessage, DecodeError>)
    ensures
        chat_result(r) == chat_message_of_text(text@),
{
    match parse_json(text) {
        Some(v) => chat_message_from_json(&v),
        None => Err(DecodeError::MalformedPayload),
    }
}

/// Builds the JSON document of a chat message.
pub fn chat_message_to_json(m: &ChatMessage) -> (r: Json)
    ensures
        r@ == json_of_chat_message(m@),
{
    let mut fields: Vec<(String, Json)> = Vec::new();
    fields.push((String::from_str("from"), Json::Str(m.from.clone())));
    fields.push((String::from_str("message"), Json::Str(m.body.clone())));
    let r = Json::Object(fields);
    assert(json_view(&fields@[0].1) == JsonV::Str(m.from@));
    assert(json_view(&fields@[1].1) == JsonV::Str(m.body@));
    assert(json_view(&r)->Object_0 =~~= json_of_chat_message(m@)->Object_0);
    r
}

/// Encodes a chat message as the payload of a `Message` envelope.
pub fn encode_chat_message(m: &ChatMessage) -> (r: String)
    ensures
        r@ == printed_json(json_of_chat_message(m@)),
{
    print_json(&chat_message_to_json(m))
}

/// Decoding the document written for an envelope gives that envelope back.
pub proof fn lemma_envelope_round_trip(e: EnvelopeV)
    ensures
        envelope_of_json(json_of_envelope(e)) == Ok::<EnvelopeV, DecodeError>(e),
{
    reveal_strlit("messageType");
    reveal_strlit("dataArray");
    reveal_strlit("data");
    reveal_strlit("users");
    reveal_strlit("register");
    reveal_strlit("message");
    reveal_with_fuel(field_of, 4);
    assert(key_type().len() == 11 && key_array().len() == 9 && key_data().len() == 4);
    assert(key_type() != key_array() && key_type() != key_data() && key_array() != key_data());
    assert(tag_of(MsgTypes::Users).len() == 5 && tag_of(MsgTypes::Register).len() == 8
        && tag_of(MsgTypes::Message).len() == 7);
    assert(kind_of_tag(tag_of(kind_of(e))) == Some(kind_of(e)));
    let v = json_of_envelope(e);
    let fields = v->Object_0;
    assert(fields.drop_first()[0] == fields[1]);
    assert(fields.drop_first().drop_first()[0] == fields[2]);
    assert(member(v, key_type()) == Some(fields[0].1));
    assert(member(v, key_array()) == Some(fields[1].1));
    assert(member(v, key_data()) == Some(fields[2].1));
    if let EnvelopeV::Users(names) = e {
        let items = names.map_values(|n: Seq<char>| JsonV::Str(n));
        assert(forall|i: int| 0 <= i < items.len() ==> (#[trigger] items[i]) is Str);
        assert(items.map_values(|x: JsonV| x->Str_0) =~= names);
        assert(texts_of(member(v, key_array())) == Some(names));
    }
}

/// Decoding the document written for a chat message gives that message back.
pub proof fn lemma_chat_message_round_trip(m: ChatMessageV)
    ensures
        chat_message_of_json(json_of_chat_message(m)) == Ok::<ChatMessageV, DecodeError>(m),
{
    reveal_strlit("from");
    reveal_strlit("message");
    reveal_with_fuel(field_of, 3);
    assert(key_from().len() == 4 && key_message().len() == 7);
    assert(key_from() != key_message());
    let v = json_of_chat_message(m);
    assert(v->Object_0.drop_first()[0] == v->Object_0[1]);
}

} // verus!
