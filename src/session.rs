use vstd::prelude::*;

use crate::protocol::{
    chat_message_of_text, decode, decode_chat_message, envelope_of_text, ChatMessage, ChatMessageV,
    DecodeError, Envelope, EnvelopeV,
};

verus! {

/// An online user as shown in the roster.
pub struct UserProfile {
    pub name: String,
    pub avatar: String,
}

/// The value of a roster entry.
pub struct UserProfileV {
    pub name: Seq<char>,
    pub avatar: Seq<char>,
}

impl View for UserProfile {
    type V = UserProfileV;

    open spec fn view(&self) -> UserProfileV {
        UserProfileV { name: self.name@, avatar: self.avatar@ }
    }
}

/// The avatar picture of a name: the name set into a fixed address template.
pub open spec fn avatar_url(name: Seq<char>) -> Seq<char> {
    "https://avatars.dicebear.com/api/adventurer-neutral/"@ + name + ".svg"@
}

/// The roster made from a list of names, in their order.
pub open spec fn profiles_of(names: Seq<Seq<char>>) -> Seq<UserProfileV> {
    names.map_values(|n: Seq<char>| UserProfileV { name: n, avatar: avatar_url(n) })
}

/// Builds the avatar address of a name.
pub fn avatar_for(name: &String) -> (r: String)
    ensures
        r@ == avatar_url(name@),
{
    let mut r = String::from_str("https://avatars.dicebear.com/api/adventurer-neutral/");
    r.append(name.as_str());
    r.append(".svg");
    r
}

/// The session state: who is online and what has been said.
pub struct Chat {
    users: Vec<UserProfile>,
    messages: Vec<ChatMessage>,
}

/// The value of a session: roster and log.
pub struct ChatV {
    pub users: Seq<UserProfileV>,
    pub messages: Seq<ChatMessageV>,
}

impl View for Chat {
    type V = ChatV;

    closed spec fn view(&self) -> ChatV {
        ChatV {
            users: self.users@.map_values(|u: UserProfile| u@),
            messages: self.messages@.map_values(|m: ChatMessage| m@),
        }
    }
}

/// Every roster entry carries the avatar derived from its name.
pub open spec fn roster_wf(users: Seq<UserProfileV>) -> bool {
    forall|i: int| 0 <= i < users.len() ==> (#[trigger] users[i]).avatar == avatar_url(users[i].name)
}

/// The state after an inbound envelope, and what applying it reports: `Ok(true)` where
/// the state changed, `Ok(false)` where the envelope is ignored.
pub open spec fn apply_envelope(s: ChatV, e: EnvelopeV) -> (ChatV, Result<bool, DecodeError>) {
    match e {
        EnvelopeV::Users(names) => (ChatV { users: profiles_of(names), messages: s.messages }, Ok(true)),
        EnvelopeV::Message(d) => match chat_message_of_text(d) {
            Ok(m) => (ChatV { users: s.users, messages: s.messages.push(m) }, Ok(true)),
            Err(x) => (s, Err(x)),
        },
        EnvelopeV::Register(_) => (s, Ok(false)),
    }
}

/// The state after an inbound text frame, and what taking it in reports.
pub open spec fn apply_frame(s: ChatV, t: Seq<char>) -> (ChatV, Result<bool, DecodeError>) {
    match envelope_of_text(t) {
        Ok(e) => apply_envelope(s, e),
        Err(x) => (s, Err(x)),
    }
}

/// The events a session reacts to.
pub enum Msg {
    /// An inbound text frame.
    HandleMsg(String),
    /// The local user sends the text typed.
    SubmitMessage(String),
}

/// What the session asks of its surroundings after an event.
pub enum Action {
    /// The state changed: show it again.
    Render,
    /// Nothing changed.
    Nothing,
    /// The frame was dropped for this reason; nothing changed.
    Drop(DecodeError),
    /// Send this envelope.
    Send(Envelope),
}

impl Chat {
    /// The roster is consistent with the avatar rule.
    pub open spec fn wf(&self) -> bool {
        roster_wf(self@.users)
    }

    /// Starts a session for `username`: empty state, and the one envelope to send first.
    pub fn create(username: String) -> (r: (Chat, Envelope))
        ensures
            r.0.wf(),
            r.0@.users == Seq::<UserProfileV>::empty(),
            r.0@.messages == Seq::<ChatMessageV>::empty(),
            r.1@ == EnvelopeV::Register(username@),
    {
        let chat = Chat { users: Vec::new(), messages: Vec::new() };
        assert(chat@.users =~= Seq::<UserProfileV>::empty());
        assert(chat@.messages =~= Seq::<ChatMessageV>::empty());
        (chat, Envelope::Register { username })
    }

    /// The roster, in the order the server gave it.
    pub fn roster(&self) -> (r: &Vec<UserProfile>)
        ensures
            r@.map_values(|u: UserProfile| u@) == self@.users,
    {
        &self.users
    }

    /// The messages received, in arrival order.
    pub fn log(&self) -> (r: &Vec<ChatMessage>)
        ensures
            r@.map_values(|m: ChatMessage| m@) == self@.messages,
    {
        &self.messages
    }

    /// Replaces the roster with profiles made from `names`.
    fn replace_roster(&mut self, names: &Vec<String>)
        ensures
            final(self)@.users == profiles_of(names@.map_values(|n: String| n@)),
            final(self)@.messages == old(self)@.messages,
    {
        let mut users: Vec<UserProfile> = Vec::new();
        let mut i: usize = 0;
        while i < names.len()
            invariant
                0 <= i <= names@.len(),
                users@.len() == i,
                forall|j: int| 0 <= j < i ==> (#[trigger] users@[j])@ == (UserProfileV {
                    name: names@[j]@,
                    avatar: avatar_url(names@[j]@),
                }),
            decreases names@.len() - i,
        {
            let avatar = avatar_for(&names[i]);
            users.push(UserProfile { name: names[i].clone(), avatar });
            i = i + 1;
        }
        self.users = users;
        assert(self@.users =~= profiles_of(names@.map_values(|n: String| n@)));
    }

    /// Applies an inbound envelope to the state.
    pub fn apply(&mut self, e: Envelope) -> (r: Result<bool, DecodeError>)
        requires
            old(self).wf(),
        ensures
            final(self).wf(),
            (final(self)@, r) == apply_envelope(old(self)@, e@),
    {
        match e {
            Envelope::Users { names } => {
                self.replace_roster(&names);
                Ok(true)
            },
            Envelope::Message { data } => match decode_chat_message(data.as_str()) {
                Ok(m) => {
                    self.messages.push(m);
                    assert(self@.messages =~= old(self)@.messages.push(m@));
                    Ok(true)
                },
                Err(x) => Err(x),
            },
            Envelope::Register { .. } => Ok(false),
        }
    }

    /// Decodes an inbound text frame and applies it.
    pub fn handle_frame(&mut self, text: &str) -> (r: Result<bool, DecodeError>)
        requires
            old(self).wf(),
        ensures
            final(self).wf(),
            (final(self)@, r) == apply_frame(old(self)@, text@),
    {
        match decode(text) {
            Ok(e) => self.apply(e),
            Err(x) => Err(x),
        }
    }

    /// The envelope that sends `raw` as a chat message. The log is left as it is: the
    /// message enters it only when the server echoes it back.
    pub fn submit_message(&self, raw: String) -> (r: Envelope)
        ensures
            r@ == EnvelopeV::Message(raw@),
    {
        Envelope::Message { data: raw }
    }

    /// Reacts to one event.
    pub fn update(&mut self, msg: Msg) -> (r: Action)
        requires
            old(self).wf(),
        ensures
            final(self).wf(),
            match msg {
                Msg::HandleMsg(t) => final(self)@ == apply_frame(old(self)@, t@).0 && match apply_frame(
                    old(self)@,
                    t@,
                ).1 {
                    Ok(true) => r is Render,
                    Ok(false) => r is Nothing,
                    Err(x) => r == Action::Drop(x),
                },
                Msg::SubmitMessage(raw) => final(self)@ == old(self)@ && r is Send && (
                r->Send_0)@ == EnvelopeV::Message(raw@),
            },
    {
        match msg {
            Msg::HandleMsg(t) => match self.handle_frame(t.as_str()) {
                Ok(true) => Action::Render,
                Ok(false) => Action::Nothing,
                Err(x) => Action::Drop(x),
            },
            Msg::SubmitMessage(raw) => Action::Send(self.submit_message(raw)),
        }
    }

    /// The avatar of the first roster entry named `name`, if there is one.
    pub fn find_avatar(&self, name: &String) -> (r: Option<String>)
        requires
            self.wf(),
        ensures
            r is Some <==> exists|i: int| 0 <= i < self@.users.len() && (#[trigger] self@.users[i]).name == name@,
            r is Some ==> r->Some_0@ == avatar_url(name@),
    {
        let mut i: usize = 0;
        while i < self.users.len()
            invariant
                0 <= i <= self.users@.len(),
                self.wf(),
                forall|j: int| 0 <= j < i ==> (#[trigger] self@.users[j]).name != name@,
            decreases self.users@.len() - i,
        {
            if self.users[i].name == *name {
                assert(self@.users[i as int].name == name@);
                return Some(self.users[i].avatar.clone());
            }
            i = i + 1;
        }
        None
    }
}

/// A roster update replaces the roster wholesale: after two of them only the names of
/// the second remain, in its order.
pub proof fn lemma_roster_replaced(s: ChatV, a: Seq<Seq<char>>, b: Seq<Seq<char>>)
    ensures
        apply_envelope(apply_envelope(s, EnvelopeV::Users(a)).0, EnvelopeV::Users(b)).0.users
            == profiles_of(b),
        apply_envelope(apply_envelope(s, EnvelopeV::Users(a)).0, EnvelopeV::Users(b)).0.users.map_values(
            |u: UserProfileV| u.name,
        ) == b,
{
    assert(profiles_of(b).map_values(|u: UserProfileV| u.name) =~= b);
}

/// Messages enter the log at its end, in the order they arrive; two different messages
/// arriving in the other order leave a different log.
pub proof fn lemma_log_in_arrival_order(
    s: ChatV,
    d1: Seq<char>,
    d2: Seq<char>,
    d3: Seq<char>,
    m1: ChatMessageV,
    m2: ChatMessageV,
    m3: ChatMessageV,
)
    requires
        chat_message_of_text(d1) == Ok::<ChatMessageV, DecodeError>(m1),
        chat_message_of_text(d2) == Ok::<ChatMessageV, DecodeError>(m2),
        chat_message_of_text(d3) == Ok::<ChatMessageV, DecodeError>(m3),
    ensures
        apply_envelope(
            apply_envelope(apply_envelope(s, EnvelopeV::Message(d1)).0, EnvelopeV::Message(d2)).0,
            EnvelopeV::Message(d3),
        ).0.messages == s.messages + seq![m1, m2, m3],
        m1 != m2 ==> apply_envelope(
            apply_envelope(apply_envelope(s, EnvelopeV::Message(d2)).0, EnvelopeV::Message(d1)).0,
            EnvelopeV::Message(d3),
        ).0.messages != s.messages + seq![m1, m2, m3],
{
    assert(s.messages.push(m1).push(m2).push(m3) =~= s.messages + seq![m1, m2, m3]);
    if m1 != m2 {
        let other = s.messages.push(m2).push(m1).push(m3);
        assert(other[s.messages.len() as int] == m2);
        assert((s.messages + seq![m1, m2, m3])[s.messages.len() as int] == m1);
    }
}

/// A message whose payload cannot be read changes nothing, so whatever comes next is
/// applied as if it had not arrived.
pub proof fn lemma_malformed_payload_isolated(s: ChatV, bad: Seq<char>, next: EnvelopeV)
    requires
        chat_message_of_text(bad) is Err,
    ensures
        apply_envelope(s, EnvelopeV::Message(bad)) == (s, Err::<bool, DecodeError>(
            DecodeError::MalformedPayload,
        )),
        apply_envelope(apply_envelope(s, EnvelopeV::Message(bad)).0, next) == apply_envelope(s, next),
{
}

/// The same name gets the same avatar in every roster update.
pub proof fn lemma_avatar_deterministic(a: Seq<Seq<char>>, b: Seq<Seq<char>>, i: int, j: int)
    requires
        0 <= i < a.len(),
        0 <= j < b.len(),
        a[i] == b[j],
    ensures
        profiles_of(a)[i].avatar == profiles_of(b)[j].avatar,
        profiles_of(a)[i].avatar == avatar_url(a[i]),
{
}

} // verus!
