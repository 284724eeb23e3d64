pub mod bus;
pub mod json;
pub mod protocol;
pub mod session;

pub use bus::EventBus;
pub use json::Json;
pub use protocol::{
    decode, decode_chat_message, encode, encode_chat_message, envelope_from_json,
    envelope_to_json, ChatMessage, DecodeError, Envelope, MsgTypes,
};
pub use session::{avatar_for, Action, Chat, Msg, UserProfile};
