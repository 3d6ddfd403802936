//! Chat modes. Tibia 1.03 knows whispering (`#W`), yelling (`#Y`) and
//! broadcasting (`#B`) besides normal talk.
pub mod encoding;

use vstd::prelude::*;

verus! {

/// Kind of a chat message.
#[derive(Debug, Copy, Clone, PartialEq, Eq, Structural)]
pub enum ChatType {
    Broadcast,
    Look,
    Normal,
    Whisper,
    Yell,
}

/// Wire byte of a chat type.
pub open spec fn chat_type_code(t: ChatType) -> u8 {
    match t {
        ChatType::Broadcast => 0x41,
        ChatType::Look => 0x4D,
        ChatType::Normal => 0x53,
        ChatType::Whisper => 0x57,
        ChatType::Yell => 0x59,
    }
}

/// The chat type that a qualifier character selects: `w`, `y` or `b` in
/// either case, and normal talk for anything else or no character.
pub open spec fn chat_type_of(q: Option<char>) -> ChatType {
    match q {
        Some(c) => if c == 'w' || c == 'W' {
            ChatType::Whisper
        } else if c == 'y' || c == 'Y' {
            ChatType::Yell
        } else if c == 'b' || c == 'B' {
            ChatType::Broadcast
        } else {
            ChatType::Normal
        },
        None => ChatType::Normal,
    }
}

impl ChatType {
    /// The wire byte of this chat type.
    pub fn primitive(self) -> (r: u8)
        ensures
            r == chat_type_code(self),
    {
        match self {
            ChatType::Broadcast => 0x41,
            ChatType::Look => 0x4D,
            ChatType::Normal => 0x53,
            ChatType::Whisper => 0x57,
            ChatType::Yell => 0x59,
        }
    }

    /// The chat type with the given wire byte, if there is one.
    pub fn try_from_primitive(v: u8) -> (r: Option<ChatType>)
        ensures
            r matches Some(t) ==> chat_type_code(t) == v,
            r is None ==> forall|t: ChatType| chat_type_code(t) != v,
    {
        match v {
            0x41 => Some(ChatType::Broadcast),
            0x4D => Some(ChatType::Look),
            0x53 => Some(ChatType::Normal),
            0x57 => Some(ChatType::Whisper),
            0x59 => Some(ChatType::Yell),
            _ => None,
        }
    }
}

impl From<Option<char>> for ChatType {
    fn from(value: Option<char>) -> (r: Self) {
        match value {
            Some('w') | Some('W') => ChatType::Whisper,
            Some('y') | Some('Y') => ChatType::Yell,
            Some('b') | Some('B') => ChatType::Broadcast,
            _ => ChatType::Normal,
        }
    }
}

impl vstd::std_specs::convert::FromSpecImpl<Option<char>> for ChatType {
    open spec fn obeys_from_spec() -> bool {
        true
    }

    open spec fn from_spec(value: Option<char>) -> ChatType {
        chat_type_of(value)
    }
}

} // verus!
