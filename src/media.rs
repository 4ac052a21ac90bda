use vstd::prelude::*;

verus! {

/// The kind of an elementary stream, as the native engine numbers it.
#[derive(Clone, Copy, Debug, PartialEq, Eq, Structural)]
pub enum Type {
    Unknown,
    Video,
    Audio,
    Data,
    Subtitle,
    Attachment,
}

/// The kind that a native media-type code stands for; codes outside the known
/// range stand for `Unknown`.
pub open spec fn type_of_code(code: i32) -> Type {
    if code == 0 {
        Type::Video
    } else if code == 1 {
        Type::Audio
    } else if code == 2 {
        Type::Data
    } else if code == 3 {
        Type::Subtitle
    } else if code == 4 {
        Type::Attachment
    } else {
        Type::Unknown
    }
}

/// The native code of a kind.
pub open spec fn code_of_type(t: Type) -> i32 {
    match t {
        Type::Unknown => -1i32,
        Type::Video => 0,
        Type::Audio => 1,
        Type::Data => 2,
        Type::Subtitle => 3,
        Type::Attachment => 4,
    }
}

impl Type {
    pub fn from_code(code: i32) -> (t: Type)
        ensures
            t == type_of_code(code),
    {
        if code == 0 {
            Type::Video
        } else if code == 1 {
            Type::Audio
        } else if code == 2 {
            Type::Data
        } else if code == 3 {
            Type::Subtitle
        } else if code == 4 {
            Type::Attachment
        } else {
            Type::Unknown
        }
    }

    pub fn code(self) -> (r: i32)
        ensures
            r == code_of_type(self),
    {
        match self {
            Type::Unknown => -1i32,
            Type::Video => 0,
            Type::Audio => 1,
            Type::Data => 2,
            Type::Subtitle => 3,
            Type::Attachment => 4,
        }
    }
}

/// A kind survives being stored as its native code and read back.
pub proof fn lemma_type_code_round_trip(t: Type)
    ensures
        type_of_code(code_of_type(t)) == t,
{
}

} // verus!
