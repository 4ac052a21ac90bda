use vstd::prelude::*;

verus! {

/// A codec identity, held as the native engine's numeric code.
#[derive(Clone, Copy, Debug, PartialEq, Eq, Structural)]
pub struct Id {
    pub code: u32,
}

/// The code the native engine uses for "no codec".
pub const CODEC_ID_NONE: u32 = 0;

impl Id {
    pub fn from_code(code: u32) -> (r: Id)
        ensures
            r.code == code,
    {
        Id { code }
    }

    pub fn none() -> (r: Id)
        ensures
            r.code == CODEC_ID_NONE,
    {
        Id { code: CODEC_ID_NONE }
    }
}

} // verus!
