use vstd::prelude::*;

verus! {

/// The traffic shape of a session.
#[derive(Debug, Copy, Clone, PartialEq, Eq, Structural)]
pub enum SessionStyle {
    /// Connectionless, with an authenticated sender.
    Datagram,
    /// Connectionless, without a sender.
    Raw,
    /// Connection oriented and reliable.
    Stream,
}

impl SessionStyle {
    /// The name of the style as the `STYLE=` field of a command writes it.
    pub open spec fn name(self) -> Seq<char> {
        match self {
            SessionStyle::Datagram => "DATAGRAM"@,
            SessionStyle::Raw => "RAW"@,
            SessionStyle::Stream => "STREAM"@,
        }
    }

    pub fn as_string(&self) -> (r: &'static str)
        ensures
            r@ == self.name(),
    {
        match self {
            SessionStyle::Datagram => "DATAGRAM",
            SessionStyle::Raw => "RAW",
            SessionStyle::Stream => "STREAM",
        }
    }
}

} // verus!
