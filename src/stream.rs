use crate::error::SamError;
use crate::text::{chars_of, find_space, find_space_from, string_of};
use vstd::prelude::*;

verus! {

/// The header line that precedes the payload of an inbound forwarded
/// stream.
#[derive(Debug)]
pub struct StreamInfo {
    /// The destination of the remote side.
    pub destination: String,
}

/// The first token of a stream header line: the characters before the
/// first separator, where there are any.
pub open spec fn announced_destination(line: Seq<char>) -> Option<Seq<char>> {
    let end = find_space(line, 0);
    if end > 0 {
        Some(line.subrange(0, end))
    } else {
        None
    }
}

impl StreamInfo {
    /// Reads the header line of an inbound stream. A line that is empty or
    /// starts with a separator is rejected.
    pub fn from_line(line: &str) -> (r: Result<StreamInfo, SamError>)
        ensures
            match announced_destination(line@) {
                Some(d) => r matches Ok(info) && info.destination@ == d,
                None => r matches Err(SamError::Format),
            },
    {
        let cs = chars_of(line);
        let end = find_space_from(&cs, 0);
        if end == 0 {
            return Err(SamError::Format);
        }
        Ok(StreamInfo { destination: string_of(&cs, 0, end) })
    }
}

} // verus!
