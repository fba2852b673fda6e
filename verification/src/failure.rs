//! The ways in which handling one event can fail. None of them is fatal: the
//! request at hand is abandoned and nothing else is affected.

use vstd::prelude::*;
use vstd::string::*;

verus! {

#[derive(Clone, Copy, Debug, PartialEq, Eq, Structural)]
pub enum Failure {
    /// An identity or member lookup did not answer.
    LookupFailure,
    /// The speech synthesizer could not be run or reported an error.
    SynthesisFailure,
    /// The decoder could not open the clip.
    DecodeFailure,
    /// The voice backend refused a join, or the connection is gone.
    ConnectionFailure,
    /// The event lacks a field that it needs.
    MalformedEvent,
}

impl Failure {
    /// The text that stands for each failure in a log line.
    pub open spec fn message_of(self) -> Seq<char> {
        match self {
            Failure::LookupFailure => "lookup failed"@,
            Failure::SynthesisFailure => "speech synthesis failed"@,
            Failure::DecodeFailure => "audio decoding failed"@,
            Failure::ConnectionFailure => "voice connection failed"@,
            Failure::MalformedEvent => "malformed event"@,
        }
    }

    /// A short description for the log.
    pub fn message(&self) -> (text: String)
        ensures
            text@ == self.message_of(),
    {
        match self {
            Failure::LookupFailure => String::from_str("lookup failed"),
            Failure::SynthesisFailure => String::from_str("speech synthesis failed"),
            Failure::DecodeFailure => String::from_str("audio decoding failed"),
            Failure::ConnectionFailure => String::from_str("voice connection failed"),
            Failure::MalformedEvent => String::from_str("malformed event"),
        }
    }
}

} // verus!
