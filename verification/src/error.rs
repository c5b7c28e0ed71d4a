//! The library's error taxonomy: configuration problems, filesystem
//! problems, malformed documents, filter-process failures, a missing sender
//! header, and ambiguous lookups. Per-file problems during an index rebuild
//! are aggregated by the builder instead of raising one of these.
use vstd::prelude::*;

verus! {

#[derive(Debug)]
pub enum MatesError {
    /// A required setting is missing or invalid.
    Config(String),
    /// A path could not be read or written.
    Io(String),
    /// An exclusive create found the target already present.
    AlreadyExists(String),
    /// A document or header could not be parsed; holds the parser's message.
    Parse(String),
    /// The filter process could not be started.
    Spawn(String),
    /// The filter process's output could not be obtained.
    Stream(String),
    /// No sender header was found in the message.
    NoSender,
    /// A search matched no candidate.
    NoMatch,
    /// A search matched more than one candidate.
    Ambiguous,
    /// A contact lacks the single full-name property the index needs.
    NoName,
    /// Some contact files could not be indexed during a rebuild.
    IndexErrors,
}

impl MatesError {
    /// The human-readable text for this error.
    pub open spec fn message_spec(&self) -> Seq<char> {
        match self {
            MatesError::Config(m) => "configuration error: "@ + m@,
            MatesError::Io(m) => "i/o error: "@ + m@,
            MatesError::AlreadyExists(p) => "already exists: "@ + p@,
            MatesError::Parse(m) => "parse error: "@ + m@,
            MatesError::Spawn(m) => "failed to start filter process: "@ + m@,
            MatesError::Stream(m) => "failed to read filter process output: "@ + m@,
            MatesError::NoSender => "couldn't find From-header in email."@,
            MatesError::NoName => "no name found."@,
            MatesError::NoMatch => "no such contact."@,
            MatesError::Ambiguous => "ambiguous query."@,
            MatesError::IndexErrors => "several errors happened while generating the index."@,
        }
    }

    pub fn message(&self) -> (r: String)
        ensures
            r@ == self.message_spec(),
    {
        match self {
            MatesError::Config(m) => {
                let mut t = "configuration error: ".to_owned();
                t.append(m.as_str());
                t
            },
            MatesError::Io(m) => {
                let mut t = "i/o error: ".to_owned();
                t.append(m.as_str());
                t
            },
            MatesError::AlreadyExists(p) => {
                let mut t = "already exists: ".to_owned();
                t.append(p.as_str());
                t
            },
            MatesError::Parse(m) => {
                let mut t = "parse error: ".to_owned();
                t.append(m.as_str());
                t
            },
            MatesError::Spawn(m) => {
                let mut t = "failed to start filter process: ".to_owned();
                t.append(m.as_str());
                t
            },
            MatesError::Stream(m) => {
                let mut t = "failed to read filter process output: ".to_owned();
                t.append(m.as_str());
                t
            },
            MatesError::NoSender => "couldn't find From-header in email.".to_owned(),
            MatesError::NoName => "no name found.".to_owned(),
            MatesError::NoMatch => "no such contact.".to_owned(),
            MatesError::Ambiguous => "ambiguous query.".to_owned(),
            MatesError::IndexErrors => "several errors happened while generating the index.".to_owned(),
        }
    }
}

} // verus!
