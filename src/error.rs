//! One error type for every failure that reaches the consensus engine from the
//! chain driver, the burn database, the filesystem or the operation parser.

use vstd::prelude::*;

verus! {

/// A collaborator's own error, carried unchanged inside `Error`: its text is
/// what the collaborator reported.
#[derive(Clone, Debug, PartialEq, Eq)]
pub struct ErrorCause {
    pub message: String,
}

impl ErrorCause {
    /// Wraps the text that a collaborator reported.
    pub fn new(message: String) -> (r: ErrorCause)
        ensures
            r.message@ == message@,
    {
        ErrorCause { message }
    }
}

/// Every failure this model surfaces.
#[derive(Clone, Debug, PartialEq, Eq)]
pub enum Error {
    /// Unsupported burn chain
    UnsupportedBurnchain,
    /// Error from the burn-chain driver
    Bitcoin(ErrorCause),
    /// Burn database error
    DBError(ErrorCause),
    /// Download error
    DownloadError(ErrorCause),
    /// Malformed transaction or block payload
    ParseError,
    /// Failure of a channel between internal workers
    ThreadChannelError,
    /// The driver's header store is behind what is needed
    MissingHeaders,
    /// Filesystem error
    FSError(ErrorCause),
    /// Operation processing error
    OpError(ErrorCause),
}

impl Error {
    /// The wrapped collaborator error, for the variants that carry one.
    pub open spec fn spec_cause(&self) -> Option<ErrorCause> {
        match self {
            Error::Bitcoin(c) => Some(*c),
            Error::DBError(c) => Some(*c),
            Error::DownloadError(c) => Some(*c),
            Error::FSError(c) => Some(*c),
            Error::OpError(c) => Some(*c),
            _ => None,
        }
    }

    /// The description: the wrapped error's own text for a wrapping variant,
    /// a fixed sentence for the others.
    pub open spec fn spec_description(&self) -> Seq<char> {
        match self {
            Error::UnsupportedBurnchain => "Unsupported burnchain"@,
            Error::ParseError => "Parse error"@,
            Error::MissingHeaders => "Missing block headers"@,
            Error::ThreadChannelError => "Error in thread channel"@,
            Error::Bitcoin(c) => c.message@,
            Error::DBError(c) => c.message@,
            Error::DownloadError(c) => c.message@,
            Error::FSError(c) => c.message@,
            Error::OpError(c) => c.message@,
        }
    }

    /// The wrapped collaborator error, if this variant carries one.
    pub fn cause(&self) -> (r: Option<&ErrorCause>)
        ensures
            r matches Some(c) ==> self.spec_cause() == Some(*c),
            r is None <==> self.spec_cause() is None,
    {
        match self {
            Error::Bitcoin(c) => Some(c),
            Error::DBError(c) => Some(c),
            Error::DownloadError(c) => Some(c),
            Error::FSError(c) => Some(c),
            Error::OpError(c) => Some(c),
            _ => None,
        }
    }

    /// Short description of the failure.
    pub fn description(&self) -> (r: &str)
        ensures
            r@ == self.spec_description(),
    {
        match self {
            Error::UnsupportedBurnchain => "Unsupported burnchain",
            Error::ParseError => "Parse error",
            Error::MissingHeaders => "Missing block headers",
            Error::ThreadChannelError => "Error in thread channel",
            Error::Bitcoin(c) => c.message.as_str(),
            Error::DBError(c) => c.message.as_str(),
            Error::DownloadError(c) => c.message.as_str(),
            Error::FSError(c) => c.message.as_str(),
            Error::OpError(c) => c.message.as_str(),
        }
    }

    /// Display text, fit to be logged as it is: the same as the description.
    pub fn to_string(&self) -> (r: String)
        ensures
            r@ == self.spec_description(),
    {
        String::from_str(self.description())
    }
}

/// A wrapping variant's display text is its cause's text, verbatim.
pub proof fn lemma_cause_text_preserved(e: Error)
    requires
        e.spec_cause() is Some,
    ensures
        e.spec_description() == e.spec_cause()->0.message@,
{
}

} // verus!
