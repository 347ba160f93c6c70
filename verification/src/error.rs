//! The failures a call can end in, and the message each one carries to the host.

use vstd::prelude::*;
use vstd::string::*;

verus! {

/// The classes of failure.
#[derive(Clone, Copy, Debug, PartialEq, Eq, Structural)]
pub enum ErrorKind {
    /// The system bus could not be reached, or refused the session.
    Connection,
    /// The background executor could not be started.
    ExecutorInit,
    /// The named unit does not exist or is inaccessible.
    Lookup,
    /// The bus call itself failed.
    RemoteCall,
    /// A reply could not be turned into a value that the host can hold.
    Conversion,
}

/// A failure: its class, and the human-readable detail taken from where it arose.
#[derive(Clone, Debug, PartialEq, Eq)]
pub struct BridgeError {
    pub kind: ErrorKind,
    pub detail: String,
}

/// A failure as contracts see it.
pub struct BridgeErrorView {
    pub kind: ErrorKind,
    pub detail: Seq<char>,
}

impl View for BridgeError {
    type V = BridgeErrorView;

    open spec fn view(&self) -> BridgeErrorView {
        BridgeErrorView { kind: self.kind, detail: self.detail@ }
    }
}

/// What precedes the transport's own words when the bus cannot be reached.
pub const CONNECTION_PREFIX: &'static str = "Failed to connect to D-Bus system socket: ";

impl BridgeErrorView {
    /// The message the host sees: the detail as it came, behind a fixed prefix for a
    /// connection failure and alone for every other class.
    pub open spec fn message(self) -> Seq<char> {
        if self.kind == ErrorKind::Connection {
            CONNECTION_PREFIX@ + self.detail
        } else {
            self.detail
        }
    }
}

impl BridgeError {
    /// A failure of the given class with the given detail.
    pub fn new(kind: ErrorKind, detail: String) -> (error: BridgeError)
        ensures
            error@ == (BridgeErrorView { kind, detail: detail@ }),
    {
        BridgeError { kind, detail }
    }

    /// The message handed to the host for this failure.
    pub fn message(&self) -> (text: String)
        ensures
            text@ == self@.message(),
    {
        match self.kind {
            ErrorKind::Connection => String::from_str(CONNECTION_PREFIX).concat(self.detail.as_str()),
            _ => self.detail.clone(),
        }
    }
}

} // verus!
