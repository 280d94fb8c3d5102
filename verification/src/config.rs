//! The tool's configuration: built once from the process arguments, then
//! duplicated per accepted connection so every connection handler owns an
//! independent snapshot. Exactly one of the two top-level modes — sending
//! outward or listening — is chosen from it, and the listener's bind host
//! falls back to the wildcard address when no target was named.

use vstd::prelude::*;
use crate::command::subvec;

verus! {

/// One snapshot of the parsed command-line options. Text fields are kept as
/// plain bytes; the unverified shell around the library converts them from
/// and to strings at its edge.
#[derive(Clone)]
pub struct ProgOptions {
    /// Listen for inbound connections instead of sending outward.
    pub listen: bool,
    /// Offer the interactive command shell to each peer.
    pub command: bool,
    /// Receive an uploaded file from each peer.
    pub upload: bool,
    /// A fixed command to run once per connection; empty means none.
    pub execute: Vec<u8>,
    /// The remote host to reach, or the local host to bind; may be empty.
    pub target: Vec<u8>,
    /// Where the uploaded bytes are written.
    pub upload_dest: Vec<u8>,
    /// The TCP port to reach or to bind.
    pub port: u16,
}

/// The mathematical shape of a configuration snapshot.
#[verifier::ext_equal]
pub struct OptionsModel {
    pub listen: bool,
    pub command: bool,
    pub upload: bool,
    pub execute: Seq<u8>,
    pub target: Seq<u8>,
    pub upload_dest: Seq<u8>,
    pub port: u16,
}

impl View for ProgOptions {
    type V = OptionsModel;

    open spec fn view(&self) -> OptionsModel {
        OptionsModel {
            listen: self.listen,
            command: self.command,
            upload: self.upload,
            execute: self.execute@,
            target: self.target@,
            upload_dest: self.upload_dest@,
            port: self.port,
        }
    }
}

/// The top-level role the process takes, decided once at startup.
#[derive(Clone, Copy, PartialEq, Eq, Structural, Debug)]
pub enum Mode {
    /// Connect out to the target and relay standard input.
    Send,
    /// Accept inbound connections and run the service pipeline on each.
    Listen,
    /// Neither role applies; nothing runs.
    Idle,
}

/// Which role a configuration selects: sending outward needs `listen` off
/// together with a target and a nonzero port; otherwise `listen` decides.
pub open spec fn mode_of(o: OptionsModel) -> Mode {
    if !o.listen && o.target.len() > 0 && o.port > 0 {
        Mode::Send
    } else if o.listen {
        Mode::Listen
    } else {
        Mode::Idle
    }
}

/// The wildcard bind address, as bytes: "0.0.0.0".
pub open spec fn wildcard_host_text() -> Seq<u8> {
    seq![48u8, 46, 48, 46, 48, 46, 48]
}

/// The host the listener binds: the configured target, or the wildcard
/// address when no target was configured.
pub open spec fn bind_host_of(o: OptionsModel) -> Seq<u8> {
    if o.target.len() == 0 {
        wildcard_host_text()
    } else {
        o.target
    }
}

impl ProgOptions {
    /// Decides the process's role from this configuration.
    pub fn run_mode(&self) -> (m: Mode)
        ensures
            m == mode_of(self@),
    {
        if !self.listen && self.target.len() > 0 && self.port > 0 {
            Mode::Send
        } else if self.listen {
            Mode::Listen
        } else {
            Mode::Idle
        }
    }

    /// The host to bind when listening.
    pub fn bind_host(&self) -> (r: Vec<u8>)
        ensures
            r@ == bind_host_of(self@),
    {
        if self.target.len() == 0 {
            let mut r: Vec<u8> = Vec::new();
            r.push(48);
            r.push(46);
            r.push(48);
            r.push(46);
            r.push(48);
            r.push(46);
            r.push(48);
            proof {
                assert(r@ =~= wildcard_host_text());
            }
            r
        } else {
            let r = subvec(&self.target, 0, self.target.len());
            proof {
                assert(r@ =~= self.target@);
            }
            r
        }
    }
}

/// The two top-level roles exclude each other: no configuration selects
/// both sending and listening, and `listen` alone decides which of the two
/// can run.
pub proof fn lemma_modes_exclusive(o: OptionsModel)
    ensures
        mode_of(o) == Mode::Send ==> !o.listen,
        mode_of(o) == Mode::Listen ==> o.listen,
{
}

} // verus!
