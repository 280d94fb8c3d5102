//! A dual-mode TCP utility's decision core. The tool either connects
//! outward and relays standard-input bytes to a remote peer, or listens
//! and drives each accepted connection through an ordered sequence of
//! optional services: receiving an uploaded file, running one fixed
//! command, and offering an interactive command shell. Everything the tool
//! decides — how a command line is split and tokenized, in which order the
//! services run, what each blocking operation's outcome leads to, and what
//! exact bytes go back to the peer — lives here as verified functions and
//! state machines over plain values. The blocking operations themselves
//! (sockets, files, process spawning, standard input and output) belong to
//! the thin unverified shell around the library.

pub mod command;
pub mod config;
pub mod pipeline;
pub mod sender;
