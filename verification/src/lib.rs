//! A minimal cross-site request forgery guard for a connection-upgrade
//! handshake: it stamps an unguessable token into a response cookie, and
//! later extracts the token echoed back by cookie and by URI query so the
//! caller can compare the two and refuse the upgrade on a mismatch.

pub mod cookie;
pub mod decimal;
pub mod extract;
pub mod guard;
pub mod search;
