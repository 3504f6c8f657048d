//! The configuration that the selector reads.

use vstd::prelude::*;
use crate::text::optional_string_view;

verus! {

/// A wire protocol that the operator has enabled on some listening socket.
#[derive(Debug, Clone, Copy, PartialEq, Eq, Structural)]
pub enum ListenProtocolSettings {
    Http1,
    Http2,
    Quic,
}

/// A read-only snapshot of the configuration.
#[derive(Debug, Clone)]
pub struct Settings {
    /// Server name reserved for the internal control channel, if any.
    pub service_messenger_hostname: Option<String>,
    /// Server name reserved for liveness checks, if any.
    pub ping_hostname: Option<String>,
    /// The enabled listeners. Order and repetition carry no meaning.
    pub listen_protocols: Vec<ListenProtocolSettings>,
}

/// What a configuration means: two optional names and a set of listeners.
pub ghost struct SettingsView {
    pub service_messenger_hostname: Option<Seq<char>>,
    pub ping_hostname: Option<Seq<char>>,
    pub listen_protocols: Set<ListenProtocolSettings>,
}

impl View for Settings {
    type V = SettingsView;

    open spec fn view(&self) -> SettingsView {
        SettingsView {
            service_messenger_hostname: optional_string_view(self.service_messenger_hostname),
            ping_hostname: optional_string_view(self.ping_hostname),
            listen_protocols: self.listen_protocols@.to_set(),
        }
    }
}

impl Settings {
    /// Tells whether a listener of the given kind is enabled.
    pub fn listens_to(&self, wanted: ListenProtocolSettings) -> (enabled: bool)
        ensures
            enabled == self@.listen_protocols.contains(wanted),
    {
        let mut i: usize = 0;
        while i < self.listen_protocols.len()
            invariant
                i <= self.listen_protocols@.len(),
                forall|j: int| 0 <= j < i ==> self.listen_protocols@[j] != wanted,
            decreases self.listen_protocols@.len() - i,
        {
            if self.listen_protocols[i] == wanted {
                assert(self.listen_protocols@.contains(wanted));
                return true;
            }
            i += 1;
        }
        assert(!self.listen_protocols@.contains(wanted));
        false
    }
}

} // verus!
