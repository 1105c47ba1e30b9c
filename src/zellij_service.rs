//! The delivery primitives that the host supplies.
use vstd::prelude::*;

verus! {

/// A pane that text can be written to: a terminal or a plugin, with its
/// numeric id. Two ids are equal when kind and number are equal.
#[derive(Debug, Clone, Copy, PartialEq, Eq, Hash, Structural)]
pub enum PaneId {
    Terminal(u32),
    Plugin(u32),
}

/// What the host offers for delivering text; implemented over the real
/// multiplexer by the program, and by recording stand-ins in tests.
///
/// `written` and `piped` model what the host has been handed so far, oldest
/// first; each call adds exactly its own arguments. A verified host defines
/// them (see [`RecordingService`]); the empty defaults only let hosts written
/// outside the verified code, such as the real multiplexer binding, leave
/// them out.
pub trait ZellijService {
    /// The (text, pane) pairs handed to `write_chars_to_pane_id` so far.
    open spec fn written(&self) -> Seq<(Seq<char>, PaneId)> {
        Seq::empty()
    }

    /// The (payload, pipe name) pairs handed to `pipe_message_to_plugin` so far.
    open spec fn piped(&self) -> Seq<(Seq<char>, Seq<char>)> {
        Seq::empty()
    }

    /// Writes `message` to the pane `pane_id`.
    fn write_chars_to_pane_id(&mut self, message: &str, pane_id: PaneId)
        ensures
            final(self).written() == old(self).written().push((message@, pane_id)),
            final(self).piped() == old(self).piped(),
    ;

    /// Sends `message` to every plugin listening on the pipe `target`.
    fn pipe_message_to_plugin(&mut self, message: &str, target: &str)
        ensures
            final(self).piped() == old(self).piped().push((message@, target@)),
            final(self).written() == old(self).written(),
    ;
}

/// A host stand-in that records what it is handed, for tests and dry runs.
pub struct RecordingService {
    pub sent_messages: Vec<(String, PaneId)>,
    pub piped_messages: Vec<(String, String)>,
}

impl RecordingService {
    pub fn new() -> (r: Self)
        ensures
            r.written() == Seq::<(Seq<char>, PaneId)>::empty(),
            r.piped() == Seq::<(Seq<char>, Seq<char>)>::empty(),
    {
        let r = RecordingService { sent_messages: Vec::new(), piped_messages: Vec::new() };
        assert(r.written() =~= Seq::<(Seq<char>, PaneId)>::empty());
        assert(r.piped() =~= Seq::<(Seq<char>, Seq<char>)>::empty());
        r
    }
}

impl ZellijService for RecordingService {
    open spec fn written(&self) -> Seq<(Seq<char>, PaneId)> {
        self.sent_messages@.map_values(|p: (String, PaneId)| (p.0@, p.1))
    }

    open spec fn piped(&self) -> Seq<(Seq<char>, Seq<char>)> {
        self.piped_messages@.map_values(|p: (String, String)| (p.0@, p.1@))
    }

    fn write_chars_to_pane_id(&mut self, message: &str, pane_id: PaneId) {
        self.sent_messages.push((String::from_str(message), pane_id));
        assert(self.written() =~= old(self).written().push((message@, pane_id)));
    }

    fn pipe_message_to_plugin(&mut self, message: &str, target: &str) {
        self.piped_messages.push((String::from_str(message), String::from_str(target)));
        assert(self.piped() =~= old(self).piped().push((message@, target@)));
    }
}

} // verus!
