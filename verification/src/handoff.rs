//! The payload handoff store: what bridges the moment a payload is resolved
//! and the moment the user interface can take it.
//!
//! The store keeps the last resolved payload, a bounded log and the last raw
//! arguments. A one-shot flag makes sure that the ready signal and the
//! fallback timer reveal the interface once between them.

use std::collections::VecDeque;
use vstd::prelude::*;
use crate::payload::{clone_strings, CliContext, ContextView, LaunchPayload, PayloadView};
use crate::text::{decimal, push_decimal, push_str, string_of};

verus! {

/// Number of log lines that the store keeps.
pub const LOG_CAPACITY: usize = 200;

/// The model of an optional payload.
pub open spec fn payload_view(payload: Option<LaunchPayload>) -> Option<PayloadView> {
    match payload {
        Some(p) => Some(p@),
        None => None,
    }
}

/// A log line: the time stamp in brackets, then the message.
pub open spec fn log_entry(stamp: u64, message: Seq<char>) -> Seq<char> {
    "["@ + decimal(stamp as nat) + "] "@ + message
}

/// The log with one more line: the line comes last, and where the log was
/// full its oldest line leaves.
pub open spec fn logged(logs: Seq<Seq<char>>, entry: Seq<char>) -> Seq<Seq<char>> {
    if logs.len() >= LOG_CAPACITY {
        logs.drop_first().push(entry)
    } else {
        logs.push(entry)
    }
}

/// The log line written when a payload is pushed to the interface.
pub open spec fn emit_line(payload: PayloadView) -> Seq<char> {
    match payload.context {
        ContextView::Files(files) => "emit load-context; kind=files, files="@ + decimal(files.len())
            + ", images=0"@,
        ContextView::Images(images) => "emit load-context; kind=images, files=0, images="@
            + decimal(images.len()),
    }
}

/// Mathematical model of a [`PayloadStore`].
pub struct StoreView {
    /// The last resolved payload, until it is taken.
    pub last: Option<PayloadView>,
    /// The log, oldest line first.
    pub logs: Seq<Seq<char>>,
    /// The raw arguments of the last activation.
    pub activation_args: Seq<Seq<char>>,
    /// Whether the interface was revealed.
    pub shown: bool,
}

/// What a ready signal or a fallback timer leads to.
#[derive(Debug, PartialEq, Eq)]
pub enum Reveal {
    /// The interface was revealed before: nothing is done.
    Skip,
    /// The interface is shown and focused, and the payload, if there is
    /// one, is pushed to it.
    Show(Option<LaunchPayload>),
}

/// Mathematical model of a [`Reveal`].
pub enum RevealView {
    Skip,
    Show(Option<PayloadView>),
}

impl View for Reveal {
    type V = RevealView;

    open spec fn view(&self) -> RevealView {
        match self {
            Reveal::Skip => RevealView::Skip,
            Reveal::Show(payload) => RevealView::Show(payload_view(*payload)),
        }
    }
}

/// The store with one more log line, written at time `stamp`.
pub open spec fn noted(store: StoreView, stamp: u64, message: Seq<char>) -> StoreView {
    StoreView { logs: logged(store.logs, log_entry(stamp, message)), ..store }
}

/// The store after a payload was resolved at time `stamp`: the payload
/// replaces the last one, and the push is logged.
pub open spec fn resolved(store: StoreView, stamp: u64, payload: PayloadView) -> StoreView {
    StoreView { last: Some(payload), ..noted(store, stamp, emit_line(payload)) }
}

/// The store after a ready signal or a fallback timer, and what is done:
/// the first of them reveals the interface and pushes the stored payload,
/// every later one does nothing.
pub open spec fn signalled(store: StoreView) -> (StoreView, RevealView) {
    if store.shown {
        (store, RevealView::Skip)
    } else {
        (StoreView { shown: true, ..store }, RevealView::Show(store.last))
    }
}

/// What the debug surface is given.
#[derive(Debug, PartialEq, Eq)]
pub struct DebugSnapshot {
    pub logs: Vec<String>,
    pub last_payload: Option<LaunchPayload>,
    pub activation_args: Vec<String>,
}

/// The state that the process keeps between a launch and the interface.
#[derive(Debug)]
pub struct PayloadStore {
    last: Option<LaunchPayload>,
    logs: VecDeque<String>,
    activation_args: Vec<String>,
    shown: bool,
}

impl View for PayloadStore {
    type V = StoreView;

    closed spec fn view(&self) -> StoreView {
        StoreView {
            last: payload_view(self.last),
            logs: Seq::new(self.logs@.len(), |i: int| self.logs@[i]@),
            activation_args: self.activation_args.deep_view(),
            shown: self.shown,
        }
    }
}

impl PayloadStore {
    #[verifier::type_invariant]
    spec fn bounded(self) -> bool {
        self.logs@.len() <= LOG_CAPACITY
    }

    /// An empty store.
    pub fn new() -> (store: PayloadStore)
        ensures
            store@ == (StoreView {
                last: None,
                logs: Seq::empty(),
                activation_args: Seq::empty(),
                shown: false,
            }),
    {
        let store = PayloadStore {
            last: None,
            logs: VecDeque::new(),
            activation_args: Vec::new(),
            shown: false,
        };
        assert(store@.logs =~= Seq::<Seq<char>>::empty());
        assert(store@.activation_args =~= Seq::<Seq<char>>::empty());
        store
    }

    /// Number of lines in the log; never more than [`LOG_CAPACITY`].
    pub fn log_len(&self) -> (n: usize)
        ensures
            n == self@.logs.len(),
            n <= LOG_CAPACITY,
    {
        proof {
            use_type_invariant(self);
        }
        self.logs.len()
    }

    /// Appends a line to the log; where the log is full, its oldest line
    /// leaves first.
    pub fn push_log(&mut self, stamp: u64, message: &str)
        ensures
            final(self)@ == noted(old(self)@, stamp, message@),
    {
        proof {
            use_type_invariant(&*self);
        }
        let mut line: Vec<char> = Vec::new();
        line.push('[');
        push_decimal(&mut line, stamp);
        push_str(&mut line, "] ");
        push_str(&mut line, message);
        proof {
            reveal_strlit("[");
            assert(line@ == log_entry(stamp, message@));
        }
        let ghost before = self@.logs;
        let mut logs: VecDeque<String> = VecDeque::new();
        std::mem::swap(&mut self.logs, &mut logs);
        if logs.len() >= LOG_CAPACITY {
            logs.pop_front();
        }
        logs.push_back(string_of(&line));
        self.logs = logs;
        assert(self@.logs =~= logged(before, log_entry(stamp, message@)));
    }

    /// Records the raw arguments of an activation.
    pub fn set_activation_args(&mut self, args: &Vec<String>)
        ensures
            final(self)@ == (StoreView { activation_args: args.deep_view(), ..old(self)@ }),
    {
        proof {
            use_type_invariant(&*self);
        }
        self.activation_args = clone_strings(args);
    }

    /// Takes in a resolved payload: it replaces the last one, and the push
    /// is logged. Where the interface exists already, the payload comes
    /// back to be pushed to it at once.
    pub fn resolve(&mut self, stamp: u64, payload: LaunchPayload, surface_exists: bool) -> (push:
        Option<LaunchPayload>)
        ensures
            final(self)@ == resolved(old(self)@, stamp, payload@),
            payload_view(push) == if surface_exists {
                Some(payload@)
            } else {
                None
            },
    {
        let line = emit_message(&payload);
        self.push_log(stamp, line.as_str());
        let push = if surface_exists {
            Some(payload.clone())
        } else {
            None
        };
        proof {
            use_type_invariant(&*self);
        }
        self.last = Some(payload);
        push
    }

    /// A new interface surface was made: it has not been revealed yet.
    pub fn surface_created(&mut self)
        ensures
            final(self)@ == (StoreView { shown: false, ..old(self)@ }),
    {
        proof {
            use_type_invariant(&*self);
        }
        self.shown = false;
    }

    /// The interface says that it is ready. The first signal, from here or
    /// from the fallback timer, reveals the interface and pushes the stored
    /// payload; a later one does nothing.
    pub fn on_ready(&mut self) -> (reveal: Reveal)
        ensures
            final(self)@ == signalled(old(self)@).0,
            reveal@ == signalled(old(self)@).1,
    {
        self.signal()
    }

    /// The fallback timer ran out. It is held to the same one-shot flag as
    /// the ready signal.
    pub fn on_fallback(&mut self) -> (reveal: Reveal)
        ensures
            final(self)@ == signalled(old(self)@).0,
            reveal@ == signalled(old(self)@).1,
    {
        self.signal()
    }

    fn signal(&mut self) -> (reveal: Reveal)
        ensures
            final(self)@ == signalled(old(self)@).0,
            reveal@ == signalled(old(self)@).1,
    {
        proof {
            use_type_invariant(&*self);
        }
        if self.shown {
            Reveal::Skip
        } else {
            self.shown = true;
            Reveal::Show(
                match &self.last {
                    Some(payload) => Some(payload.clone()),
                    None => None,
                },
            )
        }
    }

    /// Hands out the stored payload and forgets it.
    pub fn take_last_payload(&mut self) -> (payload: Option<LaunchPayload>)
        ensures
            payload_view(payload) == old(self)@.last,
            final(self)@ == (StoreView { last: None, ..old(self)@ }),
    {
        proof {
            use_type_invariant(&*self);
        }
        let mut taken: Option<LaunchPayload> = None;
        std::mem::swap(&mut self.last, &mut taken);
        taken
    }

    /// A copy of the stored payload, for a push that is asked for again.
    pub fn reemit(&self) -> (payload: Option<LaunchPayload>)
        ensures
            payload_view(payload) == self@.last,
    {
        match &self.last {
            Some(payload) => Some(payload.clone()),
            None => None,
        }
    }

    /// What the debug surface is given: the log from the oldest line on, the
    /// stored payload and the last raw arguments.
    pub fn snapshot(&self) -> (snap: DebugSnapshot)
        ensures
            snap.logs.deep_view() == self@.logs,
            payload_view(snap.last_payload) == self@.last,
            snap.activation_args.deep_view() == self@.activation_args,
    {
        let mut logs: Vec<String> = Vec::new();
        let mut i: usize = 0;
        while i < self.logs.len()
            invariant
                i <= self.logs.len(),
                logs.len() == i,
                forall|k: int| 0 <= k < i ==> logs@[k]@ == self.logs@[k]@,
            decreases self.logs.len() - i,
        {
            logs.push(self.logs[i].clone());
            i += 1;
        }
        DebugSnapshot {
            logs,
            last_payload: self.reemit(),
            activation_args: clone_strings(&self.activation_args),
        }
    }
}

/// Writes the log line for a payload that is pushed to the interface.
pub fn emit_message(payload: &LaunchPayload) -> (line: String)
    ensures
        line@ == emit_line(payload@),
{
    let mut out: Vec<char> = Vec::new();
    match &payload.context {
        CliContext::Files { files } => {
            push_str(&mut out, "emit load-context; kind=files, files=");
            push_decimal(&mut out, files.len() as u64);
            push_str(&mut out, ", images=0");
        },
        CliContext::Images { images } => {
            push_str(&mut out, "emit load-context; kind=images, files=0, images=");
            push_decimal(&mut out, images.len() as u64);
        },
    }
    string_of(&out)
}

/// The log never holds more than its capacity; a new line comes last and
/// the lines before it keep their order.
pub proof fn law_log_bounded(logs: Seq<Seq<char>>, entry: Seq<char>)
    requires
        logs.len() <= LOG_CAPACITY,
    ensures
        logged(logs, entry).len() <= LOG_CAPACITY,
        logged(logs, entry).last() == entry,
        logs.len() < LOG_CAPACITY ==> logged(logs, entry).drop_last() == logs,
        logs.len() == LOG_CAPACITY ==> logged(logs, entry).drop_last() == logs.drop_first(),
{
}

/// Two signals in a row reveal the interface at most once: whatever the
/// first one did, the second one does nothing and changes nothing.
pub proof fn law_reveal_once(store: StoreView)
    ensures
        signalled(signalled(store).0).1 == RevealView::Skip,
        signalled(signalled(store).0).0 == signalled(store).0,
        signalled(store).1 is Show <==> !store.shown,
{
}

/// The last payload resolved is the one that is delivered: a payload
/// resolved after another replaces it.
pub proof fn law_last_writer_wins(
    store: StoreView,
    s1: u64,
    p1: PayloadView,
    s2: u64,
    p2: PayloadView,
)
    ensures
        resolved(resolved(store, s1, p1), s2, p2).last == Some(p2),
        !store.shown ==> signalled(resolved(resolved(store, s1, p1), s2, p2)).1 == RevealView::Show(
            Some(p2),
        ),
{
}

} // verus!
