//! The event payload and what is reported about it before the chime plays.
use vstd::prelude::*;
use vstd::string::StringExecFns;

verus! {

/// An event reported by the external tool. Only `kind` is required; the other
/// fields are absent when the payload leaves them out.
pub struct Notification {
    pub kind: String,
    pub thread_id: Option<String>,
    pub last_assistant_message: Option<String>,
    pub input_messages: Option<Vec<String>>,
}

/// The sound to play for an event. Every event, recognized or not, gets the
/// embedded default sound.
#[derive(Clone, Copy, Debug, PartialEq, Eq)]
pub enum Cue {
    DefaultSound,
}

/// The most informative detail an event carries, in priority order: the last
/// assistant message, then the input messages, then the thread id.
pub enum EventContext {
    LastMessage(String),
    Inputs(Vec<String>),
    Thread(String),
    Bare,
}

/// What to do for one event: an optional notice that its kind is unknown (for the
/// diagnostic stream), an optional summary line (for standard output), and the
/// sound to play.
pub struct EventResponse {
    pub notice: Option<String>,
    pub summary: Option<String>,
    pub cue: Cue,
}

/// The one event kind that is recognized.
pub open spec fn recognized_kind() -> Seq<char> {
    "agent-turn-complete"@
}

/// The messages joined by single spaces.
pub open spec fn joined(parts: Seq<String>) -> Seq<char>
    decreases parts.len(),
{
    if parts.len() == 0 {
        Seq::empty()
    } else if parts.len() == 1 {
        parts[0]@
    } else {
        joined(parts.drop_last()) + " "@ + parts.last()@
    }
}

/// The notice for an event kind that is not recognized.
pub open spec fn notice_text(kind: Seq<char>) -> Seq<char> {
    "Codex notify event '"@ + kind + "' is not recognized; using default sound"@
}

/// The summary line of an event, from the most informative detail it carries.
pub open spec fn summary_text(n: Notification) -> Seq<char> {
    let head = "Codex notify ("@ + n.kind@;
    match n.last_assistant_message {
        Some(m) => head + "): "@ + m@,
        None => match n.input_messages {
            Some(v) => head + "): "@ + joined(v@),
            None => match n.thread_id {
                Some(t) => head + ") for thread "@ + t@,
                None => head + ")"@,
            },
        },
    }
}

/// The message for a payload that is not a well-formed event.
pub open spec fn payload_error_text(detail: Seq<char>) -> Seq<char> {
    "Failed to parse notify payload as JSON: "@ + detail
}

/// Joins the messages with single spaces.
pub fn join_spaced(parts: &Vec<String>) -> (r: String)
    ensures
        r@ == joined(parts@),
{
    let mut out = String::new();
    let mut i: usize = 0;
    while i < parts.len()
        invariant
            i <= parts.len(),
            out@ == joined(parts@.subrange(0, i as int)),
        decreases parts.len() - i,
    {
        proof {
            let next = parts@.subrange(0, i + 1);
            assert(next.drop_last() =~= parts@.subrange(0, i as int));
            assert(next.last() == parts@[i as int]);
            if i == 0 {
                assert(parts@.subrange(0, 0) =~= Seq::<String>::empty());
            }
        }
        if i > 0 {
            out.append(" ");
        }
        out.append(parts[i].as_str());
        i += 1;
    }
    assert(parts@.subrange(0, parts.len() as int) =~= parts@);
    out
}

/// Whether the event kind is the recognized one.
pub fn is_recognized(kind: &String) -> (r: bool)
    ensures
        r == (kind@ == recognized_kind()),
{
    let known = String::from_str("agent-turn-complete");
    *kind == known
}

/// Builds the error message for a payload that could not be read, from the
/// parser's own description of the problem.
pub fn payload_error(detail: &str) -> (r: String)
    ensures
        r@ == payload_error_text(detail@),
{
    String::from_str("Failed to parse notify payload as JSON: ").concat(detail)
}

impl Notification {
    /// The most informative detail of the event, in priority order.
    pub fn context(&self) -> (r: EventContext)
        ensures
            match self.last_assistant_message {
                Some(m) => r matches EventContext::LastMessage(x) && x@ == m@,
                None => match self.input_messages {
                    Some(v) => r matches EventContext::Inputs(x) && x@ == v@,
                    None => match self.thread_id {
                        Some(t) => r matches EventContext::Thread(x) && x@ == t@,
                        None => r matches EventContext::Bare,
                    },
                },
            },
    {
        match &self.last_assistant_message {
            Some(m) => EventContext::LastMessage(m.clone()),
            None => match &self.input_messages {
                Some(v) => EventContext::Inputs(v.clone()),
                None => match &self.thread_id {
                    Some(t) => EventContext::Thread(t.clone()),
                    None => EventContext::Bare,
                },
            },
        }
    }

    /// The summary line of the event.
    pub fn summary(&self) -> (r: String)
        ensures
            r@ == summary_text(*self),
    {
        let head = String::from_str("Codex notify (").concat(self.kind.as_str());
        match self.context() {
            EventContext::LastMessage(m) => head.concat("): ").concat(m.as_str()),
            EventContext::Inputs(v) => {
                let text = join_spaced(&v);
                head.concat("): ").concat(text.as_str())
            },
            EventContext::Thread(t) => head.concat(") for thread ").concat(t.as_str()),
            EventContext::Bare => head.concat(")"),
        }
    }
}

/// Decides what to do for an event. The default sound is played for every event;
/// in verbose mode a notice is given for an unrecognized kind and the summary line
/// is given always; otherwise nothing is reported.
pub fn respond(n: &Notification, verbose: bool) -> (r: EventResponse)
    ensures
        r.cue == Cue::DefaultSound,
        r.notice is Some <==> verbose && n.kind@ != recognized_kind(),
        r.notice matches Some(t) ==> t@ == notice_text(n.kind@),
        r.summary is Some <==> verbose,
        r.summary matches Some(s) ==> s@ == summary_text(*n),
        verbose ==> (n.last_assistant_message matches Some(m) ==> r.summary matches Some(s)
            && s@ == "Codex notify ("@ + n.kind@ + "): "@ + m@),
{
    let notice = if verbose && !is_recognized(&n.kind) {
        Some(
            String::from_str("Codex notify event '").concat(n.kind.as_str()).concat(
                "' is not recognized; using default sound",
            ),
        )
    } else {
        None
    };
    let summary = if verbose {
        Some(n.summary())
    } else {
        None
    };
    EventResponse { notice, summary, cue: Cue::DefaultSound }
}

} // verus!
