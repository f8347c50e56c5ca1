//! Streamed calls: progress entries, then one entry that ends the stream.

use vstd::prelude::*;
use vstd::string::StringExecFns;

verus! {

/// One progress notification of a target, with its numbers kept as JSON.
#[derive(Debug)]
pub struct ProgressUpdate {
    pub progress: serde_json::Value,
    pub total: Option<serde_json::Value>,
    pub message: Option<String>,
}

/// What a `ProgressUpdate` stands for in contracts.
pub struct ProgressUpdateView {
    pub progress: serde_json::Value,
    pub total: Option<serde_json::Value>,
    pub message: Option<Seq<char>>,
}

impl View for ProgressUpdate {
    type V = ProgressUpdateView;

    open spec fn view(&self) -> ProgressUpdateView {
        ProgressUpdateView {
            progress: self.progress,
            total: self.total,
            message: self.message.deep_view(),
        }
    }
}

/// One entry of the list that a streamed call returns.
#[derive(Debug)]
pub struct StreamEvent {
    pub event: String,
    pub progress: Option<serde_json::Value>,
    pub total: Option<serde_json::Value>,
    pub message: Option<String>,
    pub structured: Option<serde_json::Value>,
    pub content: Option<serde_json::Value>,
    pub error: Option<String>,
}

/// What a `StreamEvent` stands for in contracts.
pub struct StreamEventView {
    pub event: Seq<char>,
    pub progress: Option<serde_json::Value>,
    pub total: Option<serde_json::Value>,
    pub message: Option<Seq<char>>,
    pub structured: Option<serde_json::Value>,
    pub content: Option<serde_json::Value>,
    pub error: Option<Seq<char>>,
}

impl View for StreamEvent {
    type V = StreamEventView;

    open spec fn view(&self) -> StreamEventView {
        StreamEventView {
            event: self.event@,
            progress: self.progress,
            total: self.total,
            message: self.message.deep_view(),
            structured: self.structured,
            content: self.content,
            error: self.error.deep_view(),
        }
    }
}

impl DeepView for StreamEvent {
    type V = StreamEventView;

    open spec fn deep_view(&self) -> StreamEventView {
        self@
    }
}

impl Clone for StreamEvent {
    fn clone(&self) -> (copy: Self)
        ensures
            copy@ == self@,
    {
        StreamEvent {
            event: self.event.clone(),
            progress: self.progress.clone(),
            total: self.total.clone(),
            message: self.message.clone(),
            structured: self.structured.clone(),
            content: self.content.clone(),
            error: self.error.clone(),
        }
    }
}

/// A copy of a list of stream events.
pub fn clone_events(events: &Vec<StreamEvent>) -> (copy: Vec<StreamEvent>)
    ensures
        copy.deep_view() == events.deep_view(),
{
    let mut copy: Vec<StreamEvent> = Vec::new();
    let mut i: usize = 0;
    while i < events.len()
        invariant
            i <= events.len(),
            copy.len() == i,
            forall|j: int| 0 <= j < i ==> copy[j]@ == events[j]@,
        decreases events.len() - i,
    {
        copy.push(events[i].clone());
        i += 1;
    }
    copy
}

/// The entry for a progress notification.
pub open spec fn chunk_event(update: ProgressUpdateView) -> StreamEventView {
    StreamEventView {
        event: "chunk"@,
        progress: Some(update.progress),
        total: update.total,
        message: update.message,
        structured: None,
        content: None,
        error: None,
    }
}

/// The result counts as failed.
pub open spec fn flagged(is_error: Option<bool>) -> bool {
    is_error == Some(true)
}

/// The entry for the final result of a call.
pub open spec fn terminal_event(
    is_error: Option<bool>,
    structured: Option<serde_json::Value>,
    content: Option<serde_json::Value>,
) -> StreamEventView {
    StreamEventView {
        event: if flagged(is_error) {
            "error"@
        } else {
            "final"@
        },
        progress: None,
        total: None,
        message: None,
        structured,
        content,
        error: if flagged(is_error) {
            Some("tool execution failed"@)
        } else {
            None
        },
    }
}

/// Makes the entry for a progress notification.
pub fn progress_to_event(update: ProgressUpdate) -> (event: StreamEvent)
    ensures
        event@ == chunk_event(update@),
{
    StreamEvent {
        event: String::from_str("chunk"),
        progress: Some(update.progress),
        total: update.total,
        message: update.message,
        structured: None,
        content: None,
        error: None,
    }
}

/// Makes the entry for the final result of a call.
pub fn result_to_event(
    is_error: Option<bool>,
    structured: Option<serde_json::Value>,
    content: Option<serde_json::Value>,
) -> (event: StreamEvent)
    ensures
        event@ == terminal_event(is_error, structured, content),
{
    let failed = match is_error {
        Some(flag) => flag,
        None => false,
    };
    StreamEvent {
        event: if failed {
            String::from_str("error")
        } else {
            String::from_str("final")
        },
        progress: None,
        total: None,
        message: None,
        structured,
        content,
        error: if failed {
            Some(String::from_str("tool execution failed"))
        } else {
            None
        },
    }
}

/// The entry ends a stream.
pub open spec fn terminal(event: StreamEventView) -> bool {
    event.event == "final"@ || event.event == "error"@
}

/// Every entry of the list stands for a progress notification.
pub open spec fn only_chunks(events: Seq<StreamEventView>) -> bool {
    forall|i: int| 0 <= i < events.len() ==> (#[trigger] events[i]).event == "chunk"@
}

/// The list is what a streamed call returns: progress entries, then one entry that
/// ends the stream.
pub open spec fn well_formed_stream(events: Seq<StreamEventView>) -> bool {
    &&& events.len() > 0
    &&& terminal(events.last())
    &&& only_chunks(events.drop_last())
}

/// What one poll of the progress stream brought.
#[derive(Debug)]
pub enum Poll {
    Progress(ProgressUpdate),
    /// The stream is closed.
    Closed,
    /// Nothing came within the grace window.
    TimedOut,
}

/// Gathers the progress notifications of one call, in the order in which they came.
pub struct StreamCollector {
    events: Vec<StreamEvent>,
}

impl View for StreamCollector {
    type V = Seq<StreamEventView>;

    closed spec fn view(&self) -> Seq<StreamEventView> {
        self.events.deep_view()
    }
}

impl StreamCollector {
    #[verifier::type_invariant]
    spec fn holds_chunks(self) -> bool {
        only_chunks(self.events.deep_view())
    }

    /// A collector that has seen nothing yet.
    pub fn new() -> (collector: Self)
        ensures
            collector@ == Seq::<StreamEventView>::empty(),
    {
        StreamCollector { events: Vec::new() }
    }

    /// Takes what a poll brought. A notification is added to the list and asks for
    /// another poll; a closed stream or an empty grace window ends the draining.
    pub fn on_poll(&mut self, poll: Poll) -> (again: bool)
        ensures
            match poll {
                Poll::Progress(update) => again && final(self)@ == old(self)@.push(
                    chunk_event(update@),
                ),
                _ => !again && final(self)@ == old(self)@,
            },
            only_chunks(final(self)@),
    {
        proof {
            use_type_invariant(&*self);
        }
        match poll {
            Poll::Progress(update) => {
                let mut events: Vec<StreamEvent> = Vec::new();
                core::mem::swap(&mut self.events, &mut events);
                let ghost before = events.deep_view();
                events.push(progress_to_event(update));
                assert(events.deep_view() =~= before.push(chunk_event(update@)));
                self.events = events;
                true
            },
            _ => false,
        }
    }

    /// Ends the list with the entry for the final result.
    pub fn finish(
        self,
        is_error: Option<bool>,
        structured: Option<serde_json::Value>,
        content: Option<serde_json::Value>,
    ) -> (events: Vec<StreamEvent>)
        ensures
            events.deep_view() == self@.push(terminal_event(is_error, structured, content)),
            well_formed_stream(events.deep_view()),
    {
        proof {
            use_type_invariant(&self);
        }
        let mut events = self.events;
        let ghost before = events.deep_view();
        events.push(result_to_event(is_error, structured, content));
        assert(events.deep_view() =~= before.push(terminal_event(is_error, structured, content)));
        assert(events.deep_view().drop_last() =~= before);
        events
    }
}

/// The structured payload of a streamed call.
#[derive(Debug)]
pub struct StreamPayload {
    pub mode: String,
    pub events: Vec<StreamEvent>,
    /// The result as it came from the target, before the payload took its place.
    pub final_snapshot: Option<serde_json::Value>,
}

/// Puts the payload of a streamed call together: the mode `stream`, the events, and
/// the snapshot of the result.
pub fn stream_payload(events: &Vec<StreamEvent>, final_snapshot: Option<serde_json::Value>) -> (payload:
    StreamPayload)
    ensures
        payload.mode@ == "stream"@,
        payload.events.deep_view() == events.deep_view(),
        payload.final_snapshot == final_snapshot,
{
    StreamPayload { mode: String::from_str("stream"), events: clone_events(events), final_snapshot }
}

} // verus!
