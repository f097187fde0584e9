//! Relaying what the running downloader writes as progress events.
//!
//! The caller owns the process and the channel. It hands each thing the
//! process reports to [`relay_event`] and publishes what comes back.

use vstd::prelude::*;
use vstd::string::*;
use vstd::utf8::encode_utf8;
use crate::text::{decode_lossy, utf8_lossy};

verus! {

/// One thing that the running downloader reports.
#[derive(Debug, Clone, PartialEq, Eq)]
pub enum ProcessEvent {
    /// A line written to standard output.
    Stdout(Vec<u8>),
    /// A line written to standard error.
    Stderr(Vec<u8>),
    /// A failure to read from the process.
    Error(String),
    /// The process has ended, with its exit code if it has one.
    Terminated(Option<i32>),
    /// Anything else.
    Other,
}

/// The mathematical content of a [`ProcessEvent`].
pub enum ProcessEventView {
    Stdout(Seq<u8>),
    Stderr(Seq<u8>),
    Error(Seq<char>),
    Terminated(Option<i32>),
    Other,
}

impl View for ProcessEvent {
    type V = ProcessEventView;

    open spec fn view(&self) -> ProcessEventView {
        match self {
            ProcessEvent::Stdout(line) => ProcessEventView::Stdout(line@),
            ProcessEvent::Stderr(line) => ProcessEventView::Stderr(line@),
            ProcessEvent::Error(reason) => ProcessEventView::Error(reason@),
            ProcessEvent::Terminated(code) => ProcessEventView::Terminated(*code),
            ProcessEvent::Other => ProcessEventView::Other,
        }
    }
}

/// One line of progress, addressed to the topic of its request.
#[derive(Debug, Clone, PartialEq, Eq)]
pub struct ProgressEvent {
    /// The topic under which the line is published.
    pub topic: String,
    /// The line, as text.
    pub line: String,
}

/// The mathematical content of a [`ProgressEvent`].
pub struct ProgressEventView {
    pub topic: Seq<char>,
    pub line: Seq<char>,
}

impl View for ProgressEvent {
    type V = ProgressEventView;

    open spec fn view(&self) -> ProgressEventView {
        ProgressEventView { topic: self.topic@, line: self.line@ }
    }
}

/// The contents of each element of a list of process events, in order.
pub open spec fn process_views(list: Seq<ProcessEvent>) -> Seq<ProcessEventView> {
    Seq::new(list.len(), |i: int| list[i]@)
}

/// The contents of each element of a list of progress events, in order.
pub open spec fn progress_views(list: Seq<ProgressEvent>) -> Seq<ProgressEventView> {
    Seq::new(list.len(), |i: int| list[i]@)
}

/// The topic on which the progress of request `id` is published.
pub open spec fn progress_topic_spec(id: Seq<char>) -> Seq<char> {
    "download-progress-"@ + id
}

/// The bytes of the line that `event` carries, if it is a line of output on
/// either stream.
pub open spec fn output_line(event: ProcessEventView) -> Option<Seq<u8>> {
    match event {
        ProcessEventView::Stdout(line) => Some(line),
        ProcessEventView::Stderr(line) => Some(line),
        _ => None,
    }
}

/// What is published for `event`: its line as text, for a line of output on
/// either stream; nothing for anything else.
pub open spec fn relayed_event(topic: Seq<char>, event: ProcessEventView) -> Option<
    ProgressEventView,
> {
    match output_line(event) {
        Some(line) => Some(ProgressEventView { topic, line: utf8_lossy(line) }),
        None => None,
    }
}

/// What is published for a run of events: what is published for each of
/// them, in the order in which they came.
pub open spec fn relayed(topic: Seq<char>, events: Seq<ProcessEventView>) -> Seq<
    ProgressEventView,
> {
    events.filter_map(|event: ProcessEventView| relayed_event(topic, event))
}

/// Builds the topic on which the progress of request `id` is published.
pub fn progress_topic(id: &str) -> (topic: String)
    ensures
        topic@ == progress_topic_spec(id@),
{
    let mut topic = String::from_str("download-progress-");
    topic.append(id);
    topic
}

/// Decides what to publish for one thing the process reports: a line of
/// either stream becomes a progress event on `topic`, anything else is
/// passed over. A line that is well-formed UTF-8 is published as it stands.
pub fn relay_event(topic: &str, event: &ProcessEvent) -> (published: Option<ProgressEvent>)
    ensures
        published is Some <==> output_line(event@) is Some,
        match published {
            Some(p) => Some(p@) == relayed_event(topic@, event@),
            None => relayed_event(topic@, event@) is None,
        },
        forall|t: Seq<char>|
            output_line(event@) == Some(#[trigger] encode_utf8(t)) ==> published is Some
                && published->0.line@ == t,
{
    match event {
        ProcessEvent::Stdout(line) => Some(
            ProgressEvent { topic: String::from_str(topic), line: decode_lossy(line.as_slice()) },
        ),
        ProcessEvent::Stderr(line) => Some(
            ProgressEvent { topic: String::from_str(topic), line: decode_lossy(line.as_slice()) },
        ),
        _ => None,
    }
}

/// Decides what to publish for a whole run of events, in order.
pub fn relay_events(topic: &str, events: &Vec<ProcessEvent>) -> (published: Vec<ProgressEvent>)
    ensures
        progress_views(published@) == relayed(topic@, process_views(events@)),
{
    let mut published: Vec<ProgressEvent> = Vec::new();
    let ghost all = process_views(events@);
    let ghost f = |event: ProcessEventView| relayed_event(topic@, event);
    let mut i: usize = 0;
    assert(all.take(0).filter_map(f) =~= Seq::<ProgressEventView>::empty());
    assert(progress_views(published@) =~= Seq::<ProgressEventView>::empty());
    while i < events.len()
        invariant
            i <= events.len(),
            all == process_views(events@),
            f == |event: ProcessEventView| relayed_event(topic@, event),
            progress_views(published@) == all.take(i as int).filter_map(f),
        decreases events.len() - i,
    {
        let ghost before = progress_views(published@);
        proof {
            all.lemma_filter_map_take_succ(f, i as int);
        }
        match relay_event(topic, &events[i]) {
            Some(p) => {
                published.push(p);
                assert(progress_views(published@) =~= before + seq![p@]);
            },
            None => {},
        }
        i += 1;
    }
    assert(all.take(i as int) =~= all);
    published
}

/// The lines that the process wrote, on both streams together, in the order
/// in which they came.
pub open spec fn output_lines(events: Seq<ProcessEventView>) -> Seq<Seq<u8>> {
    events.filter_map(|event: ProcessEventView| output_line(event))
}

/// The progress event that carries `line` on `topic`.
pub open spec fn progress_of(topic: Seq<char>, line: Seq<u8>) -> ProgressEventView {
    ProgressEventView { topic, line: utf8_lossy(line) }
}

/// What is published for a run that goes on is what was published so far,
/// followed by what the rest of the run publishes: nothing published is ever
/// taken back, moved or repeated.
pub proof fn lemma_relayed_append(
    topic: Seq<char>,
    first: Seq<ProcessEventView>,
    rest: Seq<ProcessEventView>,
)
    ensures
        relayed(topic, first + rest) == relayed(topic, first) + relayed(topic, rest),
    decreases rest.len(),
{
    let f = |event: ProcessEventView| relayed_event(topic, event);
    if rest.len() == 0 {
        assert(first + rest =~= first);
        assert(rest.filter_map(f) =~= Seq::<ProgressEventView>::empty());
        assert(relayed(topic, first) + relayed(topic, rest) =~= relayed(topic, first));
    } else {
        lemma_relayed_append(topic, first, rest.drop_last());
        assert((first + rest).drop_last() =~= first + rest.drop_last());
        assert((first + rest).last() == rest.last());
        match f(rest.last()) {
            Some(p) => {
                assert(relayed(topic, first + rest) =~= relayed(topic, first) + (relayed(
                    topic,
                    rest.drop_last(),
                ) + seq![p]));
            },
            None => {},
        }
    }
}

/// The published events are the lines that the process wrote, one event for
/// each line, in the same order, each on the request's topic: no line is
/// dropped, repeated or moved, and nothing else is published.
pub proof fn lemma_relayed_lines(topic: Seq<char>, events: Seq<ProcessEventView>)
    ensures
        relayed(topic, events).len() == output_lines(events).len(),
        forall|i: int|
            0 <= i < output_lines(events).len() ==> #[trigger] relayed(topic, events)[i]
                == progress_of(topic, output_lines(events)[i]),
    decreases events.len(),
{
    if events.len() > 0 {
        lemma_relayed_lines(topic, events.drop_last());
    }
}

/// Of a run in which every event is a line of output, each line is
/// published at its own place.
pub proof fn lemma_relayed_output_only(topic: Seq<char>, events: Seq<ProcessEventView>)
    requires
        forall|i: int| 0 <= i < events.len() ==> output_line(#[trigger] events[i]) is Some,
    ensures
        relayed(topic, events).len() == events.len(),
        forall|i: int|
            0 <= i < events.len() ==> #[trigger] relayed(topic, events)[i] == progress_of(
                topic,
                output_line(events[i])->0,
            ),
    decreases events.len(),
{
    if events.len() > 0 {
        let front = events.drop_last();
        assert forall|i: int| 0 <= i < front.len() implies output_line(
            #[trigger] front[i],
        ) is Some by {
            assert(front[i] == events[i]);
        }
        lemma_relayed_output_only(topic, front);
        assert(output_line(events[events.len() - 1]) is Some);
    }
}

} // verus!
