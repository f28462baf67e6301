use vstd::prelude::*;
use crate::events::{Event, EventView};

verus! {

/// What one attempt to read a line of a command's output gave.
#[derive(Debug)]
pub enum ReadOutcome {
    /// The text that was read, up to and with its line end.
    Line(String),
    /// The output has ended: nothing was read.
    Eof,
    /// The output could not be read.
    Failed,
    /// The worker was told to stop before it read again.
    Cancelled,
}

/// What a `ReadOutcome` stands for.
pub enum ReadView {
    Line(Seq<char>),
    Eof,
    Failed,
    Cancelled,
}

impl View for ReadOutcome {
    type V = ReadView;

    open spec fn view(&self) -> ReadView {
        match self {
            ReadOutcome::Line(t) => ReadView::Line(t@),
            ReadOutcome::Eof => ReadView::Eof,
            ReadOutcome::Failed => ReadView::Failed,
            ReadOutcome::Cancelled => ReadView::Cancelled,
        }
    }
}

impl Clone for ReadOutcome {
    fn clone(&self) -> (r: ReadOutcome)
        ensures
            r@ == self@,
    {
        match self {
            ReadOutcome::Line(t) => ReadOutcome::Line(t.clone()),
            ReadOutcome::Eof => ReadOutcome::Eof,
            ReadOutcome::Failed => ReadOutcome::Failed,
            ReadOutcome::Cancelled => ReadOutcome::Cancelled,
        }
    }
}

impl DeepView for ReadOutcome {
    type V = ReadView;

    open spec fn deep_view(&self) -> ReadView {
        self@
    }
}

/// What a `WorkerStep` stands for.
pub struct StepView {
    pub event: EventView,
    pub done: bool,
}

/// What a worker does after a read: the event it sends to the dispatch loop,
/// and whether it is done.
#[derive(Debug)]
pub struct WorkerStep {
    pub event: Event,
    pub done: bool,
}

impl View for WorkerStep {
    type V = StepView;

    open spec fn view(&self) -> StepView {
        StepView { event: self.event@, done: self.done }
    }
}

/// Whether a read ends the worker: every read does that brought no text.
pub open spec fn ends_worker(read: ReadView) -> bool {
    match read {
        ReadView::Line(t) => t.len() == 0,
        ReadView::Eof => true,
        ReadView::Failed => true,
        ReadView::Cancelled => true,
    }
}

/// The event that the worker for command `id` sends after a read: the text
/// that was read, for the console; or, when the read ends the worker, the
/// word that the command is over, and whether it went wrong. A run that was
/// cut short counts as one that went wrong.
pub open spec fn event_after(id: u128, read: ReadView) -> EventView {
    match read {
        ReadView::Line(t) => if t.len() == 0 {
            EventView::CommandEnded { id, failed: false }
        } else {
            EventView::ConsolePush(t)
        },
        ReadView::Eof => EventView::CommandEnded { id, failed: false },
        ReadView::Failed => EventView::CommandEnded { id, failed: true },
        ReadView::Cancelled => EventView::CommandEnded { id, failed: true },
    }
}

/// Says what the worker for command `id` does after a read.
pub fn on_read(id: u128, read: ReadOutcome) -> (r: WorkerStep)
    ensures
        r@.event == event_after(id, read@),
        r@.done == ends_worker(read@),
{
    match read {
        ReadOutcome::Line(t) => {
            if t.as_str().unicode_len() == 0 {
                WorkerStep { event: Event::CommandEnded { id, failed: false }, done: true }
            } else {
                WorkerStep { event: Event::ConsolePush(t), done: false }
            }
        },
        ReadOutcome::Eof => WorkerStep {
            event: Event::CommandEnded { id, failed: false },
            done: true,
        },
        ReadOutcome::Failed => WorkerStep {
            event: Event::CommandEnded { id, failed: true },
            done: true,
        },
        ReadOutcome::Cancelled => WorkerStep {
            event: Event::CommandEnded { id, failed: true },
            done: true,
        },
    }
}

/// The event that the worker for command `id` sends when the command could
/// not be started.
pub fn on_spawn_failed(id: u128) -> (r: Event)
    ensures
        r@ == (EventView::CommandEnded { id, failed: true }),
{
    Event::CommandEnded { id, failed: true }
}

/// The events of a worker's whole run over the reads it makes: one for each
/// read, up to and with the first read that ends the worker. Reads after
/// that one are not made.
pub open spec fn transcript_spec(id: u128, reads: Seq<ReadView>) -> Seq<EventView>
    decreases reads.len(),
{
    if reads.len() == 0 {
        Seq::empty()
    } else if ends_worker(reads[0]) {
        seq![event_after(id, reads[0])]
    } else {
        seq![event_after(id, reads[0])] + transcript_spec(id, reads.drop_first())
    }
}

/// Runs a worker over the reads given and returns the events it sends.
pub fn transcript(id: u128, reads: &Vec<ReadOutcome>) -> (r: Vec<Event>)
    ensures
        r.deep_view() == transcript_spec(id, reads.deep_view()),
{
    let mut out: Vec<Event> = Vec::new();
    assert(out.deep_view() =~= Seq::<EventView>::empty());
    assert(reads.deep_view().skip(0) == reads.deep_view());
    let mut i: usize = 0;
    while i < reads.len()
        invariant
            i <= reads.len(),
            transcript_spec(id, reads.deep_view()) == out.deep_view() + transcript_spec(
                id,
                reads.deep_view().skip(i as int),
            ),
        decreases reads.len() - i,
    {
        let ghost rest = reads.deep_view().skip(i as int);
        let ghost before = out.deep_view();
        assert(rest[0] == reads[i as int]@);
        assert(rest.drop_first() == reads.deep_view().skip(i + 1));
        let step = on_read(id, reads[i].clone());
        out.push(step.event);
        assert(out.deep_view() =~= before.push(event_after(id, rest[0])));
        if step.done {
            return out;
        }
        i += 1;
    }
    out
}

/// In the events of a worker's run, every event but the last brings text
/// for the console, in the order of the reads; and if any read ends the
/// worker, the last event says that the command is over, exactly once.
pub proof fn lemma_transcript_shape(id: u128, reads: Seq<ReadView>)
    ensures
        transcript_spec(id, reads).len() <= reads.len(),
        forall|i: int|
            0 <= i < transcript_spec(id, reads).len() - 1 ==> transcript_spec(id, reads)[i]
                == EventView::ConsolePush(reads[i]->Line_0) && !ends_worker(reads[i]),
        forall|i: int|
            0 <= i < transcript_spec(id, reads).len() ==> #[trigger] transcript_spec(id, reads)[i]
                == event_after(id, reads[i]),
        (exists|i: int| 0 <= i < reads.len() && ends_worker(reads[i])) ==> transcript_spec(
            id,
            reads,
        ).len() >= 1 && transcript_spec(id, reads).last() is CommandEnded,
    decreases reads.len(),
{
    if reads.len() == 0 {
    } else if ends_worker(reads[0]) {
    } else {
        let rest = reads.drop_first();
        lemma_transcript_shape(id, rest);
        let t = transcript_spec(id, reads);
        let tr = transcript_spec(id, rest);
        assert(t == seq![event_after(id, reads[0])] + tr);
        assert forall|i: int| 0 <= i < t.len() implies #[trigger] t[i] == event_after(
            id,
            reads[i],
        ) by {
            if i > 0 {
                assert(t[i] == tr[i - 1]);
                assert(rest[i - 1] == reads[i]);
            }
        }
        assert forall|i: int| 0 <= i < t.len() - 1 implies t[i] == EventView::ConsolePush(
            reads[i]->Line_0,
        ) && !ends_worker(reads[i]) by {
            if i > 0 {
                assert(t[i] == tr[i - 1]);
                assert(rest[i - 1] == reads[i]);
            }
        }
        if exists|i: int| 0 <= i < reads.len() && ends_worker(reads[i]) {
            let i = choose|i: int| 0 <= i < reads.len() && ends_worker(reads[i]);
            assert(rest[i - 1] == reads[i]);
            assert(ends_worker(rest[i - 1]));
            assert(t.last() == tr.last());
        }
    }
}

} // verus!
