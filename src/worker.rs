use vstd::prelude::*;

use crate::message::{texts_of, saved_texts_of, all_saved, lemma_saved_texts_are_all_texts, Message};
use crate::queue::{MessageQueue, TryRecv};

verus! {

/// The line that standard output receives for one entry: `"<name>: <text>\n"`.
pub open spec fn line_of(name: Seq<char>, text: Seq<char>) -> Seq<char> {
    name + seq![':', ' '] + text + seq!['\n']
}

/// Everything standard output receives for the given entries, in order.
pub open spec fn stdout_of(name: Seq<char>, msgs: Seq<Message>) -> Seq<char>
    decreases msgs.len(),
{
    if msgs.len() == 0 {
        Seq::empty()
    } else {
        stdout_of(name, msgs.drop_last()) + line_of(name, msgs.last().text@)
    }
}

/// Everything the debug file receives for the given entries: every text when
/// a debug file is configured, whatever the entries' `debug` flags say.
pub open spec fn debug_of(has_debug: bool, msgs: Seq<Message>) -> Seq<char> {
    if has_debug {
        texts_of(msgs)
    } else {
        Seq::empty()
    }
}

/// Relies on `String::push_str`: appends the characters of `tail`.
#[verifier::external_body]
fn append(s: &mut String, tail: &str)
    ensures
        final(s)@ == old(s)@ + tail@,
{
    s.push_str(tail)
}

/// Renders the standard-output line for one entry.
pub fn render_line(name: &String, text: &String) -> (r: String)
    ensures
        r@ == line_of(name@, text@),
{
    let mut line = name.clone();
    append(&mut line, ": ");
    append(&mut line, text.as_str());
    append(&mut line, "\n");
    proof {
        reveal_strlit(": ");
        reveal_strlit("\n");
        assert(line@ =~= line_of(name@, text@));
    }
    line
}

/// The writes owed for one entry, in the order they are made.
pub struct Writes {
    /// Written to standard output.
    pub stdout_line: String,
    /// The raw text, written to each file that is selected below.
    pub text: String,
    /// Whether the text goes to the primary log file.
    pub to_primary: bool,
    /// Whether the text goes to the debug file.
    pub to_debug: bool,
}

/// What the writer's driver does next.
pub enum Action {
    /// Perform these writes, then receive again.
    Write(Writes),
    /// Nothing is pending: block until an entry arrives or the stream ends.
    Wait,
    /// The stream has ended: flush standard output and stop.
    Finish,
}

/// The writer's two states.
#[derive(PartialEq, Eq, Structural, Clone, Copy, Debug)]
pub enum WorkerState {
    /// Receiving or writing.
    Running,
    /// The loop has exited.
    Terminated,
}

/// The single consumer: turns each received entry into the writes it owes.
///
/// It records, as ghost state, the entries processed so far; what it has
/// asked its driver to write is a function of them.
pub struct Worker {
    name: String,
    has_debug: bool,
    state: WorkerState,
    processed: Ghost<Seq<Message>>,
}

impl Worker {
    /// The prefix of each standard-output line.
    pub closed spec fn name(&self) -> Seq<char> {
        self.name@
    }

    /// Whether a debug file is configured.
    pub closed spec fn has_debug(&self) -> bool {
        self.has_debug
    }

    /// The current state.
    pub closed spec fn state(&self) -> WorkerState {
        self.state
    }

    /// The entries processed so far, in order.
    pub closed spec fn processed(&self) -> Seq<Message> {
        self.processed@
    }

    /// What standard output has been handed so far.
    pub open spec fn stdout_written(&self) -> Seq<char> {
        stdout_of(self.name(), self.processed())
    }

    /// What the primary log file has been handed so far.
    pub open spec fn primary_written(&self) -> Seq<char> {
        saved_texts_of(self.processed())
    }

    /// What the debug file has been handed so far.
    pub open spec fn debug_written(&self) -> Seq<char> {
        debug_of(self.has_debug(), self.processed())
    }

    /// A running writer for the named logger that has processed nothing.
    pub fn new(name: String, has_debug: bool) -> (w: Worker)
        ensures
            w.name() == name@,
            w.has_debug() == has_debug,
            w.state() == WorkerState::Running,
            w.processed() == Seq::<Message>::empty(),
    {
        Worker { name, has_debug, state: WorkerState::Running, processed: Ghost(Seq::empty()) }
    }

    /// Whether the loop has exited.
    pub fn is_terminated(&self) -> (r: bool)
        ensures
            r == (self.state() == WorkerState::Terminated),
    {
        self.state == WorkerState::Terminated
    }

    /// Decides what to do with the outcome of a receive.
    ///
    /// An entry yields its writes: its line to standard output, its text to
    /// the primary file when it is saved, and its text to the debug file
    /// whenever one is configured. An empty queue yields a wait; the end of
    /// the stream stops the writer.
    pub fn step(&mut self, event: TryRecv) -> (a: Action)
        requires
            old(self).state() == WorkerState::Running,
        ensures
            final(self).name() == old(self).name(),
            final(self).has_debug() == old(self).has_debug(),
            match event {
                TryRecv::Ready(m) => {
                    &&& final(self).state() == WorkerState::Running
                    &&& final(self).processed() == old(self).processed().push(m)
                    &&& a matches Action::Write(w)
                    &&& w.stdout_line@ == line_of(old(self).name(), m.text@)
                    &&& w.text == m.text
                    &&& w.to_primary == m.save
                    &&& w.to_debug == old(self).has_debug()
                    &&& final(self).stdout_written() == old(self).stdout_written() + w.stdout_line@
                    &&& final(self).primary_written() == old(self).primary_written() + (
                    if w.to_primary {
                        w.text@
                    } else {
                        Seq::empty()
                    })
                    &&& final(self).debug_written() == old(self).debug_written() + (if w.to_debug {
                        w.text@
                    } else {
                        Seq::empty()
                    })
                },
                TryRecv::Empty => {
                    &&& a is Wait
                    &&& final(self).state() == WorkerState::Running
                    &&& final(self).processed() == old(self).processed()
                },
                TryRecv::Disconnected => {
                    &&& a is Finish
                    &&& final(self).state() == WorkerState::Terminated
                    &&& final(self).processed() == old(self).processed()
                },
            },
    {
        match event {
            TryRecv::Ready(m) => {
                let stdout_line = render_line(&self.name, &m.text);
                proof {
                    let old_processed = self.processed@;
                    self.processed@ = self.processed@.push(m);
                    assert(self.processed@.drop_last() =~= old_processed);
                }
                Action::Write(
                    Writes { stdout_line, text: m.text, to_primary: m.save, to_debug: self.has_debug },
                )
            },
            TryRecv::Empty => Action::Wait,
            TryRecv::Disconnected => {
                self.state = WorkerState::Terminated;
                Action::Finish
            },
        }
    }
}

/// At teardown, with the stream ended and every received entry processed,
/// each destination holds exactly what every sent entry owes it, in the order
/// of sending: no entry is lost, whichever sender handle sent it.
pub proof fn lemma_teardown_outputs(q: &MessageQueue, w: &Worker)
    requires
        q.wf(),
        q.drained(),
        w.processed() == q.received(),
    ensures
        w.stdout_written() == stdout_of(w.name(), q.sent()),
        w.primary_written() == saved_texts_of(q.sent()),
        w.debug_written() == debug_of(w.has_debug(), q.sent()),
{
    crate::queue::lemma_drained_received_everything(q);
}

/// At teardown, when every sent entry is saved (as every entry that `log`
/// makes is), the primary file holds each text, in the order of sending.
pub proof fn lemma_teardown_primary_has_every_text(q: &MessageQueue, w: &Worker)
    requires
        q.wf(),
        q.drained(),
        w.processed() == q.received(),
        all_saved(q.sent()),
    ensures
        w.primary_written() == texts_of(q.sent()),
{
    lemma_teardown_outputs(q, w);
    lemma_saved_texts_are_all_texts(q.sent());
}

/// A configured debug file mirrors every processed text in order, whatever
/// the entries' `debug` flags are.
pub proof fn lemma_debug_mirrors_every_text(w: &Worker)
    requires
        w.has_debug(),
    ensures
        w.debug_written() == texts_of(w.processed()),
{
}

} // verus!
