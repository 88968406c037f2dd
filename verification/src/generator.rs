//! The bounded buffered writer: lines are gathered in memory, handed out in
//! batches once enough have come together, and the run ends when the bytes
//! handed out reach the target size.

use crate::line::{
    is_log_line, lemma_log_line_not_empty, lemma_well_formed_is_log_line, LineRecord,
};
use crate::source::RecordSource;
use crate::text::{
    byte_len, joined, lemma_encode_concat, lemma_joined_at_least_last, lemma_joined_concat,
    lemma_joined_prefix, lemma_joined_push, views,
};
use vstd::prelude::*;
use vstd::utf8::encode_utf8;

verus! {

/// What the driver of a generator has to do next.
#[derive(Clone, Copy, Debug, PartialEq, Eq, Structural)]
pub enum Action {
    /// Hand over one more line.
    Generate,
    /// Write the pending batch to the sink, make it durable, and confirm.
    Flush,
    /// Nothing is left to do.
    Finish,
}

/// The state of a generator as the contracts see it.
pub ghost struct GeneratorView {
    /// Number of bytes the artifact has to reach.
    pub target_size: nat,
    /// Number of buffered lines at which a batch is due.
    pub flush_threshold: nat,
    /// The severity labels lines may carry.
    pub levels: Seq<Seq<char>>,
    /// The messages lines may carry.
    pub messages: Seq<Seq<char>>,
    /// Lines gathered since the last flush, oldest first.
    pub buffered: Seq<Seq<char>>,
    /// Lines confirmed as written, oldest first.
    pub persisted: Seq<Seq<char>>,
    /// Number of batches confirmed as written.
    pub flushes: nat,
}

impl GeneratorView {
    /// The state before the first line.
    pub open spec fn initial(
        target_size: nat,
        flush_threshold: nat,
        levels: Seq<Seq<char>>,
        messages: Seq<Seq<char>>,
    ) -> GeneratorView {
        GeneratorView {
            target_size,
            flush_threshold,
            levels,
            messages,
            buffered: Seq::empty(),
            persisted: Seq::empty(),
            flushes: 0,
        }
    }

    /// Size of the artifact so far.
    pub open spec fn bytes_written(self) -> nat {
        byte_len(joined(self.persisted))
    }

    /// Number of bytes the artifact is short of the target.
    pub open spec fn remaining(self) -> nat {
        if self.bytes_written() < self.target_size {
            (self.target_size - self.bytes_written()) as nat
        } else {
            0
        }
    }

    /// The batch that the next flush writes.
    pub open spec fn pending(self) -> Seq<char> {
        joined(self.buffered)
    }

    /// The next step of the run: a full buffer is flushed first; lines are
    /// asked for while the artifact is short of the target; what is left in
    /// the buffer after that is flushed; then the run is over.
    pub open spec fn next_action(self) -> Action {
        if self.buffered.len() >= self.flush_threshold {
            Action::Flush
        } else if self.bytes_written() < self.target_size {
            Action::Generate
        } else if self.buffered.len() > 0 {
            Action::Flush
        } else {
            Action::Finish
        }
    }

    /// The state after `line` has been put into the buffer.
    pub open spec fn push(self, line: Seq<char>) -> GeneratorView {
        GeneratorView { buffered: self.buffered.push(line), ..self }
    }

    /// The state after the pending batch has been written.
    pub open spec fn flush(self) -> GeneratorView {
        GeneratorView {
            buffered: Seq::empty(),
            persisted: self.persisted + self.buffered,
            flushes: self.flushes + 1,
            ..self
        }
    }

    /// Whether the state is one of a run with the given target, threshold,
    /// labels and messages.
    pub open spec fn configured(
        self,
        target_size: nat,
        flush_threshold: nat,
        levels: Seq<Seq<char>>,
        messages: Seq<Seq<char>>,
    ) -> bool {
        &&& self.target_size == target_size
        &&& self.flush_threshold == flush_threshold
        &&& self.levels == levels
        &&& self.messages == messages
    }

    /// Whether `self` is `earlier` with more lines in the buffer and nothing
    /// else changed.
    pub open spec fn gathered_since(self, earlier: GeneratorView) -> bool {
        &&& self == GeneratorView { buffered: self.buffered, ..earlier }
        &&& earlier.buffered.len() <= self.buffered.len()
        &&& self.buffered.take(earlier.buffered.len() as int) == earlier.buffered
    }

    /// Whether the run has kept to its schedule so far: every batch written
    /// held exactly `flush_threshold` lines, the artifact was short of the
    /// target before the last of them, and nothing is buffered once the
    /// target is reached.
    pub open spec fn on_schedule(self) -> bool {
        &&& self.persisted.len() == self.flushes * self.flush_threshold
        &&& self.flushes > 0 ==> byte_len(
            joined(self.persisted.take(self.persisted.len() - self.flush_threshold)),
        ) < self.target_size
        &&& self.bytes_written() >= self.target_size ==> self.buffered.len() == 0
    }

    /// What holds of every state: the configuration is usable, the buffer
    /// holds no more lines than the threshold, and every line follows the
    /// grammar.
    pub open spec fn wf(self) -> bool {
        &&& self.target_size > 0
        &&& self.flush_threshold > 0
        &&& self.levels.len() > 0
        &&& self.messages.len() > 0
        &&& self.buffered.len() <= self.flush_threshold
        &&& forall|i: int|
            0 <= i < self.buffered.len() ==> is_log_line(
                #[trigger] self.buffered[i],
                self.levels,
                self.messages,
            )
        &&& forall|i: int|
            0 <= i < self.persisted.len() ==> is_log_line(
                #[trigger] self.persisted[i],
                self.levels,
                self.messages,
            )
    }
}

/// A run starts on schedule.
pub proof fn lemma_initial_on_schedule(
    target_size: nat,
    flush_threshold: nat,
    levels: Seq<Seq<char>>,
    messages: Seq<Seq<char>>,
)
    ensures
        GeneratorView::initial(target_size, flush_threshold, levels, messages).on_schedule(),
{
}

/// Taking a line when the run asks for one keeps the run on schedule.
pub proof fn lemma_push_on_schedule(state: GeneratorView, line: Seq<char>)
    requires
        state.on_schedule(),
        state.next_action() == Action::Generate,
    ensures
        state.push(line).on_schedule(),
{
}

/// Flushing when the run asks for it keeps the run on schedule, and the batch
/// flushed is a full one that makes the artifact grow.
pub proof fn lemma_flush_on_schedule(state: GeneratorView)
    requires
        state.wf(),
        state.on_schedule(),
        state.next_action() == Action::Flush,
    ensures
        state.flush().on_schedule(),
        state.buffered.len() == state.flush_threshold,
        state.bytes_written() < state.target_size,
        state.flush().bytes_written() > state.bytes_written(),
{
    let after = state.flush();
    assert(after.persisted.take(after.persisted.len() - after.flush_threshold)
        =~= state.persisted);
    assert(after.persisted.len() == (state.flushes + 1) * state.flush_threshold)
        by (nonlinear_arith)
        requires
            after.persisted.len() == state.flushes * state.flush_threshold
                + state.flush_threshold,
    ;
    lemma_joined_concat(state.persisted, state.buffered);
    lemma_joined_at_least_last(state.buffered);
    lemma_log_line_not_empty(state.buffered.last(), state.levels, state.messages);
}

/// The count of bytes written never goes down: taking a line leaves it as it
/// is, and a flush adds the size of the batch.
pub proof fn lemma_bytes_written_grows(state: GeneratorView, line: Seq<char>)
    ensures
        state.push(line).bytes_written() == state.bytes_written(),
        state.flush().bytes_written() == state.bytes_written() + byte_len(state.pending()),
{
    lemma_joined_concat(state.persisted, state.buffered);
}

/// A run that has nothing left to do has reached its target.
pub proof fn lemma_finished_run_reaches_target(state: GeneratorView)
    requires
        state.next_action() == Action::Finish,
    ensures
        state.bytes_written() >= state.target_size,
        state.buffered.len() == 0,
{
}

/// With a threshold of one line every line is a batch of its own: the buffer
/// is empty whenever a line is asked for, and the line is due for a flush as
/// soon as it is taken.
pub proof fn lemma_threshold_one_flushes_every_line(state: GeneratorView, line: Seq<char>)
    requires
        state.wf(),
        state.flush_threshold == 1,
        state.next_action() == Action::Generate,
    ensures
        state.buffered.len() == 0,
        state.push(line).next_action() == Action::Flush,
        state.push(line).pending() == line,
{
    assert(state.buffered.push(line) =~= seq![line]);
    seq![line].lemma_flatten_one_element();
}

/// With a threshold of one line a run on schedule has written as many batches
/// as lines, and once it has nothing left to do the artifact has reached the
/// target all the same.
pub proof fn lemma_threshold_one_run(state: GeneratorView)
    requires
        state.on_schedule(),
        state.flush_threshold == 1,
    ensures
        state.flushes == state.persisted.len(),
        state.next_action() == Action::Finish ==> state.bytes_written() >= state.target_size,
{
    assert(state.flushes == state.persisted.len()) by (nonlinear_arith)
        requires
            state.flush_threshold == 1,
            state.persisted.len() == state.flushes * state.flush_threshold,
    ;
}

/// However small the target, a finished run has written at least one full
/// batch, so its artifact is not empty.
pub proof fn lemma_finished_run_wrote_a_batch(state: GeneratorView)
    requires
        state.wf(),
        state.on_schedule(),
        state.next_action() == Action::Finish,
    ensures
        state.flushes >= 1,
        state.persisted.len() >= state.flush_threshold,
        state.bytes_written() > 0,
{
    assert(state.flushes >= 1 && state.persisted.len() >= state.flush_threshold)
        by (nonlinear_arith)
        requires
            state.persisted.len() > 0,
            state.flush_threshold > 0,
            state.persisted.len() == state.flushes * state.flush_threshold,
    ;
}

/// Where the first batch alone reaches the target, a finished run has written
/// that batch and no other.
pub proof fn lemma_first_batch_suffices(state: GeneratorView)
    requires
        state.wf(),
        state.on_schedule(),
        state.next_action() == Action::Finish,
        state.target_size <= byte_len(
            joined(state.persisted.take(state.flush_threshold as int)),
        ),
    ensures
        state.flushes == 1,
        state.persisted.len() == state.flush_threshold,
{
    lemma_finished_run_wrote_a_batch(state);
    let n = state.flush_threshold as int;
    let rest = state.persisted.take(state.persisted.len() - n);
    if state.flushes >= 2 {
        assert(state.persisted.len() >= 2 * n) by (nonlinear_arith)
            requires
                state.flushes >= 2,
                n >= 0,
                state.persisted.len() == state.flushes * n,
        ;
        assert(rest.take(n) =~= state.persisted.take(n));
        lemma_joined_prefix(rest, n);
    }
    assert(state.persisted.len() == n) by (nonlinear_arith)
        requires
            state.flushes == 1,
            state.persisted.len() == state.flushes * n,
    ;
}

/// A run of the log generator, without the sink: it decides when lines are
/// needed, gathers them, and says when a batch has to be written.
pub struct Generator<'a> {
    target_size: u64,
    flush_threshold: usize,
    levels: &'a [&'a str],
    messages: &'a [&'a str],
    buffer: String,
    lines_in_buffer: usize,
    bytes_written: u64,
    buffered: Ghost<Seq<Seq<char>>>,
    persisted: Ghost<Seq<Seq<char>>>,
    flushes: Ghost<nat>,
}

impl<'a> View for Generator<'a> {
    type V = GeneratorView;

    closed spec fn view(&self) -> GeneratorView {
        GeneratorView {
            target_size: self.target_size as nat,
            flush_threshold: self.flush_threshold as nat,
            levels: views(self.levels@),
            messages: views(self.messages@),
            buffered: self.buffered@,
            persisted: self.persisted@,
            flushes: self.flushes@,
        }
    }
}

impl<'a> Generator<'a> {
    /// Whether the generator's bookkeeping agrees with its view and the view
    /// is well-formed.
    pub closed spec fn wf(&self) -> bool {
        &&& self@.wf()
        &&& self.buffer@ == joined(self.buffered@)
        &&& self.lines_in_buffer == self.buffered@.len()
        &&& self.bytes_written == byte_len(joined(self.persisted@))
    }

    /// A well-formed generator has a well-formed view.
    pub proof fn lemma_view_wf(&self)
        requires
            self.wf(),
        ensures
            self@.wf(),
    {
    }

    /// A generator that has produced nothing yet.
    pub fn new(
        target_size: u64,
        flush_threshold: usize,
        levels: &'a [&'a str],
        messages: &'a [&'a str],
    ) -> (generator: Self)
        requires
            target_size > 0,
            flush_threshold > 0,
            levels@.len() > 0,
            messages@.len() > 0,
        ensures
            generator.wf(),
            generator@ == GeneratorView::initial(
                target_size as nat,
                flush_threshold as nat,
                views(levels@),
                views(messages@),
            ),
    {
        let generator = Generator {
            target_size,
            flush_threshold,
            levels,
            messages,
            buffer: String::new(),
            lines_in_buffer: 0,
            bytes_written: 0,
            buffered: Ghost(Seq::empty()),
            persisted: Ghost(Seq::empty()),
            flushes: Ghost(0),
        };
        generator
    }

    /// The next step of the run.
    pub fn next_action(&self) -> (action: Action)
        requires
            self.wf(),
        ensures
            action == self@.next_action(),
    {
        if self.lines_in_buffer >= self.flush_threshold {
            Action::Flush
        } else if self.bytes_written < self.target_size {
            Action::Generate
        } else if self.lines_in_buffer > 0 {
            Action::Flush
        } else {
            Action::Finish
        }
    }

    /// Number of bytes the artifact has to reach.
    pub fn target_size(&self) -> (bytes: u64)
        ensures
            bytes == self@.target_size,
    {
        self.target_size
    }

    /// Number of buffered lines at which a batch is due.
    pub fn flush_threshold(&self) -> (lines: usize)
        ensures
            lines == self@.flush_threshold,
    {
        self.flush_threshold
    }

    /// Number of bytes confirmed as written.
    pub fn bytes_written(&self) -> (bytes: u64)
        requires
            self.wf(),
        ensures
            bytes == self@.bytes_written(),
    {
        self.bytes_written
    }

    /// The batch that is waiting to be written.
    pub fn pending(&self) -> (batch: &str)
        requires
            self.wf(),
        ensures
            batch@ == self@.pending(),
    {
        self.buffer.as_str()
    }

    /// Puts the text of `record` at the end of the buffer.
    pub fn push_record(&mut self, record: &LineRecord)
        requires
            old(self).wf(),
            old(self)@.buffered.len() < old(self)@.flush_threshold,
            record.well_formed(old(self)@.levels, old(self)@.messages),
        ensures
            final(self).wf(),
            final(self)@ == old(self)@.push(record.text()),
    {
        record.write_to(&mut self.buffer);
        self.lines_in_buffer = self.lines_in_buffer + 1;
        proof {
            lemma_joined_push(self.buffered@, record.text());
            lemma_well_formed_is_log_line(*record, self@.levels, self@.messages);
            self.buffered@ = self.buffered@.push(record.text());
            assert forall|i: int| 0 <= i < self.buffered@.len() implies is_log_line(
                #[trigger] self.buffered@[i],
                self@.levels,
                self@.messages,
            ) by {
                if i < old(self).buffered@.len() {
                    assert(self.buffered@[i] == old(self)@.buffered[i]);
                }
            }
            assert forall|i: int| 0 <= i < self.persisted@.len() implies is_log_line(
                #[trigger] self.persisted@[i],
                self@.levels,
                self@.messages,
            ) by {
                assert(self.persisted@[i] == old(self)@.persisted[i]);
            }
        }
    }

    /// Takes note that the pending batch has been written: its bytes count as
    /// written and the buffer is empty again.
    pub fn batch_written(&mut self)
        requires
            old(self).wf(),
            old(self)@.bytes_written() + byte_len(old(self)@.pending()) <= u64::MAX,
        ensures
            final(self).wf(),
            final(self)@ == old(self)@.flush(),
    {
        let written: usize = self.buffer.as_str().as_bytes().len();
        self.bytes_written = self.bytes_written + written as u64;
        self.buffer.clear();
        self.lines_in_buffer = 0;
        proof {
            lemma_joined_concat(self.persisted@, self.buffered@);
            self.persisted@ = self.persisted@ + self.buffered@;
            self.buffered@ = Seq::empty();
            self.flushes@ = self.flushes@ + 1;
            assert forall|i: int| 0 <= i < self.persisted@.len() implies is_log_line(
                #[trigger] self.persisted@[i],
                self@.levels,
                self@.messages,
            ) by {
                if i < old(self).persisted@.len() {
                    assert(self.persisted@[i] == old(self)@.persisted[i]);
                } else {
                    assert(self.persisted@[i] == old(self)@.buffered[i - old(
                        self,
                    ).persisted@.len()]);
                }
            }
        }
    }

    /// Gathers lines from `source` for as long as the run asks for them, and
    /// returns what the run needs then: a flush, or nothing more.
    pub fn advance<S: RecordSource>(&mut self, source: &mut S) -> (action: Action)
        requires
            old(self).wf(),
        ensures
            final(self).wf(),
            final(self)@.gathered_since(old(self)@),
            action == final(self)@.next_action(),
            action != Action::Generate,
            old(self)@.next_action() == Action::Generate ==> final(self)@.buffered.len() == old(
                self,
            )@.flush_threshold,
            old(self)@.next_action() != Action::Generate ==> final(self)@ == old(self)@,
    {
        let ghost start = self@;
        assert(start.buffered.take(start.buffered.len() as int) =~= start.buffered);
        while self.lines_in_buffer < self.flush_threshold && self.bytes_written < self.target_size
            invariant
                self.wf(),
                self@.gathered_since(start),
                start.next_action() != Action::Generate ==> self@ == start,
            decreases self.flush_threshold - self.lines_in_buffer,
        {
            let record = source.next_record(self.levels, self.messages);
            let ghost before = self@;
            self.push_record(&record);
            proof {
                let n = start.buffered.len() as int;
                assert(self@.buffered.take(n) =~= before.buffered.take(n));
            }
        }
        self.next_action()
    }

    /// Runs a generator from its first line to its end with a vector for a
    /// sink, and returns the artifact with the generator in its final state.
    pub fn run<S: RecordSource>(
        target_size: u64,
        flush_threshold: usize,
        levels: &'a [&'a str],
        messages: &'a [&'a str],
        source: &mut S,
    ) -> (result: (Vec<u8>, Self))
        requires
            target_size > 0,
            flush_threshold > 0,
            levels@.len() > 0,
            messages@.len() > 0,
        ensures
            result.1.wf(),
            result.1@.configured(
                target_size as nat,
                flush_threshold as nat,
                views(levels@),
                views(messages@),
            ),
            result.1@.on_schedule(),
            result.1@.next_action() == Action::Finish,
            result.0@ == encode_utf8(joined(result.1@.persisted)),
            result.0@.len() >= target_size,
            forall|i: int|
                0 <= i < result.1@.persisted.len() ==> is_log_line(
                    #[trigger] result.1@.persisted[i],
                    views(levels@),
                    views(messages@),
                ),
    {
        let mut generator = Generator::new(target_size, flush_threshold, levels, messages);
        let mut artifact: Vec<u8> = Vec::new();
        loop
            invariant
                generator.wf(),
                generator@.configured(
                    target_size as nat,
                    flush_threshold as nat,
                    views(levels@),
                    views(messages@),
                ),
                generator@.buffered.len() == 0,
                generator@.on_schedule(),
                artifact@ == encode_utf8(joined(generator@.persisted)),
            ensures
                generator@.next_action() == Action::Finish,
            decreases generator@.remaining(),
        {
            let action = generator.advance(source);
            match action {
                Action::Flush => {
                    let ghost gathered = generator@;
                    artifact.extend_from_slice(generator.pending().as_bytes());
                    proof {
                        lemma_flush_on_schedule(gathered);
                        lemma_joined_concat(gathered.persisted, gathered.buffered);
                        lemma_encode_concat(
                            joined(gathered.persisted),
                            joined(gathered.buffered),
                        );
                        // The artifact fits in memory, so its size fits the counter.
                        assert(artifact@.len() == artifact.len());
                    }
                    generator.batch_written();
                },
                _ => {
                    break ;
                },
            }
        }
        (artifact, generator)
    }
}

} // verus!
