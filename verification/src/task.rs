//! One file's write, as a state machine.
//!
//! A task produces its file in chunks of at most [`BUFFER_SIZE`] bytes, so
//! that its memory stays constant however large the file is. The task decides
//! what is to be appended next; the caller appends it and reports back.

use crate::entropy::fill_prefix;
use crate::entropy::system_seeded_generator;
use crate::naming::file_name;
use crate::naming::file_name_of;
use rand::rngs::StdRng;
use vstd::prelude::*;
use vstd::slice::slice_subrange;

verus! {

/// Size of the buffer that a chunk is prepared in, in bytes.
pub const BUFFER_SIZE: usize = 1024;

/// Bytes in one megabyte.
pub const BYTES_PER_MEGABYTE: usize = 1048576;

/// Why a task did not produce its file.
#[derive(Clone, Copy, Debug, PartialEq, Eq, Structural)]
pub enum WriteFailure {
    /// The requested size in bytes does not fit the machine's word.
    TooLarge,
    /// The system gave no entropy to seed the task's generator with.
    NoEntropy,
    /// Appending a chunk to the file failed.
    Storage,
}

/// What the caller reports to a task.
#[derive(Clone, Copy, Debug, PartialEq, Eq, Structural)]
pub enum WriteEvent {
    /// The file is open and nothing has been appended since the task last
    /// handed out a chunk.
    Started,
    /// The chunk handed out last has been appended in full.
    ChunkWritten,
    /// The chunk handed out last could not be appended.
    ChunkFailed,
}

/// What a task asks of the caller.
#[derive(Clone, Copy, Debug, PartialEq, Eq, Structural)]
pub enum WriteAction {
    /// Append the task's current chunk, which has this many bytes, and report
    /// the outcome.
    Append(usize),
    /// The file is complete with this many bytes.
    Complete(usize),
    /// The task has failed; its file is to be left out of any total.
    Abandon,
}

/// The size in bytes of a file of `megabytes` megabytes.
pub open spec fn total_bytes(megabytes: nat) -> nat {
    megabytes * 1024 * 1024
}

/// The length of the next chunk when `remaining` bytes are still to be
/// written: the whole buffer, or what is left if that is less.
pub open spec fn chunk_len(remaining: nat) -> nat {
    if remaining < 1024 {
        remaining
    } else {
        1024
    }
}

/// The number of chunks that a file of `total` bytes is written in.
pub open spec fn chunk_count(total: nat) -> nat {
    (total + 1023) / 1024
}

/// The size in bytes of a file of `megabytes` megabytes, unless it does not
/// fit the machine's word.
pub fn file_size(megabytes: usize) -> (size: Option<usize>)
    ensures
        total_bytes(megabytes as nat) <= usize::MAX ==> size == Some(
            total_bytes(megabytes as nat) as usize,
        ),
        total_bytes(megabytes as nat) > usize::MAX ==> size is None,
{
    if megabytes > usize::MAX / BYTES_PER_MEGABYTE {
        assert(total_bytes(megabytes as nat) > usize::MAX) by (nonlinear_arith)
            requires
                megabytes > usize::MAX / 1048576,
        ;
        None
    } else {
        assert(total_bytes(megabytes as nat) <= usize::MAX) by (nonlinear_arith)
            requires
                megabytes <= usize::MAX / 1048576,
        ;
        Some(megabytes * BYTES_PER_MEGABYTE)
    }
}

/// The progress of a task, without its generator and the bytes of its chunk.
pub struct TaskState {
    /// The index that names the file.
    pub index: nat,
    /// The requested size in megabytes.
    pub megabytes: nat,
    /// Bytes not yet known to be in the file.
    pub remaining: nat,
    /// Length of the chunk handed out and not yet reported on.
    pub pending: nat,
    /// Whether a chunk has failed.
    pub failed: bool,
}

impl TaskState {
    /// The state of a task before anything has been reported to it.
    pub open spec fn initial(index: nat, megabytes: nat) -> TaskState {
        TaskState { index, megabytes, remaining: total_bytes(megabytes), pending: 0, failed: false }
    }

    /// The pending chunk is part of what remains, and what remains is part
    /// of the file.
    pub open spec fn wf(self) -> bool {
        &&& self.remaining <= total_bytes(self.megabytes)
        &&& self.pending == 0 || self.pending == chunk_len(self.remaining)
    }

    /// Bytes known to be in the file.
    pub open spec fn written(self) -> nat {
        (total_bytes(self.megabytes) - self.remaining) as nat
    }

    /// Whether the whole file has been written.
    pub open spec fn complete(self) -> bool {
        !self.failed && self.remaining == 0
    }

    /// The state that an event leads to.
    ///
    /// A task that has failed or completed stays as it is. A failed chunk
    /// fails the task. Otherwise a written chunk is taken off what remains,
    /// and the next chunk is handed out.
    pub open spec fn after(self, event: WriteEvent) -> TaskState {
        if self.failed || self.remaining == 0 {
            self
        } else if event == WriteEvent::ChunkFailed {
            TaskState { failed: true, pending: 0, ..self }
        } else {
            let confirmed = if event == WriteEvent::ChunkWritten {
                self.pending
            } else {
                0
            };
            let remaining = (self.remaining - confirmed) as nat;
            TaskState { remaining, pending: chunk_len(remaining), ..self }
        }
    }

    /// What the task asks for once it is in this state.
    pub open spec fn request(self) -> WriteAction {
        if self.failed {
            WriteAction::Abandon
        } else if self.remaining == 0 {
            WriteAction::Complete(total_bytes(self.megabytes) as usize)
        } else {
            WriteAction::Append(self.pending as usize)
        }
    }

    /// The result of the task, once it has one: the length of the complete
    /// file, or the failure of a chunk.
    pub open spec fn outcome(self) -> Option<Result<usize, WriteFailure>> {
        if self.failed {
            Some(Err(WriteFailure::Storage))
        } else if self.remaining == 0 {
            Some(Ok(total_bytes(self.megabytes) as usize))
        } else {
            None
        }
    }

    /// The state after a run of events, taken in from the first on.
    pub open spec fn after_all(self, events: Seq<WriteEvent>) -> TaskState
        decreases events.len(),
    {
        if events.len() == 0 {
            self
        } else {
            self.after_all(events.drop_last()).after(events.last())
        }
    }

    /// The state after `Started` and then `writes` chunks reported written.
    pub open spec fn after_writes(self, writes: nat) -> TaskState
        decreases writes,
    {
        if writes == 0 {
            self.after(WriteEvent::Started)
        } else {
            self.after_writes((writes - 1) as nat).after(WriteEvent::ChunkWritten)
        }
    }
}

/// The write of one file: its index, its size, how far it has come, a
/// generator of its own and the buffer that chunks are prepared in.
pub struct WriteTask {
    index: usize,
    megabytes: usize,
    remaining: usize,
    pending: usize,
    failed: bool,
    generator: StdRng,
    buffer: [u8; 1024],
}

impl View for WriteTask {
    type V = TaskState;

    closed spec fn view(&self) -> TaskState {
        TaskState {
            index: self.index as nat,
            megabytes: self.megabytes as nat,
            remaining: self.remaining as nat,
            pending: self.pending as nat,
            failed: self.failed,
        }
    }
}

impl WriteTask {
    /// The task's progress is well formed and its size fits the machine.
    pub closed spec fn wf(&self) -> bool {
        &&& self@.wf()
        &&& total_bytes(self.megabytes as nat) <= usize::MAX
    }

    /// The bytes of the chunk handed out last.
    pub closed spec fn pending_chunk(&self) -> Seq<u8> {
        self.buffer@.subrange(0, self.pending as int)
    }

    /// A task for the file with this index and size, drawing on the given
    /// generator. Fails with `TooLarge` exactly when the size in bytes does
    /// not fit the machine's word.
    pub fn with_generator(index: usize, megabytes: usize, generator: StdRng) -> (made: Result<
        WriteTask,
        WriteFailure,
    >)
        ensures
            total_bytes(megabytes as nat) > usize::MAX ==> made == Err::<WriteTask, WriteFailure>(
                WriteFailure::TooLarge,
            ),
            total_bytes(megabytes as nat) <= usize::MAX ==> made is Ok && made->Ok_0.wf()
                && made->Ok_0@ == TaskState::initial(index as nat, megabytes as nat),
    {
        match file_size(megabytes) {
            None => Err(WriteFailure::TooLarge),
            Some(remaining) => Ok(
                WriteTask {
                    index,
                    megabytes,
                    remaining,
                    pending: 0,
                    failed: false,
                    generator,
                    buffer: [0u8; 1024],
                },
            ),
        }
    }

    /// A task for the file with this index and size, with a generator of its
    /// own that is seeded from the system's entropy.
    ///
    /// Fails with `TooLarge` when the size in bytes does not fit the
    /// machine's word, whatever the system does. Otherwise the task is in its
    /// initial state, unless the system gave no entropy.
    pub fn new(index: usize, megabytes: usize) -> (made: Result<WriteTask, WriteFailure>)
        ensures
            total_bytes(megabytes as nat) > usize::MAX ==> made == Err::<WriteTask, WriteFailure>(
                WriteFailure::TooLarge,
            ),
            total_bytes(megabytes as nat) <= usize::MAX ==> match made {
                Ok(task) => task.wf() && task@ == TaskState::initial(
                    index as nat,
                    megabytes as nat,
                ),
                Err(failure) => failure == WriteFailure::NoEntropy,
            },
    {
        match file_size(megabytes) {
            None => Err(WriteFailure::TooLarge),
            Some(_) => match system_seeded_generator() {
                Some(generator) => WriteTask::with_generator(index, megabytes, generator),
                None => Err(WriteFailure::NoEntropy),
            },
        }
    }

    /// Takes in an event and says what is to be done next.
    ///
    /// The task moves as [`TaskState::after`] says. Where it asks for a chunk
    /// to be appended, the chunk has been filled with fresh random bytes and
    /// is to be had from [`WriteTask::chunk`].
    pub fn advance(&mut self, event: WriteEvent) -> (action: WriteAction)
        requires
            old(self).wf(),
        ensures
            final(self).wf(),
            final(self)@ == old(self)@.after(event),
            action == final(self)@.request(),
            action matches WriteAction::Append(n) ==> 0 < n <= BUFFER_SIZE && n == chunk_len(
                final(self)@.remaining,
            ) && final(self).pending_chunk().len() == n,
            action matches WriteAction::Complete(n) ==> n == total_bytes(old(self)@.megabytes) && n
                == final(self)@.written(),
    {
        if self.failed {
            return WriteAction::Abandon;
        }
        if self.remaining == 0 {
            return WriteAction::Complete(self.megabytes * BYTES_PER_MEGABYTE);
        }
        match event {
            WriteEvent::ChunkFailed => {
                self.failed = true;
                self.pending = 0;
                return WriteAction::Abandon;
            },
            WriteEvent::ChunkWritten => {
                self.remaining = self.remaining - self.pending;
            },
            WriteEvent::Started => {},
        }
        if self.remaining == 0 {
            self.pending = 0;
            return WriteAction::Complete(self.megabytes * BYTES_PER_MEGABYTE);
        }
        let len: usize = if self.remaining < BUFFER_SIZE {
            self.remaining
        } else {
            BUFFER_SIZE
        };
        fill_prefix(&mut self.generator, &mut self.buffer, len);
        self.pending = len;
        WriteAction::Append(len)
    }

    /// The chunk handed out last: the bytes that the caller is to append.
    /// Empty unless the task's last request was to append.
    pub fn chunk(&self) -> (bytes: &[u8])
        requires
            self.wf(),
        ensures
            bytes@ == self.pending_chunk(),
            bytes@.len() == self@.pending,
    {
        slice_subrange(self.buffer.as_slice(), 0, self.pending)
    }

    /// The path of the task's file.
    pub fn file_name(&self) -> (name: String)
        ensures
            name@ == file_name_of(self@.index),
    {
        file_name(self.index)
    }

    /// The index that names the task's file.
    pub fn index(&self) -> (index: usize)
        ensures
            index == self@.index,
    {
        self.index
    }

    /// The size of the complete file in bytes.
    pub fn total_bytes(&self) -> (total: usize)
        requires
            self.wf(),
        ensures
            total == total_bytes(self@.megabytes),
    {
        self.megabytes * BYTES_PER_MEGABYTE
    }

    /// Bytes not yet known to be in the file.
    pub fn remaining(&self) -> (remaining: usize)
        ensures
            remaining == self@.remaining,
    {
        self.remaining
    }

    /// Bytes known to be in the file.
    pub fn written(&self) -> (written: usize)
        requires
            self.wf(),
        ensures
            written == self@.written(),
    {
        self.megabytes * BYTES_PER_MEGABYTE - self.remaining
    }

    /// Whether the whole file has been written.
    pub fn is_complete(&self) -> (complete: bool)
        ensures
            complete == self@.complete(),
    {
        !self.failed && self.remaining == 0
    }

    /// The result of the task: none while chunks are still to be written.
    pub fn outcome(&self) -> (outcome: Option<Result<usize, WriteFailure>>)
        requires
            self.wf(),
        ensures
            outcome == self@.outcome(),
            outcome matches Some(Ok(bytes)) ==> bytes == self@.written() && bytes
                == self@.megabytes * 1024 * 1024,
    {
        if self.failed {
            Some(Err(WriteFailure::Storage))
        } else if self.remaining == 0 {
            Some(Ok(self.megabytes * BYTES_PER_MEGABYTE))
        } else {
            None
        }
    }

    /// Whether a chunk has failed.
    pub fn has_failed(&self) -> (failed: bool)
        ensures
            failed == self@.failed,
    {
        self.failed
    }
}

/// Every event keeps a well-formed state well formed, never takes bytes
/// back, and leaves index and size alone.
pub proof fn lemma_after_preserves(state: TaskState, event: WriteEvent)
    requires
        state.wf(),
    ensures
        state.after(event).wf(),
        state.after(event).written() >= state.written(),
        state.after(event).index == state.index,
        state.after(event).megabytes == state.megabytes,
        state.failed ==> state.after(event) == state,
        state.complete() ==> state.after(event) == state,
{
}

/// A state in which the file is complete holds exactly the requested number
/// of bytes: the megabytes times 1024 times 1024.
pub proof fn lemma_complete_length(state: TaskState)
    requires
        state.wf(),
        state.complete(),
    ensures
        state.written() == state.megabytes * 1024 * 1024,
        state.request() == WriteAction::Complete(total_bytes(state.megabytes) as usize),
{
}

/// Whatever is reported to a task, and in whatever order: its state stays
/// well formed, it fails only if some chunk is reported failed, and
/// whenever its file is complete the file holds exactly
/// `megabytes * 1024 * 1024` bytes.
pub proof fn lemma_every_run(index: nat, megabytes: nat, events: Seq<WriteEvent>)
    ensures
        ({
            let state = TaskState::initial(index, megabytes).after_all(events);
            &&& state.wf()
            &&& state.index == index
            &&& state.megabytes == megabytes
            &&& state.failed ==> events.contains(WriteEvent::ChunkFailed)
            &&& state.written() <= total_bytes(megabytes)
            &&& state.complete() ==> state.written() == megabytes * 1024 * 1024
            &&& state.complete() ==> state.outcome() == Some(
                Ok::<usize, WriteFailure>(total_bytes(megabytes) as usize),
            )
        }),
    decreases events.len(),
{
    if events.len() > 0 {
        let earlier = events.drop_last();
        lemma_every_run(index, megabytes, earlier);
        let before = TaskState::initial(index, megabytes).after_all(earlier);
        lemma_after_preserves(before, events.last());
        if earlier.contains(WriteEvent::ChunkFailed) {
            let i = choose|i: int| 0 <= i < earlier.len() && earlier[i] == WriteEvent::ChunkFailed;
            assert(events[i] == WriteEvent::ChunkFailed);
        }
    }
}

/// While every chunk is reported written, each report adds one buffer to the
/// file until all of it is there: after `writes` reports the file holds
/// `1024 * writes` bytes, or its full length if that is less.
pub proof fn lemma_steady_progress(index: nat, megabytes: nat, writes: nat)
    ensures
        ({
            let state = TaskState::initial(index, megabytes).after_writes(writes);
            let total = total_bytes(megabytes);
            &&& state.wf()
            &&& !state.failed
            &&& state.index == index
            &&& state.megabytes == megabytes
            &&& state.pending == chunk_len(state.remaining)
            &&& state.written() == if 1024 * writes < total {
                1024 * writes
            } else {
                total
            }
        }),
    decreases writes,
{
    if writes > 0 {
        lemma_steady_progress(index, megabytes, (writes - 1) as nat);
    }
}

/// A write without failures is complete exactly from the report of its last
/// chunk on, and the file then has `megabytes * 1024 * 1024` bytes. A file
/// of no bytes is complete at once.
pub proof fn lemma_write_completes(index: nat, megabytes: nat, writes: nat)
    ensures
        ({
            let state = TaskState::initial(index, megabytes).after_writes(writes);
            let total = total_bytes(megabytes);
            &&& state.complete() <==> writes >= chunk_count(total)
            &&& state.complete() ==> state.written() == megabytes * 1024 * 1024
            &&& !state.complete() ==> state.request() == WriteAction::Append(
                chunk_len(state.remaining) as usize,
            )
        }),
{
    lemma_steady_progress(index, megabytes, writes);
}

} // verus!
