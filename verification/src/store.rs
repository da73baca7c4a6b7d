//! Writing a document so that a reader never sees half of it.
//!
//! The new contents go to a temporary file beside the target, are flushed,
//! and the temporary file is renamed over the target. The caller performs
//! each step and reports whether it succeeded; the functions here say which
//! step is next. A model of the files shows that the target holds its old
//! contents until the rename, and the new contents after it.

use vstd::prelude::*;
use vstd::string::*;
use crate::error::AnchorError;
use crate::text::concat2;

verus! {

/// The step of a write that the caller is to perform next.
#[derive(Clone, Copy, Debug, PartialEq, Eq, Structural)]
pub enum WritePhase {
    /// Create the temporary file and write all the bytes to it.
    Writing,
    /// Flush the temporary file to the disk.
    Syncing,
    /// Rename the temporary file over the target.
    Renaming,
    /// Remove the temporary file, after a step failed.
    Discarding,
}

/// What a write has come to after a step.
#[derive(Clone, Copy, Debug, PartialEq, Eq, Structural)]
pub enum WriteStep {
    /// Perform this step next and report back.
    Wait(WritePhase),
    /// The target holds the new contents.
    Done,
    /// The write failed and the target is as it was.
    Failed(AnchorError),
}

/// The path of the temporary file for `target`.
pub open spec fn spec_temp_path(target: Seq<char>) -> Seq<char> {
    target + ".tmp"@
}

/// The path of the temporary file for `target`: a file beside it.
pub fn temp_path(target: &str) -> (r: String)
    ensures
        r@ == spec_temp_path(target@),
{
    concat2(target, ".tmp")
}

/// The first step of a write.
pub fn persist_begin() -> (r: WritePhase)
    ensures
        r == WritePhase::Writing,
{
    WritePhase::Writing
}

/// What follows the step `phase`, given whether it succeeded.
pub open spec fn spec_persist_advance(phase: WritePhase, ok: bool) -> WriteStep {
    match phase {
        WritePhase::Writing => if ok {
            WriteStep::Wait(WritePhase::Syncing)
        } else {
            WriteStep::Wait(WritePhase::Discarding)
        },
        WritePhase::Syncing => if ok {
            WriteStep::Wait(WritePhase::Renaming)
        } else {
            WriteStep::Wait(WritePhase::Discarding)
        },
        WritePhase::Renaming => if ok {
            WriteStep::Done
        } else {
            WriteStep::Wait(WritePhase::Discarding)
        },
        WritePhase::Discarding => WriteStep::Failed(AnchorError::Io),
    }
}

/// What follows the step `phase`, given whether it succeeded. A failed step
/// is followed by the removal of the temporary file, and then the write has
/// failed, whether or not the removal succeeded.
pub fn persist_advance(phase: WritePhase, ok: bool) -> (r: WriteStep)
    ensures
        r == spec_persist_advance(phase, ok),
{
    match phase {
        WritePhase::Writing => if ok {
            WriteStep::Wait(WritePhase::Syncing)
        } else {
            WriteStep::Wait(WritePhase::Discarding)
        },
        WritePhase::Syncing => if ok {
            WriteStep::Wait(WritePhase::Renaming)
        } else {
            WriteStep::Wait(WritePhase::Discarding)
        },
        WritePhase::Renaming => if ok {
            WriteStep::Done
        } else {
            WriteStep::Wait(WritePhase::Discarding)
        },
        WritePhase::Discarding => WriteStep::Failed(AnchorError::Io),
    }
}

/// How a step ended: whether it succeeded and, for a write that failed,
/// what it left in the temporary file, if it left one.
pub struct StepResult {
    pub ok: bool,
    pub debris: Option<Seq<u8>>,
}

/// What a reader finds at `path`.
pub open spec fn reading(files: Map<Seq<char>, Seq<u8>>, path: Seq<char>) -> Option<Seq<u8>> {
    if files.contains_key(path) {
        Some(files[path])
    } else {
        None
    }
}

/// What the step `phase` of a write of `bytes` to `target` does to the
/// files, given how it ended. Only a rename that succeeds touches the
/// target.
pub open spec fn effect(
    files: Map<Seq<char>, Seq<u8>>,
    target: Seq<char>,
    bytes: Seq<u8>,
    phase: WritePhase,
    result: StepResult,
) -> Map<Seq<char>, Seq<u8>> {
    let temp = spec_temp_path(target);
    match phase {
        WritePhase::Writing => if result.ok {
            files.insert(temp, bytes)
        } else {
            match result.debris {
                Some(part) => files.insert(temp, part),
                None => files.remove(temp),
            }
        },
        WritePhase::Syncing => files,
        WritePhase::Renaming => if result.ok && files.contains_key(temp) {
            files.insert(target, files[temp]).remove(temp)
        } else {
            files
        },
        WritePhase::Discarding => if result.ok {
            files.remove(temp)
        } else {
            files
        },
    }
}

/// Where a write stands, and what the files hold, after the caller has
/// performed steps that ended as `results` say, starting at `phase`. The
/// results may stop at any point: that is a process that was interrupted.
pub open spec fn run(
    files: Map<Seq<char>, Seq<u8>>,
    target: Seq<char>,
    bytes: Seq<u8>,
    phase: WritePhase,
    results: Seq<StepResult>,
) -> (WriteStep, Map<Seq<char>, Seq<u8>>)
    decreases results.len(),
{
    if results.len() == 0 {
        (WriteStep::Wait(phase), files)
    } else {
        let after = effect(files, target, bytes, phase, results[0]);
        match spec_persist_advance(phase, results[0].ok) {
            WriteStep::Wait(next) => run(after, target, bytes, next, results.drop_first()),
            end => (end, after),
        }
    }
}

/// Whether a write that stands at `phase` has kept its promises so far: the
/// target reads as before, and once the temporary file is written, it holds
/// the new contents.
pub open spec fn on_course(
    files: Map<Seq<char>, Seq<u8>>,
    target: Seq<char>,
    bytes: Seq<u8>,
    phase: WritePhase,
    before: Option<Seq<u8>>,
) -> bool {
    &&& reading(files, target) == before
    &&& (phase == WritePhase::Syncing || phase == WritePhase::Renaming) ==> reading(
        files,
        spec_temp_path(target),
    ) == Some(bytes)
}

proof fn lemma_run_keeps_course(
    files: Map<Seq<char>, Seq<u8>>,
    target: Seq<char>,
    bytes: Seq<u8>,
    phase: WritePhase,
    results: Seq<StepResult>,
    before: Option<Seq<u8>>,
)
    requires
        on_course(files, target, bytes, phase, before),
    ensures
        match run(files, target, bytes, phase, results).0 {
            WriteStep::Done => reading(run(files, target, bytes, phase, results).1, target)
                == Some(bytes),
            WriteStep::Wait(next) => on_course(
                run(files, target, bytes, phase, results).1,
                target,
                bytes,
                next,
                before,
            ),
            WriteStep::Failed(e) => e == AnchorError::Io && reading(
                run(files, target, bytes, phase, results).1,
                target,
            ) == before,
        },
    decreases results.len(),
{
    reveal_strlit(".tmp");
    let temp = spec_temp_path(target);
    assert(temp.len() == target.len() + 4);
    assert(temp != target);
    if results.len() > 0 {
        let after = effect(files, target, bytes, phase, results[0]);
        match spec_persist_advance(phase, results[0].ok) {
            WriteStep::Wait(next) => {
                assert(on_course(after, target, bytes, next, before));
                lemma_run_keeps_course(after, target, bytes, next, results.drop_first(), before);
            },
            _ => {},
        }
    }
}

/// A write is atomic. However the steps end and wherever they stop, a
/// reader of the target finds either what was there before the write or,
/// once the write is done, the new contents: never anything else. A write
/// that is interrupted before the rename, or that fails, leaves the target
/// as it was.
pub proof fn lemma_persist_is_atomic(
    files: Map<Seq<char>, Seq<u8>>,
    target: Seq<char>,
    bytes: Seq<u8>,
    results: Seq<StepResult>,
)
    ensures
        match run(files, target, bytes, WritePhase::Writing, results).0 {
            WriteStep::Done => reading(
                run(files, target, bytes, WritePhase::Writing, results).1,
                target,
            ) == Some(bytes),
            _ => reading(run(files, target, bytes, WritePhase::Writing, results).1, target)
                == reading(files, target),
        },
{
    lemma_run_keeps_course(
        files,
        target,
        bytes,
        WritePhase::Writing,
        results,
        reading(files, target),
    );
}

/// A write whose steps all succeed is done after three of them.
pub proof fn lemma_persist_succeeds(
    files: Map<Seq<char>, Seq<u8>>,
    target: Seq<char>,
    bytes: Seq<u8>,
)
    ensures
        run(
            files,
            target,
            bytes,
            WritePhase::Writing,
            seq![
                StepResult { ok: true, debris: None },
                StepResult { ok: true, debris: None },
                StepResult { ok: true, debris: None },
            ],
        ).0 == WriteStep::Done,
{
    let ok = StepResult { ok: true, debris: None };
    let three = seq![ok, ok, ok];
    let two = three.drop_first();
    let one = two.drop_first();
    let none = one.drop_first();
    assert(none.len() == 0);
    let f1 = effect(files, target, bytes, WritePhase::Writing, ok);
    let f2 = effect(f1, target, bytes, WritePhase::Syncing, ok);
    assert(run(f2, target, bytes, WritePhase::Renaming, one).0 == WriteStep::Done);
    assert(run(f1, target, bytes, WritePhase::Syncing, two).0 == WriteStep::Done);
}

} // verus!
