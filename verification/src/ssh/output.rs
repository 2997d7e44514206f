//! What a process prints, kept within bounds.

use super::connect::ExitStatus;
use vstd::prelude::*;

verus! {

/// The front of an output, up to a limit.
#[derive(Debug)]
pub struct BoundedOutput {
    pub output: Vec<u8>,
    pub truncated: bool,
    pub limit: usize,
}

/// How many bytes of an output of this length are kept.
pub open spec fn kept_length(length: nat, limit: usize) -> nat {
    if length < limit {
        length
    } else {
        limit as nat
    }
}

impl BoundedOutput {
    /// Whether this is what is kept of `seen`.
    pub open spec fn keeps(self, seen: Seq<u8>) -> bool {
        &&& self.output@ == seen.take(kept_length(seen.len(), self.limit) as int)
        &&& self.truncated == (seen.len() > self.limit)
    }

    /// Nothing yet of an output.
    pub fn new(limit: usize) -> (bounded: Self)
        ensures
            bounded.limit == limit,
            bounded.output@ == Seq::<u8>::empty(),
            !bounded.truncated,
            bounded.keeps(Seq::empty()),
    {
        let output: Vec<u8> = Vec::new();
        assert(output@ =~= Seq::<u8>::empty().take(0));
        BoundedOutput { output, truncated: false, limit }
    }

    /// Takes up the next bytes of the output.
    pub fn absorb(&mut self, chunk: &[u8])
        ensures
            final(self).limit == old(self).limit,
            ({
                let room = if old(self).output@.len() < old(self).limit {
                    (old(self).limit - old(self).output@.len()) as nat
                } else {
                    0
                };
                let retained = if chunk@.len() < room {
                    chunk@.len()
                } else {
                    room
                };
                &&& final(self).output@ == old(self).output@ + chunk@.take(retained as int)
                &&& final(self).truncated == (old(self).truncated || retained < chunk@.len())
            }),
            forall|seen: Seq<u8>|
                old(self).keeps(seen) ==> #[trigger] final(self).keeps(seen + chunk@),
    {
        let room = self.limit.saturating_sub(self.output.len());
        let retained = if chunk.len() < room {
            chunk.len()
        } else {
            room
        };
        let front = vstd::slice::slice_subrange(chunk, 0, retained);
        self.output.extend_from_slice(front);
        assert(front@ =~= chunk@.take(retained as int));
        assert(self.output@ =~= old(self).output@ + chunk@.take(retained as int));
        if retained < chunk.len() {
            self.truncated = true;
        }
        assert forall|seen: Seq<u8>| old(self).keeps(seen) implies #[trigger] self.keeps(
            seen + chunk@,
        ) by {
            let all = seen + chunk@;
            assert(self.output@ =~= all.take(kept_length(all.len(), self.limit) as int));
        }
    }
}

/// The bytes of all chunks, in order.
pub open spec fn joined_chunks(chunks: Seq<Vec<u8>>) -> Seq<u8>
    decreases chunks.len(),
{
    if chunks.len() == 0 {
        Seq::empty()
    } else {
        joined_chunks(chunks.drop_last()) + chunks.last()@
    }
}

/// The front of an output that comes in chunks, up to `limit` bytes, and whether more
/// followed. All chunks are read.
pub fn read_bounded(chunks: &[Vec<u8>], limit: usize) -> (result: (Vec<u8>, bool))
    ensures
        result.0@ == joined_chunks(chunks@).take(
            kept_length(joined_chunks(chunks@).len(), limit) as int,
        ),
        result.1 == (joined_chunks(chunks@).len() > limit),
{
    let mut bounded = BoundedOutput::new(limit);
    for i in 0..chunks.len()
        invariant
            bounded.limit == limit,
            bounded.keeps(joined_chunks(chunks@.take(i as int))),
    {
        bounded.absorb(chunks[i].as_slice());
        assert(chunks@.take(i + 1).drop_last() =~= chunks@.take(i as int));
    }
    assert(chunks@.take(chunks@.len() as int) =~= chunks@);
    (bounded.output, bounded.truncated)
}

/// How long to pause before a probe process is looked at again, in milliseconds.
pub const AGENT_PROBE_PAUSE_MS: u64 = 25;

/// What to do about a process that is waited for.
#[derive(Debug)]
pub enum WaitStep {
    /// It ended.
    Ended(ExitStatus),
    /// It took too long: end it, and fail for this reason.
    TimedOut(String),
    /// Look again later.
    Wait,
}

/// What a probe process printed, and how it ended.
#[derive(Debug)]
pub struct AgentProbeProcessOutput {
    pub status_success: bool,
    pub status_code: Option<i32>,
    pub stdout: Vec<u8>,
    pub stderr: Vec<u8>,
    pub stdout_truncated: bool,
}

/// What to do about a probe process, by whether it ended and whether its time is over.
/// One that ended is never timed out.
pub fn run_agent_probe_process(exit: Option<ExitStatus>, deadline_passed: bool) -> (step: WaitStep)
    ensures
        match exit {
            Some(status) => step == WaitStep::Ended(status),
            None => if deadline_passed {
                step matches WaitStep::TimedOut(error) && error@ == "ssh_agent_probe_timeout"@
            } else {
                step is Wait
            },
        },
{
    match exit {
        Some(status) => WaitStep::Ended(status),
        None => {
            if deadline_passed {
                WaitStep::TimedOut("ssh_agent_probe_timeout".to_owned())
            } else {
                WaitStep::Wait
            }
        },
    }
}

/// What a probe process printed, and how it ended, by what was kept of its two outputs.
/// That errors were cut off does not matter.
pub fn agent_probe_process_output(
    status: ExitStatus,
    stdout: (Vec<u8>, bool),
    stderr: (Vec<u8>, bool),
) -> (output: AgentProbeProcessOutput)
    ensures
        output.status_success == status.success,
        output.status_code == status.code,
        output.stdout == stdout.0,
        output.stdout_truncated == stdout.1,
        output.stderr == stderr.0,
{
    AgentProbeProcessOutput {
        status_success: status.success,
        status_code: status.code,
        stdout: stdout.0,
        stderr: stderr.0,
        stdout_truncated: stdout.1,
    }
}

/// However an output is cut into chunks, the same front of it is kept.
pub proof fn law_chunks_do_not_matter(a: BoundedOutput, b: BoundedOutput, seen: Seq<u8>)
    requires
        a.limit == b.limit,
        a.keeps(seen),
        b.keeps(seen),
    ensures
        a.output@ == b.output@,
        a.truncated == b.truncated,
        a.output@.len() <= a.limit,
{
}

/// Of an output that comes in chunks, the first `limit` bytes are kept, or all where there
/// are no more; and it is told whether there were more.
pub proof fn law_front_of_the_output_is_kept(
    chunks: &[Vec<u8>],
    limit: usize,
    result: (Vec<u8>, bool),
)
    requires
        call_ensures(read_bounded, (chunks, limit), result),
    ensures
        ({
            let all = joined_chunks(chunks@);
            &&& all.len() <= limit ==> result.0@ == all && !result.1
            &&& all.len() > limit ==> result.0@ == all.take(limit as int) && result.1
        }),
{
    let all = joined_chunks(chunks@);
    assert(all.take(all.len() as int) =~= all);
}

/// All chunks of an output, one after the other, make the output.
pub proof fn law_chunks_follow_each_other(chunks: Seq<Vec<u8>>, last: Vec<u8>)
    ensures
        joined_chunks(chunks.push(last)) == joined_chunks(chunks) + last@,
        joined_chunks(Seq::<Vec<u8>>::empty()) == Seq::<u8>::empty(),
{
    assert(chunks.push(last).drop_last() =~= chunks);
}

/// A chunk is kept as far as there is room, behind what was kept before; once something did
/// not fit, the output counts as cut off.
pub proof fn law_chunk_is_kept_as_far_as_it_fits(
    bounded: &mut BoundedOutput,
    chunk: &[u8],
    nothing: (),
)
    requires
        call_ensures(BoundedOutput::absorb, (bounded, chunk), nothing),
        old(bounded).output@.len() <= old(bounded).limit,
    ensures
        final(bounded).limit == old(bounded).limit,
        old(bounded).output@.len() + chunk@.len() <= old(bounded).limit ==> final(bounded).output@ == old(bounded).output@ + chunk@ && final(bounded).truncated == old(bounded).truncated,
        old(bounded).output@.len() + chunk@.len() > old(bounded).limit ==> final(bounded).output@.len() == old(bounded).limit && final(bounded).truncated && final(bounded).output@ == (old(bounded).output@ + chunk@).take(old(bounded).limit as int),
{
    let room = old(bounded).limit - old(bounded).output@.len();
    assert(chunk@.take(chunk@.len() as int) =~= chunk@);
    if room <= chunk@.len() {
        assert(old(bounded).output@ + chunk@.take(room) =~= (old(bounded).output@ + chunk@).take(
            old(bounded).limit as int,
        ));
    }
}

/// A process that ended is done with, even where its time is over; one that did not is
/// waited for until then.
pub proof fn law_process_is_waited_for_in_time(
    exit: Option<ExitStatus>,
    deadline_passed: bool,
    step: WaitStep,
)
    requires
        call_ensures(run_agent_probe_process, (exit, deadline_passed), step),
    ensures
        exit matches Some(status) ==> step == WaitStep::Ended(status),
        exit is None && deadline_passed ==> (step matches WaitStep::TimedOut(error) && error@
            == "ssh_agent_probe_timeout"@),
        exit is None && !deadline_passed ==> step is Wait,
{
}

/// What a process printed is handed on with how it ended; only output that was cut off is
/// marked as such.
pub proof fn law_process_output_is_handed_on(
    status: ExitStatus,
    stdout: (Vec<u8>, bool),
    stderr: (Vec<u8>, bool),
    output: AgentProbeProcessOutput,
)
    requires
        call_ensures(agent_probe_process_output, (status, stdout, stderr), output),
    ensures
        output.status_success == status.success,
        output.status_code == status.code,
        output.stdout@ == stdout.0@,
        output.stderr@ == stderr.0@,
        output.stdout_truncated == stdout.1,
{
}

/// An output begins empty and whole.
pub proof fn law_output_begins_empty(limit: usize, bounded: BoundedOutput)
    requires
        call_ensures(BoundedOutput::new, (limit,), bounded),
    ensures
        bounded.limit == limit,
        bounded.output@.len() == 0,
        !bounded.truncated,
{
}

} // verus!
