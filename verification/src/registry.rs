//! The registry: all jobs of a run, each addressed by the index it was given
//! when it was added. Whoever works on one job changes that job alone.

use vstd::prelude::*;
use crate::encoder::{FFMPEGCommand, JobView};
use crate::media::EncodeError;
use crate::progress::{
    after_failure,
    after_line,
    after_second_pass_started,
    after_stream_closed,
    read_line,
    signal_after,
    Signal,
};

verus! {

/// The jobs of a run, in the order in which they were added.
pub struct JobRegistry {
    jobs: Vec<FFMPEGCommand>,
}

impl View for JobRegistry {
    type V = Seq<JobView>;

    closed spec fn view(&self) -> Seq<JobView> {
        Seq::new(self.jobs@.len(), |i: int| self.jobs@[i]@)
    }
}

/// Whether every job of `jobs` is in a terminal status.
pub open spec fn all_terminal(jobs: Seq<JobView>) -> bool {
    forall|i: int| 0 <= i < jobs.len() ==> (#[trigger] jobs[i]).status.is_terminal()
}

impl JobRegistry {
    /// A registry without jobs.
    pub fn new() -> (out: Self)
        ensures
            out@ == Seq::<JobView>::empty(),
    {
        let out = JobRegistry { jobs: Vec::new() };
        assert(out@ =~= Seq::<JobView>::empty());
        out
    }

    /// The number of jobs.
    pub fn len(&self) -> (out: usize)
        ensures
            out == self@.len(),
    {
        self.jobs.len()
    }

    /// Adds a job and returns the index under which it is found from now on.
    pub fn push(&mut self, job: FFMPEGCommand) -> (id: usize)
        ensures
            final(self)@ == old(self)@.push(job@),
            id == old(self)@.len(),
    {
        let id = self.jobs.len();
        self.jobs.push(job);
        assert(self@ =~= old(self)@.push(job@));
        id
    }

    /// The job of index `id`, where there is one.
    pub fn get(&self, id: usize) -> (out: Option<&FFMPEGCommand>)
        ensures
            out is Some == (id < self@.len()),
            out matches Some(job) ==> job@ == self@[id as int],
    {
        if id < self.jobs.len() {
            Some(&self.jobs[id])
        } else {
            None
        }
    }

    /// Hands a line of the progress stream of job `id` to that job. No other
    /// job changes; without a job of that index nothing does.
    pub fn handle_line(&mut self, id: usize, line: &str) -> (out: Option<Signal>)
        ensures
            id < old(self)@.len() ==> final(self)@ == old(self)@.update(
                id as int,
                after_line(old(self)@[id as int], read_line(line@)),
            ) && out == Some(signal_after(old(self)@[id as int], read_line(line@))),
            id >= old(self)@.len() ==> final(self)@ == old(self)@ && out is None,
    {
        if id >= self.jobs.len() {
            return None;
        }
        let signal = self.jobs[id].handle_line(line);
        assert(self@ =~= old(self)@.update(
            id as int,
            after_line(old(self)@[id as int], read_line(line@)),
        ));
        Some(signal)
    }

    /// Records that the second pass of job `id` has been started. No other
    /// job changes.
    pub fn second_pass_started(&mut self, id: usize)
        ensures
            id < old(self)@.len() ==> final(self)@ == old(self)@.update(
                id as int,
                after_second_pass_started(old(self)@[id as int]),
            ),
            id >= old(self)@.len() ==> final(self)@ == old(self)@,
    {
        if id < self.jobs.len() {
            self.jobs[id].second_pass_started();
            assert(self@ =~= old(self)@.update(
                id as int,
                after_second_pass_started(old(self)@[id as int]),
            ));
        }
    }

    /// Records that the encoder of job `id` could not be started, and names
    /// the error. No other job changes.
    pub fn launch_failed(&mut self, id: usize) -> (out: EncodeError)
        ensures
            id < old(self)@.len() ==> final(self)@ == old(self)@.update(
                id as int,
                after_failure(old(self)@[id as int]),
            ),
            id >= old(self)@.len() ==> final(self)@ == old(self)@,
            out == EncodeError::EncodeLaunchFailed,
    {
        if id < self.jobs.len() {
            self.jobs[id].launch_failed();
            assert(self@ =~= old(self)@.update(
                id as int,
                after_failure(old(self)@[id as int]),
            ));
        }
        EncodeError::EncodeLaunchFailed
    }

    /// Records that the progress stream of job `id` closed before the end
    /// was reported, and whether the encoder ended well. No other job
    /// changes.
    pub fn stream_closed(&mut self, id: usize, ended_well: bool)
        ensures
            id < old(self)@.len() ==> final(self)@ == old(self)@.update(
                id as int,
                after_stream_closed(old(self)@[id as int], ended_well),
            ),
            id >= old(self)@.len() ==> final(self)@ == old(self)@,
    {
        if id < self.jobs.len() {
            self.jobs[id].stream_closed(ended_well);
            assert(self@ =~= old(self)@.update(
                id as int,
                after_stream_closed(old(self)@[id as int], ended_well),
            ));
        }
    }

    /// Whether every job has reached a terminal status.
    pub fn finished(&self) -> (out: bool)
        ensures
            out == all_terminal(self@),
    {
        let mut i: usize = 0;
        while i < self.jobs.len()
            invariant
                i <= self.jobs.len(),
                forall|j: int| 0 <= j < i ==> (#[trigger] self@[j]).status.is_terminal(),
            decreases self.jobs.len() - i,
        {
            if !self.jobs[i].status.terminal() {
                assert(!self@[i as int].status.is_terminal());
                return false;
            }
            i += 1;
        }
        true
    }
}

/// A step on one job leaves every other job of the registry as it was, and
/// the number of jobs too.
pub proof fn lemma_step_touches_one_job(jobs: Seq<JobView>, id: int, stepped: JobView, other: int)
    requires
        0 <= id < jobs.len(),
        0 <= other < jobs.len(),
        other != id,
    ensures
        jobs.update(id, stepped).len() == jobs.len(),
        jobs.update(id, stepped)[other] == jobs[other],
        jobs.update(id, stepped)[id] == stepped,
{
}

} // verus!
