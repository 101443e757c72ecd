use std::collections::VecDeque;
use vstd::prelude::*;
use crate::codec::config::{AudioDecoderConfig, AudioDecoderConfigView};
use crate::data::audio_data::{EncodedAudioChunk, EncodedAudioChunkView};

verus! {

/// The number of workers a codec instance asks for.
pub const MAX_WORKERS: usize = 4;

/// A piece of work for a worker. It carries all that the worker needs, so
/// that it can run whatever has become of the instance in the meantime.
#[derive(Debug, PartialEq, Eq)]
pub enum Job {
    /// Set the backend up for a configuration.
    Config(AudioDecoderConfig),
    /// Submit a chunk to the backend and deliver what it yields.
    Decode(EncodedAudioChunk),
    /// Encode a piece of raw data.
    Encode(String),
    /// Signal the end of the stream and deliver what the backend still holds.
    Flush,
}

/// What a [`Job`] holds.
pub enum JobView {
    Config(AudioDecoderConfigView),
    Decode(EncodedAudioChunkView),
    Encode(Seq<char>),
    Flush,
}

impl View for Job {
    type V = JobView;

    open spec fn view(&self) -> JobView {
        match self {
            Job::Config(config) => JobView::Config(config@),
            Job::Decode(chunk) => JobView::Decode(chunk@),
            Job::Encode(data) => JobView::Encode(data@),
            Job::Flush => JobView::Flush,
        }
    }
}

/// The views of a sequence of jobs, in the same order.
pub open spec fn job_views(jobs: Seq<Job>) -> Seq<JobView> {
    jobs.map_values(|job: Job| job@)
}

/// The place where jobs are handed over to the workers: jobs go in at the
/// back in the order they are dispatched, and whoever runs the workers takes
/// them out from the front. It holds any number of jobs.
pub struct WorkQueue {
    num_threads: usize,
    tasks: VecDeque<Job>,
}

impl View for WorkQueue {
    type V = Seq<JobView>;

    /// The jobs that wait to be taken, oldest first.
    closed spec fn view(&self) -> Seq<JobView> {
        job_views(self.tasks@)
    }
}

impl WorkQueue {
    /// The number of workers the queue was made for.
    pub closed spec fn workers(&self) -> usize {
        self.num_threads
    }

    /// An empty queue that is to be served by `num_threads` workers.
    pub fn new(num_threads: usize) -> (queue: Self)
        ensures
            queue@ == Seq::<JobView>::empty(),
            queue.workers() == num_threads,
    {
        let queue = WorkQueue { num_threads, tasks: VecDeque::new() };
        assert(job_views(queue.tasks@) =~= Seq::<JobView>::empty());
        queue
    }

    /// The number of workers the queue was made for.
    pub fn num_threads(&self) -> (n: usize)
        ensures
            n == self.workers(),
    {
        self.num_threads
    }

    /// Hands `task` over. It never waits and never refuses.
    pub fn enqueue(&mut self, task: Job)
        ensures
            final(self)@ == old(self)@.push(task@),
            final(self).workers() == old(self).workers(),
    {
        self.tasks.push_back(task);
        assert(job_views(self.tasks@) =~= job_views(old(self).tasks@).push(task@));
    }

    /// Takes out the job that has waited longest, if any job waits.
    pub fn dequeue(&mut self) -> (task: Option<Job>)
        ensures
            final(self).workers() == old(self).workers(),
            match task {
                Some(job) => old(self)@.len() > 0 && job@ == old(self)@[0] && final(self)@ == old(
                    self,
                )@.subrange(1, old(self)@.len() as int),
                None => old(self)@.len() == 0 && final(self)@ == old(self)@,
            },
    {
        let task = self.tasks.pop_front();
        assert(job_views(self.tasks@) =~= job_views(old(self).tasks@).subrange(
            if task.is_some() { 1int } else { 0int },
            old(self).tasks@.len() as int,
        ));
        task
    }
}

} // verus!
