use std::collections::VecDeque;
use vstd::prelude::*;
use crate::engine::control::{ControlMessage, ControlMessageTrait, Outcome};
use crate::engine::work_queue::{JobView, WorkQueue};

verus! {

/// The jobs of a sequence of control messages, in the same order.
pub open spec fn message_jobs(messages: Seq<ControlMessage>) -> Seq<JobView> {
    messages.map_values(|message: ControlMessage| message.job())
}

/// The internal slots that every codec instance has: the queue of control
/// messages that wait to be dispatched, the flag that suspends dispatching,
/// and the queue through which work reaches the workers.
pub struct CodecInternalSlots {
    pub control_message_queue: VecDeque<ControlMessage>,
    pub message_queue_blocked: bool,
    pub work_queue: WorkQueue,
}

/// What the internal slots hold.
pub struct CodecInternalSlotsView {
    /// The jobs of the control messages that wait, oldest first.
    pub queued: Seq<JobView>,
    /// Whether dispatching is suspended.
    pub blocked: bool,
    /// The jobs that have been handed to the workers, oldest first.
    pub dispatched: Seq<JobView>,
}

impl CodecInternalSlotsView {
    /// The slots after a drain: while dispatching is suspended nothing
    /// moves; otherwise every waiting message is dispatched, in the order in
    /// which the messages were submitted, behind what was dispatched before.
    pub open spec fn drained(self) -> Self {
        if self.blocked {
            self
        } else {
            CodecInternalSlotsView {
                queued: Seq::empty(),
                blocked: false,
                dispatched: self.dispatched + self.queued,
            }
        }
    }

    /// The slots after a message with the given job has been submitted: the
    /// message joins the queue at the back, and the queue is drained.
    pub open spec fn enqueued(self, job: JobView) -> Self {
        CodecInternalSlotsView { queued: self.queued.push(job), ..self }.drained()
    }
}

impl View for CodecInternalSlots {
    type V = CodecInternalSlotsView;

    open spec fn view(&self) -> CodecInternalSlotsView {
        CodecInternalSlotsView {
            queued: message_jobs(self.control_message_queue@),
            blocked: self.message_queue_blocked,
            dispatched: self.work_queue@,
        }
    }
}

impl CodecInternalSlots {
    /// Slots with nothing waiting, nothing dispatched and dispatching not
    /// suspended, whose work is to be done by `num_threads` workers.
    pub fn new(num_threads: usize) -> (slots: Self)
        ensures
            slots@ == (CodecInternalSlotsView {
                queued: Seq::empty(),
                blocked: false,
                dispatched: Seq::empty(),
            }),
            slots.work_queue.workers() == num_threads,
    {
        let slots = CodecInternalSlots {
            control_message_queue: VecDeque::new(),
            message_queue_blocked: false,
            work_queue: WorkQueue::new(num_threads),
        };
        assert(message_jobs(slots.control_message_queue@) =~= Seq::<JobView>::empty());
        slots
    }

    /// Enqueue a control message and process the control message queue.
    pub fn enqueue_control_message(&mut self, msg: ControlMessage)
        ensures
            final(self)@ == old(self)@.enqueued(msg.job()),
            final(self).work_queue.workers() == old(self).work_queue.workers(),
    {
        self.control_message_queue.push_back(msg);
        assert(message_jobs(self.control_message_queue@) =~= message_jobs(
            old(self).control_message_queue@,
        ).push(msg.job()));
        self.process_control_message_queue();
    }

    /// Dispatches the waiting control messages, strictly in the order in
    /// which they were submitted.
    ///
    /// The message at the head is looked at, not taken: it is asked to go
    /// ahead, and leaves the queue only once it has answered `Processed`. A
    /// message that answers `NotProcessed` stays at the head and ends the
    /// drain; no control message of this crate gives that answer, so a drain
    /// that starts goes through to the end of the queue. While
    /// `message_queue_blocked` is set nothing is dispatched.
    pub fn process_control_message_queue(&mut self)
        ensures
            final(self)@ == old(self)@.drained(),
            final(self).work_queue.workers() == old(self).work_queue.workers(),
    {
        while !self.message_queue_blocked && self.control_message_queue.len() > 0
            invariant
                self.message_queue_blocked == old(self).message_queue_blocked,
                self.work_queue.workers() == old(self).work_queue.workers(),
                self.message_queue_blocked ==> self@ == old(self)@,
                self.work_queue@ + message_jobs(self.control_message_queue@) == old(
                    self,
                ).work_queue@ + message_jobs(old(self).control_message_queue@),
            ensures
                self.message_queue_blocked || self.control_message_queue@.len() == 0,
            decreases self.control_message_queue@.len(),
        {
            let ghost before = self.control_message_queue@;
            let ghost handed = self.work_queue@;
            let outcome = self.control_message_queue[0].process(&mut self.work_queue);
            match outcome {
                Outcome::NotProcessed => break,
                Outcome::Processed => {
                    self.control_message_queue.pop_front();
                },
            }
            assert(self.work_queue@ + message_jobs(self.control_message_queue@) =~= handed
                + message_jobs(before)) by {
                assert(self.control_message_queue@ == before.subrange(1, before.len() as int));
                assert(self.work_queue@ == handed.push(before[0].job()));
            }
        }
        assert(self@ == old(self)@.drained()) by {
            if !self.message_queue_blocked {
                assert(message_jobs(self.control_message_queue@) =~= Seq::<JobView>::empty());
                assert(self.work_queue@ =~= old(self).work_queue@ + message_jobs(
                    old(self).control_message_queue@,
                ));
            }
        }
    }
}

} // verus!
