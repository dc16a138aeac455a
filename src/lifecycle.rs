use vstd::prelude::*;

verus! {

/// The command queue or the worker handle of a running server is gone.
pub struct BrokenChannel;

/// What a stop request leads to.
pub enum StopStep<Q, W> {
    /// The server was not running: nothing to do.
    NotRunning,
    /// Send the stop command on this queue, then wait for this worker.
    Halt(Q, W),
    /// The server was marked running without its queue or worker.
    Broken,
}

/// The start / stop / send decisions of a server, over the sending end `Q`
/// of its command queue and the handle `W` of its background worker.
pub struct Lifecycle<Q, W> {
    running: bool,
    queue: Option<Q>,
    worker: Option<W>,
}

impl<Q, W> Lifecycle<Q, W> {
    /// Whether the server runs.
    pub closed spec fn running(&self) -> bool {
        self.running
    }

    /// The sending end of the command queue, while the server runs.
    pub closed spec fn queue(&self) -> Option<Q> {
        self.queue
    }

    /// The background worker, while the server runs.
    pub closed spec fn worker(&self) -> Option<W> {
        self.worker
    }

    /// The state after a stop request: stopped, without queue or worker.
    pub closed spec fn after_stop(self) -> Self {
        if self.running {
            Lifecycle { running: false, queue: None, worker: None }
        } else {
            self
        }
    }

    /// A server that has not been started.
    pub fn new() -> (r: Lifecycle<Q, W>)
        ensures
            !r.running(),
            r.queue() is None,
            r.worker() is None,
    {
        Lifecycle { running: false, queue: None, worker: None }
    }

    /// Whether the server runs.
    pub fn is_running(&self) -> (r: bool)
        ensures
            r == self.running(),
    {
        self.running
    }

    /// Whether a start request should bind and launch: only when the
    /// server is not running already.
    pub fn may_start(&self) -> (r: bool)
        ensures
            r == !self.running(),
    {
        !self.running
    }

    /// Records a successful start with its queue and worker.
    pub fn started(&mut self, queue: Q, worker: W)
        requires
            !old(self).running(),
        ensures
            final(self).running(),
            final(self).queue() == Some(queue),
            final(self).worker() == Some(worker),
    {
        self.running = true;
        self.queue = Some(queue);
        self.worker = Some(worker);
    }

    /// Handles a stop request: when the server runs it is marked stopped
    /// and its queue and worker are handed out, to send the stop command
    /// and wait; when it does not run, nothing changes.
    pub fn stop(&mut self) -> (r: StopStep<Q, W>)
        ensures
            *final(self) == old(self).after_stop(),
            !final(self).running(),
            final(self).queue() is None || !old(self).running(),
            (r is NotRunning) == !old(self).running(),
            old(self).running() ==> match (old(self).queue(), old(self).worker()) {
                (Some(q), Some(w)) => r == StopStep::Halt(q, w),
                _ => r is Broken,
            },
    {
        if !self.running {
            return StopStep::NotRunning;
        }
        self.running = false;
        let queue = self.queue.take();
        let worker = self.worker.take();
        match (queue, worker) {
            (Some(q), Some(w)) => StopStep::Halt(q, w),
            _ => StopStep::Broken,
        }
    }

    /// Where a frame goes: `Ok(None)` when the server does not run (the
    /// frame is dropped), the queue when it runs, an error when it runs
    /// without a queue.
    pub fn send_channel(&self) -> (r: Result<Option<&Q>, BrokenChannel>)
        ensures
            match r {
                Ok(None) => !self.running(),
                Ok(Some(q)) => self.running() && self.queue() == Some(*q),
                Err(_) => self.running() && self.queue() is None,
            },
    {
        if !self.running {
            return Ok(None);
        }
        match &self.queue {
            Some(q) => Ok(Some(q)),
            None => Err(BrokenChannel),
        }
    }
}

/// A server that was never started, or was stopped, neither stops again
/// nor takes a frame: a second stop is refused and changes nothing.
pub proof fn stop_then_nothing_runs<Q, W>(l: Lifecycle<Q, W>)
    ensures
        !l.after_stop().running(),
        l.after_stop().queue() is None || !l.running(),
        l.after_stop().after_stop() == l.after_stop(),
{
}

} // verus!
