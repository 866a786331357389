use vstd::prelude::*;

verus! {

/// The number of workers a pool starts: the count asked for, else the
/// hardware parallelism, else one.
pub fn worker_count(requested: Option<usize>, available: Option<usize>) -> (n: usize)
    ensures
        n == match requested {
            Some(r) => r,
            None => match available {
                Some(a) => a,
                None => 1,
            },
        },
{
    match requested {
        Some(r) => r,
        None => match available {
            Some(a) => a,
            None => 1,
        },
    }
}

/// The per-worker handles of a pool, one for each worker, in worker order.
pub struct WorkerPool<S> {
    workers: Vec<S>,
}

impl<S> View for WorkerPool<S> {
    type V = Seq<S>;

    closed spec fn view(&self) -> Seq<S> {
        self.workers@
    }
}

impl<S> WorkerPool<S> {
    pub fn new(workers: Vec<S>) -> (p: Self)
        ensures
            p@ == workers@,
    {
        WorkerPool { workers }
    }

    pub fn num_threads(&self) -> (n: usize)
        ensures
            n == self@.len(),
    {
        self.workers.len()
    }

    pub fn state(&self) -> (r: &Vec<S>)
        ensures
            r@ == self@,
    {
        &self.workers
    }

    /// The handle of worker `i`, to send it private messages.
    pub fn worker(&self, i: usize) -> (r: &S)
        requires
            i < self@.len(),
        ensures
            *r == self@[i as int],
    {
        &self.workers[i]
    }
}

} // verus!
