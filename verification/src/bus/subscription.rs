use vstd::prelude::*;

use crate::text::{decimal, decimal_text};

verus! {

/// Where a consumer starts reading the event log.
#[derive(Debug, Clone)]
pub enum StartFrom {
    /// Only events published after the consumer is registered.
    Latest,
    /// Every stored event, from the start of the log.
    Beginning,
    /// The events after the position saved under `consumer_name`.
    Checkpoint { consumer_name: String },
}

/// Options for configuring event subscription behavior.
#[derive(Debug, Clone)]
pub struct SubscriptionOptions {
    /// Number of worker tasks in this consumer group; each worker processes
    /// events one at a time.
    pub workers: usize,
    /// Optional name for debugging and task naming.
    pub name: Option<String>,
    /// Where a replayable consumer starts.
    pub start_from: StartFrom,
}

impl SubscriptionOptions {
    /// One worker, no name, live events only.
    pub fn new() -> (r: Self)
        ensures
            r.workers == 1,
            r.name is None,
            r.start_from is Latest,
    {
        SubscriptionOptions { workers: 1, name: None, start_from: StartFrom::Latest }
    }

    /// Set the number of workers; at least one worker is always kept.
    pub fn with_workers(self, workers: usize) -> (r: Self)
        ensures
            r.workers == if workers < 1 { 1 } else { workers },
            r.name == self.name,
            r.start_from == self.start_from,
    {
        let mut this = self;
        this.workers = if workers < 1 { 1 } else { workers };
        this
    }

    /// Set the name.
    pub fn named(self, name: String) -> (r: Self)
        ensures
            r.workers == self.workers,
            r.name == Some(name),
            r.start_from == self.start_from,
    {
        let mut this = self;
        this.name = Some(name);
        this
    }

    /// Set where a replayable consumer starts.
    pub fn start_from(self, start_from: StartFrom) -> (r: Self)
        ensures
            r.workers == self.workers,
            r.name == self.name,
            r.start_from == start_from,
    {
        let mut this = self;
        this.start_from = start_from;
        this
    }
}

impl Default for SubscriptionOptions {
    fn default() -> (r: Self)
        ensures
            r.workers == 1,
            r.name is None,
            r.start_from is Latest,
    {
        Self::new()
    }
}

/// The tasks a consumer group runs: one consumer task when it has exactly
/// one worker; otherwise a fanout task feeding the named workers.
#[derive(Debug)]
pub struct ConsumerPlan {
    pub name: String,
    pub fanout: Option<String>,
    pub workers: Vec<String>,
}

impl ConsumerPlan {
    /// Number of tasks the plan spawns: the single consumer task, or the
    /// fanout task and the workers.
    pub fn task_count(&self) -> (r: usize)
        requires
            self.workers@.len() < usize::MAX,
        ensures
            r == if self.fanout is Some { self.workers@.len() + 1 } else { 1 },
    {
        match self.fanout {
            Some(_) => self.workers.len() + 1,
            None => 1,
        }
    }
}

/// The name of worker `i` of consumer group `name`.
pub open spec fn worker_name(name: Seq<char>, i: nat) -> Seq<char> {
    name + "-worker-"@ + decimal(i)
}

/// Plan the tasks of a consumer group. The group takes the options' name,
/// or `default_name` when the options carry none.
pub fn plan_consumers(options: SubscriptionOptions, default_name: String) -> (r: ConsumerPlan)
    ensures
        r.name@ == match options.name {
            Some(n) => n@,
            None => default_name@,
        },
        options.workers == 1 ==> r.fanout is None && r.workers@.len() == 0,
        options.workers != 1 ==> {
            &&& r.fanout matches Some(f) && f@ == r.name@ + "-fanout"@
            &&& r.workers@.len() == options.workers
            &&& forall|i: int| 0 <= i < options.workers ==> #[trigger] r.workers@[i]@ == worker_name(r.name@, i as nat)
        },
{
    let name = match options.name {
        Some(n) => n,
        None => default_name,
    };
    if options.workers == 1 {
        return ConsumerPlan { name, fanout: None, workers: Vec::new() };
    }
    proof {
        reveal_strlit("-fanout");
        reveal_strlit("-worker-");
    }
    let fanout = String::from_str(name.as_str()).concat("-fanout");
    let mut workers: Vec<String> = Vec::new();
    let mut i: usize = 0;
    while i < options.workers
        invariant
            i <= options.workers,
            workers@.len() == i,
            forall|k: int| 0 <= k < i ==> #[trigger] workers@[k]@ == worker_name(name@, k as nat),
        decreases options.workers - i,
    {
        let number = decimal_text(i);
        let w = String::from_str(name.as_str()).concat("-worker-").concat(number.as_str());
        workers.push(w);
        i = i + 1;
    }
    ConsumerPlan { name, fanout: Some(fanout), workers }
}

} // verus!
