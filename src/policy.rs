use crate::config::ClientConfig;
use vstd::prelude::*;

verus! {

/// The worker count a policy settles on when no override is given:
/// four fifths of the available parallelism, rounded down, and at least one.
pub open spec fn auto_thread_count(available: int) -> int {
    if available * 4 / 5 >= 1 {
        available * 4 / 5
    } else {
        1
    }
}

/// The worker count chosen from an override, the multithreading flag and the
/// available parallelism. An override of zero is no override: a worker count
/// is a positive integer.
pub open spec fn policy_thread_count(
    configured: Option<usize>,
    use_multithreaded: bool,
    available: int,
) -> int {
    if !use_multithreaded {
        1
    } else {
        match configured {
            Some(k) if k >= 1 => k as int,
            _ => auto_thread_count(available),
        }
    }
}

/// How one solve run is parallelised.
#[derive(Debug, Clone, Copy, PartialEq, Eq, Structural)]
pub struct SolveConfig {
    /// Number of workers to run; always at least one.
    pub thread_count: usize,
    /// Whether multithreaded solving was requested.
    pub use_multithreaded: bool,
}

/// Relies on num_cpus::get: the number of CPUs available to this process,
/// documented to be at least one.
#[verifier::external_body]
fn available_parallelism() -> (r: usize)
    ensures
        r >= 1,
{
    num_cpus::get()
}

impl SolveConfig {
    pub open spec fn wf(self) -> bool {
        self.thread_count >= 1
    }

    /// Derives the worker count from an override, the multithreading flag and
    /// the available parallelism.
    pub fn from_parallelism(
        configured: Option<usize>,
        use_multithreaded: bool,
        available: usize,
    ) -> (r: SolveConfig)
        ensures
            r.wf(),
            r.use_multithreaded == use_multithreaded,
            r.thread_count as int == policy_thread_count(configured, use_multithreaded, available as int),
            !use_multithreaded ==> r.thread_count == 1,
            use_multithreaded && configured is Some && configured->Some_0 >= 1 ==> r.thread_count == configured->Some_0,
            use_multithreaded && (configured is None) ==> r.thread_count as int == auto_thread_count(available as int),
    {
        let thread_count: usize = if !use_multithreaded {
            1
        } else {
            match configured {
                Some(k) if k >= 1 => k,
                _ => {
                    let scaled: u128 = (available as u128) * 4 / 5;
                    if scaled >= 1 {
                        scaled as usize
                    } else {
                        1
                    }
                },
            }
        };
        SolveConfig { thread_count, use_multithreaded }
    }

    /// Derives the worker count for one solve run from the client's settings
    /// and the parallelism this machine offers.
    pub fn new(config: &ClientConfig, use_multithreaded: bool) -> (r: SolveConfig)
        ensures
            r.wf(),
            r.use_multithreaded == use_multithreaded,
            !use_multithreaded ==> r.thread_count == 1,
            use_multithreaded && config.num_threads is Some && config.num_threads->Some_0 >= 1
                ==> r.thread_count == config.num_threads->Some_0,
            exists|a: int| a >= 1 && r.thread_count as int == policy_thread_count(config.num_threads, use_multithreaded, a),
    {
        let available = available_parallelism();
        SolveConfig::from_parallelism(config.num_threads, use_multithreaded, available)
    }

    /// Whether this configuration races several partitioned workers rather
    /// than running one worker over the whole nonce space.
    pub fn races_workers(&self) -> (r: bool)
        ensures
            r == (self.use_multithreaded && self.thread_count > 1),
    {
        self.use_multithreaded && self.thread_count > 1
    }
}

} // verus!
