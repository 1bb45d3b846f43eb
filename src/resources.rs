//! Bounds on concurrency and on open files, and the settings of the batch
//! and streaming helpers.
use vstd::prelude::*;
use core::time::Duration;
use crate::retry::{backoff_multiplier, two_pow};

verus! {

/// The thread counts of the two worker pools.
#[derive(Debug, Clone, Copy, PartialEq, Eq, Structural)]
pub struct PoolSizes {
    /// Threads for blocking file work: twice the cores.
    pub io_threads: usize,
    /// Threads for computation: one per core.
    pub compute_threads: usize,
}

/// Cores assumed when the machine does not say.
pub const FALLBACK_CORES: usize = 4;

/// The pool sizes for `detected_cores` (none when the machine does not say).
pub fn pool_sizes(detected_cores: Option<usize>) -> (r: PoolSizes)
    ensures
        ({
            let cores = match detected_cores {
                Some(c) => c,
                None => FALLBACK_CORES,
            };
            &&& r.compute_threads == cores
            &&& r.io_threads == if 2 * cores <= usize::MAX {
                2 * cores
            } else {
                usize::MAX as int
            }
        }),
{
    let cores = match detected_cores {
        Some(c) => c,
        None => FALLBACK_CORES,
    };
    let io = if cores <= usize::MAX / 2 {
        cores * 2
    } else {
        usize::MAX
    };
    PoolSizes { io_threads: io, compute_threads: cores }
}

/// A snapshot of resource use.
#[derive(Debug, Clone, Copy, PartialEq, Eq)]
pub struct ResourceStats {
    pub uptime: Duration,
    pub current_open_files: usize,
    pub max_open_files: usize,
}

/// Counts the files held open against a limit.
#[derive(Debug, Clone, Copy, PartialEq, Eq, Structural)]
pub struct ResourceMonitor {
    pub max_open_files: usize,
    pub current_open_files: usize,
}

/// The default limit on files held open.
pub const DEFAULT_MAX_OPEN_FILES: usize = 1000;

impl ResourceMonitor {
    /// A monitor with the default limit and nothing open.
    pub fn new() -> (r: Self)
        ensures
            r.max_open_files == DEFAULT_MAX_OPEN_FILES,
            r.current_open_files == 0,
    {
        ResourceMonitor { max_open_files: DEFAULT_MAX_OPEN_FILES, current_open_files: 0 }
    }

    /// Counts a file opened; refused (with the limit) when the limit is reached.
    pub fn track_file_open(&mut self) -> (r: Result<(), usize>)
        ensures
            final(self).max_open_files == old(self).max_open_files,
            old(self).current_open_files >= old(self).max_open_files ==> r == Err::<(), usize>(
                old(self).max_open_files,
            ) && final(self).current_open_files == old(self).current_open_files,
            old(self).current_open_files < old(self).max_open_files ==> r is Ok
                && final(self).current_open_files == old(self).current_open_files + 1,
    {
        if self.current_open_files >= self.max_open_files {
            return Err(self.max_open_files);
        }
        self.current_open_files = self.current_open_files + 1;
        Ok(())
    }

    /// Counts a file closed; the count never goes below nought.
    pub fn track_file_close(&mut self)
        ensures
            final(self).max_open_files == old(self).max_open_files,
            final(self).current_open_files == if old(self).current_open_files > 0 {
                old(self).current_open_files - 1
            } else {
                0
            },
    {
        if self.current_open_files > 0 {
            self.current_open_files = self.current_open_files - 1;
        }
    }

    /// The counts, with the uptime measured by the caller.
    pub fn get_stats(&self, uptime: Duration) -> (r: ResourceStats)
        ensures
            r.uptime == uptime,
            r.current_open_files == self.current_open_files,
            r.max_open_files == self.max_open_files,
    {
        ResourceStats {
            uptime,
            current_open_files: self.current_open_files,
            max_open_files: self.max_open_files,
        }
    }
}

/// Settings of a batch of operations run with exponential backoff.
#[derive(Debug, Clone, Copy, PartialEq, Eq, Structural)]
pub struct AsyncBatchOperations {
    max_retries: u32,
    base_delay_ms: u64,
    max_concurrent: usize,
}

/// `base * factor`, held at `u64::MAX` when larger.
pub open spec fn scaled_delay(base: u64, factor: nat) -> nat {
    if base * factor <= u64::MAX {
        (base * factor) as nat
    } else {
        u64::MAX as nat
    }
}

/// The backoff factor before attempt `attempt + 1`: `2^attempt`, held at
/// `u32::MAX` when larger.
pub open spec fn backoff_factor(attempt: u32) -> nat {
    if two_pow(attempt as nat) <= u32::MAX {
        two_pow(attempt as nat)
    } else {
        u32::MAX as nat
    }
}

impl AsyncBatchOperations {
    pub closed spec fn spec_max_retries(&self) -> u32 {
        self.max_retries
    }

    pub closed spec fn spec_base_delay_ms(&self) -> u64 {
        self.base_delay_ms
    }

    pub closed spec fn spec_max_concurrent(&self) -> usize {
        self.max_concurrent
    }

    /// Three retries from a base delay of 100 ms, ten operations at a time.
    pub fn new() -> (r: Self)
        ensures
            r.spec_max_retries() == 3,
            r.spec_base_delay_ms() == 100,
            r.spec_max_concurrent() == 10,
    {
        AsyncBatchOperations { max_retries: 3, base_delay_ms: 100, max_concurrent: 10 }
    }

    /// The same settings with another retry budget and base delay (in
    /// milliseconds).
    pub fn with_retry_config(self, max_retries: u32, base_delay_ms: u64) -> (r: Self)
        ensures
            r.spec_max_retries() == max_retries,
            r.spec_base_delay_ms() == base_delay_ms,
            r.spec_max_concurrent() == self.spec_max_concurrent(),
    {
        AsyncBatchOperations { max_retries, base_delay_ms, ..self }
    }

    /// The same settings with another bound on operations at a time.
    pub fn with_concurrency(self, max_concurrent: usize) -> (r: Self)
        ensures
            r.spec_max_concurrent() == max_concurrent,
            r.spec_max_retries() == self.spec_max_retries(),
            r.spec_base_delay_ms() == self.spec_base_delay_ms(),
    {
        AsyncBatchOperations { max_concurrent, ..self }
    }

    pub fn max_retries(&self) -> (r: u32)
        ensures
            r == self.spec_max_retries(),
    {
        self.max_retries
    }

    pub fn base_delay_ms(&self) -> (r: u64)
        ensures
            r == self.spec_base_delay_ms(),
    {
        self.base_delay_ms
    }

    pub fn max_concurrent(&self) -> (r: usize)
        ensures
            r == self.spec_max_concurrent(),
    {
        self.max_concurrent
    }

    /// After failed attempt `attempt` (from 0): the milliseconds to wait
    /// before trying again, the base delay times `2^attempt`, or `None` when
    /// the retries are spent. Any failure is retried.
    pub fn backoff_after(&self, attempt: u32) -> (r: Option<u64>)
        ensures
            attempt >= self.spec_max_retries() ==> r is None,
            attempt < self.spec_max_retries() ==> (r matches Some(d) && d as nat == scaled_delay(
                self.spec_base_delay_ms(),
                backoff_factor(attempt),
            )),
    {
        if attempt >= self.max_retries {
            return None;
        }
        let factor = backoff_multiplier(attempt);
        let base = self.base_delay_ms;
        proof {
            assert(base as nat * factor as nat <= u64::MAX as nat * u32::MAX as nat) by (nonlinear_arith)
                requires
                    base <= u64::MAX,
                    factor <= u32::MAX,
            ;
        }
        let product: u128 = (base as u128) * (factor as u128);
        if product <= u64::MAX as u128 {
            Some(product as u64)
        } else {
            Some(u64::MAX)
        }
    }
}

/// How many times directory creation tries to take its lock file.
pub const LOCK_MAX_ATTEMPTS: u32 = 30;

/// Whether, after `attempts` failed tries to take the lock file, another try
/// is made (after a fixed wait).
pub fn lock_may_retry(attempts: u32) -> (r: bool)
    ensures
        r == (attempts < LOCK_MAX_ATTEMPTS),
{
    attempts < LOCK_MAX_ATTEMPTS
}

/// Settings for reading large mapping files in chunks.
#[derive(Debug, Clone, Copy, PartialEq, Eq, Structural)]
pub struct StreamingJsonProcessor {
    pub chunk_size: usize,
}

impl StreamingJsonProcessor {
    /// Chunks of 64 KiB.
    pub fn new() -> (r: Self)
        ensures
            r.chunk_size == 65536,
    {
        StreamingJsonProcessor { chunk_size: 65536 }
    }

    /// The same settings with another chunk size.
    pub fn with_chunk_size(self, chunk_size: usize) -> (r: Self)
        ensures
            r.chunk_size == chunk_size,
    {
        StreamingJsonProcessor { chunk_size }
    }
}

} // verus!
