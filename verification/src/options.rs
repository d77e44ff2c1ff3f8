//! Tuning for diff creation: the zstd level and the worker-thread count.
use vstd::prelude::*;

verus! {

/// Tuning for diff creation. Defaults: zstd level 0 (the codec's own
/// default, level 3) and a single worker thread.
///
/// The values are handed to the diff engine as they are; the engine clamps
/// the level to `0..=22` and the thread count to at least 1.
#[derive(Debug, Clone, Copy)]
pub struct DiffOptions {
    /// zstd compression level (1..22). `0` means "use zstd default" (level 3).
    pub level: i32,
    /// Number of worker threads (>=1).
    pub threads: i32,
}

/// The options that `DiffOptions::default` yields.
pub open spec fn default_options() -> DiffOptions {
    DiffOptions { level: 0, threads: 1 }
}

impl Default for DiffOptions {
    fn default() -> (opts: Self)
        ensures
            opts == default_options(),
            opts.level == 0,
            opts.threads == 1,
    {
        DiffOptions { level: 0, threads: 1 }
    }
}

impl DiffOptions {
    /// Set the zstd compression level; the thread count stays as it was.
    pub fn level(self, level: i32) -> (opts: Self)
        ensures
            opts == self.level_set(level),
            opts.level == level,
            opts.threads == self.threads,
    {
        let mut opts = self;
        opts.level = level;
        opts
    }

    /// Set the worker-thread count; the level stays as it was.
    pub fn threads(self, threads: i32) -> (opts: Self)
        ensures
            opts == self.threads_set(threads),
            opts.level == self.level,
            opts.threads == threads,
    {
        let mut opts = self;
        opts.threads = threads;
        opts
    }
}

/// Setting the level and then the thread count gives the same options as
/// setting them the other way round.
pub proof fn lemma_setters_commute(opts: DiffOptions, level: i32, threads: i32)
    ensures
        opts.level_set(level).threads_set(threads) == opts.threads_set(threads).level_set(level),
{
}

/// Of two settings of the same field, the later one wins.
pub proof fn lemma_last_setting_wins(opts: DiffOptions, a: i32, b: i32)
    ensures
        opts.level_set(a).level_set(b) == opts.level_set(b),
        opts.threads_set(a).threads_set(b) == opts.threads_set(b),
{
}

impl DiffOptions {
    /// The options with the level replaced, as `level` computes them.
    pub open spec fn level_set(self, level: i32) -> DiffOptions {
        DiffOptions { level: level, threads: self.threads }
    }

    /// The options with the thread count replaced, as `threads` computes them.
    pub open spec fn threads_set(self, threads: i32) -> DiffOptions {
        DiffOptions { level: self.level, threads: threads }
    }
}

} // verus!
