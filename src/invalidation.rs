//! Edge-cache invalidation after a thumbnail changes: which addresses to purge
//! and the retry policy of the background task that purges them.
use vstd::prelude::*;
use crate::text::{decimal_text, push_decimal};

verus! {

/// Attempts made before the purge is given up.
pub const MAX_PURGE_ATTEMPTS: u32 = 5;

/// Wait after the first transient failure; the n-th waits n times as long.
pub const PURGE_BASE_DELAY_SECS: u64 = 30;

/// The path suffixes under a level's thumbnail address that are cached: the
/// full-size image, each smaller resolution, and the metadata.
pub open spec fn variant_suffixes() -> Seq<Seq<char>> {
    seq![""@, "/small"@, "/medium"@, "/high"@, "/info"@]
}

/// The cached address of one variant of a level's thumbnail.
pub open spec fn variant_url(root: Seq<char>, level_id: i64, suffix: Seq<char>) -> Seq<char> {
    root + "/thumbnail/"@ + decimal_text(level_id as int) + suffix
}

fn variant_url_exec(root: &str, level_id: i64, suffix: &str) -> (r: String)
    ensures
        r@ == variant_url(root@, level_id, suffix@),
{
    let mut s = String::from_str(root);
    s.append("/thumbnail/");
    push_decimal(&mut s, level_id);
    s.append(suffix);
    s
}

/// Every cached address of a level's thumbnail under `root`.
pub fn purge_urls(root: &str, level_id: i64) -> (r: Vec<String>)
    ensures
        r@.len() == variant_suffixes().len(),
        forall|i: int|
            0 <= i < r@.len() ==> #[trigger] r@[i]@ == variant_url(root@, level_id, variant_suffixes()[i]),
{
    let mut v: Vec<String> = Vec::new();
    v.push(variant_url_exec(root, level_id, ""));
    v.push(variant_url_exec(root, level_id, "/small"));
    v.push(variant_url_exec(root, level_id, "/medium"));
    v.push(variant_url_exec(root, level_id, "/high"));
    v.push(variant_url_exec(root, level_id, "/info"));
    v
}

/// The purge endpoint of a cache zone.
pub fn purge_endpoint(zone_id: &str) -> (r: String)
    ensures
        r@ == "https://api.cloudflare.com/client/v4/zones/"@ + zone_id@ + "/purge_cache"@,
{
    String::from_str("https://api.cloudflare.com/client/v4/zones/").concat(zone_id).concat("/purge_cache")
}

/// How one purge request went.
#[derive(Debug, Clone, Copy, PartialEq, Eq, Structural)]
pub enum PurgeResult {
    Purged,
    /// Refused with this HTTP status; a request that got no answer counts as
    /// a server error.
    Failed { status: u16 },
}

/// What the purge task does next.
#[derive(Debug, Clone, Copy, PartialEq, Eq, Structural)]
pub enum PurgeStep {
    /// The cache was purged.
    Done,
    /// Wait this long, then try again.
    RetryAfter { seconds: u64 },
    /// Stop without purging.
    GiveUp,
}

/// Failures worth another attempt: rate limiting and server errors.
pub open spec fn is_transient(status: u16) -> bool {
    status == 429 || (500 <= status && status <= 599)
}

/// The step after attempt number `attempt` (counting from 1) ended with `result`.
pub open spec fn step_after(attempt: u32, result: PurgeResult) -> PurgeStep {
    match result {
        PurgeResult::Purged => PurgeStep::Done,
        PurgeResult::Failed { status } => if is_transient(status) && attempt < MAX_PURGE_ATTEMPTS {
            PurgeStep::RetryAfter { seconds: (attempt * PURGE_BASE_DELAY_SECS) as u64 }
        } else {
            PurgeStep::GiveUp
        },
    }
}

/// The attempts of one purge task.
#[derive(Debug, Clone, Copy, PartialEq, Eq, Structural)]
pub struct PurgeRetry {
    /// Attempts made so far.
    pub attempts: u32,
}

impl PurgeRetry {
    /// A task that has made no attempt yet.
    pub fn new() -> (r: Self)
        ensures
            r.attempts == 0,
    {
        PurgeRetry { attempts: 0 }
    }

    /// Whether the policy allows another attempt.
    pub fn may_attempt(&self) -> (r: bool)
        ensures
            r == (self.attempts < MAX_PURGE_ATTEMPTS),
    {
        self.attempts < MAX_PURGE_ATTEMPTS
    }

    /// Counts an attempt that ended with `result` and says what to do next.
    /// Once the attempts are used up every result gives up.
    pub fn record(&mut self, result: PurgeResult) -> (r: PurgeStep)
        ensures
            old(self).attempts < MAX_PURGE_ATTEMPTS ==> final(self).attempts == old(self).attempts + 1
                && r == step_after(final(self).attempts, result),
            old(self).attempts >= MAX_PURGE_ATTEMPTS ==> *final(self) == *old(self) && r
                == PurgeStep::GiveUp,
            r matches PurgeStep::RetryAfter { seconds } ==> final(self).attempts < MAX_PURGE_ATTEMPTS
                && seconds == final(self).attempts * PURGE_BASE_DELAY_SECS,
    {
        if self.attempts >= MAX_PURGE_ATTEMPTS {
            return PurgeStep::GiveUp;
        }
        self.attempts = self.attempts + 1;
        match result {
            PurgeResult::Purged => PurgeStep::Done,
            PurgeResult::Failed { status } => {
                if (status == 429 || (500 <= status && status <= 599)) && self.attempts
                    < MAX_PURGE_ATTEMPTS {
                    PurgeStep::RetryAfter { seconds: self.attempts as u64 * PURGE_BASE_DELAY_SECS }
                } else {
                    PurgeStep::GiveUp
                }
            },
        }
    }
}

} // verus!
