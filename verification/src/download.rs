//! The retry policy of downloads: how many attempts are made, how long to
//! wait between them, and what is reported when all of them failed.
//!
//! The transfer itself is the caller's: it performs one attempt at a time and
//! reports how it ended; `DownloadTask::after_attempt` says what to do next.

use crate::error::RezToolsError;
use crate::text::{
    contains_seq, decimal, decimal_of, has_suffix, index_back, occurs_at, string_of,
};
use vstd::prelude::*;
use vstd::string::*;

verus! {

/// The largest number of attempts for which every delay fits in 64 bits.
pub const MAX_ATTEMPT_CEILING: usize = 64;

/// Two to the power of `n`.
pub open spec fn pow2(n: nat) -> nat
    decreases n,
{
    if n == 0 {
        1
    } else {
        2 * pow2((n - 1) as nat)
    }
}

/// The seconds to wait before attempt number `attempt`: nothing before the
/// first, then one second, doubling with each further attempt.
pub open spec fn delay_before_attempt(attempt: nat) -> nat {
    if attempt <= 1 {
        0
    } else {
        pow2((attempt - 2) as nat)
    }
}

/// Download client settings: the attempt ceiling and the time allowed for
/// one request, in seconds.
#[derive(Debug, Clone, Copy)]
pub struct DownloadClient {
    pub max_retries: usize,
    pub timeout_secs: u64,
}

/// One download in progress.
#[derive(Debug, Clone)]
pub struct DownloadTask {
    pub url: String,
    /// Where the file goes; `None` for a download into memory.
    pub destination: Option<String>,
    /// The number of the attempt that is being made, or was made last.
    pub attempt_count: usize,
    pub max_attempts: usize,
    pub timeout_secs: u64,
}

/// What to do after an attempt has ended.
#[derive(Debug)]
pub enum DownloadStep {
    /// The download is complete.
    Done,
    /// Wait `delay_secs` seconds, then make attempt number `attempt`.
    Retry { attempt: usize, delay_secs: u64 },
    /// Every attempt failed: give up with this error.
    Failed(RezToolsError),
}

/// The message of the error that ends a download whose attempts all
/// failed: it names the address, the number of attempts made and the last
/// failure.
pub open spec fn exhausted_message(url: Seq<char>, attempts: nat, last: Seq<char>) -> Seq<char> {
    "Failed to download "@ + url + " after "@ + decimal_of(attempts) + " attempts: "@ + last
}

/// The error that ends a download holds the address and the number of
/// attempts that were made.
pub proof fn lemma_exhausted_message_names_address_and_count(
    url: Seq<char>,
    attempts: nat,
    last: Seq<char>,
)
    ensures
        contains_seq(exhausted_message(url, attempts, last), url),
        contains_seq(exhausted_message(url, attempts, last), decimal_of(attempts)),
        has_suffix(exhausted_message(url, attempts, last), last),
{
    let m = exhausted_message(url, attempts, last);
    let head = "Failed to download "@;
    let lead = head + url + " after "@;
    let count = decimal_of(attempts);
    assert(m.subrange(head.len() as int, (head.len() + url.len()) as int) =~= url);
    assert(occurs_at(m, url, head.len() as int));
    assert(m.subrange(lead.len() as int, (lead.len() + count.len()) as int) =~= count);
    assert(occurs_at(m, count, lead.len() as int));
    assert(m.subrange(m.len() - last.len(), m.len() as int) =~= last);
}

/// What follows a failed attempt number `attempt` out of `max_attempts`: the
/// number of the next attempt with the seconds to wait before it, or `None`
/// where the failed attempt was the last.
pub open spec fn retry_after(attempt: nat, max_attempts: nat) -> Option<(nat, nat)> {
    if attempt < max_attempts {
        Some(((attempt + 1) as nat, delay_before_attempt((attempt + 1) as nat)))
    } else {
        None
    }
}

/// The number of attempts that are made, from attempt number `attempt` on,
/// when every one of them fails.
pub open spec fn attempts_when_all_fail(attempt: nat, max_attempts: nat) -> nat
    decreases max_attempts - attempt,
{
    match retry_after(attempt, max_attempts) {
        Some((next, _)) => 1 + attempts_when_all_fail(next, max_attempts),
        None => 1,
    }
}

/// The seconds waited in all, from attempt number `attempt` on, when every
/// attempt fails.
pub open spec fn wait_when_all_fail(attempt: nat, max_attempts: nat) -> nat
    decreases max_attempts - attempt,
{
    match retry_after(attempt, max_attempts) {
        Some((next, delay)) => delay + wait_when_all_fail(next, max_attempts),
        None => 0,
    }
}

proof fn lemma_pow2_grows(a: nat, b: nat)
    requires
        a <= b,
    ensures
        1 <= pow2(a) <= pow2(b),
    decreases b,
{
    if a < b {
        lemma_pow2_grows(a, (b - 1) as nat);
    } else if a > 0 {
        lemma_pow2_grows((a - 1) as nat, (a - 1) as nat);
    }
}

proof fn lemma_pow2_of_62()
    ensures
        pow2(62) == 0x4000_0000_0000_0000,
{
    reveal_with_fuel(pow2, 9);
    assert(pow2(8) == 0x100);
    assert(pow2(16) == 0x1_0000);
    assert(pow2(24) == 0x100_0000);
    assert(pow2(32) == 0x1_0000_0000);
    assert(pow2(40) == 0x100_0000_0000);
    assert(pow2(48) == 0x1_0000_0000_0000);
    assert(pow2(56) == 0x100_0000_0000_0000);
}

proof fn lemma_pow2_bound(n: nat)
    requires
        n <= 62,
    ensures
        1 <= pow2(n) <= 0x4000_0000_0000_0000,
{
    lemma_pow2_grows(n, 62);
    lemma_pow2_of_62();
}

/// A download whose attempts all fail ends: from attempt number `attempt` on
/// it makes exactly the attempts that are left up to `max_attempts`, and the
/// seconds it waits add up to two to the power of `max_attempts - 1` less two
/// to the power of `attempt - 1`. From the first attempt on that is
/// `max_attempts` attempts, and with three of them three seconds.
pub proof fn lemma_retries_are_bounded(attempt: nat, max_attempts: nat)
    requires
        1 <= attempt <= max_attempts,
    ensures
        attempts_when_all_fail(attempt, max_attempts) == max_attempts - attempt + 1,
        wait_when_all_fail(attempt, max_attempts) + pow2((attempt - 1) as nat) == pow2(
            (max_attempts - 1) as nat,
        ),
    decreases max_attempts - attempt,
{
    if attempt < max_attempts {
        lemma_retries_are_bounded(attempt + 1, max_attempts);
    }
}

/// The seconds to wait after attempt number `attempt` has failed, before the
/// next one: two to the power of `attempt - 1`.
pub fn backoff_delay(attempt: usize) -> (d: u64)
    requires
        1 <= attempt <= MAX_ATTEMPT_CEILING,
    ensures
        d == pow2((attempt - 1) as nat),
        d == delay_before_attempt((attempt + 1) as nat),
{
    let mut d: u64 = 1;
    let mut k: usize = 1;
    while k < attempt
        invariant
            1 <= k <= attempt <= 64,
            d == pow2((k - 1) as nat),
        decreases attempt - k,
    {
        proof {
            lemma_pow2_bound((k - 1) as nat);
        }
        d = d * 2;
        k += 1;
    }
    d
}

impl Default for DownloadClient {
    fn default() -> (c: DownloadClient)
        ensures
            c.max_retries == 3,
            c.timeout_secs == 300,
    {
        DownloadClient::new()
    }
}

impl DownloadClient {
    /// Create a new download client with default settings: three attempts,
    /// five minutes for each request.
    pub fn new() -> (c: DownloadClient)
        ensures
            c.max_retries == 3,
            c.timeout_secs == 300,
    {
        DownloadClient { max_retries: 3, timeout_secs: 300 }
    }

    /// What the client calls itself towards servers.
    pub fn user_agent(&self) -> (s: &'static str)
        ensures
            s@ == "rez-tools/0.1.0"@,
    {
        "rez-tools/0.1.0"
    }

    /// Starts a download of `url`, into the file `destination` or, without
    /// one, into memory: the first attempt is due at once.
    pub fn begin(&self, url: &str, destination: Option<&str>) -> (t: DownloadTask)
        ensures
            t.url@ == url@,
            t.attempt_count == 1,
            t.max_attempts == self.max_retries,
            t.timeout_secs == self.timeout_secs,
            match destination {
                Some(d) => t.destination is Some && t.destination->0@ == d@,
                None => t.destination is None,
            },
    {
        let dest = match destination {
            Some(d) => Some(String::from_str(d)),
            None => None,
        };
        DownloadTask {
            url: String::from_str(url),
            destination: dest,
            attempt_count: 1,
            max_attempts: self.max_retries,
            timeout_secs: self.timeout_secs,
        }
    }
}

impl DownloadTask {
    /// An attempt is under way, and its number is within the ceiling.
    pub open spec fn wf(self) -> bool {
        1 <= self.attempt_count <= self.max_attempts <= MAX_ATTEMPT_CEILING
    }

    /// Takes in how the current attempt ended and says what follows.
    ///
    /// A success ends the download. A failure before the last attempt asks
    /// for the next attempt after the backoff delay. A failure of the last
    /// attempt gives up, into a file or into memory alike, with an error that
    /// names the address, the number of attempts and the last failure.
    pub fn after_attempt(&mut self, outcome: Result<(), RezToolsError>) -> (step: DownloadStep)
        requires
            old(self).wf(),
        ensures
            final(self).url == old(self).url,
            final(self).destination == old(self).destination,
            final(self).max_attempts == old(self).max_attempts,
            final(self).timeout_secs == old(self).timeout_secs,
            final(self).wf(),
            match outcome {
                Ok(_) => step is Done && final(self).attempt_count == old(self).attempt_count,
                Err(e) => match retry_after(
                    old(self).attempt_count as nat,
                    old(self).max_attempts as nat,
                ) {
                    Some((next, delay)) => {
                        &&& step is Retry
                        &&& step->attempt == next
                        &&& step->delay_secs == delay
                        &&& final(self).attempt_count == next
                    },
                    None => {
                        &&& step is Failed
                        &&& final(self).attempt_count == old(self).attempt_count
                        &&& step->Failed_0.is_config(
                            exhausted_message(
                                old(self).url@,
                                old(self).max_attempts as nat,
                                e.text(),
                            ),
                        )
                    },
                },
            },
    {
        match outcome {
            Ok(_) => DownloadStep::Done,
            Err(e) => {
                if self.attempt_count < self.max_attempts {
                    let delay = backoff_delay(self.attempt_count);
                    self.attempt_count = self.attempt_count + 1;
                    DownloadStep::Retry { attempt: self.attempt_count, delay_secs: delay }
                } else {
                    let count = string_of(&decimal(self.max_attempts as u64));
                    let last = e.to_string();
                    let message = String::from_str("Failed to download ").concat(
                        self.url.as_str(),
                    ).concat(" after ").concat(count.as_str()).concat(" attempts: ").concat(
                        last.as_str(),
                    );
                    DownloadStep::Failed(RezToolsError::ConfigError(message))
                }
            },
        }
    }
}

/// Whether an HTTP status code stands for success: the codes from 200 up to
/// 299.
pub fn status_is_success(code: u16) -> (b: bool)
    ensures
        b == (200 <= code < 300),
{
    200 <= code && code < 300
}

/// The failure of an attempt whose response did not have a success status:
/// it shows the status and the reason that goes with the code, or
/// `Unknown error` where the code has none.
pub fn http_error(status: &str, reason: Option<&str>) -> (e: RezToolsError)
    ensures
        e.is_config(
            "HTTP error "@ + status@ + ": "@ + match reason {
                Some(r) => r@,
                None => "Unknown error"@,
            },
        ),
{
    let shown = match reason {
        Some(r) => r,
        None => "Unknown error",
    };
    RezToolsError::ConfigError(
        String::from_str("HTTP error ").concat(status).concat(": ").concat(shown),
    )
}

/// The name of the temporary file that a download is written to before it
/// takes the destination's place: the destination's name with `.tmp` after
/// it.
pub open spec fn temp_name_of(destination: Seq<char>) -> Seq<char> {
    destination + ".tmp"@
}

/// The part of a path that names its directory: everything up to and with
/// its last separator, a slash or a backslash.
pub open spec fn directory_of(path: Seq<char>) -> Seq<char> {
    let a = index_back(path, '/', path.len() as int);
    let b = index_back(path, '\\', path.len() as int);
    if a >= b {
        path.subrange(0, a)
    } else {
        path.subrange(0, b)
    }
}

proof fn lemma_index_back_bounds(s: Seq<char>, c: char, j: int)
    requires
        0 <= j <= s.len(),
    ensures
        0 <= index_back(s, c, j) <= j,
    decreases j,
{
    if 0 < j && s[j - 1] != c {
        lemma_index_back_bounds(s, c, j - 1);
    }
}

/// Characters other than `c` at the end of a text do not move the place of
/// its last `c`.
proof fn lemma_index_back_skips(s: Seq<char>, t: Seq<char>, c: char, j: int)
    requires
        0 <= j <= t.len(),
        forall|k: int| 0 <= k < t.len() ==> t[k] != c,
    ensures
        index_back(s + t, c, s.len() + j) == index_back(s, c, s.len() as int),
    decreases j,
{
    if j > 0 {
        assert((s + t)[s.len() + j - 1] == t[j - 1]);
        lemma_index_back_skips(s, t, c, j - 1);
    } else {
        lemma_index_back_same(s, s + t, c, s.len() as int);
    }
}

/// Two texts that agree on their first `j` characters have their last `c`
/// before `j` at the same place.
proof fn lemma_index_back_same(s: Seq<char>, u: Seq<char>, c: char, j: int)
    requires
        0 <= j <= s.len(),
        j <= u.len(),
        forall|k: int| 0 <= k < j ==> s[k] == u[k],
    ensures
        index_back(s, c, j) == index_back(u, c, j),
    decreases j,
{
    if j > 0 && s[j - 1] != c {
        lemma_index_back_same(s, u, c, j - 1);
    }
}

/// The temporary file of a download is another file than its destination,
/// in the same directory.
pub proof fn lemma_temp_is_beside_destination(destination: Seq<char>)
    ensures
        temp_name_of(destination) != destination,
        directory_of(temp_name_of(destination)) == directory_of(destination),
{
    reveal_strlit(".tmp");
    let t = ".tmp"@;
    let temp = temp_name_of(destination);
    assert(temp.len() == destination.len() + 4);
    assert(t[0] == '.' && t[1] == 't' && t[2] == 'm' && t[3] == 'p');
    lemma_index_back_skips(destination, t, '/', 4);
    lemma_index_back_skips(destination, t, '\\', 4);
    lemma_index_back_bounds(destination, '/', destination.len() as int);
    lemma_index_back_bounds(destination, '\\', destination.len() as int);
    let a = index_back(destination, '/', destination.len() as int);
    let b = index_back(destination, '\\', destination.len() as int);
    assert(temp.subrange(0, a) =~= destination.subrange(0, a));
    assert(temp.subrange(0, b) =~= destination.subrange(0, b));
}

/// The path of the temporary file that a download to `destination` is
/// written to. It is never the destination itself, so that what stands at the
/// destination is complete at every moment, and it lies in the destination's
/// directory, so that it can take the destination's place in one step.
pub fn temp_path_for(destination: &str) -> (temp: String)
    ensures
        temp@ == temp_name_of(destination@),
        temp@ != destination@,
        directory_of(temp@) == directory_of(destination@),
{
    proof {
        lemma_temp_is_beside_destination(destination@);
    }
    String::from_str(destination).concat(".tmp")
}

} // verus!
