use crate::error::Error;
use vstd::prelude::*;

verus! {

/// Blocks skipped at once while waiting for the epoch to change.
pub const BLOCKS_PER_BURST: u64 = 100;

/// Bursts after which a wait for the next epoch gives up.
pub const MAX_BURSTS: u64 = 10_000;

/// The clock of the ledger: time moves in blocks, and blocks are grouped
/// into epochs. How many blocks an epoch takes is the clock's own business;
/// its users only watch the epoch change.
#[derive(Clone, Copy, Debug, PartialEq, Eq, Structural)]
pub struct LedgerClock {
    /// Number of blocks since the start.
    pub height: u64,
    /// Time of the current block, in nanoseconds.
    pub timestamp: u64,
    /// Blocks per epoch, at least one.
    pub epoch_length: u64,
    /// Nanoseconds per block.
    pub block_time: u64,
}

/// What to do after a burst of blocks, while waiting for the next epoch.
#[derive(Clone, Copy, Debug, PartialEq, Eq, Structural)]
pub enum WaitStep {
    /// The epoch is still the same: skip another burst.
    Advance,
    /// The epoch has changed: the wait is over.
    Done,
    /// The epoch is still the same and the clock has had all the bursts it
    /// is allowed: the wait has failed.
    Stalled,
}

/// The sum of two numbers, or the largest number where the sum does not fit.
pub open spec fn capped(sum: int) -> u64 {
    if sum > u64::MAX {
        u64::MAX
    } else {
        sum as u64
    }
}

impl LedgerClock {
    pub open spec fn wf(&self) -> bool {
        self.epoch_length > 0
    }

    /// The current epoch.
    pub open spec fn epoch(&self) -> u64 {
        (self.height / self.epoch_length) as u64
    }

    /// The clock `n` blocks later. Height and time stop at the largest value
    /// they can hold.
    pub open spec fn after_blocks(self, n: int) -> LedgerClock {
        LedgerClock {
            height: capped(self.height + n),
            timestamp: capped(self.timestamp + n * self.block_time),
            ..self
        }
    }

    /// After `k` bursts the epoch is still the one of now.
    pub open spec fn unchanged_after(self, k: int) -> bool {
        self.after_blocks(k * BLOCKS_PER_BURST).epoch() == self.epoch()
    }

    /// The epoch changes with burst `k` and with none before it.
    pub open spec fn changes_at(self, k: int) -> bool {
        &&& 1 <= k <= MAX_BURSTS
        &&& !self.unchanged_after(k)
        &&& forall|j: int| 1 <= j < k ==> self.unchanged_after(j)
    }

    /// The number of bursts that a wait for the next epoch takes, `None`
    /// where the epoch does not change within the bursts allowed.
    pub open spec fn bursts_to_next_epoch(self) -> Option<int> {
        if exists|k: int| self.changes_at(k) {
            Some(choose|k: int| self.changes_at(k))
        } else {
            None
        }
    }

    /// The clock after a wait for the next epoch, successful or not.
    pub open spec fn waited(self) -> LedgerClock {
        match self.bursts_to_next_epoch() {
            Some(k) => self.after_blocks(k * BLOCKS_PER_BURST),
            None => self.after_blocks(MAX_BURSTS * BLOCKS_PER_BURST),
        }
    }

    /// The clock after waiting for `n` epochs in turn: `Ok` where every wait
    /// saw the epoch change, `Err` with the clock as the first failed wait
    /// left it.
    pub open spec fn waited_epochs(self, n: nat) -> Result<LedgerClock, LedgerClock>
        decreases n,
    {
        if n == 0 {
            Ok(self)
        } else if self.bursts_to_next_epoch() is None {
            Err(self.waited())
        } else {
            self.waited().waited_epochs((n - 1) as nat)
        }
    }

    /// A clock at block 0 and time `genesis`.
    pub fn new(epoch_length: u64, block_time: u64, genesis: u64) -> (r: Option<LedgerClock>)
        ensures
            r is Some <==> epoch_length > 0,
            r matches Some(c) ==> c == (LedgerClock {
                height: 0,
                timestamp: genesis,
                epoch_length,
                block_time,
            }),
    {
        if epoch_length == 0 {
            None
        } else {
            Some(LedgerClock { height: 0, timestamp: genesis, epoch_length, block_time })
        }
    }

    /// Whether the clock is well-formed: its epochs have blocks.
    pub fn is_well_formed(&self) -> (b: bool)
        ensures
            b == self.wf(),
    {
        self.epoch_length > 0
    }

    pub fn current_epoch(&self) -> (e: u64)
        requires
            self.wf(),
        ensures
            e == self.epoch(),
    {
        self.height / self.epoch_length
    }

    /// Moves the clock forward by `n` blocks. There is no way back.
    pub fn advance_blocks(&mut self, n: u64)
        ensures
            *final(self) == old(self).after_blocks(n as int),
    {
        let passed = match n.checked_mul(self.block_time) {
            Some(t) => t,
            None => u64::MAX,
        };
        proof {
            assert(n * self.block_time >= 0) by (nonlinear_arith)
                requires
                    n >= 0,
                    self.block_time >= 0,
            ;
        }
        self.height = self.height.saturating_add(n);
        self.timestamp = self.timestamp.saturating_add(passed);
    }
}

/// Skipping `a` blocks and then `b` is skipping `a + b` at once.
pub proof fn lemma_after_blocks_add(c: LedgerClock, a: int, b: int)
    requires
        0 <= a,
        0 <= b,
    ensures
        c.after_blocks(a).after_blocks(b) == c.after_blocks(a + b),
{
    assert((a + b) * c.block_time == a * c.block_time + b * c.block_time) by (nonlinear_arith);
    assert(a * c.block_time >= 0 && b * c.block_time >= 0) by (nonlinear_arith)
        requires
            0 <= a,
            0 <= b,
            c.block_time >= 0,
    ;
}

/// The epoch never goes back.
pub proof fn lemma_epoch_monotonic(c: LedgerClock, n: int)
    requires
        c.wf(),
        0 <= n,
    ensures
        c.after_blocks(n).wf(),
        c.after_blocks(n).epoch() >= c.epoch(),
{
    vstd::arithmetic::div_mod::lemma_div_is_ordered(
        c.height as int,
        c.after_blocks(n).height as int,
        c.epoch_length as int,
    );
}

/// The decision after each burst of a wait for the next epoch: `changed`
/// says whether the epoch now differs from the one at the start, `bursts` how
/// many bursts have been skipped.
pub fn epoch_wait_step(changed: bool, bursts: u64) -> (step: WaitStep)
    ensures
        changed ==> step == WaitStep::Done,
        !changed && bursts >= MAX_BURSTS ==> step == WaitStep::Stalled,
        !changed && bursts < MAX_BURSTS ==> step == WaitStep::Advance,
{
    if changed {
        WaitStep::Done
    } else if bursts >= MAX_BURSTS {
        WaitStep::Stalled
    } else {
        WaitStep::Advance
    }
}

/// Fast-forwards to the next epoch: skips bursts of blocks until the epoch
/// differs from the one at the start, and returns the number of blocks
/// skipped. A clock whose epoch has not changed after all the bursts allowed
/// has stalled.
pub fn wait_epoch(clock: &mut LedgerClock) -> (r: Result<u64, Error>)
    requires
        old(clock).wf(),
    ensures
        final(clock).wf(),
        *final(clock) == old(clock).waited(),
        match old(clock).bursts_to_next_epoch() {
            Some(k) => r == Ok::<u64, Error>((k * BLOCKS_PER_BURST) as u64) && final(clock).epoch()
                > old(clock).epoch(),
            None => r == Err::<u64, Error>(Error::ClockStalled),
        },
{
    let start = clock.current_epoch();
    let mut bursts: u64 = 0;
    let mut skipped: u64 = 0;
    loop
        invariant_except_break
            bursts < MAX_BURSTS,
            skipped == bursts * BLOCKS_PER_BURST,
            *clock == old(clock).after_blocks(skipped as int),
            forall|j: int| 1 <= j <= bursts ==> old(clock).unchanged_after(j),
        invariant
            old(clock).wf(),
            clock.wf(),
            start == old(clock).epoch(),
        ensures
            clock.wf(),
            *clock == old(clock).after_blocks(skipped as int),
            skipped == bursts * BLOCKS_PER_BURST,
            1 <= bursts <= MAX_BURSTS,
            forall|j: int| 1 <= j < bursts ==> old(clock).unchanged_after(j),
            old(clock).unchanged_after(bursts as int) ==> bursts == MAX_BURSTS,
            !old(clock).unchanged_after(bursts as int) ==> clock.epoch() > old(clock).epoch(),
        decreases MAX_BURSTS - bursts,
    {
        proof {
            lemma_after_blocks_add(*old(clock), skipped as int, BLOCKS_PER_BURST as int);
            lemma_epoch_monotonic(*old(clock), skipped + BLOCKS_PER_BURST);
        }
        clock.advance_blocks(BLOCKS_PER_BURST);
        bursts = bursts + 1;
        skipped = skipped + BLOCKS_PER_BURST;
        let changed = clock.current_epoch() != start;
        match epoch_wait_step(changed, bursts) {
            WaitStep::Advance => {},
            _ => {
                break ;
            },
        }
    }
    proof {
        let k = bursts as int;
        if old(clock).unchanged_after(k) {
            assert forall|j: int| !old(clock).changes_at(j) by {
                if old(clock).changes_at(j) {
                    assert(old(clock).unchanged_after(j));
                }
            }
        } else {
            assert(old(clock).changes_at(k));
            let c = choose|c: int| old(clock).changes_at(c);
            assert(old(clock).changes_at(c));
            if c < k {
                assert(old(clock).unchanged_after(c));
            }
            if k < c {
                assert(old(clock).unchanged_after(k));
            }
            assert(c == k);
        }
    }
    if clock.current_epoch() != start {
        Ok(skipped)
    } else {
        Err(Error::ClockStalled)
    }
}

/// Fast-forwards through `epochs_num` epochs, one wait after the other, and
/// stops at the first that fails.
pub fn wait_epochs(clock: &mut LedgerClock, epochs_num: u64) -> (r: Result<(), Error>)
    requires
        old(clock).wf(),
    ensures
        final(clock).wf(),
        match old(clock).waited_epochs(epochs_num as nat) {
            Ok(c) => r is Ok && *final(clock) == c && c.epoch() >= old(clock).epoch() + epochs_num,
            Err(c) => r == Err::<(), Error>(Error::ClockStalled) && *final(clock) == c,
        },
{
    let mut i: u64 = 0;
    while i < epochs_num
        invariant
            clock.wf(),
            i <= epochs_num,
            clock.waited_epochs((epochs_num - i) as nat) == old(clock).waited_epochs(
                epochs_num as nat,
            ),
            clock.epoch() >= old(clock).epoch() + i,
        decreases epochs_num - i,
    {
        match wait_epoch(clock) {
            Ok(_) => {},
            Err(e) => {
                return Err(e);
            },
        }
        i = i + 1;
    }
    Ok(())
}

} // verus!
