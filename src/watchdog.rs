use vstd::prelude::*;

verus! {

/// Seconds the watchdog sleeps between two looks at the process.
pub const POLL_INTERVAL_SECS: u64 = 10;

/// What the watchdog does after a look at the process.
#[derive(PartialEq, Eq, Structural, Clone, Copy, Debug)]
pub enum WatchAction {
    /// The process runs within its time: sleep, then look again.
    Wait,
    /// The process ran past its time: force it to end, then stop watching.
    Kill,
    /// The process has ended by itself: stop watching.
    Stop,
}

/// Milliseconds from `start_ms` to `now_ms`; none where the clock went back.
pub open spec fn elapsed_ms(start_ms: u64, now_ms: u64) -> nat {
    if now_ms >= start_ms {
        (now_ms - start_ms) as nat
    } else {
        0
    }
}

/// Whether more than `timeout_secs` seconds passed from `start_ms` to `now_ms`.
pub open spec fn past_timeout(start_ms: u64, now_ms: u64, timeout_secs: u64) -> bool {
    elapsed_ms(start_ms, now_ms) > timeout_secs * 1000
}

/// The watchdog's decision for a command started at `start_ms` (milliseconds
/// since the Unix epoch), looked at `now_ms`, allowed `timeout_secs` seconds.
pub fn watch_step(exited: bool, start_ms: u64, now_ms: u64, timeout_secs: u64) -> (r: WatchAction)
    ensures
        r == if exited {
            WatchAction::Stop
        } else if past_timeout(start_ms, now_ms, timeout_secs) {
            WatchAction::Kill
        } else {
            WatchAction::Wait
        },
{
    if exited {
        return WatchAction::Stop;
    }
    let elapsed: u64 = if now_ms >= start_ms {
        now_ms - start_ms
    } else {
        0
    };
    if (elapsed as u128) > (timeout_secs as u128) * 1000 {
        WatchAction::Kill
    } else {
        WatchAction::Wait
    }
}

} // verus!
