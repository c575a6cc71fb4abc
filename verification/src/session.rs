//! The polling session: configuration, counters, and the poll loop's
//! state machine.
//!
//! The machine owns every decision of the long-lived worker loop —
//! when to connect and with which slave identifier, what a connect or
//! scan outcome does to the session, when stats are dumped, when the
//! next scan is due, and when cancellation is honoured.  The caller
//! performs the timed I/O around it.

use vstd::prelude::*;
use crate::param::{ParamModel, Parameter, params_view};
use crate::value::ValueModel;

verus! {

/// Milliseconds between two polling scans.
pub const SUN2000_POLL_INTERVAL_MS: u64 = 2000;

/// Milliseconds between two statistics dumps.
pub const SUN2000_STATS_DUMP_INTERVAL_MS: u64 = 3_600_000;

/// Wall-clock timeout for the transport connect call, in milliseconds.
pub const CONNECT_TIMEOUT_MS: u64 = 5000;

/// How long to wait after a failed connect before trying again.
pub const RECONNECT_DELAY_MS: u64 = 2000;

/// How long to let a fresh connection settle before the initial read.
pub const SETTLE_DELAY_MS: u64 = 2000;

/// How long the poll loop idles between cadence checks, bounding the
/// latency with which cancellation is observed.
pub const IDLE_SLEEP_MS: u64 = 30;

/// One configured inverter device and its session counters.
pub struct Sun2000 {
    pub name: String,
    pub host_port: String,
    pub poll_ok: u64,
    pub poll_errors: u64,
    pub influxdb_url: Option<String>,
    pub influxdb_token: Option<String>,
    pub mode_change_script: Option<String>,
    pub dongle_connection: bool,
    pub partial: bool,
}

impl Sun2000 {
    /// The protocol slave identifier this device is addressed with: 1
    /// when bridged through a serial dongle, 0 when attached directly.
    pub fn slave_id(&self) -> (r: u8)
        ensures
            r == (if self.dongle_connection {
                1u8
            } else {
                0u8
            }),
    {
        if self.dongle_connection {
            1
        } else {
            0
        }
    }
}

/// Where the session stands.
#[derive(Clone, Copy, PartialEq, Eq, Structural, Debug)]
pub enum SessionState {
    /// No usable transport; the next step is a connect attempt.
    Disconnected,
    /// A connect attempt is in flight.
    Connecting,
    /// Connected; the initial read and the descriptor exchange run.
    Discovering,
    /// The steady-state poll loop.
    Polling,
    /// Cancellation honoured; the task winds down.
    Terminated,
}

/// What the poll loop does in one iteration.
#[derive(Clone, Copy, PartialEq, Eq, Structural, Debug)]
pub struct PollPlan {
    /// Dump the statistics line now.
    pub emit_stats: bool,
    /// Leave the loop: cancellation was observed.
    pub stop: bool,
    /// Run one full catalog scan now.
    pub run_scan: bool,
}

/// The connection and poll-cadence state machine of one session.
pub struct SessionMachine {
    pub state: SessionState,
    pub poll_ok: u64,
    pub poll_errors: u64,
    pub daily_yield_energy: Option<u32>,
    pub expected_count: usize,
    pub last_poll_ms: u64,
    pub last_stats_ms: u64,
    pub terminated: bool,
}

/// The last daily-yield reading in a parameter run: the value of the
/// final `daily_yield_energy` 32-bit unsigned parameter, or `prev` when
/// the run holds none.
pub open spec fn spec_daily_yield(ps: Seq<ParamModel>, prev: Option<u32>) -> Option<u32>
    decreases ps.len(),
{
    if ps.len() == 0 {
        prev
    } else {
        match ps.last().value {
            ValueModel::NumberU32(n) => if ps.last().name == "daily_yield_energy"@ {
                n
            } else {
                spec_daily_yield(ps.drop_last(), prev)
            },
            _ => spec_daily_yield(ps.drop_last(), prev),
        }
    }
}

impl SessionMachine {
    /// A fresh session machine, disconnected, with both cadence timers
    /// primed at the current monotonic time.
    pub fn new(expected_count: usize, now_ms: u64) -> (r: SessionMachine)
        ensures
            r.state is Disconnected,
            r.poll_ok == 0,
            r.poll_errors == 0,
            r.daily_yield_energy is None,
            r.expected_count == expected_count,
            r.last_poll_ms == now_ms,
            r.last_stats_ms == now_ms,
            !r.terminated,
    {
        SessionMachine {
            state: SessionState::Disconnected,
            poll_ok: 0,
            poll_errors: 0,
            daily_yield_energy: None,
            expected_count,
            last_poll_ms: now_ms,
            last_stats_ms: now_ms,
            terminated: false,
        }
    }

    /// At the top of the outer loop: honour cancellation, otherwise
    /// start a connect attempt.  Returns whether to connect.
    pub fn connect_attempt(&mut self, cancel: bool) -> (connect: bool)
        requires
            old(self).state is Disconnected,
        ensures
            connect == !(cancel || old(self).terminated),
            final(self).state == (if cancel || old(self).terminated {
                SessionState::Terminated
            } else {
                SessionState::Connecting
            }),
            final(self).terminated == (cancel || old(self).terminated),
            final(self).poll_ok == old(self).poll_ok,
            final(self).poll_errors == old(self).poll_errors,
            final(self).daily_yield_energy == old(self).daily_yield_energy,
            final(self).expected_count == old(self).expected_count,
            final(self).last_poll_ms == old(self).last_poll_ms,
            final(self).last_stats_ms == old(self).last_stats_ms,
    {
        if cancel || self.terminated {
            self.terminated = true;
            self.state = SessionState::Terminated;
            false
        } else {
            self.state = SessionState::Connecting;
            true
        }
    }

    /// Books the outcome of the connect attempt.  Success moves on to
    /// discovery; failure (a refused connect or a connect timeout)
    /// returns to `Disconnected`, and the caller backs off
    /// [`RECONNECT_DELAY_MS`] before the next attempt — reconnection
    /// retries forever.
    pub fn on_connect_result(&mut self, ok: bool)
        requires
            old(self).state is Connecting,
        ensures
            final(self).state == (if ok {
                SessionState::Discovering
            } else {
                SessionState::Disconnected
            }),
            final(self).poll_ok == old(self).poll_ok,
            final(self).poll_errors == old(self).poll_errors,
            final(self).daily_yield_energy == old(self).daily_yield_energy,
            final(self).expected_count == old(self).expected_count,
            final(self).last_poll_ms == old(self).last_poll_ms,
            final(self).last_stats_ms == old(self).last_stats_ms,
            final(self).terminated == old(self).terminated,
    {
        if ok {
            self.state = SessionState::Discovering;
        } else {
            self.state = SessionState::Disconnected;
        }
    }

    /// Books the initial-read scan.  A session-fatal abort discards the
    /// session; otherwise discovery continues with the descriptor
    /// exchange, whose own failure is non-fatal.
    pub fn on_initial_scan(&mut self, aborted: bool)
        requires
            old(self).state is Discovering,
        ensures
            final(self).state == (if aborted {
                SessionState::Disconnected
            } else {
                SessionState::Discovering
            }),
            final(self).poll_ok == old(self).poll_ok,
            final(self).poll_errors == old(self).poll_errors,
            final(self).daily_yield_energy == old(self).daily_yield_energy,
            final(self).expected_count == old(self).expected_count,
            final(self).last_poll_ms == old(self).last_poll_ms,
            final(self).last_stats_ms == old(self).last_stats_ms,
            final(self).terminated == old(self).terminated,
    {
        if aborted {
            self.state = SessionState::Disconnected;
        }
    }

    /// Discovery is over (the descriptor exchange succeeded or was
    /// written off): enter the steady-state poll loop.
    pub fn on_discovery_done(&mut self)
        requires
            old(self).state is Discovering,
        ensures
            final(self).state is Polling,
            final(self).poll_ok == old(self).poll_ok,
            final(self).poll_errors == old(self).poll_errors,
            final(self).daily_yield_energy == old(self).daily_yield_energy,
            final(self).expected_count == old(self).expected_count,
            final(self).last_poll_ms == old(self).last_poll_ms,
            final(self).last_stats_ms == old(self).last_stats_ms,
            final(self).terminated == old(self).terminated,
    {
        self.state = SessionState::Polling;
    }

    /// One iteration of the poll loop: observe cancellation, decide
    /// whether to dump stats, whether to stop, and whether a scan is
    /// due.  Stats are dumped on their own cadence and once more on the
    /// way out; a stopped iteration never scans.
    pub fn poll_tick(&mut self, now_ms: u64, cancel: bool) -> (r: PollPlan)
        requires
            old(self).state is Polling,
            now_ms >= old(self).last_poll_ms,
            now_ms >= old(self).last_stats_ms,
        ensures
            final(self).terminated == (cancel || old(self).terminated),
            r.stop == final(self).terminated,
            r.emit_stats == (final(self).terminated || now_ms - old(self).last_stats_ms
                > SUN2000_STATS_DUMP_INTERVAL_MS),
            r.run_scan == (!r.stop && now_ms - old(self).last_poll_ms
                > SUN2000_POLL_INTERVAL_MS),
            final(self).last_stats_ms == (if r.emit_stats {
                now_ms
            } else {
                old(self).last_stats_ms
            }),
            final(self).last_poll_ms == (if r.run_scan {
                now_ms
            } else {
                old(self).last_poll_ms
            }),
            final(self).state == (if r.stop {
                SessionState::Terminated
            } else {
                SessionState::Polling
            }),
            final(self).poll_ok == old(self).poll_ok,
            final(self).poll_errors == old(self).poll_errors,
            final(self).daily_yield_energy == old(self).daily_yield_energy,
            final(self).expected_count == old(self).expected_count,
    {
        if cancel {
            self.terminated = true;
        }
        let emit_stats = self.terminated || now_ms - self.last_stats_ms
            > SUN2000_STATS_DUMP_INTERVAL_MS;
        if emit_stats {
            self.last_stats_ms = now_ms;
        }
        let stop = self.terminated;
        let run_scan = !stop && now_ms - self.last_poll_ms > SUN2000_POLL_INTERVAL_MS;
        if run_scan {
            self.last_poll_ms = now_ms;
        }
        if stop {
            self.state = SessionState::Terminated;
        }
        PollPlan { emit_stats, stop, run_scan }
    }

    /// Books one completed steady-state scan.  A scan that was aborted
    /// by a session-fatal error, or that decoded fewer or more
    /// parameters than the filtered catalog expects, counts as a failed
    /// poll and forces a full reconnect; a complete scan counts as a
    /// successful poll and the loop stays at `Polling`.
    pub fn on_scan_result(&mut self, count: usize, aborted: bool)
        requires
            old(self).state is Polling,
            old(self).poll_ok < u64::MAX,
            old(self).poll_errors < u64::MAX,
        ensures
            ({
                let good = !aborted && count == old(self).expected_count;
                &&& final(self).state == (if good {
                    SessionState::Polling
                } else {
                    SessionState::Disconnected
                })
                &&& final(self).poll_ok == (if good {
                    old(self).poll_ok + 1
                } else {
                    old(self).poll_ok as int
                })
                &&& final(self).poll_errors == (if good {
                    old(self).poll_errors as int
                } else {
                    old(self).poll_errors + 1
                })
            }),
            final(self).daily_yield_energy == old(self).daily_yield_energy,
            final(self).expected_count == old(self).expected_count,
            final(self).last_poll_ms == old(self).last_poll_ms,
            final(self).last_stats_ms == old(self).last_stats_ms,
            final(self).terminated == old(self).terminated,
    {
        if !aborted && count == self.expected_count {
            self.poll_ok = self.poll_ok + 1;
        } else {
            self.poll_errors = self.poll_errors + 1;
            self.state = SessionState::Disconnected;
        }
    }

    /// Remembers the latest daily-yield reading out of a scan's decoded
    /// parameters, for the statistics line.
    pub fn update_daily_yield(&mut self, params: &Vec<Parameter>)
        ensures
            final(self).daily_yield_energy == spec_daily_yield(
                params_view(params@),
                old(self).daily_yield_energy,
            ),
            final(self).state == old(self).state,
            final(self).poll_ok == old(self).poll_ok,
            final(self).poll_errors == old(self).poll_errors,
            final(self).expected_count == old(self).expected_count,
            final(self).last_poll_ms == old(self).last_poll_ms,
            final(self).last_stats_ms == old(self).last_stats_ms,
            final(self).terminated == old(self).terminated,
    {
        let ghost ps = params_view(params@);
        let n = params.len();
        let mut i: usize = 0;
        let ghost prev = self.daily_yield_energy;
        while i < n
            invariant
                n == params@.len(),
                i <= n,
                ps == params_view(params@),
                self.daily_yield_energy == spec_daily_yield(ps.take(i as int), prev),
                self.state == old(self).state,
                self.poll_ok == old(self).poll_ok,
                self.poll_errors == old(self).poll_errors,
                self.expected_count == old(self).expected_count,
                self.last_poll_ms == old(self).last_poll_ms,
                self.last_stats_ms == old(self).last_stats_ms,
                self.terminated == old(self).terminated,
                prev == old(self).daily_yield_energy,
            decreases n - i,
        {
            let p = &params[i];
            proof {
                assert(p@ == ps[i as int]);
                assert(ps.take(i + 1).drop_last() =~= ps.take(i as int));
                assert(ps.take(i + 1).last() == p@);
            }
            match &p.value {
                crate::value::ParamKind::NumberU32(v) => {
                    if crate::strutil::str_eq(p.name.as_str(), "daily_yield_energy") {
                        self.daily_yield_energy = *v;
                    }
                },
                _ => {},
            }
            i += 1;
        }
        proof {
            assert(ps.take(n as int) =~= ps);
        }
    }
}

} // verus!
