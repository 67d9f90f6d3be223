//! Waiting until the sidecar accepts connections.

use vstd::prelude::*;

use crate::error::ShellError;
use crate::text::{decimal, digits, join, law_digits_read_back, value_of};

verus! {

/// Loopback port the sidecar listens on.
pub const SIDECAR_PORT: u16 = 8080;

/// How long the sidecar may take to accept connections, in seconds.
pub const SIDECAR_READY_TIMEOUT_SECS: u64 = 20;

/// How long one attempt to connect may take, in milliseconds.
pub const PROBE_TIMEOUT_MILLIS: u64 = 200;

/// How long to wait between two attempts, in milliseconds.
pub const RETRY_PAUSE_MILLIS: u64 = 150;

/// The loopback address with port `port`.
pub open spec fn loopback_addr(port: u16) -> Seq<char> {
    "127.0.0.1:"@ + digits(port as nat)
}

/// The address the sidecar listens on.
pub fn sidecar_addr() -> (r: String)
    ensures
        r@ == loopback_addr(SIDECAR_PORT),
        r@ == "127.0.0.1:"@ + digits(SIDECAR_PORT as nat),
{
    join("127.0.0.1:", &decimal(SIDECAR_PORT as u64))
}

/// What has happened while waiting.
#[derive(Debug)]
pub enum WaitEvent {
    /// The clock was read: this many nanoseconds have gone by since waiting began.
    Elapsed(u128),
    /// The sidecar's process was looked at.
    Child { dead: bool },
    /// An attempt to connect was made, and the sidecar's process was looked at once more after it.
    Probe { connected: bool, dead: bool },
    /// The pause between two attempts is over.
    Paused,
}

/// What is to be done next while waiting.
#[derive(Debug)]
pub enum WaitStep {
    /// Read the clock. Waiting begins with this.
    ReadClock,
    /// See whether the sidecar's process has died.
    CheckChild,
    /// Try to connect, for at most this long, and then see whether the process has died.
    Connect { millis: u64 },
    /// Pause for this long.
    Pause { millis: u64 },
    /// Stop waiting.
    Done(Result<(), ShellError>),
}

/// The step that answers an event when waiting lasts `timeout` nanoseconds at most.
pub open spec fn wait_step(timeout: u128, event: WaitEvent) -> WaitStep {
    match event {
        WaitEvent::Elapsed(t) => if t < timeout {
            WaitStep::CheckChild
        } else {
            WaitStep::Done(Err(ShellError::NotReady { seconds: SIDECAR_READY_TIMEOUT_SECS }))
        },
        WaitEvent::Child { dead } => if dead {
            WaitStep::Done(Err(ShellError::PortTaken { port: SIDECAR_PORT }))
        } else {
            WaitStep::Connect { millis: PROBE_TIMEOUT_MILLIS }
        },
        WaitEvent::Probe { connected, dead } => if !connected {
            WaitStep::Pause { millis: RETRY_PAUSE_MILLIS }
        } else if dead {
            WaitStep::Done(Err(ShellError::PortTaken { port: SIDECAR_PORT }))
        } else {
            WaitStep::Done(Ok(()))
        },
        WaitEvent::Paused => WaitStep::ReadClock,
    }
}

/// Waits for the sidecar. A sidecar that died is not waited for, even where something answers at
/// its address: then another process owns the port. An answer counts only if the sidecar's process
/// is still alive after it.
pub fn wait_for_sidecar_ready(timeout: u128, event: WaitEvent) -> (step: WaitStep)
    ensures
        step == wait_step(timeout, event),
        step matches WaitStep::Connect { millis } ==> millis == PROBE_TIMEOUT_MILLIS,
        step matches WaitStep::Pause { millis } ==> millis == RETRY_PAUSE_MILLIS,
        step == WaitStep::Done(Ok(())) <==> event == (WaitEvent::Probe {
            connected: true,
            dead: false,
        }),
{
    match event {
        WaitEvent::Elapsed(t) => if t < timeout {
            WaitStep::CheckChild
        } else {
            WaitStep::Done(Err(ShellError::NotReady { seconds: SIDECAR_READY_TIMEOUT_SECS }))
        },
        WaitEvent::Child { dead } => if dead {
            WaitStep::Done(Err(ShellError::PortTaken { port: SIDECAR_PORT }))
        } else {
            WaitStep::Connect { millis: PROBE_TIMEOUT_MILLIS }
        },
        WaitEvent::Probe { connected, dead } => if !connected {
            WaitStep::Pause { millis: RETRY_PAUSE_MILLIS }
        } else if dead {
            WaitStep::Done(Err(ShellError::PortTaken { port: SIDECAR_PORT }))
        } else {
            WaitStep::Done(Ok(()))
        },
        WaitEvent::Paused => WaitStep::ReadClock,
    }
}

/// What one round of waiting would observe: the clock, the process, an attempt to connect, and the
/// process after that attempt.
pub struct Round {
    pub elapsed: u128,
    pub dead: bool,
    pub connected: bool,
    pub dead_after: bool,
}

/// The event with which a round answers a step; a step that asks for nothing is answered by the
/// end of the pause.
pub open spec fn answer(step: WaitStep, round: Round) -> WaitEvent {
    match step {
        WaitStep::ReadClock => WaitEvent::Elapsed(round.elapsed),
        WaitStep::CheckChild => WaitEvent::Child { dead: round.dead },
        WaitStep::Connect { .. } => WaitEvent::Probe {
            connected: round.connected,
            dead: round.dead_after,
        },
        _ => WaitEvent::Paused,
    }
}

/// Where waiting stands after `fuel` steps from `step`, all answered by one round.
pub open spec fn after_steps(timeout: u128, step: WaitStep, round: Round, fuel: nat) -> WaitStep
    decreases fuel,
{
    if fuel == 0 || step is Done {
        step
    } else {
        after_steps(timeout, wait_step(timeout, answer(step, round)), round, (fuel - 1) as nat)
    }
}

/// Where waiting stands after these rounds. A round takes four steps: the clock, the process, an
/// attempt to connect, and the pause.
pub open spec fn after_rounds(timeout: u128, rounds: Seq<Round>) -> WaitStep
    decreases rounds.len(),
{
    if rounds.len() == 0 {
        WaitStep::ReadClock
    } else {
        after_steps(timeout, after_rounds(timeout, rounds.drop_last()), rounds.last(), 4)
    }
}

/// Whether a round leaves the matter open: there is time, the process lives, and nothing answers.
pub open spec fn inconclusive(timeout: u128, round: Round) -> bool {
    round.elapsed < timeout && !round.dead && !round.connected
}

/// Whether `k` is the first round that decides.
pub open spec fn decides(timeout: u128, rounds: Seq<Round>, k: int) -> bool {
    &&& 0 <= k < rounds.len()
    &&& !inconclusive(timeout, rounds[k])
    &&& forall|j: int| 0 <= j < k ==> inconclusive(timeout, #[trigger] rounds[j])
}

/// What a deciding round decides: time comes first, then the process, and only then the answer,
/// which the process has to outlive.
pub open spec fn verdict(timeout: u128, round: Round) -> WaitStep {
    if round.elapsed >= timeout {
        WaitStep::Done(Err(ShellError::NotReady { seconds: SIDECAR_READY_TIMEOUT_SECS }))
    } else if round.dead || round.dead_after {
        WaitStep::Done(Err(ShellError::PortTaken { port: SIDECAR_PORT }))
    } else {
        WaitStep::Done(Ok(()))
    }
}

proof fn lemma_one_round(timeout: u128, round: Round)
    ensures
        after_steps(timeout, WaitStep::ReadClock, round, 4) == if inconclusive(timeout, round) {
            WaitStep::ReadClock
        } else {
            verdict(timeout, round)
        },
{
    reveal_with_fuel(after_steps, 5);
}

/// Waiting ends with the first round that decides, and as that round decides; while no round
/// decides it goes on.
pub proof fn law_first_decision_counts(timeout: u128, rounds: Seq<Round>)
    ensures
        forall|k: int| #[trigger]
            decides(timeout, rounds, k) ==> after_rounds(timeout, rounds) == verdict(
                timeout,
                rounds[k],
            ),
        (forall|j: int| 0 <= j < rounds.len() ==> inconclusive(timeout, #[trigger] rounds[j]))
            ==> after_rounds(timeout, rounds) == WaitStep::ReadClock,
    decreases rounds.len(),
{
    if rounds.len() > 0 {
        let front = rounds.drop_last();
        let n = front.len() as int;
        law_first_decision_counts(timeout, front);
        lemma_one_round(timeout, rounds.last());
        assert(forall|j: int| 0 <= j < n ==> front[j] == rounds[j]);
        assert forall|k: int| #[trigger] decides(timeout, rounds, k) implies after_rounds(
            timeout,
            rounds,
        ) == verdict(timeout, rounds[k]) by {
            if k < n {
                assert(decides(timeout, front, k));
            } else {
                assert(forall|j: int| 0 <= j < n ==> inconclusive(timeout, #[trigger] front[j]));
            }
        }
    }
}

proof fn lemma_first_decision(timeout: u128, rounds: Seq<Round>)
    requires
        exists|j: int| 0 <= j < rounds.len() && !inconclusive(timeout, #[trigger] rounds[j]),
    ensures
        exists|k: int| decides(timeout, rounds, k),
    decreases rounds.len(),
{
    let front = rounds.drop_last();
    if exists|j: int| 0 <= j < front.len() && !inconclusive(timeout, #[trigger] front[j]) {
        lemma_first_decision(timeout, front);
        let k = choose|k: int| decides(timeout, front, k);
        assert(rounds[k] == front[k]);
        assert(forall|j: int| 0 <= j < k ==> rounds[j] == front[j]);
        assert(decides(timeout, rounds, k));
    } else {
        let n = front.len() as int;
        assert(forall|j: int| 0 <= j < n ==> front[j] == rounds[j]);
        assert(decides(timeout, rounds, n));
    }
}

/// The sidecar is reported ready exactly when the first round that decides has an answer, in time,
/// and the process was alive both before and after it.
pub proof fn law_ready_means_answered(timeout: u128, rounds: Seq<Round>)
    ensures
        after_rounds(timeout, rounds) == WaitStep::Done(Ok(())) <==> exists|k: int|
            {
                &&& #[trigger] decides(timeout, rounds, k)
                &&& rounds[k].connected
                &&& !rounds[k].dead
                &&& !rounds[k].dead_after
                &&& rounds[k].elapsed < timeout
            },
{
    law_first_decision_counts(timeout, rounds);
    if exists|j: int| 0 <= j < rounds.len() && !inconclusive(timeout, #[trigger] rounds[j]) {
        lemma_first_decision(timeout, rounds);
    }
}

/// No answer counts that comes once the process was seen dead or time was up, whoever gives it; nor
/// does one during which the process died.
pub proof fn law_dead_sidecar_is_never_ready(timeout: u128, rounds: Seq<Round>, k: int)
    requires
        0 <= k < rounds.len(),
        rounds[k].dead || rounds[k].elapsed >= timeout || (rounds[k].connected
            && rounds[k].dead_after),
        forall|j: int| 0 <= j < k ==> (#[trigger] rounds[j]).connected ==> rounds[j].dead_after,
    ensures
        after_rounds(timeout, rounds) matches WaitStep::Done(Err(_)),
    decreases k,
{
    law_first_decision_counts(timeout, rounds);
    if forall|j: int| 0 <= j < k ==> inconclusive(timeout, #[trigger] rounds[j]) {
        assert(decides(timeout, rounds, k));
    } else {
        let j = choose|j: int| 0 <= j < k && !inconclusive(timeout, #[trigger] rounds[j]);
        law_dead_sidecar_is_never_ready(timeout, rounds, j);
    }
}

/// Once the process has died, in whatever moment of a round, only an answer that came before can make
/// the sidecar ready: every later round sees the process dead.
pub proof fn law_death_ends_waiting(timeout: u128, rounds: Seq<Round>, k: int)
    requires
        0 <= k < rounds.len() - 1,
        rounds[k].dead_after,
        rounds[k + 1].dead,
        forall|j: int| 0 <= j < k ==> !(#[trigger] rounds[j]).connected,
    ensures
        after_rounds(timeout, rounds) matches WaitStep::Done(Err(_)),
{
    law_dead_sidecar_is_never_ready(timeout, rounds, k + 1);
}

/// Waiting ends: any round that finds the time up is the last.
pub proof fn law_waiting_ends(timeout: u128, rounds: Seq<Round>)
    requires
        rounds.len() > 0,
        rounds.last().elapsed >= timeout,
    ensures
        after_rounds(timeout, rounds) is Done,
{
    lemma_one_round(timeout, rounds.last());
    law_first_decision_counts(timeout, rounds.drop_last());
    let front = rounds.drop_last();
    if !(forall|j: int| 0 <= j < front.len() ==> inconclusive(timeout, #[trigger] front[j])) {
        lemma_first_decision(timeout, front);
    }
}

/// Whether an attempt to connect is made in round `k`.
pub open spec fn attempts(timeout: u128, rounds: Seq<Round>, k: int) -> bool {
    after_steps(timeout, after_rounds(timeout, rounds.take(k)), rounds[k], 2) is Connect
}

/// Attempts are bounded: when round `k` begins after `k` pauses at least, an attempt is made in it
/// only if these pauses take less than the timeout. So there are no more than 134 attempts within the
/// time that the sidecar has.
pub proof fn law_attempts_are_bounded(timeout: u128, rounds: Seq<Round>, k: int)
    requires
        0 <= k < rounds.len(),
        rounds[k].elapsed >= k * RETRY_PAUSE_MILLIS * 1_000_000,
        attempts(timeout, rounds, k),
    ensures
        k * RETRY_PAUSE_MILLIS * 1_000_000 < timeout,
        timeout == SIDECAR_READY_TIMEOUT_SECS * 1_000_000_000 ==> k < 134,
{
    reveal_with_fuel(after_steps, 3);
    let front = rounds.take(k);
    law_first_decision_counts(timeout, front);
    if exists|j: int| 0 <= j < front.len() && !inconclusive(timeout, #[trigger] front[j]) {
        lemma_first_decision(timeout, front);
    }
    assert(after_rounds(timeout, front) == WaitStep::ReadClock);
}

/// Whatever the timeout and whatever happened, a pause lasts 150 milliseconds and an attempt to
/// connect 200 milliseconds at most.
pub proof fn law_pauses_and_attempts_are_short(timeout: u128, event: WaitEvent)
    ensures
        wait_step(timeout, event) matches WaitStep::Pause { millis } ==> millis
            == RETRY_PAUSE_MILLIS && millis == 150,
        wait_step(timeout, event) matches WaitStep::Connect { millis } ==> millis
            == PROBE_TIMEOUT_MILLIS && millis == 200,
{
}

/// Each observation has one consequence. Time that is up ends waiting, and time that is not leads to a
/// look at the process; a dead process ends waiting, and a live one is connected to; an attempt that
/// failed leads to a pause, and one that succeeded ends waiting, well if the process is still alive;
/// the end of the pause leads back to the clock.
pub proof fn law_each_observation_has_one_consequence(
    timeout: u128,
    elapsed: u128,
    connected: bool,
    dead: bool,
)
    ensures
        elapsed < timeout ==> wait_step(timeout, WaitEvent::Elapsed(elapsed))
            == WaitStep::CheckChild,
        elapsed >= timeout ==> wait_step(timeout, WaitEvent::Elapsed(elapsed)) == WaitStep::Done(
            Err(ShellError::NotReady { seconds: SIDECAR_READY_TIMEOUT_SECS }),
        ),
        wait_step(timeout, WaitEvent::Child { dead: false }) == (WaitStep::Connect {
            millis: PROBE_TIMEOUT_MILLIS,
        }),
        wait_step(timeout, WaitEvent::Child { dead: true }) == WaitStep::Done(
            Err(ShellError::PortTaken { port: SIDECAR_PORT }),
        ),
        wait_step(timeout, WaitEvent::Probe { connected: false, dead }) == (WaitStep::Pause {
            millis: RETRY_PAUSE_MILLIS,
        }),
        wait_step(timeout, WaitEvent::Probe { connected: true, dead: false }) == WaitStep::Done(
            Ok(()),
        ),
        wait_step(timeout, WaitEvent::Probe { connected: true, dead: true }) == WaitStep::Done(
            Err(ShellError::PortTaken { port: SIDECAR_PORT }),
        ),
        wait_step(timeout, WaitEvent::Paused) == WaitStep::ReadClock,
{
}

/// The timeout matters to nothing but the reading of the clock, and there only by whether the reading
/// is below it.
pub proof fn law_timeout_matters_to_the_clock_alone(
    timeout: u128,
    other: u128,
    event: WaitEvent,
    elapsed: u128,
)
    ensures
        event !is Elapsed ==> wait_step(timeout, event) == wait_step(other, event),
        (elapsed < timeout <==> elapsed < other) ==> wait_step(timeout, WaitEvent::Elapsed(elapsed))
            == wait_step(other, WaitEvent::Elapsed(elapsed)),
{
}

/// The address holds the port itself, in decimal.
pub proof fn law_address_holds_the_port(port: u16)
    ensures
        exists|d: Seq<char>|
            {
                &&& loopback_addr(port) == #[trigger] ("127.0.0.1:"@ + d)
                &&& value_of(d) == port
                &&& forall|i: int| 0 <= i < d.len() ==> '0' <= #[trigger] d[i] <= '9'
                &&& d.len() > 1 ==> d[0] != '0'
            },
{
    law_digits_read_back(port as nat);
    assert(loopback_addr(port) == "127.0.0.1:"@ + digits(port as nat));
}

/// How long a step may take that is asked for a time, in milliseconds.
pub open spec fn asked_millis(step: WaitStep) -> nat {
    match step {
        WaitStep::Connect { millis } => millis as nat,
        WaitStep::Pause { millis } => millis as nat,
        _ => 0,
    }
}

/// How long the first `fuel` steps from `step` may take in all, when one round answers them.
pub open spec fn steps_millis(timeout: u128, step: WaitStep, round: Round, fuel: nat) -> nat
    decreases fuel,
{
    if fuel == 0 || step is Done {
        0
    } else {
        asked_millis(step) + steps_millis(
            timeout,
            wait_step(timeout, answer(step, round)),
            round,
            (fuel - 1) as nat,
        )
    }
}

/// A round may take one attempt and one pause, whatever the timeout: no more.
pub proof fn law_round_is_one_attempt_and_one_pause(timeout: u128, round: Round)
    ensures
        steps_millis(timeout, WaitStep::ReadClock, round, 4) <= PROBE_TIMEOUT_MILLIS
            + RETRY_PAUSE_MILLIS,
        round.elapsed < timeout && !round.dead && !round.connected ==> steps_millis(
            timeout,
            WaitStep::ReadClock,
            round,
            4,
        ) == PROBE_TIMEOUT_MILLIS + RETRY_PAUSE_MILLIS,
{
    reveal_with_fuel(steps_millis, 5);
}

/// A server that answers from the moment `up` on, with its process alive, is reported ready, and that
/// in a round that begins within one attempt and one pause of that moment, when that is before the
/// timeout. All times are in nanoseconds; each round begins when the steps of the one before it are
/// over, and `slack` is what it takes besides them.
pub proof fn law_live_server_is_found(timeout: u128, rounds: Seq<Round>, up: nat, slack: nat)
    requires
        rounds.len() > 0,
        rounds[0].elapsed <= slack,
        forall|k: int|
            0 < k < rounds.len() ==> (#[trigger] rounds[k]).elapsed <= rounds[k - 1].elapsed
                + steps_millis(timeout, WaitStep::ReadClock, rounds[k - 1], 4) * 1_000_000 + slack,
        forall|k: int|
            0 <= k < rounds.len() ==> !(#[trigger] rounds[k]).dead && !rounds[k].dead_after,
        forall|k: int|
            0 <= k < rounds.len() && up <= (#[trigger] rounds[k]).elapsed ==> rounds[k].connected,
        up <= rounds.last().elapsed,
        up + (PROBE_TIMEOUT_MILLIS + RETRY_PAUSE_MILLIS) * 1_000_000 + slack < timeout,
    ensures
        after_rounds(timeout, rounds) == WaitStep::Done(Ok(())),
        exists|k: int|
            {
                &&& 0 <= k < rounds.len()
                &&& (#[trigger] rounds[k]).connected
                &&& rounds[k].elapsed <= up + (PROBE_TIMEOUT_MILLIS + RETRY_PAUSE_MILLIS)
                    * 1_000_000 + slack
                &&& after_rounds(timeout, rounds.take(k)) == WaitStep::ReadClock
                &&& after_rounds(timeout, rounds.take(k + 1)) == WaitStep::Done(Ok(()))
            },
{
    assert(!inconclusive(timeout, rounds[rounds.len() - 1]));
    lemma_first_decision(timeout, rounds);
    let k = choose|k: int| decides(timeout, rounds, k);
    if k > 0 {
        law_round_is_one_attempt_and_one_pause(timeout, rounds[k - 1]);
        assert(inconclusive(timeout, rounds[k - 1]));
    }
    assert(rounds[k].elapsed < timeout);
    assert(rounds[k].connected);
    law_first_decision_counts(timeout, rounds);
    let before = rounds.take(k);
    assert forall|j: int| 0 <= j < before.len() implies inconclusive(timeout, #[trigger] before[j]) by {
        assert(before[j] == rounds[j]);
    }
    law_first_decision_counts(timeout, before);
    let through = rounds.take(k + 1);
    assert(forall|j: int| 0 <= j <= k ==> through[j] == rounds[j]);
    assert(decides(timeout, through, k));
    law_first_decision_counts(timeout, through);
}

/// Readiness is never made up: a sidecar is reported ready only after an attempt to connect that
/// succeeded in time, in a round whose process was alive before and after it.
pub proof fn law_ready_only_after_an_answer(timeout: u128, rounds: Seq<Round>)
    requires
        after_rounds(timeout, rounds) == WaitStep::Done(Ok(())),
    ensures
        exists|k: int|
            0 <= k < rounds.len() && (#[trigger] rounds[k]).connected && !rounds[k].dead
                && !rounds[k].dead_after && rounds[k].elapsed < timeout,
{
    law_ready_means_answered(timeout, rounds);
    let k = choose|k: int|
        {
            &&& #[trigger] decides(timeout, rounds, k)
            &&& rounds[k].connected
            &&& !rounds[k].dead
            &&& !rounds[k].dead_after
            &&& rounds[k].elapsed < timeout
        };
    assert(rounds[k].connected);
}

/// What a call of [`wait_for_sidecar_ready`] asks for, whatever the timeout: a pause lasts 150
/// milliseconds, an attempt to connect 200 at most; an attempt is made only after a look at a live
/// process, a look only after a reading of the clock below the timeout, and a pause only after an
/// attempt that failed; and each end of waiting has its own cause.
pub proof fn law_each_request_has_its_cause(timeout: u128, event: WaitEvent, step: WaitStep)
    requires
        call_ensures(wait_for_sidecar_ready, (timeout, event), step),
    ensures
        step matches WaitStep::Pause { millis } ==> millis == 150,
        step matches WaitStep::Connect { millis } ==> millis == 200,
        step is Pause <==> (event matches WaitEvent::Probe { connected, .. } && !connected),
        step is Connect <==> (event matches WaitEvent::Child { dead } && !dead),
        step is CheckChild <==> (event matches WaitEvent::Elapsed(t) && t < timeout),
        step is ReadClock <==> event is Paused,
        step == WaitStep::Done(Ok(())) <==> (event matches WaitEvent::Probe { connected, dead }
            && connected && !dead),
        step == WaitStep::Done(Err(ShellError::NotReady { seconds: SIDECAR_READY_TIMEOUT_SECS }))
            <==> (event matches WaitEvent::Elapsed(t) && t >= timeout),
        step == WaitStep::Done(Err(ShellError::PortTaken { port: SIDECAR_PORT })) <==> {
            ||| event matches WaitEvent::Child { dead } && dead
            ||| event matches WaitEvent::Probe { connected, dead } && connected && dead
        },
{
}

/// The address that is connected to is the loopback address with the sidecar's port.
pub proof fn law_sidecar_address(addr: String)
    requires
        call_ensures(sidecar_addr, (), addr),
    ensures
        exists|d: Seq<char>|
            addr@ == #[trigger] ("127.0.0.1:"@ + d) && value_of(d) == SIDECAR_PORT && (d.len() > 1
                ==> d[0] != '0'),
{
    law_address_holds_the_port(SIDECAR_PORT);
}

} // verus!
