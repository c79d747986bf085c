//! The periodic fetch loop's decision logic.
//!
//! Each cycle the shell opens a transport, issues one GET and reports what
//! happened as a [`TransportReport`]. The functions here classify that
//! report into a [`FetchCycleResult`] — sizing the response buffer, checking
//! the body decodes as text — and apply the loop's fail-fast policy: the
//! first failed cycle of any kind ends the fetch task for good, while a
//! successful cycle is followed by a fixed sleep and the next cycle. A
//! non-success HTTP status is logged, never treated as a failure.

use vstd::prelude::*;
use crate::buffer::ResponseBuffer;
use crate::config::FETCH_PERIOD_SECS;
use crate::config::RESPONSE_BUFFER_BYTES;
use crate::config::RetryPolicy;
use crate::config::TLS_RECORD_BUFFER_BYTES;
use crate::config::TlsPolicy;
use crate::config::TransportMode;

verus! {

/// What the transport did in one cycle, as the shell observed it.
#[derive(Debug)]
pub enum TransportReport {
    /// The GET request could not be constructed.
    BuildFailed,
    /// The request could not be sent, or the response could not be read.
    SendFailed,
    /// A response arrived: its status line and the raw body bytes the
    /// transport handed over.
    Delivered { status: u16, raw_body: Vec<u8> },
}

/// The outcome of one fetch cycle. Produced once per iteration and not
/// retained across iterations.
#[derive(Debug)]
pub enum FetchCycleResult {
    /// The cycle completed: the status code and the decoded body text.
    Success { status: u16, body: Vec<u8> },
    /// The request could not be constructed; the fetch task ends.
    RequestBuildFailed,
    /// The request could not be sent, the response could not be read, or
    /// the body exceeded the response buffer; the fetch task ends.
    SendFailed,
    /// The body was not valid text; the fetch task ends.
    BodyDecodeFailed,
}

/// Whether a byte sequence is well-formed UTF-8, as the text decoder of the
/// standard library defines it.
pub uninterp spec fn utf8_ok(bytes: Seq<u8>) -> bool;

/// Every byte is ASCII.
pub open spec fn all_ascii(bytes: Seq<u8>) -> bool {
    forall|i: int| 0 <= i < bytes.len() ==> bytes[i] < 128
}

/// Relies on core::str::from_utf8: it returns `Ok` exactly when the bytes
/// are valid UTF-8, a property of the bytes alone; ASCII is a subset of
/// UTF-8, so all-ASCII input is always accepted.
#[verifier::external_body]
fn utf8_check(bytes: &[u8]) -> (r: bool)
    ensures
        r == utf8_ok(bytes@),
        all_ascii(bytes@) ==> r,
{
    core::str::from_utf8(bytes).is_ok()
}

/// A cycle whose report lets it complete fully: a response arrived, its
/// body fits the response buffer, and the body decodes as text.
pub open spec fn spec_cycle_ok(rep: TransportReport, cap: nat) -> bool {
    &&& rep matches TransportReport::Delivered { raw_body, .. }
    &&& raw_body@.len() <= cap
    &&& utf8_ok(raw_body@)
}

/// How a cycle's result follows from its transport report, with a response
/// buffer of capacity `cap`: a build failure ends the cycle as
/// `RequestBuildFailed`; a send failure, or a body over capacity, as
/// `SendFailed`; an undecodable body as `BodyDecodeFailed`; otherwise the
/// result carries the reported status and the body unchanged.
pub open spec fn result_matches(rep: TransportReport, cap: nat, r: FetchCycleResult) -> bool {
    match rep {
        TransportReport::BuildFailed => r == FetchCycleResult::RequestBuildFailed,
        TransportReport::SendFailed => r == FetchCycleResult::SendFailed,
        TransportReport::Delivered { status, raw_body } => {
            if raw_body@.len() > cap {
                r == FetchCycleResult::SendFailed
            } else if !utf8_ok(raw_body@) {
                r == FetchCycleResult::BodyDecodeFailed
            } else {
                r matches FetchCycleResult::Success { status: st, body } && st == status
                    && body@ == raw_body@
            }
        },
    }
}

/// Classifies one cycle: receives the delivered body into a fresh
/// fixed-capacity response buffer, decodes it as text, and names the
/// failure class otherwise. The buffer is scoped to this call and released
/// on every path.
pub fn run_cycle(rep: TransportReport) -> (r: FetchCycleResult)
    ensures
        result_matches(rep, RESPONSE_BUFFER_BYTES as nat, r),
        r is Success <==> spec_cycle_ok(rep, RESPONSE_BUFFER_BYTES as nat),
{
    match rep {
        TransportReport::BuildFailed => FetchCycleResult::RequestBuildFailed,
        TransportReport::SendFailed => FetchCycleResult::SendFailed,
        TransportReport::Delivered { status, raw_body } => {
            let mut buf = ResponseBuffer::new(RESPONSE_BUFFER_BYTES);
            match buf.receive(raw_body.as_slice()) {
                Err(_) => FetchCycleResult::SendFailed,
                Ok(()) => {
                    let body = buf.into_bytes();
                    if utf8_check(body.as_slice()) {
                        FetchCycleResult::Success { status, body }
                    } else {
                        FetchCycleResult::BodyDecodeFailed
                    }
                },
            }
        },
    }
}

/// What the shell does after a cycle.
#[derive(Clone, Copy, PartialEq, Eq, Structural, Debug)]
pub enum LoopDirective {
    /// Sleep `delay_secs`, then run the next cycle.
    SleepThenRepeat { delay_secs: u64 },
    /// End the fetch task; no further cycle ever runs.
    Stop,
}

/// The fail-fast policy: only a fully successful cycle earns the fixed
/// sleep and another cycle; every failure class ends the task.
pub fn cycle_verdict(r: &FetchCycleResult) -> (d: LoopDirective)
    ensures
        r is Success <==> d == (LoopDirective::SleepThenRepeat {
            delay_secs: FETCH_PERIOD_SECS,
        }),
        !(r is Success) <==> d == LoopDirective::Stop,
{
    match r {
        FetchCycleResult::Success { .. } => LoopDirective::SleepThenRepeat {
            delay_secs: FETCH_PERIOD_SECS,
        },
        _ => LoopDirective::Stop,
    }
}

/// The TLS session a cycle builds for an encrypted target: two fixed-size
/// record buffers, the process seed, and the verification policy.
pub struct TlsSessionPlan {
    pub read_capacity: usize,
    pub write_capacity: usize,
    pub seed: u64,
    pub policy: TlsPolicy,
}

/// The resources one cycle acquires, scoped to that cycle and released on
/// every exit path.
pub struct CycleResources {
    /// Capacity of the response buffer.
    pub response_capacity: usize,
    /// The TLS session to build, present exactly for encrypted targets.
    pub tls: Option<TlsSessionPlan>,
}

/// Sizes one cycle's buffers and decides the transport wrapper: an `https`
/// target always gets a TLS session carrying the configured policy and the
/// process seed; an `http` target never gets one.
pub fn plan_cycle_resources(mode: TransportMode, policy: TlsPolicy, seed: u64) -> (r:
    CycleResources)
    requires
        mode == TransportMode::Plain <==> policy == TlsPolicy::Disabled,
    ensures
        r.response_capacity == RESPONSE_BUFFER_BYTES,
        r.tls is Some <==> mode == TransportMode::Tls,
        r.tls matches Some(t) ==> t.read_capacity == TLS_RECORD_BUFFER_BYTES
            && t.write_capacity == TLS_RECORD_BUFFER_BYTES && t.seed == seed && t.policy
            == policy,
    {
    match mode {
        TransportMode::Plain => CycleResources {
            response_capacity: RESPONSE_BUFFER_BYTES,
            tls: None,
        },
        TransportMode::Tls => CycleResources {
            response_capacity: RESPONSE_BUFFER_BYTES,
            tls: Some(
                TlsSessionPlan {
                    read_capacity: TLS_RECORD_BUFFER_BYTES,
                    write_capacity: TLS_RECORD_BUFFER_BYTES,
                    seed,
                    policy,
                },
            ),
        },
    }
}

/// Whether a TLS handshake may complete, given the policy and whether the
/// peer's certificate chain verified.
///
/// Under `EnabledNoVerify` the handshake completes whatever the peer
/// presented — an invalid or self-signed certificate included. The channel
/// is then encrypted but the peer's identity is never checked; this trust
/// gap is a deliberate, documented configuration choice, not an accident.
pub fn handshake_permitted(policy: TlsPolicy, certificate_valid: bool) -> (r: bool)
    requires
        policy != TlsPolicy::Disabled,
    ensures
        policy == TlsPolicy::EnabledNoVerify ==> r,
        policy == TlsPolicy::EnabledVerify ==> r == certificate_valid,
{
    match policy {
        TlsPolicy::EnabledVerify => certificate_valid,
        _ => true,
    }
}

/// How many cycles run when the transport would report `reports[0]`,
/// `reports[1]`, ... in turn: every cycle up to and including the first
/// failed one, and nothing after it.
pub open spec fn spec_cycles_run(reports: Seq<TransportReport>, cap: nat) -> nat
    decreases reports.len(),
{
    if reports.len() == 0 {
        0
    } else if spec_cycle_ok(reports[0], cap) {
        1 + spec_cycles_run(reports.subrange(1, reports.len() as int), cap)
    } else {
        1
    }
}

/// The fetch task's state between cycles: nothing but whether it halted.
pub struct SecureFetchLoop {
    halted: bool,
}

impl SecureFetchLoop {
    /// Whether a failed cycle has ended the task.
    pub closed spec fn is_halted(&self) -> bool {
        self.halted
    }

    /// A task that has not run any cycle yet.
    pub fn new() -> (r: SecureFetchLoop)
        ensures
            !r.is_halted(),
    {
        SecureFetchLoop { halted: false }
    }

    /// Whether the next cycle may begin.
    pub fn will_run_next_cycle(&self) -> (b: bool)
        ensures
            b == !self.is_halted(),
    {
        !self.halted
    }

    /// Any fetch-cycle failure ends the task for good; there is no
    /// skip-one-cycle path.
    pub fn retry_policy(&self) -> (p: RetryPolicy)
        ensures
            p == RetryPolicy::FailFast,
    {
        RetryPolicy::FailFast
    }

    /// Runs one cycle on the shell's report: the task halts exactly when
    /// the cycle did not fully succeed.
    pub fn on_report(&mut self, rep: TransportReport) -> (r: FetchCycleResult)
        requires
            !old(self).is_halted(),
        ensures
            result_matches(rep, RESPONSE_BUFFER_BYTES as nat, r),
            final(self).is_halted() == !spec_cycle_ok(rep, RESPONSE_BUFFER_BYTES as nat),
    {
        let r = run_cycle(rep);
        let ok = match &r {
            FetchCycleResult::Success { .. } => true,
            _ => false,
        };
        self.halted = !ok;
        r
    }
}

/// Runs the fetch task over a fixed schedule of transport reports: one
/// result per cycle that ran, stopping after the first failure.
pub fn run_fetch_loop(reports: Vec<TransportReport>) -> (results: Vec<FetchCycleResult>)
    ensures
        results@.len() == spec_cycles_run(reports@, RESPONSE_BUFFER_BYTES as nat),
        forall|i: int| 0 <= i < results@.len() ==> result_matches(
            reports@[i],
            RESPONSE_BUFFER_BYTES as nat,
            #[trigger] results@[i],
        ),
{
    let ghost all = reports@;
    let mut reports = reports;
    let mut results: Vec<FetchCycleResult> = Vec::new();
    let mut task = SecureFetchLoop::new();
    proof {
        assert(all.subrange(0, all.len() as int) =~= all);
    }
    while reports.len() > 0 && task.will_run_next_cycle()
        invariant
            results@.len() + reports@.len() == all.len() || task.is_halted(),
            results@.len() <= all.len(),
            reports@ =~= all.subrange(results@.len() as int, all.len() as int) || task
                .is_halted(),
            forall|i: int| 0 <= i < results@.len() ==> result_matches(
                all[i],
                RESPONSE_BUFFER_BYTES as nat,
                #[trigger] results@[i],
            ),
            !task.is_halted() ==> forall|i: int| 0 <= i < results@.len()
                ==> spec_cycle_ok(#[trigger] all[i], RESPONSE_BUFFER_BYTES as nat),
            !task.is_halted() ==> spec_cycles_run(all, RESPONSE_BUFFER_BYTES as nat)
                == results@.len() + spec_cycles_run(
                all.subrange(results@.len() as int, all.len() as int),
                RESPONSE_BUFFER_BYTES as nat,
            ),
            task.is_halted() ==> results@.len() == spec_cycles_run(
                all,
                RESPONSE_BUFFER_BYTES as nat,
            ),
        decreases reports@.len(),
    {
        let ghost k = results@.len() as int;
        let ghost remaining = reports@;
        let rep = reports.remove(0);
        proof {
            assert(rep == all[k]);
            assert(reports@ =~= all.subrange(k + 1, all.len() as int));
        }
        let r = task.on_report(rep);
        proof {
            if spec_cycle_ok(rep, RESPONSE_BUFFER_BYTES as nat) {
                assert(remaining[0] == rep);
                assert(remaining.subrange(1, remaining.len() as int) =~= all.subrange(
                    k + 1,
                    all.len() as int,
                ));
            } else {
                lemma_cycles_run_first_fatal(all, RESPONSE_BUFFER_BYTES as nat, k);
            }
        }
        results.push(r);
    }
    proof {
        if !task.is_halted() {
            assert(reports@.len() == 0);
            assert(all.subrange(results@.len() as int, all.len() as int).len() == 0);
        }
    }
    results
}

/// Law (fail-fast): if the first `n` cycles would succeed and cycle `n`
/// would fail, exactly `n + 1` cycles run — whatever the transport would
/// have reported on any later cycle, no such cycle ever begins.
pub proof fn lemma_cycles_run_first_fatal(reports: Seq<TransportReport>, cap: nat, n: int)
    requires
        0 <= n < reports.len(),
        !spec_cycle_ok(reports[n], cap),
        forall|i: int| 0 <= i < n ==> spec_cycle_ok(#[trigger] reports[i], cap),
    ensures
        spec_cycles_run(reports, cap) == n + 1,
    decreases n,
{
    if n == 0 {
    } else {
        let rest = reports.subrange(1, reports.len() as int);
        assert(rest[n - 1] == reports[n]);
        assert(forall|i: int| 0 <= i < n - 1 ==> spec_cycle_ok(#[trigger] rest[i], cap));
        lemma_cycles_run_first_fatal(rest, cap, n - 1);
    }
}

/// Law: when every scheduled cycle would succeed, every scheduled cycle
/// runs; the loop never stops early on a success.
pub proof fn lemma_cycles_run_all_ok(reports: Seq<TransportReport>, cap: nat)
    requires
        forall|i: int| 0 <= i < reports.len() ==> spec_cycle_ok(#[trigger] reports[i], cap),
    ensures
        spec_cycles_run(reports, cap) == reports.len(),
    decreases reports.len(),
{
    if reports.len() > 0 {
        let rest = reports.subrange(1, reports.len() as int);
        assert(forall|i: int| 0 <= i < rest.len() ==> spec_cycle_ok(#[trigger] rest[i], cap));
        lemma_cycles_run_all_ok(rest, cap);
    }
}

/// Law (deterministic transport): when every cycle's report delivers the
/// same status and the same fitting, decodable body, every scheduled cycle
/// runs and every result is the same success — each cycle's result depends
/// on that cycle's report alone, and no state is carried between cycles.
pub proof fn lemma_idempotent_cycles(
    reports: Seq<TransportReport>,
    cap: nat,
    results: Seq<FetchCycleResult>,
    status: u16,
    body: Seq<u8>,
)
    requires
        forall|i: int| 0 <= i < reports.len() ==> spec_cycle_ok(#[trigger] reports[i], cap),
        forall|i: int| 0 <= i < reports.len() ==> (#[trigger] reports[i] matches
            TransportReport::Delivered { status: st, raw_body } && st == status && raw_body@
            == body),
        results.len() == spec_cycles_run(reports, cap),
        forall|i: int| 0 <= i < results.len() ==> result_matches(
            reports[i],
            cap,
            #[trigger] results[i],
        ),
    ensures
        results.len() == reports.len(),
        forall|i: int| 0 <= i < results.len() ==> (#[trigger] results[i] matches
            FetchCycleResult::Success { status: st, body: b } && st == status && b@ == body),
{
    lemma_cycles_run_all_ok(reports, cap);
    assert forall|i: int| 0 <= i < results.len() implies (#[trigger] results[i] matches
        FetchCycleResult::Success { status: st, body: b } && st == status && b@ == body) by {
        assert(spec_cycle_ok(reports[i], cap));
        assert(result_matches(reports[i], cap, results[i]));
    }
}

} // verus!
