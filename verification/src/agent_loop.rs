//! The control state machine of the reporting loop. The surrounding program
//! owns the clock, the transport and the process exit; it performs the
//! action this machine picks, feeds the outcome back as an event, and steps
//! the machine again. The machine itself decides the whole failure policy:
//! a connect failure and an authentication rejection of the descriptor
//! report are fatal, everything else keeps the sampling cadence running.

use vstd::prelude::*;

verus! {

/// Where the reporting loop stands.
#[derive(Clone, Copy, Debug, PartialEq, Eq, Structural)]
pub enum AgentPhase {
    /// The connection to the server is being established.
    Connecting,
    /// The host descriptor is being built and sent.
    ReportingDescriptor,
    /// A state sample is being built and sent.
    Sampling,
    /// The loop waits out the fixed interval until the next sample.
    Sleeping,
    /// The process is ending; no further event is expected.
    Terminated,
}

/// The outcome of the action the surrounding program last performed.
#[derive(Clone, Copy, Debug, PartialEq, Eq, Structural)]
pub enum AgentEvent {
    /// The channel to the server was established.
    ConnectSucceeded,
    /// The channel could not be established.
    ConnectFailed,
    /// The descriptor report was acknowledged.
    DescriptorAcknowledged,
    /// The descriptor report was rejected as an authentication failure.
    DescriptorAuthRejected,
    /// The descriptor report failed for any reason other than
    /// authentication.
    DescriptorSendFailed,
    /// The descriptor could not be built.
    DescriptorBuildFailed,
    /// A state sample was built, sent and acknowledged.
    SampleReported,
    /// Building or sending a state sample failed, authentication rejection
    /// included: the failure kind is not distinguished at this stage.
    SampleFailed,
    /// The fixed sampling interval has elapsed.
    IntervalElapsed,
}

/// What the surrounding program is to do next.
#[derive(Clone, Copy, Debug, PartialEq, Eq, Structural)]
pub enum AgentAction {
    /// Open the channel to the server.
    Connect,
    /// Build the host descriptor and send it.
    SendDescriptor,
    /// Build a state sample and send it.
    SendSample,
    /// Sleep for the fixed sampling interval.
    Sleep,
    /// End the process with the given exit status.
    Exit(u8),
}

/// Which events can answer an action picked in the given phase.
pub open spec fn event_fits(phase: AgentPhase, event: AgentEvent) -> bool {
    match phase {
        AgentPhase::Connecting => event == AgentEvent::ConnectSucceeded || event
            == AgentEvent::ConnectFailed,
        AgentPhase::ReportingDescriptor => event == AgentEvent::DescriptorAcknowledged || event
            == AgentEvent::DescriptorAuthRejected || event == AgentEvent::DescriptorSendFailed
            || event == AgentEvent::DescriptorBuildFailed,
        AgentPhase::Sampling => event == AgentEvent::SampleReported || event
            == AgentEvent::SampleFailed,
        AgentPhase::Sleeping => event == AgentEvent::IntervalElapsed,
        AgentPhase::Terminated => false,
    }
}

/// The transition relation of the reporting loop: next phase and next
/// action for one event. A connect failure and an authentication rejection
/// of the descriptor report are the only fatal outcomes; every descriptor
/// failure of another kind falls through to sampling, and every sampling
/// outcome, failure or not, schedules the next sample after one interval.
/// (For an event that does not fit the phase the machine terminates; the
/// stepping function excludes that case.)
pub open spec fn spec_step(phase: AgentPhase, event: AgentEvent) -> (AgentPhase, AgentAction) {
    match (phase, event) {
        (AgentPhase::Connecting, AgentEvent::ConnectSucceeded) => (
            AgentPhase::ReportingDescriptor,
            AgentAction::SendDescriptor,
        ),
        (AgentPhase::Connecting, AgentEvent::ConnectFailed) => (
            AgentPhase::Terminated,
            AgentAction::Exit(1u8),
        ),
        (AgentPhase::ReportingDescriptor, AgentEvent::DescriptorAcknowledged) => (
            AgentPhase::Sampling,
            AgentAction::SendSample,
        ),
        (AgentPhase::ReportingDescriptor, AgentEvent::DescriptorAuthRejected) => (
            AgentPhase::Terminated,
            AgentAction::Exit(1u8),
        ),
        (AgentPhase::ReportingDescriptor, AgentEvent::DescriptorSendFailed) => (
            AgentPhase::Sampling,
            AgentAction::SendSample,
        ),
        (AgentPhase::ReportingDescriptor, AgentEvent::DescriptorBuildFailed) => (
            AgentPhase::Sampling,
            AgentAction::SendSample,
        ),
        (AgentPhase::Sampling, AgentEvent::SampleReported) => (
            AgentPhase::Sleeping,
            AgentAction::Sleep,
        ),
        (AgentPhase::Sampling, AgentEvent::SampleFailed) => (
            AgentPhase::Sleeping,
            AgentAction::Sleep,
        ),
        (AgentPhase::Sleeping, AgentEvent::IntervalElapsed) => (
            AgentPhase::Sampling,
            AgentAction::SendSample,
        ),
        _ => (AgentPhase::Terminated, AgentAction::Exit(1u8)),
    }
}

/// The phase and the first action the loop starts with: connect, and treat
/// a failure there as fatal.
pub fn initial_step() -> (r: (AgentPhase, AgentAction))
    ensures
        r.0 == AgentPhase::Connecting,
        r.1 == AgentAction::Connect,
{
    (AgentPhase::Connecting, AgentAction::Connect)
}

/// Step the reporting loop once: from the current phase and the outcome of
/// the last action to the next phase and the next action.
pub fn step(phase: AgentPhase, event: AgentEvent) -> (r: (AgentPhase, AgentAction))
    requires
        event_fits(phase, event),
    ensures
        r == spec_step(phase, event),
{
    match (phase, event) {
        (AgentPhase::Connecting, AgentEvent::ConnectSucceeded) => (
            AgentPhase::ReportingDescriptor,
            AgentAction::SendDescriptor,
        ),
        (AgentPhase::Connecting, AgentEvent::ConnectFailed) => (
            AgentPhase::Terminated,
            AgentAction::Exit(1),
        ),
        (AgentPhase::ReportingDescriptor, AgentEvent::DescriptorAcknowledged) => (
            AgentPhase::Sampling,
            AgentAction::SendSample,
        ),
        (AgentPhase::ReportingDescriptor, AgentEvent::DescriptorAuthRejected) => (
            AgentPhase::Terminated,
            AgentAction::Exit(1),
        ),
        (AgentPhase::ReportingDescriptor, AgentEvent::DescriptorSendFailed) => (
            AgentPhase::Sampling,
            AgentAction::SendSample,
        ),
        (AgentPhase::ReportingDescriptor, AgentEvent::DescriptorBuildFailed) => (
            AgentPhase::Sampling,
            AgentAction::SendSample,
        ),
        (AgentPhase::Sampling, AgentEvent::SampleReported) => (
            AgentPhase::Sleeping,
            AgentAction::Sleep,
        ),
        (AgentPhase::Sampling, AgentEvent::SampleFailed) => (
            AgentPhase::Sleeping,
            AgentAction::Sleep,
        ),
        (AgentPhase::Sleeping, AgentEvent::IntervalElapsed) => (
            AgentPhase::Sampling,
            AgentAction::SendSample,
        ),
        _ => (AgentPhase::Terminated, AgentAction::Exit(1)),
    }
}

/// The actions a trace of events drives the machine through, one per event.
pub open spec fn run_actions(phase: AgentPhase, events: Seq<AgentEvent>) -> Seq<AgentAction>
    decreases events.len(),
{
    if events.len() == 0 {
        Seq::empty()
    } else {
        seq![spec_step(phase, events[0]).1] + run_actions(
            spec_step(phase, events[0]).0,
            events.skip(1),
        )
    }
}

/// The phase the machine stands in after a trace of events.
pub open spec fn run_phase(phase: AgentPhase, events: Seq<AgentEvent>) -> AgentPhase
    decreases events.len(),
{
    if events.len() == 0 {
        phase
    } else {
        run_phase(spec_step(phase, events[0]).0, events.skip(1))
    }
}

/// Whether every event of a trace fits the phase the machine stands in when
/// the event arrives.
pub open spec fn trace_fits(phase: AgentPhase, events: Seq<AgentEvent>) -> bool
    decreases events.len(),
{
    if events.len() == 0 {
        true
    } else {
        event_fits(phase, events[0]) && trace_fits(spec_step(phase, events[0]).0, events.skip(1))
    }
}

/// How often an action occurs in a sequence of actions.
pub open spec fn count_action(acts: Seq<AgentAction>, a: AgentAction) -> nat
    decreases acts.len(),
{
    if acts.len() == 0 {
        0nat
    } else {
        (if acts[0] == a {
            1nat
        } else {
            0nat
        }) + count_action(acts.skip(1), a)
    }
}

proof fn lemma_count_action_cons(x: AgentAction, s: Seq<AgentAction>, a: AgentAction)
    ensures
        count_action(seq![x] + s, a) == (if x == a {
            1nat
        } else {
            0nat
        }) + count_action(s, a),
{
    assert((seq![x] + s).skip(1) =~= s);
    assert((seq![x] + s)[0] == x);
}

/// Law of the descriptor report: an authentication rejection terminates the
/// process with exit status one, while an acknowledgement, a non-auth send
/// failure and a build failure all leave the agent running and move it into
/// sampling.
pub proof fn lemma_descriptor_auth_rejection_is_fatal(event: AgentEvent)
    requires
        event_fits(AgentPhase::ReportingDescriptor, event),
    ensures
        event == AgentEvent::DescriptorAuthRejected ==> spec_step(
            AgentPhase::ReportingDescriptor,
            event,
        ) == (AgentPhase::Terminated, AgentAction::Exit(1u8)),
        event != AgentEvent::DescriptorAuthRejected ==> spec_step(
            AgentPhase::ReportingDescriptor,
            event,
        ) == (AgentPhase::Sampling, AgentAction::SendSample),
{
}

/// Law of the sampling sub-loop: from the sampling or the sleeping phase,
/// no trace of fitting events can terminate the agent, re-send the
/// descriptor or exit the process; the machine stays inside the two
/// sampling phases, whatever the sample outcomes are.
pub proof fn lemma_subloop_never_exits(phase: AgentPhase, events: Seq<AgentEvent>)
    requires
        phase == AgentPhase::Sampling || phase == AgentPhase::Sleeping,
        trace_fits(phase, events),
    ensures
        run_phase(phase, events) == AgentPhase::Sampling || run_phase(phase, events)
            == AgentPhase::Sleeping,
        run_actions(phase, events).len() == events.len(),
        forall|k: int|
            0 <= k < events.len() ==> !((#[trigger] run_actions(phase, events)[k]) is Exit)
                && run_actions(phase, events)[k] != AgentAction::SendDescriptor,
    decreases events.len(),
{
    if events.len() > 0 {
        let next = spec_step(phase, events[0]);
        lemma_subloop_never_exits(next.0, events.skip(1));
        assert forall|k: int|
            0 <= k < events.len() implies !((#[trigger] run_actions(phase, events)[k]) is Exit)
            && run_actions(phase, events)[k] != AgentAction::SendDescriptor by {
            if k > 0 {
                assert(run_actions(phase, events)[k] == run_actions(next.0, events.skip(1))[k - 1]);
            }
        }
    }
}

/// Law of a failed state sample: it does not terminate the agent, and the
/// loop issues exactly one more sampling attempt after exactly one
/// fixed-interval sleep.
pub proof fn lemma_sample_failure_retries()
    ensures
        trace_fits(
            AgentPhase::Sampling,
            seq![AgentEvent::SampleFailed, AgentEvent::IntervalElapsed],
        ),
        run_actions(
            AgentPhase::Sampling,
            seq![AgentEvent::SampleFailed, AgentEvent::IntervalElapsed],
        ) =~= seq![AgentAction::Sleep, AgentAction::SendSample],
        run_phase(
            AgentPhase::Sampling,
            seq![AgentEvent::SampleFailed, AgentEvent::IntervalElapsed],
        ) == AgentPhase::Sampling,
{
    let events = seq![AgentEvent::SampleFailed, AgentEvent::IntervalElapsed];
    let tail = events.skip(1);
    assert(tail =~= seq![AgentEvent::IntervalElapsed]);
    assert(tail.skip(1) =~= Seq::<AgentEvent>::empty());
    assert(events[0] == AgentEvent::SampleFailed);
    assert(tail[0] == AgentEvent::IntervalElapsed);
    assert(tail.skip(1).len() == 0);
    assert(trace_fits(AgentPhase::Sampling, tail.skip(1)));
    assert(run_phase(AgentPhase::Sampling, tail.skip(1)) == AgentPhase::Sampling);
    assert(run_actions(AgentPhase::Sampling, tail.skip(1)) =~= Seq::<AgentAction>::empty());
    assert(trace_fits(AgentPhase::Sleeping, tail));
    assert(trace_fits(AgentPhase::Sampling, events));
    assert(run_phase(AgentPhase::Sleeping, tail) == AgentPhase::Sampling);
    assert(run_actions(AgentPhase::Sleeping, tail) =~= seq![AgentAction::SendSample]);
    assert(run_actions(AgentPhase::Sampling, events) =~= seq![AgentAction::Sleep] + run_actions(
        AgentPhase::Sleeping,
        tail,
    ));
}

/// Law of the sampling cadence: a trace of `n` full cycles (one sample
/// outcome, one elapsed interval each) starting in the sampling phase
/// produces exactly `n` sample sends and `n` sleeps, never a descriptor
/// send, and ends in the sampling phase again — whatever each sample
/// outcome was.
pub proof fn lemma_sampling_cycles(events: Seq<AgentEvent>, n: nat)
    requires
        events.len() == 2 * n,
        forall|k: int|
            0 <= k < events.len() && k % 2 == 0 ==> (#[trigger] events[k])
                == AgentEvent::SampleReported || events[k] == AgentEvent::SampleFailed,
        forall|k: int|
            0 <= k < events.len() && k % 2 == 1 ==> (#[trigger] events[k])
                == AgentEvent::IntervalElapsed,
    ensures
        trace_fits(AgentPhase::Sampling, events),
        run_phase(AgentPhase::Sampling, events) == AgentPhase::Sampling,
        count_action(run_actions(AgentPhase::Sampling, events), AgentAction::SendSample) == n,
        count_action(run_actions(AgentPhase::Sampling, events), AgentAction::Sleep) == n,
        count_action(run_actions(AgentPhase::Sampling, events), AgentAction::SendDescriptor) == 0,
    decreases n,
{
    if n == 0 {
        assert(events.len() == 0);
    } else {
        let rest = events.skip(2);
        assert forall|k: int|
            0 <= k < rest.len() && k % 2 == 0 implies (#[trigger] rest[k])
            == AgentEvent::SampleReported || rest[k] == AgentEvent::SampleFailed by {
            assert(rest[k] == events[k + 2]);
        }
        assert forall|k: int|
            0 <= k < rest.len() && k % 2 == 1 implies (#[trigger] rest[k])
            == AgentEvent::IntervalElapsed by {
            assert(rest[k] == events[k + 2]);
        }
        lemma_sampling_cycles(rest, (n - 1) as nat);
        let e0 = events[0];
        let e1 = events[1];
        let tail1 = events.skip(1);
        assert(tail1[0] == e1);
        assert(tail1.skip(1) =~= rest);
        let after0 = spec_step(AgentPhase::Sampling, e0);
        assert(after0.0 == AgentPhase::Sleeping && after0.1 == AgentAction::Sleep);
        let after1 = spec_step(AgentPhase::Sleeping, e1);
        assert(after1.0 == AgentPhase::Sampling && after1.1 == AgentAction::SendSample);
        assert(event_fits(AgentPhase::Sampling, e0));
        assert(event_fits(AgentPhase::Sleeping, e1));
        assert(trace_fits(AgentPhase::Sleeping, tail1));
        assert(trace_fits(AgentPhase::Sampling, events));
        assert(run_phase(AgentPhase::Sleeping, tail1) == run_phase(AgentPhase::Sampling, rest));
        assert(run_phase(AgentPhase::Sampling, events) == run_phase(AgentPhase::Sampling, rest));
        let acts_rest = run_actions(AgentPhase::Sampling, rest);
        assert(run_actions(AgentPhase::Sleeping, tail1) =~= seq![AgentAction::SendSample]
            + acts_rest);
        assert(run_actions(AgentPhase::Sampling, events) =~= seq![AgentAction::Sleep] + (
        seq![AgentAction::SendSample] + acts_rest));
        lemma_count_action_cons(
            AgentAction::SendSample,
            acts_rest,
            AgentAction::SendSample,
        );
        lemma_count_action_cons(
            AgentAction::Sleep,
            seq![AgentAction::SendSample] + acts_rest,
            AgentAction::SendSample,
        );
        lemma_count_action_cons(AgentAction::SendSample, acts_rest, AgentAction::Sleep);
        lemma_count_action_cons(
            AgentAction::Sleep,
            seq![AgentAction::SendSample] + acts_rest,
            AgentAction::Sleep,
        );
        lemma_count_action_cons(AgentAction::SendSample, acts_rest, AgentAction::SendDescriptor);
        lemma_count_action_cons(
            AgentAction::Sleep,
            seq![AgentAction::SendSample] + acts_rest,
            AgentAction::SendDescriptor,
        );
    }
}

} // verus!
