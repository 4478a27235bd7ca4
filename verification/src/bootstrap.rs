//! The startup sequence and its ordering discipline.
//!
//! The service moves through a strictly ordered set of phases: build the
//! components, bind the listener, announce the handshake line, mark the
//! key-value service as serving, serve until shutdown. The transitions
//! here decide what happens next and what the surrounding process must
//! do (print the line, start or stop the dispatcher); the process hands
//! back the outcome of each action (the bound address, the shutdown
//! signal) as plain values.

use vstd::prelude::*;
use crate::handshake::{HandshakeRecord, NetworkType, spec_handshake_line};
use crate::health::{HealthService, ServingStatus, spec_check};

verus! {

/// Where the startup sequence currently stands.
#[derive(Clone, Copy, Debug, PartialEq, Eq, Structural)]
pub enum Phase {
    /// Components built; the listener is not bound yet.
    Init,
    /// The listener is bound; its address is known and dialable.
    Bound,
    /// The handshake line has been handed out for printing.
    Announced,
    /// The key-value service is marked serving.
    Ready,
    /// RPCs are being accepted and dispatched.
    Serving,
    /// No new RPCs are accepted; health reports not serving.
    ShutDown,
}

/// The position of a phase in the startup order.
pub open spec fn phase_index(p: Phase) -> int {
    match p {
        Phase::Init => 0,
        Phase::Bound => 1,
        Phase::Announced => 2,
        Phase::Ready => 3,
        Phase::Serving => 4,
        Phase::ShutDown => 5,
    }
}

/// The steps the bootstrap can take: one phase forward, or holding at
/// `Serving` (the periodic re-assertion of readiness).
pub open spec fn step_ok(p: Phase, q: Phase) -> bool {
    phase_index(q) == phase_index(p) + 1 || (p == Phase::Serving && q == Phase::Serving)
}

/// The step that emits the handshake line.
pub open spec fn is_announce_step(p: Phase, q: Phase) -> bool {
    p == Phase::Bound && q == Phase::Announced
}

/// A run of the bootstrap: it starts at `Init` and every step is allowed.
/// A fresh `Bootstrap` starts at `Init` and every transition ensures its
/// phase pair satisfies `step_ok`, so the phases any sequence of
/// transitions passes through form such a trace.
pub open spec fn valid_trace(t: Seq<Phase>) -> bool {
    &&& t.len() >= 1
    &&& t[0] == Phase::Init
    &&& forall|i: int| 0 <= i < t.len() - 1 ==> #[trigger] step_ok(t[i], t[i + 1])
}

/// How many steps of the trace emitted the handshake line.
pub open spec fn announce_count(t: Seq<Phase>) -> int
    decreases t.len(),
{
    if t.len() < 2 {
        0
    } else {
        announce_count(t.drop_last()) + if is_announce_step(t[t.len() - 2], t[t.len() - 1]) {
            1int
        } else {
            0int
        }
    }
}

/// In a run of the bootstrap, the handshake line has been emitted exactly
/// once if the run has passed the announce phase, and not at all before.
pub proof fn lemma_announce_count(t: Seq<Phase>)
    requires
        valid_trace(t),
    ensures
        announce_count(t) == if phase_index(t.last()) >= phase_index(Phase::Announced) {
            1int
        } else {
            0int
        },
    decreases t.len(),
{
    if t.len() == 1 {
        assert(t.last() == Phase::Init);
    } else {
        let s = t.drop_last();
        assert(s[0] == t[0]);
        assert forall|i: int| 0 <= i < s.len() - 1 implies #[trigger] step_ok(s[i], s[i + 1]) by {
            assert(s[i] == t[i]);
            assert(s[i + 1] == t[i + 1]);
            assert(step_ok(t[i], t[i + 1]));
        }
        lemma_announce_count(s);
        let i: int = t.len() - 2;
        assert(step_ok(t[i], t[i + 1]));
        assert(s.last() == t[i]);
    }
}

/// Handshake ordering law, first half: a run that is serving has emitted
/// the handshake line exactly once.
pub proof fn lemma_handshake_exactly_once(t: Seq<Phase>)
    requires
        valid_trace(t),
        t.last() == Phase::Serving,
    ensures
        announce_count(t) == 1,
{
    lemma_announce_count(t);
}

/// Handshake ordering law, second half: the line is only ever emitted
/// from the phase in which the listener is already bound, so the
/// announced address is dialable the moment the line is observed.
pub proof fn lemma_announce_only_after_bind(t: Seq<Phase>, i: int)
    requires
        valid_trace(t),
        0 <= i < t.len() - 1,
        is_announce_step(t[i], t[i + 1]),
    ensures
        t[i] == Phase::Bound,
{
}

/// The bootstrap component: the current phase, the handshake fields, the
/// bound address once known, and the health registry it gates.
pub struct Bootstrap {
    /// Where the startup sequence stands.
    pub phase: Phase,
    /// Protocol version agreed with the host for the handshake itself.
    pub core_protocol_version: u64,
    /// Application protocol version agreed with the host.
    pub app_protocol_version: u64,
    /// The transport the listener uses.
    pub network: NetworkType,
    /// The name of the RPC framing in use.
    pub rpc_protocol: String,
    /// The fully qualified name the key-value service is registered under.
    pub kv_service_name: String,
    /// The address the listener is actually bound to, once bound.
    pub bound_address: Option<String>,
    /// The readiness registry the host queries.
    pub health: HealthService,
}

impl Bootstrap {
    /// The status the key-value service must report in the given phase:
    /// serving exactly from the ready phase until shutdown begins.
    pub open spec fn expected_status(p: Phase) -> ServingStatus {
        if p == Phase::Ready || p == Phase::Serving {
            ServingStatus::Serving
        } else {
            ServingStatus::NotServing
        }
    }

    /// Health gating and address discipline, tied to the phase: the
    /// address is known exactly from the bound phase on, and the registry
    /// holds exactly the key-value service at its phase-mandated status.
    pub open spec fn wf(&self) -> bool {
        &&& self.bound_address is Some <==> phase_index(self.phase) >= phase_index(Phase::Bound)
        &&& self.health@ == Map::<Seq<char>, ServingStatus>::empty().insert(
            self.kv_service_name@,
            Self::expected_status(self.phase),
        )
    }

    /// Builds the bootstrap in its initial phase: nothing bound or
    /// announced, the key-value service registered and not serving.
    pub fn new(
        core_protocol_version: u64,
        app_protocol_version: u64,
        network: NetworkType,
        rpc_protocol: String,
        kv_service_name: String,
    ) -> (b: Bootstrap)
        ensures
            b.wf(),
            b.phase == Phase::Init,
            b.core_protocol_version == core_protocol_version,
            b.app_protocol_version == app_protocol_version,
            b.network == network,
            b.rpc_protocol == rpc_protocol,
            b.kv_service_name == kv_service_name,
            spec_check(b.health@, kv_service_name@) == ServingStatus::NotServing,
    {
        let mut health = HealthService::new();
        health.register(kv_service_name.clone());
        Bootstrap {
            phase: Phase::Init,
            core_protocol_version,
            app_protocol_version,
            network,
            rpc_protocol,
            kv_service_name,
            bound_address: None,
            health,
        }
    }

    /// Records that the listener is bound, with the address it is
    /// actually bound to (not a pre-computed guess). A bind failure is
    /// fatal to the process and takes no transition.
    pub fn bind_complete(&mut self, address: String)
        requires
            old(self).wf(),
            old(self).phase == Phase::Init,
        ensures
            final(self).wf(),
            final(self).phase == Phase::Bound,
            step_ok(old(self).phase, final(self).phase),
            !is_announce_step(old(self).phase, final(self).phase),
            final(self).bound_address == Some(address),
            final(self).core_protocol_version == old(self).core_protocol_version,
            final(self).app_protocol_version == old(self).app_protocol_version,
            final(self).network == old(self).network,
            final(self).rpc_protocol == old(self).rpc_protocol,
            final(self).kv_service_name == old(self).kv_service_name,
            final(self).health == old(self).health,
    {
        self.phase = Phase::Bound;
        self.bound_address = Some(address);
    }

    /// Hands out the handshake line, exactly once per run: the phase
    /// moves forward, and a second call no longer satisfies the
    /// precondition. The line carries the bound address byte-identically.
    /// The caller must write it to standard output, followed by a
    /// newline, and flush, before dispatching any RPC.
    pub fn announce(&mut self) -> (line: String)
        requires
            old(self).wf(),
            old(self).phase == Phase::Bound,
        ensures
            final(self).wf(),
            final(self).phase == Phase::Announced,
            step_ok(old(self).phase, final(self).phase),
            is_announce_step(old(self).phase, final(self).phase),
            line@ == spec_handshake_line(
                old(self).core_protocol_version as nat,
                old(self).app_protocol_version as nat,
                old(self).network,
                old(self).bound_address->Some_0@,
                old(self).rpc_protocol@,
            ),
            final(self).core_protocol_version == old(self).core_protocol_version,
            final(self).app_protocol_version == old(self).app_protocol_version,
            final(self).network == old(self).network,
            final(self).rpc_protocol == old(self).rpc_protocol,
            final(self).kv_service_name == old(self).kv_service_name,
            final(self).bound_address == old(self).bound_address,
            final(self).health == old(self).health,
    {
        let address = match &self.bound_address {
            Some(a) => a.clone(),
            None => {
                proof {
                    assert(false);
                }
                String::new()
            },
        };
        let record = HandshakeRecord {
            core_protocol_version: self.core_protocol_version,
            app_protocol_version: self.app_protocol_version,
            network: self.network,
            address,
            rpc_protocol: self.rpc_protocol.clone(),
        };
        let line = record.format_line();
        self.phase = Phase::Announced;
        line
    }

    /// Marks the key-value service as serving: from here on the host is
    /// told to route traffic to it.
    pub fn mark_ready(&mut self)
        requires
            old(self).wf(),
            old(self).phase == Phase::Announced,
        ensures
            final(self).wf(),
            final(self).phase == Phase::Ready,
            step_ok(old(self).phase, final(self).phase),
            !is_announce_step(old(self).phase, final(self).phase),
            spec_check(final(self).health@, final(self).kv_service_name@)
                == ServingStatus::Serving,
            final(self).core_protocol_version == old(self).core_protocol_version,
            final(self).app_protocol_version == old(self).app_protocol_version,
            final(self).network == old(self).network,
            final(self).rpc_protocol == old(self).rpc_protocol,
            final(self).kv_service_name == old(self).kv_service_name,
            final(self).bound_address == old(self).bound_address,
    {
        let name = self.kv_service_name.clone();
        self.health.set_serving(name);
        self.phase = Phase::Ready;
        proof {
            assert(self.health@ =~= Map::<Seq<char>, ServingStatus>::empty().insert(
                self.kv_service_name@,
                Self::expected_status(self.phase),
            ));
        }
    }

    /// Enters the serve loop: RPCs are accepted and dispatched until an
    /// external shutdown signal arrives.
    pub fn begin_serving(&mut self)
        requires
            old(self).wf(),
            old(self).phase == Phase::Ready,
        ensures
            final(self).wf(),
            final(self).phase == Phase::Serving,
            step_ok(old(self).phase, final(self).phase),
            !is_announce_step(old(self).phase, final(self).phase),
            spec_check(final(self).health@, final(self).kv_service_name@)
                == ServingStatus::Serving,
            final(self).kv_service_name == old(self).kv_service_name,
            final(self).bound_address == old(self).bound_address,
            final(self).health == old(self).health,
    {
        self.phase = Phase::Serving;
    }

    /// The periodic re-assertion of readiness while serving: it confirms
    /// the serving status and changes nothing. It exists so that a future
    /// probe can report degradation here instead, without changing the
    /// caller's contract.
    pub fn reassert_serving(&mut self)
        requires
            old(self).wf(),
            old(self).phase == Phase::Serving,
        ensures
            final(self).wf(),
            final(self).phase == Phase::Serving,
            step_ok(old(self).phase, final(self).phase),
            !is_announce_step(old(self).phase, final(self).phase),
            final(self).health@ == old(self).health@,
            spec_check(final(self).health@, final(self).kv_service_name@)
                == ServingStatus::Serving,
            final(self).kv_service_name == old(self).kv_service_name,
            final(self).bound_address == old(self).bound_address,
    {
        let name = self.kv_service_name.clone();
        self.health.set_serving(name);
        proof {
            assert(self.health@ =~= old(self).health@);
        }
    }

    /// Begins shutdown: the key-value service is reported not serving;
    /// the caller stops accepting new RPCs, lets in-flight ones finish
    /// within a bounded grace period, and closes the listener.
    pub fn shutdown(&mut self)
        requires
            old(self).wf(),
            old(self).phase == Phase::Serving,
        ensures
            final(self).wf(),
            final(self).phase == Phase::ShutDown,
            step_ok(old(self).phase, final(self).phase),
            !is_announce_step(old(self).phase, final(self).phase),
            spec_check(final(self).health@, final(self).kv_service_name@)
                == ServingStatus::NotServing,
            final(self).kv_service_name == old(self).kv_service_name,
            final(self).bound_address == old(self).bound_address,
    {
        let name = self.kv_service_name.clone();
        self.health.set_not_serving(name);
        self.phase = Phase::ShutDown;
        proof {
            assert(self.health@ =~= Map::<Seq<char>, ServingStatus>::empty().insert(
                self.kv_service_name@,
                Self::expected_status(self.phase),
            ));
        }
    }

    /// Reports the current status of the named service, as the host's
    /// health RPC does.
    pub fn check_health(&self, name: &str) -> (status: ServingStatus)
        ensures
            status == spec_check(self.health@, name@),
    {
        self.health.check(name)
    }
}

/// Health gating law: in a well-formed bootstrap, a check on the
/// key-value service reports serving exactly from the ready phase until
/// shutdown begins, and not serving in every other phase.
pub proof fn lemma_health_gating(b: Bootstrap)
    requires
        b.wf(),
    ensures
        spec_check(b.health@, b.kv_service_name@) == Bootstrap::expected_status(b.phase),
        (b.phase == Phase::Ready || b.phase == Phase::Serving) <==> spec_check(
            b.health@,
            b.kv_service_name@,
        ) == ServingStatus::Serving,
{
}

} // verus!
