//! The shape of the secure transport: which upgrades a raw connection goes
//! through, and in which order. The shape is decided once, when the node
//! starts, by whether a pre-shared key was loaded.

use vstd::prelude::*;
use crate::psk::PreSharedKey;

verus! {

/// One step that every connection passes, in the order of the pipeline.
#[derive(Debug, Clone, Copy, PartialEq, Eq)]
pub enum TransportStage {
    /// Raw TCP stream, with Nagle's algorithm switched off.
    Tcp,
    /// Handshake that only peers holding the same pre-shared key complete.
    PrivateNetwork,
    /// Agreement on the protocol version.
    VersionNegotiation,
    /// Mutual authentication with the node's identity key.
    Authentication,
    /// Many logical streams over the one secured stream.
    Multiplexing,
}

/// The stages of a pipeline that is gated by a pre-shared key.
pub open spec fn private_stages() -> Seq<TransportStage> {
    seq![
        TransportStage::Tcp,
        TransportStage::PrivateNetwork,
        TransportStage::VersionNegotiation,
        TransportStage::Authentication,
        TransportStage::Multiplexing,
    ]
}

/// The stages of a pipeline that anyone may connect to.
pub open spec fn open_stages() -> Seq<TransportStage> {
    seq![
        TransportStage::Tcp,
        TransportStage::VersionNegotiation,
        TransportStage::Authentication,
        TransportStage::Multiplexing,
    ]
}

/// The stages of the pipeline for a node with or without a key.
pub open spec fn stages_for(private: bool) -> Seq<TransportStage> {
    if private {
        private_stages()
    } else {
        open_stages()
    }
}

/// A transport pipeline: its stages in order, and the key of the
/// private-network stage if there is one.
pub struct TransportPipeline {
    stages: Vec<TransportStage>,
    key: Option<PreSharedKey>,
}

impl TransportPipeline {
    /// The stages, first to last.
    pub closed spec fn stage_seq(&self) -> Seq<TransportStage> {
        self.stages@
    }

    /// The key that gates the pipeline, if any.
    pub closed spec fn gate(&self) -> Option<PreSharedKey> {
        self.key
    }

    /// A pipeline is well formed when its stages are those that its key, or
    /// the lack of one, calls for. Every pipeline that exists is.
    #[verifier::type_invariant]
    pub closed spec fn wf(&self) -> bool {
        self.stages@ == stages_for(self.key.is_some())
    }

    /// Decides the pipeline: with a key every connection passes the
    /// private-network handshake right after TCP, before anything else is
    /// negotiated; without one that stage is left out.
    pub fn build(key: Option<PreSharedKey>) -> (pipeline: Self)
        ensures
            pipeline.wf(),
            pipeline.gate() == key,
            pipeline.stage_seq() == stages_for(key.is_some()),
    {
        let mut stages: Vec<TransportStage> = Vec::new();
        stages.push(TransportStage::Tcp);
        if key.is_some() {
            stages.push(TransportStage::PrivateNetwork);
        }
        stages.push(TransportStage::VersionNegotiation);
        stages.push(TransportStage::Authentication);
        stages.push(TransportStage::Multiplexing);
        assert(stages@ =~= stages_for(key.is_some()));
        TransportPipeline { stages, key }
    }

    /// The stages, first to last.
    pub fn stages(&self) -> (stages: &Vec<TransportStage>)
        ensures
            self.wf(),
            stages@ == self.stage_seq(),
            stages@ == stages_for(self.gate().is_some()),
    {
        proof {
            use_type_invariant(self);
        }
        &self.stages
    }

    /// The key of the private-network stage, if the pipeline has one.
    pub fn key(&self) -> (key: Option<PreSharedKey>)
        ensures
            key == self.gate(),
    {
        self.key
    }

    /// Whether connections are gated by a pre-shared key.
    pub fn is_private(&self) -> (private: bool)
        ensures
            private == self.gate().is_some(),
    {
        self.key.is_some()
    }
}

/// In every well-formed pipeline the stages are distinct, TCP comes first,
/// authentication comes before multiplexing, and the private-network stage is
/// present exactly when there is a key; it then stands before version
/// negotiation and authentication, so that a peer without the key is turned
/// away before it can negotiate anything.
pub proof fn law_gate_precedes_handshake(pipeline: TransportPipeline)
    requires
        pipeline.wf(),
    ensures
        pipeline.stage_seq().no_duplicates(),
        pipeline.stage_seq()[0] == TransportStage::Tcp,
        pipeline.stage_seq().last() == TransportStage::Multiplexing,
        pipeline.stage_seq().contains(TransportStage::PrivateNetwork)
            <==> pipeline.gate().is_some(),
        forall|i: int, j: int|
            0 <= i < pipeline.stage_seq().len() && 0 <= j < pipeline.stage_seq().len()
                && pipeline.stage_seq()[i] == TransportStage::PrivateNetwork && (
            pipeline.stage_seq()[j] == TransportStage::VersionNegotiation
                || pipeline.stage_seq()[j] == TransportStage::Authentication
                || pipeline.stage_seq()[j] == TransportStage::Multiplexing) ==> i < j,
        forall|i: int, j: int|
            0 <= i < pipeline.stage_seq().len() && 0 <= j < pipeline.stage_seq().len()
                && pipeline.stage_seq()[i] == TransportStage::Authentication
                && pipeline.stage_seq()[j] == TransportStage::Multiplexing ==> i < j,
{
    let s = pipeline.stage_seq();
    if pipeline.gate().is_some() {
        assert(s == private_stages());
        assert(s.len() == 5);
        assert(s[1] == TransportStage::PrivateNetwork);
    } else {
        assert(s == open_stages());
        assert(s.len() == 4);
    }
}

} // verus!
