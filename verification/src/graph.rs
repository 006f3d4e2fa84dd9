//! The media graph and its controller: a fixed chain of processing stages
//! whose decoder-to-queue link cannot be wired until the transport announces
//! the stream's actual format, together with the playback-state machine and
//! the bus-event policy.
//!
//! The graph here is the controller's own record of the engine's pipeline:
//! the application performs the engine calls and feeds their outcomes back in
//! as values, and every decision — what to build, whether an announced pad is
//! linked, what a bus message does to the playback state — is taken here.

use vstd::prelude::*;
use crate::caps::{CapsDescriptor, Encoding, RtpConfig};

verus! {

/// The identity of a processing stage, unique within a graph.
#[derive(Clone, Copy, PartialEq, Eq, Structural, Debug)]
pub enum StageId {
    UdpSrc,
    CapsFilter,
    Depay,
    Parse,
    Decoder,
    DecodeQueue,
    Convert,
    Sink,
}

/// The status of a link between two stages.
#[derive(Clone, Copy, PartialEq, Eq, Structural, Debug)]
pub enum LinkStatus {
    Unlinked,
    Linked,
    LinkFailed,
}

/// The playback state of the graph. `Paused` is passed through transiently
/// during the engine's own negotiation and is never a target state here.
#[derive(Clone, Copy, PartialEq, Eq, Structural, Debug)]
pub enum GraphState {
    Null,
    Ready,
    Paused,
    Playing,
}

/// A processing stage: its identity and the status of its static link toward
/// the sink. The decoder's downstream link is dynamic and is recorded in
/// [`Graph::pending`], not here.
#[derive(Clone, Copy, PartialEq, Eq, Structural, Debug)]
pub struct Stage {
    pub id: StageId,
    pub link: LinkStatus,
}

/// Why a graph could not be assembled.
#[derive(Clone, Copy, PartialEq, Eq, Structural, Debug)]
pub enum BuildError {
    /// A required stage could not be instantiated by the engine. Mapped from
    /// the engine's instantiation report by [`check_stage_report`]; never
    /// produced by [`Graph::build`] itself, whose stage set is fixed.
    MissingStage,
    /// A static link was rejected: the configured capability descriptors are
    /// incompatible.
    LinkFailure,
}

/// An illegal playback-state transition.
#[derive(Clone, Copy, PartialEq, Eq, Structural, Debug)]
pub enum StateError {
    /// `start` was called on a graph that is already playing.
    AlreadyStarted,
    /// `start` was called on a graph that was already torn down to `Null`;
    /// a fresh graph must be built instead.
    TornDown,
}

/// How a dynamic-pad announcement was handled.
#[derive(Clone, Copy, PartialEq, Eq, Structural, Debug)]
pub enum PadOutcome {
    /// The announced descriptor is not of the video class; no link attempt.
    NotVideo,
    /// The announcing stage is not the one with a pending link; no attempt.
    NotPendingStage,
    /// The controller was already torn down; silently ignored.
    TornDown,
    /// The pending link was already resolved (linked, or failed and never
    /// retried); the duplicate announcement is ignored.
    AlreadyResolved,
    /// The one link attempt was made and the pending link is now recorded
    /// as linked.
    Linked,
}

/// A message drained from the engine's bus by the application layer.
#[derive(Debug)]
pub enum BusMessage {
    Eos,
    Error(String),
    Other,
}

/// An event reported to the application layer by [`Graph::poll_events`].
#[derive(Debug)]
pub enum Event {
    EndOfStream,
    Error(String),
    Other,
}

/// The media graph and its controller state.
#[derive(Debug)]
pub struct Graph {
    /// Current playback state.
    pub state: GraphState,
    /// The fixed stage table, in order from source to sink. Static links are
    /// wired at build time and never change afterwards.
    pub stages: Vec<Stage>,
    /// The one dynamic link, decoder to decode-queue: the decode queue's
    /// sink-facing pad. Resolved at most once.
    pub pending: LinkStatus,
    /// How many link attempts were made on the pending link.
    pub link_attempts: u64,
    /// The transport parameters the graph was built for.
    pub config: RtpConfig,
}

/// The stage at each position of the fixed chain.
pub open spec fn spec_stage_at(i: int) -> StageId {
    if i == 0 {
        StageId::UdpSrc
    } else if i == 1 {
        StageId::CapsFilter
    } else if i == 2 {
        StageId::Depay
    } else if i == 3 {
        StageId::Parse
    } else if i == 4 {
        StageId::Decoder
    } else if i == 5 {
        StageId::DecodeQueue
    } else if i == 6 {
        StageId::Convert
    } else {
        StageId::Sink
    }
}

/// The number of stages in the chain.
pub const STAGE_COUNT: usize = 8;

impl Graph {
    /// Well-formedness: the stage table is the fixed chain with every static
    /// link wired, and the attempt count records whether the pending link was
    /// ever resolved.
    pub open spec fn wf(self) -> bool {
        &&& self.stages@.len() == STAGE_COUNT
        &&& forall|i: int|
            0 <= i < STAGE_COUNT ==> (#[trigger] self.stages@[i]) == (Stage {
                id: spec_stage_at(i),
                link: LinkStatus::Linked,
            })
        &&& self.link_attempts == if self.pending == LinkStatus::Unlinked {
            0int
        } else {
            1int
        }
        &&& self.config.accepted()
    }

    /// Assemble a graph for the given transport parameters. Succeeds exactly
    /// when the (encoding, payload-type) pair is one the depayloader accepts;
    /// on success every static stage is linked, the decoder's downstream link
    /// is pending, and the graph is `Ready` to be started. A mismatched pair
    /// is a rejected static link.
    pub fn build(config: RtpConfig) -> (r: Result<Graph, BuildError>)
        ensures
            r is Ok <==> config.accepted(),
            r is Err ==> r == Result::<Graph, BuildError>::Err(BuildError::LinkFailure),
            r is Ok ==> {
                let g = r->Ok_0;
                &&& g.wf()
                &&& g.state == GraphState::Ready
                &&& g.pending == LinkStatus::Unlinked
                &&& g.link_attempts == 0
                &&& g.config == config
            },
    {
        if !config.is_accepted() {
            return Err(BuildError::LinkFailure);
        }
        let mut stages: Vec<Stage> = Vec::new();
        stages.push(Stage { id: StageId::UdpSrc, link: LinkStatus::Linked });
        stages.push(Stage { id: StageId::CapsFilter, link: LinkStatus::Linked });
        stages.push(Stage { id: StageId::Depay, link: LinkStatus::Linked });
        stages.push(Stage { id: StageId::Parse, link: LinkStatus::Linked });
        stages.push(Stage { id: StageId::Decoder, link: LinkStatus::Linked });
        stages.push(Stage { id: StageId::DecodeQueue, link: LinkStatus::Linked });
        stages.push(Stage { id: StageId::Convert, link: LinkStatus::Linked });
        stages.push(Stage { id: StageId::Sink, link: LinkStatus::Linked });
        let g = Graph {
            state: GraphState::Ready,
            stages,
            pending: LinkStatus::Unlinked,
            link_attempts: 0,
            config,
        };
        proof {
            assert forall|i: int| 0 <= i < STAGE_COUNT implies (#[trigger] g.stages@[i]) == (Stage {
                id: spec_stage_at(i),
                link: LinkStatus::Linked,
            }) by {
            }
        }
        Ok(g)
    }

    /// Start playback: `Ready` becomes `Playing`. Starting a graph twice is a
    /// caller error, and a graph torn down to `Null` cannot be restarted.
    pub fn start(&mut self) -> (r: Result<(), StateError>)
        ensures
            old(self).state == GraphState::Ready ==> r is Ok && *final(self) == (Graph {
                state: GraphState::Playing,
                ..*old(self)
            }),
            old(self).state == GraphState::Playing || old(self).state == GraphState::Paused
                ==> r == Result::<(), StateError>::Err(StateError::AlreadyStarted) && *final(self)
                == *old(self),
            old(self).state == GraphState::Null ==> r == Result::<(), StateError>::Err(
                StateError::TornDown,
            ) && *final(self) == *old(self),
    {
        match self.state {
            GraphState::Ready => {
                self.state = GraphState::Playing;
                Ok(())
            },
            GraphState::Null => Err(StateError::TornDown),
            _ => Err(StateError::AlreadyStarted),
        }
    }

    /// The outcome for a dynamic-pad announcement: ignore anything that is
    /// not a video-class descriptor on the decoder of a live graph whose
    /// pending link is still unresolved; otherwise the one link attempt is
    /// made.
    pub open spec fn spec_pad_outcome(self, stage: StageId, video: bool) -> PadOutcome {
        if !video {
            PadOutcome::NotVideo
        } else if stage != StageId::Decoder {
            PadOutcome::NotPendingStage
        } else if self.state == GraphState::Null {
            PadOutcome::TornDown
        } else if self.pending != LinkStatus::Unlinked {
            PadOutcome::AlreadyResolved
        } else {
            PadOutcome::Linked
        }
    }

    /// The graph after a dynamic-pad announcement: unchanged unless the one
    /// link attempt is made, in which case the pending link is recorded as
    /// linked and the attempt is counted.
    pub open spec fn spec_pad_step(self, stage: StageId, video: bool) -> Graph {
        if self.spec_pad_outcome(stage, video) == PadOutcome::Linked {
            Graph {
                pending: LinkStatus::Linked,
                link_attempts: (self.link_attempts + 1) as u64,
                ..self
            }
        } else {
            self
        }
    }

    /// Handle a dynamic-pad announcement from the engine, made from the
    /// negotiation domain: check-and-link is a single indivisible step on the
    /// graph. Non-video descriptors never cause a link attempt; a resolved
    /// pending link is never touched again; at most one attempt is ever made.
    pub fn on_pad_announced(&mut self, stage: StageId, caps: &CapsDescriptor) -> (r: PadOutcome)
        requires
            old(self).wf(),
        ensures
            final(self).wf(),
            r == old(self).spec_pad_outcome(stage, caps.spec_is_video()),
            *final(self) == old(self).spec_pad_step(stage, caps.spec_is_video()),
    {
        if !caps.is_video() {
            return PadOutcome::NotVideo;
        }
        if !matches!(stage, StageId::Decoder) {
            return PadOutcome::NotPendingStage;
        }
        if matches!(self.state, GraphState::Null) {
            return PadOutcome::TornDown;
        }
        if !matches!(self.pending, LinkStatus::Unlinked) {
            return PadOutcome::AlreadyResolved;
        }
        self.pending = LinkStatus::Linked;
        self.link_attempts = self.link_attempts + 1;
        PadOutcome::Linked
    }

    /// Record that the engine rejected the one link attempt: the pending link
    /// is marked failed and is never retried; the stream stays un-rendered
    /// until a full rebuild.
    pub fn on_link_rejected(&mut self)
        requires
            old(self).wf(),
        ensures
            final(self).wf(),
            old(self).pending == LinkStatus::Linked ==> *final(self) == (Graph {
                pending: LinkStatus::LinkFailed,
                ..*old(self)
            }),
            old(self).pending != LinkStatus::Linked ==> *final(self) == *old(self),
    {
        if matches!(self.pending, LinkStatus::Linked) {
            self.pending = LinkStatus::LinkFailed;
        }
    }

    /// The graph after teardown: `Null`, with its stage record kept.
    pub open spec fn spec_stopped(self) -> Graph {
        Graph { state: GraphState::Null, ..self }
    }

    /// Tear the graph down to `Null`. Safe to call any number of times, in
    /// any state, including after a failed build was reported: it never
    /// errors and always ends in `Null`.
    pub fn stop(&mut self)
        ensures
            *final(self) == old(self).spec_stopped(),
            final(self).state == GraphState::Null,
    {
        self.state = GraphState::Null;
    }

    /// Drain one message from the engine's bus, handed in by the polling
    /// caller; never blocks. End-of-stream and bus errors both tear the graph
    /// down; anything else leaves it untouched.
    pub fn poll_events(&mut self, msg: Option<BusMessage>) -> (r: Option<Event>)
        ensures
            match msg {
                None => r is None && *final(self) == *old(self),
                Some(BusMessage::Eos) => r == Some(Event::EndOfStream) && *final(self) == old(
                    self,
                ).spec_stopped(),
                Some(BusMessage::Error(d)) => r == Some(Event::Error(d)) && *final(self) == old(
                    self,
                ).spec_stopped(),
                Some(BusMessage::Other) => r == Some(Event::Other) && *final(self) == *old(self),
            },
    {
        match msg {
            None => None,
            Some(BusMessage::Eos) => {
                self.stop();
                Some(Event::EndOfStream)
            },
            Some(BusMessage::Error(d)) => {
                self.stop();
                Some(Event::Error(d))
            },
            Some(BusMessage::Other) => Some(Event::Other),
        }
    }

    /// Best-effort playback position, given the engine's answer to a position
    /// query: zero whenever the graph is not playing or the engine has no
    /// answer; never fails.
    pub fn position(&self, queried_ns: Option<u64>) -> (r: u64)
        ensures
            self.state != GraphState::Playing ==> r == 0,
            self.state == GraphState::Playing ==> r == (match queried_ns {
                Some(p) => p,
                None => 0u64,
            }),
    {
        if matches!(self.state, GraphState::Playing) {
            match queried_ns {
                Some(p) => p,
                None => 0,
            }
        } else {
            0
        }
    }

    /// Whether the sink has a renderable stream: the graph is playing and the
    /// pending link is resolved.
    pub fn surface_ready(&self) -> (r: bool)
        ensures
            r == (self.state == GraphState::Playing && self.pending == LinkStatus::Linked),
    {
        matches!(self.state, GraphState::Playing) && matches!(self.pending, LinkStatus::Linked)
    }
}

/// Map the engine's instantiation report — whether each required stage of
/// the chain could be instantiated, in chain order — to the build outcome:
/// if any stage is missing, the build fails with `MissingStage`, before
/// anything is linked; the failure is the application layer's to act on,
/// never a crash at runtime.
pub fn check_stage_report(instantiated: &Vec<bool>) -> (r: Result<(), BuildError>)
    ensures
        r is Ok <==> (forall|i: int| 0 <= i < instantiated@.len() ==> instantiated@[i]),
        r is Err ==> r == Result::<(), BuildError>::Err(BuildError::MissingStage),
{
    let mut i: usize = 0;
    while i < instantiated.len()
        invariant
            0 <= i <= instantiated@.len(),
            forall|j: int| 0 <= j < i ==> instantiated@[j],
        decreases instantiated@.len() - i,
    {
        if !instantiated[i] {
            return Err(BuildError::MissingStage);
        }
        i += 1;
    }
    Ok(())
}

/// Delivering the same video-class announcement twice resolves the pending
/// link exactly once: on a live graph whose pending link is unresolved the
/// first announcement makes the one attempt and records the link, and the
/// second is ignored as a duplicate, leaving the graph — attempt count
/// included — exactly as the first left it.
pub proof fn lemma_pad_announced_idempotent(g: Graph)
    requires
        g.wf(),
        g.state != GraphState::Null,
        g.pending == LinkStatus::Unlinked,
    ensures
        g.spec_pad_outcome(StageId::Decoder, true) == PadOutcome::Linked,
        g.spec_pad_step(StageId::Decoder, true).pending == LinkStatus::Linked,
        g.spec_pad_step(StageId::Decoder, true).link_attempts == g.link_attempts + 1,
        g.spec_pad_step(StageId::Decoder, true).spec_pad_outcome(StageId::Decoder, true)
            == PadOutcome::AlreadyResolved,
        g.spec_pad_step(StageId::Decoder, true).spec_pad_step(StageId::Decoder, true)
            == g.spec_pad_step(StageId::Decoder, true),
{
}

/// A non-video announcement never causes a link attempt: whatever the stage
/// and the graph's state, the graph — its attempt count included — is left
/// exactly as it was.
pub proof fn lemma_non_video_never_links(g: Graph, stage: StageId)
    ensures
        g.spec_pad_outcome(stage, false) == PadOutcome::NotVideo,
        g.spec_pad_step(stage, false) == g,
{
}

/// Teardown always ends in `Null` and never errors, from any state and any
/// number of times: one stop reaches `Null`, and every further stop leaves
/// the graph exactly there.
pub proof fn lemma_stop_idempotent(g: Graph)
    ensures
        g.spec_stopped().state == GraphState::Null,
        g.spec_stopped().spec_stopped() == g.spec_stopped(),
{
}

impl StageId {
    /// The engine factory that instantiates this stage, for the configured
    /// encoding.
    pub fn factory_name(&self, encoding: Encoding) -> (r: &'static str)
        ensures
            *self == StageId::UdpSrc ==> r@ == "udpsrc"@,
            *self == StageId::CapsFilter ==> r@ == "capsfilter"@,
            *self == StageId::Depay && encoding == Encoding::H264 ==> r@ == "rtph264depay"@,
            *self == StageId::Depay && encoding == Encoding::Jpeg ==> r@ == "rtpjpegdepay"@,
            *self == StageId::Parse && encoding == Encoding::H264 ==> r@ == "h264parse"@,
            *self == StageId::Parse && encoding == Encoding::Jpeg ==> r@ == "jpegparse"@,
            *self == StageId::Decoder ==> r@ == "decodebin"@,
            *self == StageId::DecodeQueue ==> r@ == "queue"@,
            *self == StageId::Convert ==> r@ == "videoconvert"@,
            *self == StageId::Sink ==> r@ == "gtk4paintablesink"@,
    {
        match self {
            StageId::UdpSrc => "udpsrc",
            StageId::CapsFilter => "capsfilter",
            StageId::Depay => match encoding {
                Encoding::H264 => "rtph264depay",
                Encoding::Jpeg => "rtpjpegdepay",
            },
            StageId::Parse => match encoding {
                Encoding::H264 => "h264parse",
                Encoding::Jpeg => "jpegparse",
            },
            StageId::Decoder => "decodebin",
            StageId::DecodeQueue => "queue",
            StageId::Convert => "videoconvert",
            StageId::Sink => "gtk4paintablesink",
        }
    }
}

} // verus!
