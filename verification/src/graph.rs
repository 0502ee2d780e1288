//! Decode-graph planning: which chain of processing stages to build, with
//! which buffer budgets, how to route dynamically discovered stream branches
//! into it, and the policies applied around construction (volume clamping,
//! the software-decode guard rail, source-location formatting).

use vstd::prelude::*;

verus! {

// ─── Volume ──────────────────────────────────────────────────────────────────

/// Audio volume is carried in thousandths of full scale, so that the bounded
/// range the engine accepts — zero to full — is `0 ..= 1000`.
pub const VOLUME_FULL_MILLI: u32 = 1000;

/// Clamp a requested volume (in thousandths, possibly out of range in either
/// direction) to the range the engine accepts.
pub fn clamp_volume(requested_milli: i64) -> (v: u32)
    ensures
        v == spec_clamp_volume(requested_milli),
{
    if requested_milli < 0 {
        0
    } else if requested_milli > VOLUME_FULL_MILLI as i64 {
        VOLUME_FULL_MILLI
    } else {
        requested_milli as u32
    }
}

/// The clamped volume: negative requests become silence, requests above full
/// scale become full scale, everything in between passes through.
pub open spec fn spec_clamp_volume(requested_milli: i64) -> u32 {
    if requested_milli < 0 {
        0u32
    } else if requested_milli > VOLUME_FULL_MILLI as i64 {
        VOLUME_FULL_MILLI
    } else {
        requested_milli as u32
    }
}

/// The volume actually applied to the audio chain.  The chain always exists —
/// it is the graph's clock source — so disabled audio is expressed as volume
/// zero, never as a missing chain.
pub fn effective_volume(audio_enabled: bool, requested_milli: i64) -> (v: u32)
    ensures
        audio_enabled ==> v == spec_clamp_volume(requested_milli),
        !audio_enabled ==> v == 0,
        v <= VOLUME_FULL_MILLI,
{
    if audio_enabled {
        clamp_volume(requested_milli)
    } else {
        0
    }
}

// ─── Queue budgets ───────────────────────────────────────────────────────────

/// Decoded video is held by the handful of frames.
pub const VIDEO_QUEUE_FRAME_BOUND: u32 = 2;

/// Compressed data upstream of the decoder is held by the byte; this holds
/// thousands of encoded units but only about one decoded high-resolution
/// frame.
pub const COMPRESSED_QUEUE_BYTE_BOUND: u32 = 20 * 1024 * 1024;

/// Audio is held by duration.
pub const AUDIO_QUEUE_NANOS_BOUND: u64 = 1000000000;

/// The cap applied to one buffering stage.  A zero field leaves that
/// dimension unbounded, as the engine's defaults would; a well-formed budget
/// therefore sets at least one field to a positive value.
#[derive(Clone, Copy, Debug, PartialEq, Eq, Structural)]
pub struct QueueBudget {
    pub max_frames: u32,
    pub max_bytes: u32,
    pub max_nanos: u64,
}

/// At least one dimension of the budget is capped: the stage cannot grow
/// without bound.
pub open spec fn budget_bounded(b: QueueBudget) -> bool {
    b.max_frames > 0 || b.max_bytes > 0 || b.max_nanos > 0
}

/// Exactly one dimension is capped: a stage is bounded by count, by bytes or
/// by duration, never by a mixture.
pub open spec fn budget_single(b: QueueBudget) -> bool {
    &&& (b.max_frames > 0) ==> (b.max_bytes == 0 && b.max_nanos == 0)
    &&& (b.max_bytes > 0) ==> (b.max_frames == 0 && b.max_nanos == 0)
    &&& (b.max_nanos > 0) ==> (b.max_frames == 0 && b.max_bytes == 0)
}

/// What an internally-created buffering stage holds, as far as the clamping
/// hook can tell it apart.
#[derive(Clone, Copy, Debug, PartialEq, Eq, Structural)]
pub enum BufferStageKind {
    /// A multi-branch buffering stage: it sits downstream of the decoder and
    /// holds raw frames.
    MultiBranch,
    /// A single-branch buffering stage: it sits upstream of the decoder and
    /// holds compressed data.
    SingleBranch,
}

/// The budget the clamping hook forces onto an internally-created buffering
/// stage of the given kind.
pub open spec fn spec_clamp_budget(kind: BufferStageKind) -> QueueBudget {
    match kind {
        BufferStageKind::MultiBranch => QueueBudget {
            max_frames: VIDEO_QUEUE_FRAME_BOUND,
            max_bytes: 0,
            max_nanos: 0,
        },
        BufferStageKind::SingleBranch => QueueBudget {
            max_frames: 0,
            max_bytes: COMPRESSED_QUEUE_BYTE_BOUND,
            max_nanos: 0,
        },
    }
}

/// Decide the budget for an internally-created buffering stage: raw frames
/// are capped by count, compressed data by bytes.  Left at the engine's
/// defaults, a stage of decoded high-resolution frames grows to gigabytes.
pub fn clamp_budget(kind: BufferStageKind) -> (b: QueueBudget)
    ensures
        b == spec_clamp_budget(kind),
        budget_bounded(b),
        budget_single(b),
{
    match kind {
        BufferStageKind::MultiBranch => QueueBudget {
            max_frames: VIDEO_QUEUE_FRAME_BOUND,
            max_bytes: 0,
            max_nanos: 0,
        },
        BufferStageKind::SingleBranch => QueueBudget {
            max_frames: 0,
            max_bytes: COMPRESSED_QUEUE_BYTE_BOUND,
            max_nanos: 0,
        },
    }
}

/// Whatever kind of buffering stage the engine creates, the clamping hook
/// leaves it with its count-bound or its byte-bound set — none remains at the
/// unbounded default.
pub proof fn lemma_no_stage_left_unbounded(kind: BufferStageKind)
    ensures
        budget_bounded(spec_clamp_budget(kind)),
        spec_clamp_budget(kind).max_frames > 0 || spec_clamp_budget(kind).max_bytes > 0,
{
}

// ─── Stages and the graph plan ───────────────────────────────────────────────

/// The processing stages a decode graph is built from.
#[derive(Clone, Copy, Debug, PartialEq, Eq, Structural)]
pub enum StageKind {
    /// Demuxing source with dynamically appearing output branches.
    Source,
    /// Bounded, non-leaky queue upstream of the video chain: when full it
    /// stalls the decoder rather than dropping input.
    VideoQueue,
    /// Scale and colour conversion on the graphics device.
    HardwarePostprocess,
    /// Scaling on the processor, placed before conversion so it runs on the
    /// smaller pre-conversion frames.
    SoftwareScale,
    /// Pixel-format conversion on the processor.
    SoftwareConvert,
    /// Drops frames (never duplicates them) to honour a requested rate.
    RateLimiter,
    /// Pins pixel format, exact width and height, and the requested rate.
    FormatFilter,
    /// The clocked sink the video chain ends in.
    VideoSink,
    /// Time-bounded queue heading the audio chain.
    AudioQueue,
    /// Sample-format conversion.
    AudioConvert,
    /// Sample-rate conversion.
    AudioResample,
    /// Volume control, the mute target.
    VolumeControl,
    /// The audio output device; it provides the graph's clock.
    AudioOutput,
}

/// One planned stage: its kind, and the budget to apply where the stage
/// buffers.
#[derive(Clone, Copy, Debug, PartialEq, Eq, Structural)]
pub struct Stage {
    pub kind: StageKind,
    pub budget: Option<QueueBudget>,
}

/// Which video chain the plan uses.
#[derive(Clone, Copy, Debug, PartialEq, Eq, Structural)]
pub enum VideoVariant {
    /// Post-processing on the graphics device.
    Hardware,
    /// Scaling and conversion on the processor.
    Software,
}

/// What the sink at the end of the video chain is configured to.
#[derive(Clone, Copy, Debug, PartialEq, Eq, Structural)]
pub struct SinkConfig {
    /// Exact output width, pinned by the format filter.
    pub width: u32,
    /// Exact output height, pinned by the format filter.
    pub height: u32,
    /// Exact output rate, where one was requested.
    pub fps: Option<u32>,
    /// At most this many decoded frames are retained.
    pub max_buffered_frames: u32,
    /// Under backpressure the sink drops its oldest retained frame.
    pub drop_when_full: bool,
    /// The sink presents on the playback clock rather than free-running.
    pub clocked: bool,
}

/// The planned decode graph: one of two video chains, the always-present
/// audio chain, the sink configuration and the applied volume.
pub struct GraphPlan {
    pub variant: VideoVariant,
    pub video_stages: Vec<Stage>,
    pub audio_stages: Vec<Stage>,
    pub sink: SinkConfig,
    pub volume_milli: u32,
}

/// The video chain of the given variant, in order.
pub open spec fn spec_video_stages(variant: VideoVariant) -> Seq<Stage> {
    let queue = Stage {
        kind: StageKind::VideoQueue,
        budget: Some(
            QueueBudget { max_frames: VIDEO_QUEUE_FRAME_BOUND, max_bytes: 0, max_nanos: 0 },
        ),
    };
    match variant {
        VideoVariant::Hardware => seq![
            Stage { kind: StageKind::Source, budget: None },
            queue,
            Stage { kind: StageKind::HardwarePostprocess, budget: None },
            Stage { kind: StageKind::RateLimiter, budget: None },
            Stage { kind: StageKind::FormatFilter, budget: None },
            Stage { kind: StageKind::VideoSink, budget: None },
        ],
        VideoVariant::Software => seq![
            Stage { kind: StageKind::Source, budget: None },
            queue,
            Stage { kind: StageKind::SoftwareScale, budget: None },
            Stage { kind: StageKind::RateLimiter, budget: None },
            Stage { kind: StageKind::SoftwareConvert, budget: None },
            Stage { kind: StageKind::FormatFilter, budget: None },
            Stage { kind: StageKind::VideoSink, budget: None },
        ],
    }
}

/// The audio chain, in order.  It exists in every plan so that a clock source
/// exists even when audio is disabled.
pub open spec fn spec_audio_stages() -> Seq<Stage> {
    seq![
        Stage {
            kind: StageKind::AudioQueue,
            budget: Some(
                QueueBudget { max_frames: 0, max_bytes: 0, max_nanos: AUDIO_QUEUE_NANOS_BOUND },
            ),
        },
        Stage { kind: StageKind::AudioConvert, budget: None },
        Stage { kind: StageKind::AudioResample, budget: None },
        Stage { kind: StageKind::VolumeControl, budget: None },
        Stage { kind: StageKind::AudioOutput, budget: None },
    ]
}

/// Every buffering stage of the plan carries a bounded, single-dimension
/// budget.
pub open spec fn plan_buffers_bounded(p: GraphPlan) -> bool {
    &&& forall|i: int|
        0 <= i < p.video_stages@.len() && p.video_stages@[i].budget is Some ==> budget_bounded(
            p.video_stages@[i].budget.unwrap(),
        ) && budget_single(p.video_stages@[i].budget.unwrap())
    &&& forall|i: int|
        0 <= i < p.audio_stages@.len() && p.audio_stages@[i].budget is Some ==> budget_bounded(
            p.audio_stages@[i].budget.unwrap(),
        ) && budget_single(p.audio_stages@[i].budget.unwrap())
}

impl GraphPlan {
    /// The invariant construction establishes: the chains are exactly the
    /// planned ones, every buffering stage is bounded, the sink retains at
    /// most two frames, drops old ones, and runs on the clock, and the
    /// applied volume is in range.
    pub open spec fn wf(self) -> bool {
        &&& self.video_stages@ == spec_video_stages(self.variant)
        &&& self.audio_stages@ == spec_audio_stages()
        &&& plan_buffers_bounded(self)
        &&& self.sink.max_buffered_frames == 2
        &&& self.sink.drop_when_full
        &&& self.sink.clocked
        &&& self.volume_milli <= VOLUME_FULL_MILLI
    }
}

/// Plan the decode graph.  The hardware chain is chosen exactly when the
/// host offers the hardware post-processing stage; otherwise the software
/// chain, which must always be buildable, is planned.
pub fn plan_graph(
    hardware_available: bool,
    audio_enabled: bool,
    requested_volume_milli: i64,
    width: u32,
    height: u32,
    fps: Option<u32>,
) -> (p: GraphPlan)
    ensures
        p.wf(),
        p.variant == (if hardware_available {
            VideoVariant::Hardware
        } else {
            VideoVariant::Software
        }),
        p.sink.width == width,
        p.sink.height == height,
        p.sink.fps == fps,
        audio_enabled ==> p.volume_milli == spec_clamp_volume(requested_volume_milli),
        !audio_enabled ==> p.volume_milli == 0,
{
    let variant = if hardware_available {
        VideoVariant::Hardware
    } else {
        VideoVariant::Software
    };
    let queue = Stage {
        kind: StageKind::VideoQueue,
        budget: Some(
            QueueBudget { max_frames: VIDEO_QUEUE_FRAME_BOUND, max_bytes: 0, max_nanos: 0 },
        ),
    };
    let mut video_stages: Vec<Stage> = Vec::new();
    video_stages.push(Stage { kind: StageKind::Source, budget: None });
    video_stages.push(queue);
    if hardware_available {
        video_stages.push(Stage { kind: StageKind::HardwarePostprocess, budget: None });
        video_stages.push(Stage { kind: StageKind::RateLimiter, budget: None });
    } else {
        video_stages.push(Stage { kind: StageKind::SoftwareScale, budget: None });
        video_stages.push(Stage { kind: StageKind::RateLimiter, budget: None });
        video_stages.push(Stage { kind: StageKind::SoftwareConvert, budget: None });
    }
    video_stages.push(Stage { kind: StageKind::FormatFilter, budget: None });
    video_stages.push(Stage { kind: StageKind::VideoSink, budget: None });

    let mut audio_stages: Vec<Stage> = Vec::new();
    audio_stages.push(
        Stage {
            kind: StageKind::AudioQueue,
            budget: Some(
                QueueBudget { max_frames: 0, max_bytes: 0, max_nanos: AUDIO_QUEUE_NANOS_BOUND },
            ),
        },
    );
    audio_stages.push(Stage { kind: StageKind::AudioConvert, budget: None });
    audio_stages.push(Stage { kind: StageKind::AudioResample, budget: None });
    audio_stages.push(Stage { kind: StageKind::VolumeControl, budget: None });
    audio_stages.push(Stage { kind: StageKind::AudioOutput, budget: None });

    let sink = SinkConfig {
        width,
        height,
        fps,
        max_buffered_frames: 2,
        drop_when_full: true,
        clocked: true,
    };
    let volume_milli = effective_volume(audio_enabled, requested_volume_milli);
    let p = GraphPlan { variant, video_stages, audio_stages, sink, volume_milli };
    proof {
        assert(p.video_stages@ =~= spec_video_stages(p.variant));
        assert(p.audio_stages@ =~= spec_audio_stages());
    }
    p
}

// ─── Branch routing ──────────────────────────────────────────────────────────

/// The media kind of a dynamically discovered output branch.
#[derive(Clone, Copy, Debug, PartialEq, Eq, Structural)]
pub enum BranchKind {
    Video,
    Audio,
    Other,
}

/// The media-type name opens with `video/`.
pub open spec fn spec_is_video_media(s: Seq<u8>) -> bool {
    s.len() >= 6 && s[0] == 118u8 && s[1] == 105u8 && s[2] == 100u8 && s[3] == 101u8 && s[4]
        == 111u8 && s[5] == 47u8
}

/// The media-type name opens with `audio/`.
pub open spec fn spec_is_audio_media(s: Seq<u8>) -> bool {
    s.len() >= 6 && s[0] == 97u8 && s[1] == 117u8 && s[2] == 100u8 && s[3] == 105u8 && s[4]
        == 111u8 && s[5] == 47u8
}

/// The branch kind a media-type name maps to.
pub open spec fn spec_classify_media(s: Seq<u8>) -> BranchKind {
    if spec_is_video_media(s) {
        BranchKind::Video
    } else if spec_is_audio_media(s) {
        BranchKind::Audio
    } else {
        BranchKind::Other
    }
}

/// Classify a branch by the leading family of its negotiated media-type name
/// (the bytes of, say, `video/x-raw`).
pub fn classify_media(name: &Vec<u8>) -> (k: BranchKind)
    ensures
        k == spec_classify_media(name@),
{
    if name.len() < 6 {
        return BranchKind::Other;
    }
    let b0: u8 = name[0];
    let b1: u8 = name[1];
    let b2: u8 = name[2];
    let b3: u8 = name[3];
    let b4: u8 = name[4];
    let b5: u8 = name[5];
    if b0 == 118 && b1 == 105 && b2 == 100 && b3 == 101 && b4 == 111 && b5 == 47 {
        BranchKind::Video
    } else if b0 == 97 && b1 == 117 && b2 == 100 && b3 == 105 && b4 == 111 && b5 == 47 {
        BranchKind::Audio
    } else {
        BranchKind::Other
    }
}

/// What to do with a discovered branch.
#[derive(Clone, Copy, Debug, PartialEq, Eq, Structural)]
pub enum LinkAction {
    /// Link the branch into the video chain's queue.
    AttachVideo,
    /// Link the branch into the audio chain's queue.
    AttachAudio,
    /// Leave the branch alone: its kind is not consumed, or its chain is
    /// already linked.
    Ignore,
}

/// Which chains have already consumed a branch.
#[derive(Clone, Copy, Debug, PartialEq, Eq, Structural)]
pub struct LinkState {
    pub video_linked: bool,
    pub audio_linked: bool,
}

/// The state after routing one branch of kind `k` in state `s`.
pub open spec fn spec_route_state(s: LinkState, k: BranchKind) -> LinkState {
    match k {
        BranchKind::Video => LinkState { video_linked: true, audio_linked: s.audio_linked },
        BranchKind::Audio => LinkState { video_linked: s.video_linked, audio_linked: true },
        BranchKind::Other => s,
    }
}

/// The action owed for one branch of kind `k` in state `s`.
pub open spec fn spec_route_action(s: LinkState, k: BranchKind) -> LinkAction {
    match k {
        BranchKind::Video => if s.video_linked {
            LinkAction::Ignore
        } else {
            LinkAction::AttachVideo
        },
        BranchKind::Audio => if s.audio_linked {
            LinkAction::Ignore
        } else {
            LinkAction::AttachAudio
        },
        BranchKind::Other => LinkAction::Ignore,
    }
}

impl LinkState {
    pub fn new() -> (s: LinkState)
        ensures
            !s.video_linked,
            !s.audio_linked,
    {
        LinkState { video_linked: false, audio_linked: false }
    }

    /// Route one discovered branch: each chain is linked lazily, once; a
    /// branch whose chain is already linked is left alone.
    pub fn route_branch(&mut self, k: BranchKind) -> (a: LinkAction)
        ensures
            *final(self) == spec_route_state(*old(self), k),
            a == spec_route_action(*old(self), k),
    {
        match k {
            BranchKind::Video => {
                if self.video_linked {
                    LinkAction::Ignore
                } else {
                    self.video_linked = true;
                    LinkAction::AttachVideo
                }
            },
            BranchKind::Audio => {
                if self.audio_linked {
                    LinkAction::Ignore
                } else {
                    self.audio_linked = true;
                    LinkAction::AttachAudio
                }
            },
            BranchKind::Other => LinkAction::Ignore,
        }
    }
}

/// Routing is idempotent: once a branch of some kind has been routed, a
/// repeated discovery of the same kind is a no-op — it neither acts nor
/// changes the state.
pub proof fn lemma_route_idempotent(s: LinkState, k: BranchKind)
    ensures
        spec_route_action(spec_route_state(s, k), k) == LinkAction::Ignore || k
            == BranchKind::Other,
        spec_route_state(spec_route_state(s, k), k) == spec_route_state(s, k),
        k == BranchKind::Other ==> spec_route_action(s, k) == LinkAction::Ignore,
{
}

// ─── Source location ─────────────────────────────────────────────────────────

/// The scheme prefix of a local file reference.
pub open spec fn spec_file_scheme() -> Seq<u8> {
    seq![102u8, 105u8, 108u8, 101u8, 58u8, 47u8, 47u8]
}

/// The absolute file reference handed to the source stage: the scheme, then
/// the path itself when it is absolute, else the working directory, a
/// separator and the path.
pub open spec fn spec_file_uri(path: Seq<u8>, cwd: Seq<u8>) -> Seq<u8> {
    if path.len() > 0 && path[0] == 47u8 {
        spec_file_scheme() + path
    } else {
        spec_file_scheme() + cwd + seq![47u8] + path
    }
}

/// Build the file reference for the source stage from the given path and
/// working directory (both as raw bytes).
pub fn file_uri(path: &Vec<u8>, cwd: &Vec<u8>) -> (r: Vec<u8>)
    requires
        path@.len() + cwd@.len() + 8 <= usize::MAX,
    ensures
        r@ == spec_file_uri(path@, cwd@),
{
    let mut r: Vec<u8> = Vec::new();
    r.push(102);
    r.push(105);
    r.push(108);
    r.push(101);
    r.push(58);
    r.push(47);
    r.push(47);
    proof {
        assert(r@ =~= spec_file_scheme());
    }
    let absolute = path.len() > 0 && path[0] == 47;
    if !absolute {
        let mut k: usize = 0;
        while k < cwd.len()
            invariant
                k <= cwd@.len(),
                r@ == spec_file_scheme() + cwd@.subrange(0, k as int),
            decreases cwd@.len() - k,
        {
            r.push(cwd[k]);
            k = k + 1;
            proof {
                assert(r@ =~= spec_file_scheme() + cwd@.subrange(0, k as int));
            }
        }
        proof {
            assert(cwd@.subrange(0, cwd@.len() as int) =~= cwd@);
        }
        r.push(47);
        proof {
            assert(r@ =~= spec_file_scheme() + cwd@ + seq![47u8]);
        }
    }
    let ghost base = r@;
    let mut k: usize = 0;
    while k < path.len()
        invariant
            k <= path@.len(),
            r@ == base + path@.subrange(0, k as int),
        decreases path@.len() - k,
    {
        r.push(path[k]);
        k = k + 1;
        proof {
            assert(r@ =~= base + path@.subrange(0, k as int));
        }
    }
    proof {
        assert(path@.subrange(0, path@.len() as int) =~= path@);
        if absolute {
            assert(r@ =~= spec_file_uri(path@, cwd@));
        } else {
            assert(base =~= spec_file_scheme() + cwd@ + seq![47u8]);
            assert(r@ =~= spec_file_uri(path@, cwd@));
        }
    }
    r
}

// ─── Guard rail ──────────────────────────────────────────────────────────────

/// The largest pixel count decoded on the processor without an explicit
/// override (full high definition).
pub const GUARD_PIXEL_LIMIT: u64 = 1920 * 1080;

/// The startup guard rail: refuse to proceed exactly when the software chain
/// is active, the negotiated pixel count exceeds the limit, and no override
/// was given.
pub fn software_guard_refuses(
    software_active: bool,
    width: u32,
    height: u32,
    override_guard: bool,
) -> (r: bool)
    ensures
        r == (software_active && !override_guard && (width as int) * (height as int)
            > GUARD_PIXEL_LIMIT),
{
    if !software_active || override_guard {
        return false;
    }
    proof {
        assert((width as int) * (height as int) <= 0xffff_ffff_ffff_ffff) by (nonlinear_arith)
            requires
                width <= 0xffff_ffffu32,
                height <= 0xffff_ffffu32,
        ;
    }
    let pixels: u64 = (width as u64) * (height as u64);
    pixels > GUARD_PIXEL_LIMIT
}

} // verus!
