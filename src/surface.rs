use vstd::prelude::*;

verus! {

/// How frames are handed to the display.
#[derive(Clone, Copy, Debug, PartialEq, Eq, Structural)]
pub enum PresentMode {
    AutoVsync,
    AutoNoVsync,
    Fifo,
    FifoRelaxed,
    Immediate,
    Mailbox,
}

/// The settings a surface is configured with. `format` and `alpha_mode` are
/// positions in the lists of formats and alpha modes the surface supports.
#[derive(Clone, Copy, Debug, PartialEq, Eq, Structural)]
pub struct SurfaceSettings {
    pub width: u32,
    pub height: u32,
    pub format: usize,
    pub present_mode: PresentMode,
    pub alpha_mode: usize,
    pub desired_maximum_frame_latency: u32,
}

/// `i` is the position of the first sRGB format, or 0 where there is none.
pub open spec fn is_preferred_format(is_srgb: Seq<bool>, i: int) -> bool {
    &&& 0 <= i < is_srgb.len()
    &&& forall|j: int| 0 <= j < i ==> !is_srgb[j]
    &&& is_srgb[i] || (i == 0 && forall|j: int| 0 <= j < is_srgb.len() ==> !is_srgb[j])
}

/// Mailbox, the low-latency mode, where it is supported; otherwise Fifo,
/// which every surface supports.
pub open spec fn preferred_present_mode(supported: Seq<PresentMode>) -> PresentMode {
    if supported.contains(PresentMode::Mailbox) {
        PresentMode::Mailbox
    } else {
        PresentMode::Fifo
    }
}

/// The position of the first sRGB format in the supported list, or of the
/// first format where none is sRGB. `is_srgb` tells for each supported
/// format whether it is sRGB.
pub fn choose_format(is_srgb: &[bool]) -> (r: usize)
    requires
        is_srgb@.len() > 0,
    ensures
        is_preferred_format(is_srgb@, r as int),
{
    let mut i: usize = 0;
    while i < is_srgb.len()
        invariant
            i <= is_srgb@.len(),
            forall|j: int| 0 <= j < i ==> !is_srgb@[j],
        decreases is_srgb@.len() - i,
    {
        if is_srgb[i] {
            return i;
        }
        i += 1;
    }
    0
}

/// Mailbox if the surface supports it, else Fifo.
pub fn choose_present_mode(supported: &[PresentMode]) -> (r: PresentMode)
    ensures
        r == preferred_present_mode(supported@),
{
    let mut i: usize = 0;
    while i < supported.len()
        invariant
            i <= supported@.len(),
            forall|j: int| 0 <= j < i ==> supported@[j] != PresentMode::Mailbox,
        decreases supported@.len() - i,
    {
        if supported[i] == PresentMode::Mailbox {
            assert(supported@.contains(PresentMode::Mailbox)) by {
                assert(supported@[i as int] == PresentMode::Mailbox);
            }
            return PresentMode::Mailbox;
        }
        i += 1;
    }
    PresentMode::Fifo
}

/// The frames a surface may queue ahead of the display.
pub const MAX_FRAME_LATENCY: u32 = 2;

/// The settings for a surface of the given size: the preferred format and
/// present mode among those supported, the first supported alpha mode, and
/// a frame latency of two.
pub fn surface_settings(
    width: u32,
    height: u32,
    format_is_srgb: &[bool],
    present_modes: &[PresentMode],
) -> (r: SurfaceSettings)
    requires
        format_is_srgb@.len() > 0,
    ensures
        r.width == width,
        r.height == height,
        is_preferred_format(format_is_srgb@, r.format as int),
        r.present_mode == preferred_present_mode(present_modes@),
        r.alpha_mode == 0,
        r.desired_maximum_frame_latency == MAX_FRAME_LATENCY,
{
    SurfaceSettings {
        width,
        height,
        format: choose_format(format_is_srgb),
        present_mode: choose_present_mode(present_modes),
        alpha_mode: 0,
        desired_maximum_frame_latency: MAX_FRAME_LATENCY,
    }
}

/// Why acquiring a frame from the surface failed.
#[derive(Clone, Copy, Debug, PartialEq, Eq, Structural)]
pub enum SurfaceErrorKind {
    Timeout,
    Outdated,
    Lost,
    OutOfMemory,
    Other,
}

/// What the caller of a failed frame does about it.
#[derive(Clone, Copy, Debug, PartialEq, Eq, Structural)]
pub enum FrameErrorAction {
    /// Recoverable: the next resize or frame tries again.
    Ignore,
    /// Log a warning and skip the frame.
    Warn,
    /// Fatal: log and abort.
    Abort,
    /// Log the error and go on.
    Report,
}

pub open spec fn error_action(kind: SurfaceErrorKind) -> FrameErrorAction {
    match kind {
        SurfaceErrorKind::Lost | SurfaceErrorKind::Outdated => FrameErrorAction::Ignore,
        SurfaceErrorKind::Timeout => FrameErrorAction::Warn,
        SurfaceErrorKind::OutOfMemory => FrameErrorAction::Abort,
        SurfaceErrorKind::Other => FrameErrorAction::Report,
    }
}

/// Lost and outdated surfaces are recoverable, a timeout is a warning, lack
/// of memory is fatal, and anything else is reported.
pub fn classify_surface_error(kind: SurfaceErrorKind) -> (r: FrameErrorAction)
    ensures
        r == error_action(kind),
{
    match kind {
        SurfaceErrorKind::Lost | SurfaceErrorKind::Outdated => FrameErrorAction::Ignore,
        SurfaceErrorKind::Timeout => FrameErrorAction::Warn,
        SurfaceErrorKind::OutOfMemory => FrameErrorAction::Abort,
        SurfaceErrorKind::Other => FrameErrorAction::Report,
    }
}

} // verus!
