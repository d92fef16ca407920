//! Decisions about the surface that frames are drawn to: which format to
//! configure it with, which sizes to accept, and what to do when a frame
//! cannot be acquired.

use vstd::prelude::*;
use crate::types::texture::TextureSize;

verus! {

/// Why a frame could not be acquired.
#[derive(Clone, Copy, Debug, PartialEq, Eq, Structural)]
pub enum FrameError {
    /// The frame did not become ready in time.
    Timeout,
    /// The surface has changed and must be configured again.
    Outdated,
    /// The surface was lost and must be configured again.
    Lost,
    /// There is no memory left for a frame.
    OutOfMemory,
}

/// What to do after an attempt to acquire a frame.
#[derive(Clone, Copy, Debug, PartialEq, Eq, Structural)]
pub enum FrameStep {
    /// The frame is there: draw to it.
    Draw,
    /// Try once more.
    Retry,
    /// Configure the surface again as it is configured now, then try once more.
    ReconfigureAndRetry,
    /// Give up: the failure is fatal.
    GiveUp(FrameError),
}

/// The step after an attempt that ended with `failure`, or with a frame
/// if `failure` is `None`. A failure is answered with one more attempt,
/// and only one: a timeout as it is, anything else after configuring the
/// surface again.
pub open spec fn frame_step(retried: bool, failure: Option<FrameError>) -> FrameStep {
    match failure {
        None => FrameStep::Draw,
        Some(error) => if retried {
            FrameStep::GiveUp(error)
        } else if error == FrameError::Timeout {
            FrameStep::Retry
        } else {
            FrameStep::ReconfigureAndRetry
        },
    }
}

/// Decides what to do after an attempt to acquire a frame. `retried` says
/// whether this attempt was already the second one.
pub fn acquire_frame(retried: bool, failure: Option<FrameError>) -> (step: FrameStep)
    ensures
        step == frame_step(retried, failure),
{
    match failure {
        None => FrameStep::Draw,
        Some(error) => {
            if retried {
                FrameStep::GiveUp(error)
            } else {
                match error {
                    FrameError::Timeout => FrameStep::Retry,
                    _ => FrameStep::ReconfigureAndRetry,
                }
            }
        },
    }
}

/// `wgpu::SurfaceError`: why the graphics API could not hand out a frame.
#[verifier::external_type_specification]
#[verifier::external_body]
pub struct ExSurfaceError(wgpu::SurfaceError);

/// `wgpu::TextureFormat`: a texel format of the graphics API.
#[verifier::external_type_specification]
#[verifier::external_body]
pub struct ExTextureFormat(wgpu::TextureFormat);

/// Tells the four variants of `wgpu::SurfaceError` apart. Nothing is
/// claimed of the result, since nothing is known here of the argument.
#[verifier::external_body]
pub(crate) fn frame_error(error: &wgpu::SurfaceError) -> FrameError {
    match error {
        wgpu::SurfaceError::Timeout => FrameError::Timeout,
        wgpu::SurfaceError::Outdated => FrameError::Outdated,
        wgpu::SurfaceError::Lost => FrameError::Lost,
        wgpu::SurfaceError::OutOfMemory => FrameError::OutOfMemory,
    }
}

/// Calls `wgpu::TextureFormat::is_srgb`, which says whether the format
/// stores colour in the sRGB encoding. Nothing is claimed of the result,
/// since nothing is known here of the argument.
#[verifier::external_body]
pub(crate) fn is_srgb(format: &wgpu::TextureFormat) -> bool {
    format.is_srgb()
}

/// Decides what to do after an attempt to acquire a frame from the
/// graphics API: what `acquire_frame` decides for the kind of failure
/// that `failure` is.
pub fn acquire_frame_after(retried: bool, failure: Option<&wgpu::SurfaceError>) -> (step:
    FrameStep)
    ensures
        failure is None ==> step == FrameStep::Draw,
        failure is Some ==> exists|error: FrameError| step == #[trigger] frame_step(
            retried,
            Some(error),
        ),
        failure is Some && retried ==> step is GiveUp,
        failure is Some && !retried ==> step == FrameStep::Retry || step
            == FrameStep::ReconfigureAndRetry,
{
    match failure {
        None => acquire_frame(retried, None),
        Some(error) => {
            let kind = frame_error(error);
            let step = acquire_frame(retried, Some(kind));
            assert(step == frame_step(retried, Some(kind)));
            step
        },
    }
}

/// No format before `i` is sRGB.
pub open spec fn none_srgb_before(srgb: Seq<bool>, i: int) -> bool {
    forall|j: int| 0 <= j < i && j < srgb.len() ==> !srgb[j]
}

/// Picks the format to configure a surface with, out of the formats that
/// the surface offers: the first sRGB format, or the first format if none
/// is sRGB. `srgb[i]` says whether format `i` is sRGB. Nothing can be
/// picked if nothing is offered.
pub fn configure(srgb: &Vec<bool>) -> (choice: Option<usize>)
    ensures
        choice is None <==> srgb@.len() == 0,
        choice matches Some(i) ==> {
            &&& i < srgb@.len()
            &&& none_srgb_before(srgb@, i as int)
            &&& srgb@[i as int] || (i == 0 && none_srgb_before(srgb@, srgb@.len() as int))
        },
{
    if srgb.len() == 0 {
        return None;
    }
    let mut i: usize = 0;
    while i < srgb.len()
        invariant
            i <= srgb@.len(),
            none_srgb_before(srgb@, i as int),
        decreases srgb@.len() - i,
    {
        if srgb[i] {
            return Some(i);
        }
        i += 1;
    }
    Some(0)
}

/// Picks the format to configure a surface with, out of the formats that
/// the graphics API offers for it: what `configure` picks for the
/// formats' sRGB flags.
pub fn configure_formats(formats: &Vec<wgpu::TextureFormat>) -> (choice: Option<usize>)
    ensures
        choice is None <==> formats@.len() == 0,
        choice matches Some(i) ==> i < formats@.len(),
{
    let mut srgb: Vec<bool> = Vec::new();
    let mut i: usize = 0;
    while i < formats.len()
        invariant
            i <= formats@.len(),
            srgb@.len() == i,
        decreases formats@.len() - i,
    {
        srgb.push(is_srgb(&formats[i]));
        i += 1;
    }
    configure(&srgb)
}

/// The size of a surface after it was asked to take `new_size`: a size
/// without pixels is refused and the surface keeps the size it has.
pub open spec fn resized(current: TextureSize, new_size: TextureSize) -> TextureSize {
    if new_size.width == 0 || new_size.height == 0 {
        current
    } else {
        new_size
    }
}

/// Decides the size of a surface that is asked to take `new_size`.
pub fn resize(current: TextureSize, new_size: TextureSize) -> (size: TextureSize)
    ensures
        size == resized(current, new_size),
{
    if new_size.width == 0 || new_size.height == 0 {
        current
    } else {
        new_size
    }
}

/// Every frame comes after at most two attempts: whatever comes back from
/// the second attempt, the step after it is to draw or to give up.
pub proof fn lemma_one_retry(failure: Option<FrameError>)
    ensures
        frame_step(true, failure) == FrameStep::Draw || frame_step(true, failure)
            is GiveUp,
        frame_step(false, failure) is GiveUp ==> false,
{
}

} // verus!
