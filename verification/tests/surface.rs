use minirender::surface_wrapper::{
    acquire_frame, acquire_frame_after, configure, configure_formats, resize, FrameError,
    FrameStep,
};
use minirender::types::texture::TextureSize;

#[test]
fn acquired_frame_is_drawn() {
    assert_eq!(acquire_frame(false, None), FrameStep::Draw);
    assert_eq!(acquire_frame(true, None), FrameStep::Draw);
}

#[test]
fn timeout_is_retried_once() {
    assert_eq!(acquire_frame(false, Some(FrameError::Timeout)), FrameStep::Retry);
    assert_eq!(
        acquire_frame(true, Some(FrameError::Timeout)),
        FrameStep::GiveUp(FrameError::Timeout)
    );
}

#[test]
fn stale_surface_is_configured_again_once() {
    for error in [FrameError::Outdated, FrameError::Lost, FrameError::OutOfMemory] {
        assert_eq!(acquire_frame(false, Some(error)), FrameStep::ReconfigureAndRetry);
        assert_eq!(acquire_frame(true, Some(error)), FrameStep::GiveUp(error));
    }
}

#[test]
fn first_srgb_format_is_configured() {
    assert_eq!(configure(&vec![false, true, true]), Some(1));
    assert_eq!(configure(&vec![true, false]), Some(0));
    assert_eq!(configure(&vec![false, false, false, true]), Some(3));
}

#[test]
fn first_format_is_the_fallback() {
    assert_eq!(configure(&vec![false, false]), Some(0));
    assert_eq!(configure(&vec![false]), Some(0));
    assert_eq!(configure(&vec![]), None);
}

#[test]
fn surface_refuses_a_size_without_pixels() {
    let current = TextureSize { width: 800, height: 600 };
    assert_eq!(resize(current, TextureSize { width: 0, height: 600 }), current);
    assert_eq!(resize(current, TextureSize { width: 640, height: 0 }), current);
    assert_eq!(resize(current, TextureSize { width: 0, height: 0 }), current);
    assert_eq!(
        resize(current, TextureSize { width: 640, height: 480 }),
        TextureSize { width: 640, height: 480 }
    );
}

#[test]
fn api_failures_are_answered_by_their_kind() {
    assert_eq!(acquire_frame_after(false, None), FrameStep::Draw);
    assert_eq!(acquire_frame_after(false, Some(&wgpu::SurfaceError::Timeout)), FrameStep::Retry);
    assert_eq!(
        acquire_frame_after(false, Some(&wgpu::SurfaceError::Outdated)),
        FrameStep::ReconfigureAndRetry
    );
    assert_eq!(
        acquire_frame_after(false, Some(&wgpu::SurfaceError::Lost)),
        FrameStep::ReconfigureAndRetry
    );
    assert_eq!(
        acquire_frame_after(false, Some(&wgpu::SurfaceError::OutOfMemory)),
        FrameStep::ReconfigureAndRetry
    );
    assert_eq!(
        acquire_frame_after(true, Some(&wgpu::SurfaceError::Timeout)),
        FrameStep::GiveUp(FrameError::Timeout)
    );
    assert_eq!(
        acquire_frame_after(true, Some(&wgpu::SurfaceError::Lost)),
        FrameStep::GiveUp(FrameError::Lost)
    );
    assert_eq!(
        acquire_frame_after(true, Some(&wgpu::SurfaceError::Outdated)),
        FrameStep::GiveUp(FrameError::Outdated)
    );
    assert_eq!(
        acquire_frame_after(true, Some(&wgpu::SurfaceError::OutOfMemory)),
        FrameStep::GiveUp(FrameError::OutOfMemory)
    );
}

#[test]
fn first_srgb_format_of_the_api_is_configured() {
    let formats = vec![
        wgpu::TextureFormat::Bgra8Unorm,
        wgpu::TextureFormat::Rgba8Unorm,
        wgpu::TextureFormat::Bgra8UnormSrgb,
        wgpu::TextureFormat::Rgba8UnormSrgb,
    ];
    assert_eq!(configure_formats(&formats), Some(2));
    assert_eq!(configure_formats(&formats[..2].to_vec()), Some(0));
    assert_eq!(configure_formats(&formats[1..].to_vec()), Some(1));
    assert_eq!(configure_formats(&vec![]), None);
}
