use grafiek_wasm::fault::disposition;
use grafiek_wasm::fault::readback_failure;
use grafiek_wasm::fault::Disposition;
use grafiek_wasm::fault::Failure;
use grafiek_wasm::readback::ReadbackError;
use grafiek_wasm::surface::surface_config;
use grafiek_wasm::surface::AlphaMode;
use grafiek_wasm::surface::PresentMode;
use grafiek_wasm::surface::SurfaceFormat;
use grafiek_wasm::surface::FRAME_LATENCY;

#[test]
fn device_faults_end_the_process() {
    assert_eq!(disposition(Failure::DeviceOutOfMemory), Disposition::Abort);
    assert_eq!(disposition(Failure::DeviceValidation), Disposition::Abort);
    assert_eq!(disposition(Failure::DeviceInternal), Disposition::Abort);
}

#[test]
fn a_missing_frame_costs_one_cycle() {
    assert_eq!(disposition(Failure::FrameUnavailable), Disposition::SkipFrame);
}

#[test]
fn export_failures_reach_the_caller() {
    for failure in [
        Failure::UnsupportedFormat,
        Failure::TextureTooLarge,
        Failure::MapFailed,
        Failure::MapChannelClosed,
        Failure::MissingOutput,
    ] {
        assert_eq!(disposition(failure), Disposition::Report);
    }
}

#[test]
fn a_missing_surface_is_passed_over() {
    assert_eq!(disposition(Failure::MissingSurface), Disposition::Ignore);
}

#[test]
fn readback_errors_are_classified_one_for_one() {
    assert_eq!(readback_failure(&ReadbackError::UnsupportedFormat), Failure::UnsupportedFormat);
    assert_eq!(readback_failure(&ReadbackError::TooLarge), Failure::TextureTooLarge);
    assert_eq!(readback_failure(&ReadbackError::MapFailed("x".to_owned())), Failure::MapFailed);
    assert_eq!(readback_failure(&ReadbackError::ChannelClosed), Failure::MapChannelClosed);
}

#[test]
fn surface_config_is_rgba8_fifo_two_frames_premultiplied() {
    let config = surface_config(800, 600);
    assert_eq!(config.width, 800);
    assert_eq!(config.height, 600);
    assert_eq!(config.format, SurfaceFormat::Rgba8Unorm);
    assert_eq!(config.present_mode, PresentMode::Fifo);
    assert_eq!(config.desired_maximum_frame_latency, 2);
    assert_eq!(config.alpha_mode, AlphaMode::PreMultiplied);
    assert_eq!(FRAME_LATENCY, 2);
}
