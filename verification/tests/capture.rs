use lightsync::capture::frame::{
    state_for_error, CaptureError, CaptureState, FrameFormat, OwnedFrame, PixelFormat,
};
use lightsync::capture::grim::{grim_not_started, grim_output, GrimCapture};
use lightsync::capture::pipewire::{
    copy_pipewire_frame, on_buffer, on_condition, on_format, pixel_format, Buffer, FormatChange,
    Plane, StreamCondition, StreamReaction, VideoFormat,
};
use lightsync::capture::portal::{
    advance, choose_backend, needs_stored_token, portal_backend_error, received, starting_token,
    stored_token, ActiveBackend, CaptureOptions, FrameEvent, LastEvent, MonitorStream, PortalEvent,
    PortalFailure, PortalOptions, PortalPhase, SelectedSource, StartAnswer,
};
use lightsync::capture::ppm::parse_ppm;

fn format(width: u32, height: u32, stride: i32, pixel_format: PixelFormat) -> FrameFormat {
    FrameFormat {
        width,
        height,
        stride,
        pixel_format,
    }
}

#[test]
fn parses_ppm_comments_crlf_and_leading_pixel_whitespace() {
    let mut ppm = b"P6\r\n# grim output\r\n2 1\r\n255\r\n".to_vec();
    ppm.extend_from_slice(&[b' ', 2, 3, 4, 5, 6]);
    let frame = parse_ppm(&ppm).expect("PPM parses");

    assert_eq!(frame.format().width, 2);
    assert_eq!(frame.view().rgb_at(0, 0), Some([b' ', 2, 3]));
    assert_eq!(frame.view().rgb_at(1, 0), Some([4, 5, 6]));
}

#[test]
fn rejects_truncated_ppm() {
    let error = parse_ppm(b"P6\n2 2\n255\n123").expect_err("truncated image rejected");
    assert!(matches!(error, CaptureError::InvalidFrame(_)));
}

#[test]
fn all_pipewire_formats_map_to_rgb() {
    let cases = [
        (PixelFormat::Bgrx, [3, 2, 1, 0]),
        (PixelFormat::Bgra, [3, 2, 1, 255]),
        (PixelFormat::Rgbx, [1, 2, 3, 0]),
        (PixelFormat::Rgba, [1, 2, 3, 255]),
    ];
    for (pixel_format, pixel) in cases {
        let frame =
            OwnedFrame::new(format(1, 1, 4, pixel_format), pixel.to_vec()).expect("valid frame");
        assert_eq!(frame.view().rgb_at(0, 0), Some([1, 2, 3]));
    }
}

#[test]
fn handles_positive_negative_and_implicit_stride() {
    let top = [255, 0, 0, 0, 0, 0, 0, 0];
    let bottom = [0, 0, 255, 0, 0, 0, 0, 0];
    let data = [top, bottom].concat();
    let positive =
        OwnedFrame::new(format(1, 2, 8, PixelFormat::Rgbx), data.clone()).expect("positive stride");
    assert_eq!(positive.view().rgb_at(0, 0), Some([255, 0, 0]));
    assert_eq!(positive.view().rgb_at(0, 1), Some([0, 0, 255]));

    let negative =
        OwnedFrame::new(format(1, 2, -8, PixelFormat::Rgbx), data).expect("negative stride");
    assert_eq!(negative.view().rgb_at(0, 0), Some([0, 0, 255]));
    assert_eq!(negative.view().rgb_at(0, 1), Some([255, 0, 0]));

    let implicit = OwnedFrame::new(format(1, 1, 0, PixelFormat::Rgba), vec![7, 8, 9, 255])
        .expect("implicit stride");
    assert_eq!(implicit.view().rgb_at(0, 0), Some([7, 8, 9]));
}

#[test]
fn pipewire_negative_stride_is_copied_from_the_chunk_origin_top_down() {
    let bottom = [0, 0, 255, 0, 0, 0, 0, 0];
    let top = [255, 0, 0, 0, 0, 0, 0, 0];
    let mapped = [bottom, top].concat();
    let frame = copy_pipewire_frame(&mapped, 8, 12, format(1, 2, -8, PixelFormat::Rgbx))
        .expect("negative-stride chunk");
    assert_eq!(frame.format().stride, 4);
    assert_eq!(frame.view().rgb_at(0, 0), Some([255, 0, 0]));
    assert_eq!(frame.view().rgb_at(0, 1), Some([0, 0, 255]));
}

#[test]
fn pipewire_copy_rejects_truncated_chunks() {
    let error = copy_pipewire_frame(&[0; 8], 0, 8, format(1, 2, 8, PixelFormat::Rgbx))
        .expect_err("truncated chunk");
    assert!(matches!(error, CaptureError::InvalidFrame(_)));
}

#[test]
fn latest_frame_replaces_unread_frames() {
    let mut latest = None;
    for red in [1, 2, 3] {
        let frame = OwnedFrame::new(format(1, 1, 3, PixelFormat::Rgb), vec![red, 0, 0])
            .expect("valid frame");
        latest = Some(FrameEvent::Frame(frame));
    }
    let frame = received(latest)
        .expect("a frame has come")
        .expect("latest frame");
    assert_eq!(frame.view().rgb_at(0, 0), Some([3, 0, 0]));
}

#[test]
fn rejects_short_stride_and_accepts_last_row_without_trailing_padding() {
    let short = OwnedFrame::new(format(2, 1, 4, PixelFormat::Rgb), vec![0; 6]);
    assert!(short.is_err());

    let compact_last_row = OwnedFrame::new(format(1, 2, 8, PixelFormat::Rgba), vec![0; 12]);
    assert!(compact_last_row.is_ok());
}

#[test]
fn frame_rejects_empty_and_short_data() {
    assert!(OwnedFrame::new(format(0, 1, 3, PixelFormat::Rgb), vec![0; 3]).is_err());
    assert!(OwnedFrame::new(format(1, 0, 3, PixelFormat::Rgb), vec![0; 3]).is_err());
    assert!(OwnedFrame::new(format(1, 2, 3, PixelFormat::Rgb), vec![0; 5]).is_err());
    assert!(OwnedFrame::new(format(1, 2, 3, PixelFormat::Rgb), vec![0; 6]).is_ok());
}

#[test]
fn pixel_outside_the_frame_is_none() {
    let frame =
        OwnedFrame::new(format(2, 2, 6, PixelFormat::Rgb), vec![9; 12]).expect("valid frame");
    assert_eq!(frame.view().rgb_at(1, 1), Some([9, 9, 9]));
    assert_eq!(frame.view().rgb_at(2, 0), None);
    assert_eq!(frame.view().rgb_at(0, 2), None);
}

#[test]
fn negative_stride_shows_the_rows_upside_down() {
    let data = vec![1, 1, 1, 2, 2, 2, 3, 3, 3];
    let down =
        OwnedFrame::new(format(1, 3, 3, PixelFormat::Rgb), data.clone()).expect("valid frame");
    let up = OwnedFrame::new(format(1, 3, -3, PixelFormat::Rgb), data).expect("valid frame");
    for y in 0..3 {
        assert_eq!(down.view().rgb_at(0, y), up.view().rgb_at(0, 2 - y));
    }
}

#[test]
fn ppm_errors_are_told() {
    for broken in [
        &b""[..],
        &b"P5\n1 1\n255\n123"[..],
        &b"P6\n0 1\n255\n"[..],
        &b"P6\n1 1\n254\n123"[..],
        &b"P6\n1 1\n255"[..],
        &b"P6\nx 1\n255\n123"[..],
        &b"P6\n99999999999 1\n255\n123"[..],
    ] {
        assert!(matches!(
            parse_ppm(broken),
            Err(CaptureError::InvalidFrame(_))
        ));
    }
    assert!(parse_ppm(b"P6 1 1 255\n123").is_ok());
}

#[test]
fn ppm_pixels_come_in_reading_order() {
    let mut data = b"P6\n2 2\n255\n".to_vec();
    data.extend_from_slice(&[1, 2, 3, 4, 5, 6, 7, 8, 9, 10, 11, 12]);
    let frame = parse_ppm(&data).expect("PPM parses");
    assert_eq!(frame.view().rgb_at(0, 0), Some([1, 2, 3]));
    assert_eq!(frame.view().rgb_at(1, 0), Some([4, 5, 6]));
    assert_eq!(frame.view().rgb_at(0, 1), Some([7, 8, 9]));
    assert_eq!(frame.view().rgb_at(1, 1), Some([10, 11, 12]));
}

#[test]
fn errors_have_messages_and_states() {
    assert_eq!(
        state_for_error(&CaptureError::UserCancelled),
        CaptureState::Cancelled
    );
    assert_eq!(
        state_for_error(&CaptureError::ConsentRequired),
        CaptureState::ConsentRequired
    );
    assert!(matches!(
        state_for_error(&CaptureError::Closed),
        CaptureState::Failed(_)
    ));
    for error in [
        CaptureError::UserCancelled,
        CaptureError::ConsentRequired,
        CaptureError::Closed,
        CaptureError::InvalidFrame("short".to_owned()),
        CaptureError::Backend("gone".to_owned()),
        CaptureError::ShutdownTimedOut,
    ] {
        assert!(!error.message().is_empty());
    }
    assert!(CaptureError::Backend("gone".to_owned())
        .message()
        .contains("gone"));
}

#[test]
fn stream_formats_are_the_four_channel_ones() {
    assert_eq!(pixel_format(VideoFormat::BGRx), Some(PixelFormat::Bgrx));
    assert_eq!(pixel_format(VideoFormat::BGRA), Some(PixelFormat::Bgra));
    assert_eq!(pixel_format(VideoFormat::RGBx), Some(PixelFormat::Rgbx));
    assert_eq!(pixel_format(VideoFormat::RGBA), Some(PixelFormat::Rgba));
    assert_eq!(pixel_format(VideoFormat::Other), None);
}

#[test]
fn stream_reacts_to_conditions_formats_and_buffers() {
    assert_eq!(
        on_condition(&StreamCondition::Streaming),
        StreamReaction::Streaming
    );
    assert!(matches!(
        on_condition(&StreamCondition::Error("lost".to_owned())),
        StreamReaction::Fail(CaptureError::Backend(_))
    ));
    assert!(matches!(
        on_condition(&StreamCondition::Unconnected),
        StreamReaction::Fail(_)
    ));
    assert_eq!(on_condition(&StreamCondition::Other), StreamReaction::Nothing);
    assert_eq!(on_format(&FormatChange::Other), StreamReaction::Nothing);
    assert!(matches!(
        on_format(&FormatChange::Missing),
        StreamReaction::Fail(CaptureError::InvalidFrame(_))
    ));
    assert_eq!(on_format(&FormatChange::Accepted), StreamReaction::Nothing);
    assert!(matches!(
        on_format(&FormatChange::Unreadable("odd".to_owned())),
        StreamReaction::Fail(_)
    ));

    let mapped = [1, 2, 3, 0];
    let plane = Plane {
        offset: 0,
        size: 4,
        stride: 4,
        mapped: Some(&mapped),
    };
    let frame = match on_buffer(Buffer::Filled(plane), VideoFormat::RGBx, 1, 1) {
        StreamReaction::Frame(frame) => frame,
        other => panic!("unexpected reaction: {other:?}"),
    };
    assert_eq!(frame.view().rgb_at(0, 0), Some([1, 2, 3]));
    assert_eq!(
        on_buffer(Buffer::Absent, VideoFormat::RGBx, 1, 1),
        StreamReaction::Nothing
    );
}

#[test]
fn backend_falls_back_to_grim_only_where_allowed() {
    assert_eq!(
        choose_backend(Ok(()), true),
        Ok(ActiveBackend::PortalPipeWire)
    );
    let failure = CaptureError::Backend("no portal".to_owned());
    assert_eq!(
        choose_backend(Err(failure.clone()), true),
        Ok(ActiveBackend::Grim)
    );
    assert_eq!(
        choose_backend(Err(failure.clone()), false),
        Err(failure)
    );
    assert_eq!(
        choose_backend(Err(CaptureError::UserCancelled), true),
        Err(CaptureError::UserCancelled)
    );
}

#[test]
fn tokens_are_read_and_required() {
    let options = PortalOptions {
        interactive: false,
        restore_token: None,
        restore_token_path: Some(b"/tmp/token".to_vec()),
    };
    assert!(needs_stored_token(&options));
    assert_eq!(stored_token("  abc \n"), Some("abc".to_owned()));
    assert_eq!(stored_token(" \n"), None);
    assert_eq!(
        starting_token(&options, Some("abc".to_owned())),
        Ok(Some("abc".to_owned()))
    );
    assert_eq!(
        starting_token(&options, None),
        Err(CaptureError::ConsentRequired)
    );
    assert_eq!(starting_token(&PortalOptions::default(), None), Ok(None));
    assert!(!needs_stored_token(&PortalOptions::default()));
}

#[test]
fn portal_failures_are_mapped() {
    assert_eq!(
        portal_backend_error(PortalFailure::Cancelled),
        CaptureError::UserCancelled
    );
    assert!(matches!(
        portal_backend_error(PortalFailure::Other("bus".to_owned())),
        CaptureError::Backend(_)
    ));
    let _ = CaptureOptions::default();
}

#[test]
fn received_waits_for_a_frame() {
    assert_eq!(received::<u8>(None), None);
    assert_eq!(received(Some(FrameEvent::Frame(7))), Some(Ok(7)));
    assert_eq!(
        received::<u8>(Some(FrameEvent::Closed)),
        Some(Err(CaptureError::Closed))
    );
    assert_eq!(
        received::<u8>(Some(FrameEvent::Error(CaptureError::UserCancelled))),
        Some(Err(CaptureError::UserCancelled))
    );
}

#[test]
fn portal_session_runs_from_consent_to_stop() {
    let source = SelectedSource {
        id: Some("monitor".to_owned()),
        mapping_id: None,
        position: None,
        size: Some((1920, 1080)),
    };
    let step = advance(
        PortalPhase::Requesting,
        PortalEvent::ConsentGranted {
            streams: vec![MonitorStream {
                node_id: 42,
                source: source.clone(),
            }],
            restore_token: Some("token".to_owned()),
        },
        true,
    );
    assert_eq!(step.answer, None);
    assert!(matches!(step.phase, PortalPhase::Granted { .. }));
    assert_eq!(step.open_node, Some(42));
    assert!(step.save_token);
    let step = advance(step.phase, PortalEvent::RemoteOpened, true);
    assert_eq!(step.state, Some(CaptureState::Connecting));
    let step = advance(step.phase, PortalEvent::WorkerStarted, true);
    assert_eq!(
        step.answer,
        Some(StartAnswer::Ready {
            source,
            restore_token: Some("token".to_owned()),
        })
    );
    assert_eq!(step.phase, PortalPhase::Streaming);
    let step = advance(step.phase, PortalEvent::StopRequested, true);
    assert!(step.stop_worker);
    assert!(step.close_session);
    assert_eq!(step.answer, None);
    let step = advance(step.phase, PortalEvent::Joined, true);
    assert_eq!(step.phase, PortalPhase::Ended);
    assert_eq!(step.state, Some(CaptureState::Stopped));
    assert_eq!(step.last, Some(LastEvent::Closed));
}

#[test]
fn refused_consent_is_answered_once() {
    let step = advance(
        PortalPhase::Requesting,
        PortalEvent::ConsentFailed(CaptureError::UserCancelled),
        false,
    );
    assert_eq!(
        step.answer,
        Some(StartAnswer::Failed(CaptureError::UserCancelled))
    );
    assert_eq!(step.phase, PortalPhase::Ended);
    let again = advance(step.phase, PortalEvent::WorkerFinished, false);
    assert_eq!(again.answer, None);
}

#[test]
fn grim_waits_and_reports() {
    let mut grim = GrimCapture::new(Some("DP-1".to_owned())).with_minimum_interval(1_000);
    assert_eq!(grim.state(), CaptureState::Idle);
    assert_eq!(grim.arguments(), vec!["-t", "ppm", "-o", "DP-1", "-"]);
    assert_eq!(grim.next_capture(), Ok(None));
    let frame = grim
        .complete(Ok(b"P6\n1 1\n255\nabc".to_vec()), 5_000)
        .expect("frame");
    assert_eq!(frame.view().rgb_at(0, 0), Some([b'a', b'b', b'c']));
    assert_eq!(grim.next_capture(), Ok(Some(6_000)));
    grim.shutdown();
    assert_eq!(grim.state(), CaptureState::Stopped);
    assert_eq!(grim.next_capture(), Err(CaptureError::Closed));
}

#[test]
fn grim_failures_show_what_was_printed() {
    assert!(grim_not_started("missing").message().contains("missing"));
    assert_eq!(grim_output(true, vec![1, 2], b""), Ok(vec![1, 2]));
    let error = grim_output(false, Vec::new(), b"no \xffoutput\n").expect_err("failed run");
    assert!(error.message().contains("no \u{fffd}output"));
}

#[test]
fn written_images_are_read_back() {
    for (pixels, trailing) in [
        (*b" \n# 12", &b""[..]),
        (*b"#23456", &b"P6\n"[..]),
        ([0, 255, 13, 10, 9, 12], &b"\0"[..]),
    ] {
        for (width, height) in [(2, 1), (1, 2)] {
            let mut image = format!("P6\n{width} {height}\n255\n").into_bytes();
            image.extend_from_slice(&pixels);
            image.extend_from_slice(trailing);
            let frame = parse_ppm(&image).expect("image");
            assert_eq!(frame.format().width, width);
            assert_eq!(frame.format().height, height);
            assert_eq!(frame.format().stride, 3 * width as i32);
            assert_eq!(frame.data(), pixels);
        }
    }
}
