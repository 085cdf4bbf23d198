//! Sound, pictures and playback.

use std::collections::VecDeque;

use feditexter::codec::{collect_packets, fit_packet, is_key_frame, HevcDec, UnitBuffer};
use feditexter::img::{
    attachment_thumbnail, avatar_data_url, can_resize, image_data_url_from_bytes, is_image,
    picture_from_rows, picture_size, preview_jpeg, rows_from_picture, shrink_jpeg, shrink_png, Rgba,
};
use feditexter::media::{
    handle_cmd, next_start, open_session, push_audio, report, take_up_at, Clock, Cmd, CmdAction,
    MediaEvent, OpenedFile, PlayState, SessionAction, SessionExit,
};
use feditexter::planes::{copy_plane, pack_rgba};
use feditexter::sound::{pick_config, push_bounded, take_packets, Offered, OutputMix};
use feditexter::video::{capture_settings, video_event, LocalVideo, RemoteVideo};
use feditexter::voice::{
    gen_ssrc, local_tracks, track_kind, VoiceAction, VoiceEvent, VoiceManager, VoiceVideoKind,
};
use feditexter::yuv::{i420_picture, make_even, rgb_at, rgba_at, stride_uv, stride_y};

fn png(width: u32, height: u32) -> Vec<u8> {
    let mut img = image::RgbaImage::new(width, height);
    for (x, y, p) in img.enumerate_pixels_mut() {
        *p = image::Rgba([(x * 8) as u8, (y * 8) as u8, 128, 255]);
    }
    let mut out = std::io::Cursor::new(Vec::new());
    image::DynamicImage::ImageRgba8(img)
        .write_to(&mut out, image::ImageFormat::Png)
        .unwrap();
    out.into_inner()
}

#[test]
fn pictures_are_measured_and_shrunk() {
    let small = png(8, 4);
    assert_eq!(picture_size(&small), Some((8, 4)));
    assert_eq!(picture_size(&vec![1, 2, 3]), None);
    let kept = shrink_png(&small, 256, (1, 1)).unwrap();
    assert_eq!(picture_size(&kept), Some((8, 4)));
    let large = png(300, 150);
    let cut = shrink_png(&large, 256, (256, 128)).unwrap();
    assert_eq!(picture_size(&cut), Some((256, 128)));
    let (jpeg, _) = shrink_jpeg(&large, 256, (256, 128)).unwrap();
    assert!(jpeg.starts_with(&[0xff, 0xd8]));
    assert_eq!(image::load_from_memory(&jpeg).unwrap().width(), 256);
}

#[test]
fn pictures_become_data_urls() {
    let p = png(4, 4);
    assert!(avatar_data_url(&p, (4, 4)).unwrap().starts_with("data:image/png;base64,"));
    assert!(avatar_data_url(&vec![0], (4, 4)).is_err());
    assert!(image_data_url_from_bytes(&p).unwrap().starts_with("data:image/png;base64,"));
    assert_eq!(image_data_url_from_bytes(&vec![0]), None);
    assert!(attachment_thumbnail(&p, (4, 4)).starts_with("data:image/jpeg;base64,"));
    assert_eq!(attachment_thumbnail(&vec![0], (4, 4)), "");
    assert!(preview_jpeg(&p, (4, 4)).is_some());
    assert_eq!(preview_jpeg(&vec![0], (4, 4)), None);
}

#[test]
fn rows_are_packed_and_unpacked() {
    let data: Vec<u8> = (0..48).collect();
    let p = picture_from_rows(&data, 24, 4, 2);
    assert_eq!(p.pixels.len(), 32);
    assert_eq!(p.pixels[16], 24);
    let mut frame = vec![0u8; 48];
    rows_from_picture(&p, &mut frame, 24);
    assert_eq!(pack_rgba(&frame, 24, 4, 2), p.pixels);
    assert!(is_image(&Some(Rgba { width: 1, height: 1, pixels: vec![0; 4] })));
    assert!(!is_image(&None));
    assert!(can_resize(1, 1) && !can_resize(0, 1));
    let mut dst = vec![9u8; 8];
    copy_plane(&mut dst, 4, &vec![1, 2, 3, 4], 2, 2, 2);
    assert_eq!(dst, vec![1, 2, 9, 9, 3, 4, 9, 9]);
}

#[test]
fn planes_are_laid_out_for_the_encoder() {
    assert_eq!((stride_y(1), stride_y(16), stride_y(17)), (16, 16, 32));
    assert_eq!((stride_uv(2), stride_uv(64)), (16, 32));
    assert_eq!((make_even(3), make_even(4)), (2, 4));
    assert_eq!(rgb_at(&vec![1, 2, 3, 4, 5, 6], 1), (4, 5, 6));
    assert_eq!(rgba_at(&vec![1, 2, 3, 4, 5, 6, 7, 8], 1), (5, 6, 7));
    let p = i420_picture(4, 2, &vec![1, 2, 3, 4, 5, 6, 7, 8], &vec![10, 11], &vec![20, 21]);
    assert_eq!((p.w, p.h, p.sy, p.suv), (4, 2, 16, 16));
    assert_eq!(&p.y[..5], &[1, 2, 3, 4, 0]);
    assert_eq!(p.y[16], 5);
    assert_eq!((p.u[1], p.v[1]), (11, 21));
}

#[test]
fn video_is_encoded_and_decoded() {
    let mut local = LocalVideo::new(VoiceVideoKind::Camera).expect("an encoder");
    let mut remote = RemoteVideo::new(7, VoiceVideoKind::Camera).expect("a decoder");
    let (w, h) = (64usize, 48usize);
    let mut shown = None;
    for i in 0..5u8 {
        let luma = vec![100 + i; w * h];
        let grey = vec![128u8; w / 2 * (h / 2)];
        let picture = i420_picture(w, h, &luma, &grey, &grey);
        let unit = local.encode(&picture).expect("an access unit");
        let half = unit.len() / 2;
        assert!(remote.packet(unit[..half].to_vec(), false).is_none());
        if let Some(e) = remote.packet(unit[half..].to_vec(), true) {
            shown = Some(e);
        }
    }
    match shown {
        Some(VoiceEvent::Video { user_id, kind, width, height, rgba }) => {
            assert_eq!((user_id, kind), (7, VoiceVideoKind::Camera));
            assert_eq!((width, height), (64, 48));
            assert_eq!(rgba.len(), 64 * 48 * 4);
            assert!(rgba[0] > 60 && rgba[0] < 160);
        }
        _ => panic!("no picture was decoded"),
    }
    assert_eq!(local.frame_no, 5);
    assert!(video_event(1, VoiceVideoKind::Screen, None).is_none());
    assert_eq!(capture_settings(VoiceVideoKind::Screen).max_width, 1280);
    assert!(is_key_frame(120, 120) && !is_key_frame(119, 120));
}

#[test]
fn access_units_end_with_the_mark() {
    let mut b = UnitBuffer::new();
    assert_eq!(b.push(vec![1], false), None);
    assert_eq!(b.push(vec![2], true), Some(vec![1, 2]));
    assert_eq!(b.push(vec![3], true), Some(vec![3]));
    assert_eq!(collect_packets(vec![vec![1], vec![], vec![2, 3]]), Some(vec![1, 2, 3]));
    assert_eq!(collect_packets(vec![vec![]]), None);
    assert_eq!(fit_packet(&vec![1, 2], 3, 0), vec![1, 2, 0]);
}

#[test]
fn decoders_keep_the_order() {
    let mut d = HevcDec::new();
    assert!(d.feed(vec![1]));
    assert!(d.feed(vec![2]));
    assert_eq!(d.next_unit(), Some(vec![1]));
    d.decoded(1, 1, vec![0; 4]);
    assert_eq!(d.next_unit(), Some(vec![2]));
    assert_eq!(d.try_drain(), vec![(1, 1, vec![0; 4])]);
    assert!(d.try_drain().is_empty());
    d.close();
    assert!(!d.feed(vec![3]));
}

#[test]
fn sound_waits_in_bounded_queues() {
    let mut q: VecDeque<i32> = VecDeque::new();
    push_bounded(&mut q, vec![1, 2, 3, 4], 3);
    assert_eq!(q, VecDeque::from(vec![2, 3, 4]));
    let mut mix: OutputMix<i32> = OutputMix::new();
    mix.push(1, vec![10, 11]);
    mix.push(2, vec![20]);
    assert_eq!(mix.pop_all(), vec![10, 20]);
    assert_eq!(mix.pop_all(), vec![11]);
    mix.remove(1);
    assert!(mix.pop_all().is_empty());
    let mut acc = vec![1, 2, 3, 4, 5];
    assert_eq!(take_packets(&mut acc, 2), vec![vec![1, 2], vec![3, 4]]);
    assert_eq!(acc, vec![5]);
    let offers = vec![
        Offered { float_samples: false, min_rate: 8000, max_rate: 96000 },
        Offered { float_samples: true, min_rate: 44100, max_rate: 48000 },
    ];
    assert_eq!(pick_config(&offers, 48000), Some(1));
    assert_eq!(pick_config(&offers, 8000), None);
    let mut ring: VecDeque<f32> = VecDeque::new();
    push_audio(&mut ring, vec![0.5; 100_000]);
    assert_eq!(ring.len(), 88_200);
}

#[test]
fn playback_keeps_its_position() {
    let mut c = Clock::start(1_000, 0);
    assert_eq!(handle_cmd(Cmd::Pause, &mut c, 500), CmdAction::Continue);
    assert_eq!(c.pos, 1_500);
    handle_cmd(Cmd::Play, &mut c, 10_000);
    assert_eq!(c.wall_pos(10_250), 1_750);
    assert_eq!(
        handle_cmd(Cmd::Seek(-5), &mut c, 0),
        CmdAction::Exit(SessionExit::Seek(0))
    );
    assert_eq!(handle_cmd(Cmd::Volume(3), &mut c, 0), CmdAction::SetVolume(3));
    assert_eq!(next_start(SessionExit::Seek(9)), Some(9));
    assert_eq!(next_start(SessionExit::Stop), None);
    assert_eq!(PlayState::from_u8(2), PlayState::Paused);
    assert_eq!(PlayState::from_u8(9), PlayState::Stopped);
}

#[test]
fn voice_channels_are_joined_and_left() {
    let mut v = VoiceManager::new();
    assert!(!v.join(1, 5, 10).is_empty());
    assert_eq!(v.in_channel(), Some(5));
    v.handle_voice_state(5, vec![(10, "me".to_string()), (11, "bob".to_string())]);
    assert_eq!(v.members().len(), 2);
    v.handle_voice_presence(5, 12, "eve".to_string(), true);
    assert_eq!(v.members()[2], (12, "eve".to_string()));
    v.handle_voice_presence(5, 12, "eve".to_string(), false);
    assert_eq!(v.members().len(), 2);
    v.set_muted(true);
    assert!(v.is_muted() && !v.sends_sound(1));
    let acts = v.leave();
    assert!(acts.iter().any(|a| matches!(a, VoiceAction::SendLeave { guild_id: 1, channel_id: 5 })));
    assert_eq!(v.in_channel(), None);
    assert!(v.members().is_empty());
    assert!(v.send_signal("voice_ice", 11, "x").is_none());
}

#[test]
fn tracks_are_told_apart() {
    let mut n: u32 = 1;
    let (a, b, c) = local_tracks(&mut n);
    assert_ne!(a.ssrc, b.ssrc);
    assert_ne!(b.ssrc, c.ssrc);
    assert_ne!(gen_ssrc(&mut n), c.ssrc);
    assert_eq!(track_kind("x-camera"), Some(VoiceVideoKind::Camera));
    assert_eq!(track_kind("x-screen"), Some(VoiceVideoKind::Screen));
    assert_eq!(track_kind("audio"), None);
}

#[test]
fn opening_a_file_is_reported_once() {
    let (told, session) = open_session(Err("no such file".to_string()), 0, 0);
    assert!(matches!(told, MediaEvent::Error(e) if e == "open: no such file"));
    assert!(session.is_none());
    let file = OpenedFile { duration: 3_000_000, video: Some(0), audio: None };
    let (told, session) = open_session(Ok(file), 5, 9);
    assert!(matches!(told, MediaEvent::Opened { duration: 3_000_000, has_audio: false }));
    assert_eq!(session.unwrap().clock, Clock { playing: true, pos: 5, base: 9 });
    assert_eq!(take_up_at(0), None);
    assert_eq!(take_up_at(5), Some(5));
    let mut kept = Some(MediaEvent::Frame { width: 1, height: 1, rgba: vec![0; 4] });
    assert!(report(SessionAction::Poll, &mut kept).is_none());
    assert!(matches!(report(SessionAction::Show, &mut kept), Some(MediaEvent::Frame { .. })));
    assert!(report(SessionAction::Show, &mut kept).is_none());
    assert!(matches!(report(SessionAction::ReportEnd, &mut kept), Some(MediaEvent::Ended)));
}
