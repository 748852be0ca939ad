use yew_ui::{
    frame_action, FrameAction, Host, KeyFrameCounter, MeetingProps, Msg, Task, KEY_FRAME_INTERVAL,
};

fn props(share_screen: bool, mute_microphone: bool, share_video: bool) -> MeetingProps {
    MeetingProps {
        id: String::from("room-1"),
        email: String::from("alice@example.com"),
        share_screen,
        mute_microphone,
        share_video,
    }
}

#[test]
fn create_starts_with_everything_off() {
    let h = Host::create();
    assert!(!h.destroy);
    assert!(!h.share_screen);
    assert!(!h.mute_microphone);
    assert!(!h.share_video);
}

#[test]
fn first_render_with_defaults_only_starts_preview() {
    let mut h = Host::create();
    let msgs = h.rendered(&props(false, false, false), true);
    assert_eq!(msgs, vec![Msg::Start]);
}

#[test]
fn first_render_with_everything_on() {
    let mut h = Host::create();
    let msgs = h.rendered(&props(true, true, true), true);
    assert_eq!(
        msgs,
        vec![
            Msg::EnableScreenShare,
            Msg::EnableMicrophone(false),
            Msg::EnableVideo(true),
            Msg::Start
        ]
    );
    assert!(h.share_screen && h.mute_microphone && h.share_video && !h.destroy);
}

#[test]
fn render_settles() {
    let mut h = Host::create();
    let p = props(true, false, true);
    h.rendered(&p, true);
    let again = h.rendered(&p, false);
    assert!(again.is_empty());
}

#[test]
fn turning_screen_share_off_sends_nothing_but_stops_capture() {
    let mut h = Host::create();
    h.rendered(&props(true, false, false), false);
    assert!(h.keeps_running(Task::ShareScreen));
    let msgs = h.rendered(&props(false, false, false), false);
    assert!(msgs.is_empty());
    assert!(!h.keeps_running(Task::ShareScreen));
}

#[test]
fn microphone_and_video_messages_carry_the_new_setting() {
    let mut h = Host::create();
    h.rendered(&props(false, true, true), false);
    let msgs = h.rendered(&props(false, false, false), false);
    assert_eq!(msgs, vec![Msg::EnableMicrophone(true), Msg::EnableVideo(false)]);
}

#[test]
fn update_starts_a_task_and_rerenders() {
    let h = Host::create();
    assert_eq!(h.update(Msg::Start), (Some(Task::ShowCamera), true));
    assert_eq!(h.update(Msg::EnableScreenShare), (Some(Task::ShareScreen), true));
    assert_eq!(h.update(Msg::EnableMicrophone(true)), (Some(Task::EncodeMicrophone), true));
    assert_eq!(h.update(Msg::EnableMicrophone(false)), (None, true));
    assert_eq!(h.update(Msg::EnableVideo(true)), (Some(Task::EncodeVideo), true));
    assert_eq!(h.update(Msg::EnableVideo(false)), (None, true));
}

#[test]
fn capture_loops_run_until_destroyed() {
    let mut h = Host::create();
    h.rendered(&props(true, false, true), true);
    assert!(h.keeps_running(Task::ShareScreen));
    assert!(h.keeps_running(Task::EncodeMicrophone));
    assert!(h.keeps_running(Task::EncodeVideo));
    assert!(!h.keeps_running(Task::ShowCamera));
    h.destroy();
    assert!(h.destroy);
    for t in [Task::ShareScreen, Task::EncodeMicrophone, Task::EncodeVideo, Task::ShowCamera] {
        assert!(!h.keeps_running(t));
    }
    h.rendered(&props(true, false, true), false);
    assert!(h.destroy);
    assert!(!h.keeps_running(Task::ShareScreen));
}

#[test]
fn destroy_keeps_the_settings() {
    let mut h = Host::create();
    h.rendered(&props(true, true, false), false);
    h.destroy();
    assert!(h.share_screen && h.mute_microphone && !h.share_video);
}

#[test]
fn key_frame_every_interval() {
    assert_eq!(KEY_FRAME_INTERVAL, 50);
    let mut c = KeyFrameCounter::new();
    let mut keys = Vec::new();
    for frame in 1..=160u32 {
        if c.tick() {
            keys.push(frame);
        }
    }
    assert_eq!(keys, vec![50, 100, 150]);
}

#[test]
fn failed_reads_are_reported_and_not_counted() {
    let mut c = KeyFrameCounter::new();
    for _ in 0..49 {
        assert_eq!(frame_action(Task::EncodeVideo, true, &mut c), FrameAction::EncodeVideo { key_frame: false });
    }
    for _ in 0..10 {
        assert_eq!(frame_action(Task::EncodeVideo, false, &mut c), FrameAction::ReportError);
    }
    assert_eq!(frame_action(Task::EncodeVideo, true, &mut c), FrameAction::EncodeVideo { key_frame: true });
}

#[test]
fn screen_frames_use_the_key_frame_cadence() {
    let mut c = KeyFrameCounter::new();
    let mut keys = 0;
    for _ in 0..100 {
        if frame_action(Task::ShareScreen, true, &mut c) == (FrameAction::EncodeVideo { key_frame: true }) {
            keys += 1;
        }
    }
    assert_eq!(keys, 2);
}

#[test]
fn audio_frames_are_encoded_without_counting() {
    let mut c = KeyFrameCounter::new();
    for _ in 0..60 {
        assert_eq!(frame_action(Task::EncodeMicrophone, true, &mut c), FrameAction::EncodeAudio);
    }
    assert_eq!(frame_action(Task::EncodeMicrophone, false, &mut c), FrameAction::ReportError);
    assert!(!c.tick());
}

#[test]
fn muting_and_camera_off_stop_capture_and_start_nothing() {
    let mut h = Host::create();
    let msgs = h.rendered(&props(false, false, true), true);
    assert_eq!(msgs, vec![Msg::EnableVideo(true), Msg::Start]);
    assert_eq!(h.update(Msg::EnableVideo(true)), (Some(Task::EncodeVideo), true));
    assert!(h.keeps_running(Task::EncodeMicrophone));
    assert!(h.keeps_running(Task::EncodeVideo));

    let msgs = h.rendered(&props(false, true, false), false);
    assert_eq!(msgs, vec![Msg::EnableMicrophone(false), Msg::EnableVideo(false)]);
    for msg in msgs {
        assert_eq!(h.update(msg), (None, true));
    }
    assert!(!h.keeps_running(Task::EncodeMicrophone));
    assert!(!h.keeps_running(Task::EncodeVideo));

    let msgs = h.rendered(&props(false, false, true), false);
    assert_eq!(msgs, vec![Msg::EnableMicrophone(true), Msg::EnableVideo(true)]);
    assert_eq!(h.update(msgs[0]), (Some(Task::EncodeMicrophone), true));
    assert_eq!(h.update(msgs[1]), (Some(Task::EncodeVideo), true));
    assert!(h.keeps_running(Task::EncodeMicrophone));
    assert!(h.keeps_running(Task::EncodeVideo));
}

#[test]
fn key_frames_count_only_frames_read() {
    // Reads alternate: fail, ok, ok, fail, ok, ...; the 50th and 100th
    // frames read are the key frames, whatever failed in between.
    let mut c = KeyFrameCounter::new();
    let mut read = 0u32;
    let mut keys = Vec::new();
    for i in 0..400u32 {
        let ok = i % 3 != 0;
        let action = frame_action(Task::EncodeVideo, ok, &mut c);
        if ok {
            read += 1;
            match action {
                FrameAction::EncodeVideo { key_frame } => {
                    assert_eq!(key_frame, read % 50 == 0, "frame {read}");
                    if key_frame {
                        keys.push(read);
                    }
                }
                other => panic!("unexpected {other:?}"),
            }
        } else {
            assert_eq!(action, FrameAction::ReportError);
        }
    }
    assert_eq!(keys, vec![50, 100, 150, 200, 250]);
}
