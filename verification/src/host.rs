use vstd::prelude::*;

verus! {

/// What the host component is asked to do.
#[derive(Clone, Copy, Debug, PartialEq, Eq, Structural)]
pub enum Msg {
    /// Show the camera and microphone preview.
    Start,
    /// Start sharing the screen.
    EnableScreenShare,
    /// Turn the microphone on (`true`) or off (`false`).
    EnableMicrophone(bool),
    /// Turn the camera on (`true`) or off (`false`).
    EnableVideo(bool),
}

/// The properties the meeting hands to the host component: who is sending,
/// and which of screen, microphone and camera the user has asked for.
#[derive(Debug, PartialEq)]
pub struct MeetingProps {
    pub id: String,
    pub email: String,
    pub share_screen: bool,
    pub mute_microphone: bool,
    pub share_video: bool,
}

/// The host component's state: whether it has been torn down, and the
/// screen, microphone and camera settings it last acted on.
#[derive(Clone, Copy, Debug, PartialEq, Eq, Structural)]
pub struct Host {
    pub destroy: bool,
    pub share_screen: bool,
    pub mute_microphone: bool,
    pub share_video: bool,
}

/// The work that handling a message starts.
#[derive(Clone, Copy, Debug, PartialEq, Eq, Structural)]
pub enum Task {
    /// Capture the screen and encode its frames.
    ShareScreen,
    /// Open camera and microphone and show them in the preview element.
    ShowCamera,
    /// Capture the microphone and encode its audio.
    EncodeMicrophone,
    /// Capture the camera and encode its frames.
    EncodeVideo,
}

/// The messages that rendering with the given settings sends, in order:
/// screen share when it was switched on, microphone when its mute setting
/// changed, camera when its setting changed, and the preview on the first
/// render.
pub open spec fn rendered_messages(
    host: Host,
    share_screen: bool,
    mute_microphone: bool,
    share_video: bool,
    first_render: bool,
) -> Seq<Msg> {
    (if share_screen != host.share_screen && share_screen {
        seq![Msg::EnableScreenShare]
    } else {
        seq![]
    }) + (if mute_microphone != host.mute_microphone {
        seq![Msg::EnableMicrophone(!mute_microphone)]
    } else {
        seq![]
    }) + (if share_video != host.share_video {
        seq![Msg::EnableVideo(share_video)]
    } else {
        seq![]
    }) + (if first_render {
        seq![Msg::Start]
    } else {
        seq![]
    })
}

/// The host after rendering with the given settings: it has taken them over
/// and is torn down exactly when it was before.
pub open spec fn rendered_host(
    host: Host,
    share_screen: bool,
    mute_microphone: bool,
    share_video: bool,
) -> Host {
    Host { destroy: host.destroy, share_screen, mute_microphone, share_video }
}

/// The task that a message starts, if any: turning the microphone or the
/// camera off starts nothing (the running capture stops by itself, see
/// `task_keeps_running`).
pub open spec fn task_for(msg: Msg) -> Option<Task> {
    match msg {
        Msg::EnableScreenShare => Some(Task::ShareScreen),
        Msg::Start => Some(Task::ShowCamera),
        Msg::EnableMicrophone(on) => if on {
            Some(Task::EncodeMicrophone)
        } else {
            None
        },
        Msg::EnableVideo(on) => if on {
            Some(Task::EncodeVideo)
        } else {
            None
        },
    }
}

/// Whether a task's capture loop reads another frame: never once the host
/// is torn down, and each capture only while its source is switched on
/// (screen shared, microphone not muted, camera shared). The preview task
/// has no capture loop.
pub open spec fn task_keeps_running(host: Host, task: Task) -> bool {
    match task {
        Task::ShareScreen => !host.destroy && host.share_screen,
        Task::EncodeMicrophone => !host.destroy && !host.mute_microphone,
        Task::EncodeVideo => !host.destroy && host.share_video,
        Task::ShowCamera => false,
    }
}

impl Host {
    /// A new host: not torn down, with screen, microphone and camera off.
    pub fn create() -> (host: Host)
        ensures
            host == (Host {
                destroy: false,
                share_screen: false,
                mute_microphone: false,
                share_video: false,
            }),
    {
        Host { destroy: false, share_screen: false, mute_microphone: false, share_video: false }
    }

    /// Takes over the settings in `props` and returns the messages to send
    /// for those that changed, and for the first render.
    pub fn rendered(&mut self, props: &MeetingProps, first_render: bool) -> (msgs: Vec<Msg>)
        ensures
            msgs@ == rendered_messages(
                *old(self),
                props.share_screen,
                props.mute_microphone,
                props.share_video,
                first_render,
            ),
            *final(self) == rendered_host(
                *old(self),
                props.share_screen,
                props.mute_microphone,
                props.share_video,
            ),
    {
        let mut msgs: Vec<Msg> = Vec::new();
        if props.share_screen != self.share_screen {
            self.share_screen = props.share_screen;
            if props.share_screen {
                msgs.push(Msg::EnableScreenShare);
            }
        }
        if props.mute_microphone != self.mute_microphone {
            self.mute_microphone = props.mute_microphone;
            msgs.push(Msg::EnableMicrophone(!props.mute_microphone));
        }
        if props.share_video != self.share_video {
            self.share_video = props.share_video;
            msgs.push(Msg::EnableVideo(props.share_video));
        }
        if first_render {
            msgs.push(Msg::Start);
        }
        msgs
    }

    /// The task that `msg` starts, if any, and whether to render again,
    /// which is always asked for.
    pub fn update(&self, msg: Msg) -> (res: (Option<Task>, bool))
        ensures
            res == (task_for(msg), true),
    {
        match msg {
            Msg::EnableScreenShare => (Some(Task::ShareScreen), true),
            Msg::Start => (Some(Task::ShowCamera), true),
            Msg::EnableMicrophone(on) => if on {
                (Some(Task::EncodeMicrophone), true)
            } else {
                (None, true)
            },
            Msg::EnableVideo(on) => if on {
                (Some(Task::EncodeVideo), true)
            } else {
                (None, true)
            },
        }
    }

    /// Whether `task`'s capture loop reads another frame.
    pub fn keeps_running(&self, task: Task) -> (res: bool)
        ensures
            res == task_keeps_running(*self, task),
    {
        match task {
            Task::ShareScreen => !self.destroy && self.share_screen,
            Task::EncodeMicrophone => !self.destroy && !self.mute_microphone,
            Task::EncodeVideo => !self.destroy && self.share_video,
            Task::ShowCamera => false,
        }
    }

    /// Tears the host down, which stops every capture loop.
    pub fn destroy(&mut self)
        ensures
            *final(self) == (Host { destroy: true, ..*old(self) }),
    {
        self.destroy = true;
    }
}

// ---------------------------------------------------------------------------
// Key frames
// ---------------------------------------------------------------------------

/// One frame in this many is encoded as a key frame.
pub const KEY_FRAME_INTERVAL: u32 = 50;

/// Counts encoded frames to decide which of them are key frames.
pub struct KeyFrameCounter {
    count: u32,
}

impl View for KeyFrameCounter {
    type V = nat;

    closed spec fn view(&self) -> nat {
        self.count as nat
    }
}

impl KeyFrameCounter {
    #[verifier::type_invariant]
    spec fn inv(self) -> bool {
        self.count < KEY_FRAME_INTERVAL
    }

    /// A counter before the first frame.
    pub fn new() -> (c: KeyFrameCounter)
        ensures
            c@ == 0,
    {
        KeyFrameCounter { count: 0 }
    }

    /// Counts one more frame and tells whether it is a key frame: the
    /// frame that brings the count round to zero.
    pub fn tick(&mut self) -> (key_frame: bool)
        ensures
            final(self)@ == (old(self)@ + 1) % (KEY_FRAME_INTERVAL as nat),
            key_frame == (final(self)@ == 0),
    {
        proof {
            use_type_invariant(&*self);
        }
        let next: u32 = (self.count + 1) % KEY_FRAME_INTERVAL;
        self.count = next;
        next == 0
    }
}

/// What a capture loop does with the outcome of reading one frame.
#[derive(Clone, Copy, Debug, PartialEq, Eq, Structural)]
pub enum FrameAction {
    /// Encode the video frame, as a key frame or not.
    EncodeVideo { key_frame: bool },
    /// Encode the audio data.
    EncodeAudio,
    /// The read failed: report it and read on.
    ReportError,
}

/// Whether `task` encodes video frames, and so counts them for key frames.
pub open spec fn encodes_video(task: Task) -> bool {
    task == Task::ShareScreen || task == Task::EncodeVideo
}

/// The count after one more frame read by `task`'s capture loop: only a
/// video frame that was read is counted.
pub open spec fn frame_step(count: nat, task: Task, read_ok: bool) -> nat {
    if read_ok && encodes_video(task) {
        (count + 1) % (KEY_FRAME_INTERVAL as nat)
    } else {
        count
    }
}

/// The action for a frame read by `task`'s capture loop. Only a video
/// frame that was read is counted towards the next key frame.
pub fn frame_action(task: Task, read_ok: bool, counter: &mut KeyFrameCounter) -> (action: FrameAction)
    requires
        task != Task::ShowCamera,
    ensures
        final(counter)@ == frame_step(old(counter)@, task, read_ok),
        !read_ok ==> action == FrameAction::ReportError && final(counter)@ == old(counter)@,
        read_ok && task == Task::EncodeMicrophone ==> action == FrameAction::EncodeAudio
            && final(counter)@ == old(counter)@,
        read_ok && (task == Task::ShareScreen || task == Task::EncodeVideo) ==> {
            &&& final(counter)@ == (old(counter)@ + 1) % (KEY_FRAME_INTERVAL as nat)
            &&& action == (FrameAction::EncodeVideo { key_frame: final(counter)@ == 0 })
        },
{
    if !read_ok {
        return FrameAction::ReportError;
    }
    match task {
        Task::EncodeMicrophone => FrameAction::EncodeAudio,
        _ => {
            let key_frame = counter.tick();
            FrameAction::EncodeVideo { key_frame }
        },
    }
}

/// The count of a new counter after `task`'s capture loop has seen the
/// read outcomes `reads`, in order (`true` for a frame that was read).
pub open spec fn count_after_reads(task: Task, reads: Seq<bool>) -> nat
    decreases reads.len(),
{
    if reads.len() == 0 {
        0
    } else {
        frame_step(count_after_reads(task, reads.drop_last()), task, reads.last())
    }
}

/// How many of the read outcomes are frames that were read.
pub open spec fn frames_read(reads: Seq<bool>) -> nat
    decreases reads.len(),
{
    if reads.len() == 0 {
        0
    } else {
        frames_read(reads.drop_last()) + if reads.last() {
            1nat
        } else {
            0nat
        }
    }
}

/// The count after `n` frames from a new counter.
pub open spec fn count_after(n: nat) -> nat
    decreases n,
{
    if n == 0 {
        0
    } else {
        (count_after((n - 1) as nat) + 1) % (KEY_FRAME_INTERVAL as nat)
    }
}

// ---------------------------------------------------------------------------
// Laws of the host
// ---------------------------------------------------------------------------

/// Rendering again with the settings just taken over sends nothing when it
/// is not the first render.
pub proof fn lemma_render_settles(
    host: Host,
    share_screen: bool,
    mute_microphone: bool,
    share_video: bool,
)
    ensures
        rendered_messages(
            rendered_host(host, share_screen, mute_microphone, share_video),
            share_screen,
            mute_microphone,
            share_video,
            false,
        ) =~= Seq::<Msg>::empty(),
        rendered_host(
            rendered_host(host, share_screen, mute_microphone, share_video),
            share_screen,
            mute_microphone,
            share_video,
        ) == rendered_host(host, share_screen, mute_microphone, share_video),
{
}

/// Rendering with the microphone muted, or the camera off, stops that
/// capture loop, and the message it sends for the change starts no task;
/// switching them on again starts the capture, which runs as long as the
/// host is not torn down.
pub proof fn lemma_microphone_and_camera_follow_props(
    host: Host,
    share_screen: bool,
    mute_microphone: bool,
    share_video: bool,
)
    ensures
        task_keeps_running(
            rendered_host(host, share_screen, mute_microphone, share_video),
            Task::EncodeMicrophone,
        ) == (!mute_microphone && !host.destroy),
        task_keeps_running(
            rendered_host(host, share_screen, mute_microphone, share_video),
            Task::EncodeVideo,
        ) == (share_video && !host.destroy),
        task_for(Msg::EnableMicrophone(!mute_microphone)) == (if mute_microphone {
            None
        } else {
            Some(Task::EncodeMicrophone)
        }),
        task_for(Msg::EnableVideo(share_video)) == (if share_video {
            Some(Task::EncodeVideo)
        } else {
            None
        }),
{
}

/// A torn-down host stays torn down when it renders, and no capture loop of
/// a torn-down host reads another frame.
pub proof fn lemma_destroy_stops_everything(
    host: Host,
    share_screen: bool,
    mute_microphone: bool,
    share_video: bool,
    task: Task,
)
    requires
        host.destroy,
    ensures
        rendered_host(host, share_screen, mute_microphone, share_video).destroy,
        !task_keeps_running(host, task),
        !task_keeps_running(
            rendered_host(host, share_screen, mute_microphone, share_video),
            task,
        ),
{
}

/// Rendering with screen sharing off stops the screen capture loop; with it
/// on, the loop runs as long as the host is not torn down.
pub proof fn lemma_screen_share_follows_props(
    host: Host,
    share_screen: bool,
    mute_microphone: bool,
    share_video: bool,
)
    ensures
        task_keeps_running(
            rendered_host(host, share_screen, mute_microphone, share_video),
            Task::ShareScreen,
        ) == (share_screen && !host.destroy),
{
}

/// Screen sharing is started exactly when rendering switches it on, and
/// the microphone and camera messages carry the new settings.
pub proof fn lemma_rendered_messages_follow_changes(
    host: Host,
    share_screen: bool,
    mute_microphone: bool,
    share_video: bool,
    first_render: bool,
)
    ensures
        rendered_messages(host, share_screen, mute_microphone, share_video, first_render).contains(
            Msg::EnableScreenShare,
        ) == (share_screen && !host.share_screen),
        rendered_messages(host, share_screen, mute_microphone, share_video, first_render).contains(
            Msg::EnableMicrophone(!mute_microphone),
        ) == (mute_microphone != host.mute_microphone),
        !rendered_messages(host, share_screen, mute_microphone, share_video, first_render).contains(
            Msg::EnableMicrophone(mute_microphone),
        ),
        rendered_messages(host, share_screen, mute_microphone, share_video, first_render).contains(
            Msg::EnableVideo(share_video),
        ) == (share_video != host.share_video),
        !rendered_messages(host, share_screen, mute_microphone, share_video, first_render).contains(
            Msg::EnableVideo(!share_video),
        ),
        rendered_messages(host, share_screen, mute_microphone, share_video, first_render).contains(
            Msg::Start,
        ) == first_render,
{
    let a: Seq<Msg> = if share_screen != host.share_screen && share_screen {
        seq![Msg::EnableScreenShare]
    } else {
        seq![]
    };
    let b: Seq<Msg> = if mute_microphone != host.mute_microphone {
        seq![Msg::EnableMicrophone(!mute_microphone)]
    } else {
        seq![]
    };
    let c: Seq<Msg> = if share_video != host.share_video {
        seq![Msg::EnableVideo(share_video)]
    } else {
        seq![]
    };
    let d: Seq<Msg> = if first_render {
        seq![Msg::Start]
    } else {
        seq![]
    };
    let all = rendered_messages(host, share_screen, mute_microphone, share_video, first_render);
    assert(all == a + b + c + d);
    assert forall|m: Msg| all.contains(m) <==> (a.contains(m) || b.contains(m) || c.contains(m) || d.contains(m)) by {
        if all.contains(m) {
            let i = choose|i: int| 0 <= i < all.len() && all[i] == m;
            if i < a.len() {
                assert(a[i] == m);
            } else if i < a.len() + b.len() {
                assert(b[i - a.len()] == m);
            } else if i < a.len() + b.len() + c.len() {
                assert(c[i - a.len() - b.len()] == m);
            } else {
                assert(d[i - a.len() - b.len() - c.len()] == m);
            }
        }
        if a.contains(m) {
            let i = choose|i: int| 0 <= i < a.len() && a[i] == m;
            assert(all[i] == m);
        }
        if b.contains(m) {
            let i = choose|i: int| 0 <= i < b.len() && b[i] == m;
            assert(all[a.len() + i] == m);
        }
        if c.contains(m) {
            let i = choose|i: int| 0 <= i < c.len() && c[i] == m;
            assert(all[a.len() + b.len() + i] == m);
        }
        if d.contains(m) {
            let i = choose|i: int| 0 <= i < d.len() && d[i] == m;
            assert(all[a.len() + b.len() + c.len() + i] == m);
        }
    }
    if a.len() > 0 {
        assert(a[0] == Msg::EnableScreenShare);
    }
    if b.len() > 0 {
        assert(b[0] == Msg::EnableMicrophone(!mute_microphone));
    }
    if c.len() > 0 {
        assert(c[0] == Msg::EnableVideo(share_video));
    }
    if d.len() > 0 {
        assert(d[0] == Msg::Start);
    }
}

/// Rendering never tears the host down nor brings it back: the host after
/// rendering is torn down exactly when it was before, and holds the new
/// screen, microphone and camera settings.
pub proof fn lemma_render_keeps_destroy(
    host: Host,
    share_screen: bool,
    mute_microphone: bool,
    share_video: bool,
)
    ensures
        rendered_host(host, share_screen, mute_microphone, share_video).destroy == host.destroy,
        rendered_host(host, share_screen, mute_microphone, share_video).share_screen
            == share_screen,
        rendered_host(host, share_screen, mute_microphone, share_video).mute_microphone
            == mute_microphone,
        rendered_host(host, share_screen, mute_microphone, share_video).share_video
            == share_video,
{
}

/// Rendering sends each message at most once: one for each setting that
/// changed in the direction that sends a message (screen sharing switched
/// on; microphone mute changed; camera changed) and one for the first
/// render, in the order screen sharing, microphone, camera, preview.
pub proof fn lemma_rendered_messages_once(
    host: Host,
    share_screen: bool,
    mute_microphone: bool,
    share_video: bool,
    first_render: bool,
)
    ensures
        ({
            let msgs = rendered_messages(host, share_screen, mute_microphone, share_video, first_render);
            &&& msgs.len() == (if share_screen && !host.share_screen { 1int } else { 0int })
                + (if mute_microphone != host.mute_microphone { 1int } else { 0int })
                + (if share_video != host.share_video { 1int } else { 0int })
                + (if first_render { 1int } else { 0int })
            &&& forall|i: int, j: int| 0 <= i < j < msgs.len() ==> msgs[i] != msgs[j]
            &&& forall|i: int, j: int| 0 <= i < j < msgs.len() ==> msg_rank(msgs[i]) < msg_rank(msgs[j])
            &&& first_render ==> msgs.last() == Msg::Start
            &&& share_screen && !host.share_screen ==> msgs[0] == Msg::EnableScreenShare
        }),
{
    let a: Seq<Msg> = if share_screen != host.share_screen && share_screen {
        seq![Msg::EnableScreenShare]
    } else {
        seq![]
    };
    let b: Seq<Msg> = if mute_microphone != host.mute_microphone {
        seq![Msg::EnableMicrophone(!mute_microphone)]
    } else {
        seq![]
    };
    let c: Seq<Msg> = if share_video != host.share_video {
        seq![Msg::EnableVideo(share_video)]
    } else {
        seq![]
    };
    let d: Seq<Msg> = if first_render {
        seq![Msg::Start]
    } else {
        seq![]
    };
    let msgs = rendered_messages(host, share_screen, mute_microphone, share_video, first_render);
    assert(msgs == a + b + c + d);
    let ab = a + b;
    let abc = ab + c;
    assert forall|i: int| 0 <= i < msgs.len() implies #[trigger] msg_rank(msgs[i]) == (if i < a.len() {
        0int
    } else if i < ab.len() {
        1int
    } else if i < abc.len() {
        2int
    } else {
        3int
    }) by {
        if i < a.len() {
            assert(msgs[i] == a[i]);
        } else if i < ab.len() {
            assert(msgs[i] == b[i - a.len()]);
        } else if i < abc.len() {
            assert(msgs[i] == c[i - ab.len()]);
        } else {
            assert(msgs[i] == d[i - abc.len()]);
        }
    }
    assert forall|i: int, j: int| 0 <= i < j < msgs.len() implies msgs[i] != msgs[j] by {
        assert(msg_rank(msgs[i]) < msg_rank(msgs[j]));
    }
    if first_render {
        assert(msg_rank(msgs[msgs.len() - 1]) == 3);
    }
    if share_screen && !host.share_screen {
        assert(msg_rank(msgs[0]) == 0);
    }
}

/// The position a message takes among those that rendering sends.
pub open spec fn msg_rank(m: Msg) -> int {
    match m {
        Msg::EnableScreenShare => 0,
        Msg::EnableMicrophone(_) => 1,
        Msg::EnableVideo(_) => 2,
        Msg::Start => 3,
    }
}

/// When each capture loop reads another frame: the preview task never; the
/// screen capture while the host is up and the screen is shared; the
/// microphone capture while the host is up and the microphone not muted;
/// the camera capture while the host is up and the camera is shared.
pub proof fn lemma_keeps_running_exactly(host: Host)
    ensures
        !task_keeps_running(host, Task::ShowCamera),
        task_keeps_running(host, Task::ShareScreen) <==> (!host.destroy && host.share_screen),
        task_keeps_running(host, Task::EncodeMicrophone) <==> (!host.destroy
            && !host.mute_microphone),
        task_keeps_running(host, Task::EncodeVideo) <==> (!host.destroy && host.share_video),
{
}

/// Which task each message starts: the preview for `Start`, the screen
/// capture for `EnableScreenShare`, the microphone and camera captures only
/// when they are switched on, and nothing when they are switched off.
pub proof fn lemma_update_starts(on: bool)
    ensures
        task_for(Msg::Start) == Some(Task::ShowCamera),
        task_for(Msg::EnableScreenShare) == Some(Task::ShareScreen),
        task_for(Msg::EnableMicrophone(on)) is Some <==> on,
        on ==> task_for(Msg::EnableMicrophone(on)) == Some(Task::EncodeMicrophone),
        task_for(Msg::EnableVideo(on)) is Some <==> on,
        on ==> task_for(Msg::EnableVideo(on)) == Some(Task::EncodeVideo),
{
}

/// How one frame read moves the key frame count: a frame read by the
/// screen or camera capture advances it by one, wrapping to zero at the
/// interval; a failed read, or audio, leaves it as it was.
pub proof fn lemma_frame_step_exactly(count: nat, task: Task, read_ok: bool)
    ensures
        (read_ok && (task == Task::ShareScreen || task == Task::EncodeVideo)) ==> frame_step(
            count,
            task,
            read_ok,
        ) == (count + 1) % 50,
        !read_ok ==> frame_step(count, task, read_ok) == count,
        task == Task::EncodeMicrophone ==> frame_step(count, task, read_ok) == count,
{
}

/// Across a capture loop's successive reads, starting from a new counter:
/// after `k` frames that were read (failed reads in between count for
/// nothing), the counter's view is `count_after(k)`, that is `k` modulo the
/// interval; so the frame read last is a key frame exactly when it is the
/// `k`-th frame read and `k` is a positive multiple of the interval.
pub proof fn lemma_reads_key_frame_cadence(task: Task, reads: Seq<bool>)
    requires
        encodes_video(task),
    ensures
        count_after_reads(task, reads) == count_after(frames_read(reads)),
        count_after_reads(task, reads) == frames_read(reads) % (KEY_FRAME_INTERVAL as nat),
        reads.len() > 0 && reads.last() ==> frames_read(reads) > 0 && (
        (count_after_reads(task, reads) == 0) <==> frames_read(reads) % (KEY_FRAME_INTERVAL as nat)
            == 0),
    decreases reads.len(),
{
    lemma_key_frame_cadence(frames_read(reads));
    if reads.len() > 0 {
        lemma_reads_key_frame_cadence(task, reads.drop_last());
    }
}

/// Starting from a new counter, the count after `n` frames is `n` modulo
/// the interval, so the `n`-th frame is a key frame exactly when `n` is a
/// positive multiple of the interval: one key frame in every
/// `KEY_FRAME_INTERVAL` frames, the first at frame `KEY_FRAME_INTERVAL`.
pub proof fn lemma_key_frame_cadence(n: nat)
    ensures
        count_after(n) == n % (KEY_FRAME_INTERVAL as nat),
        n > 0 ==> ((count_after(n) == 0) <==> n % (KEY_FRAME_INTERVAL as nat) == 0),
    decreases n,
{
    if n > 0 {
        lemma_key_frame_cadence((n - 1) as nat);
        assert(((n - 1) % 50 + 1) % 50 == n % 50) by (nonlinear_arith)
            requires
                n > 0,
        ;
    }
}

} // verus!
