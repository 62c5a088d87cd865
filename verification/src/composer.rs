//! The composer's state: the pending images (at most four), the pending
//! video, and whether a video is being compressed or a post is being sent.
//! Images and a video are never pending together. Pending files are held
//! as numbers that stand for the browser's file handles.
use vstd::prelude::*;
use crate::client::{can_add_image, images_to_take, remove_at, MAX_IMAGES};

verus! {

/// What the composer holds between events.
#[derive(Debug, Clone, PartialEq, Eq)]
pub struct ComposerState {
    pub images: Vec<u64>,
    pub video: Option<u64>,
    pub compressing: bool,
    pub busy: bool,
}

/// The composer's state as plain values.
#[verifier::ext_equal]
pub struct ComposerModel {
    pub images: Seq<u64>,
    pub video: Option<u64>,
    pub compressing: bool,
    pub busy: bool,
}

impl ComposerState {
    pub open spec fn model(&self) -> ComposerModel {
        ComposerModel {
            images: self.images@,
            video: self.video,
            compressing: self.compressing,
            busy: self.busy,
        }
    }

    /// An empty, idle composer.
    pub fn new() -> (s: Self)
        ensures
            s.model() == empty_composer(),
    {
        ComposerState { images: Vec::new(), video: None, compressing: false, busy: false }
    }
}

/// What happens to the composer.
#[derive(Debug, Clone, PartialEq, Eq)]
pub enum ComposerEvent {
    /// Files chosen with the image picker.
    PickImages(Vec<u64>),
    /// A file chosen with the video picker: its compression starts.
    PickVideo,
    /// The compressed video is ready.
    VideoReady(u64),
    /// The compression failed.
    VideoFailed,
    /// The image at this place is taken out.
    RemoveImage(usize),
    /// The video is taken out.
    ClearVideo,
    /// The post button, with whether the text is non-blank and whether the
    /// member has a session token.
    Submit(bool, bool),
    /// The post was sent (`true`) or refused (`false`).
    Finished(bool),
}

/// An empty, idle composer.
pub open spec fn empty_composer() -> ComposerModel {
    ComposerModel { images: Seq::empty(), video: None, compressing: false, busy: false }
}

/// At most four images, never images and a video together, and no images
/// while a video is compressed.
pub open spec fn composer_ok(m: ComposerModel) -> bool {
    &&& m.images.len() <= MAX_IMAGES
    &&& !(m.images.len() > 0 && m.video is Some)
    &&& (m.compressing ==> m.images.len() == 0)
}

/// The image picker is open to the member: nothing is being sent or
/// compressed, fewer than four images are pending and no video is.
pub open spec fn image_picker_enabled(m: ComposerModel) -> bool {
    !m.busy && !m.compressing && m.images.len() < MAX_IMAGES && m.video is None
}

/// The video picker is open to the member: nothing is being sent or
/// compressed and no image is pending.
pub open spec fn video_picker_enabled(m: ComposerModel) -> bool {
    !m.busy && !m.compressing && m.images.len() == 0
}

/// How many of `chosen` files fit in the free image slots.
pub open spec fn slots_taken(pending: nat, chosen: nat) -> nat {
    if pending >= MAX_IMAGES {
        0
    } else if chosen < MAX_IMAGES - pending {
        chosen
    } else {
        (MAX_IMAGES - pending) as nat
    }
}

/// The composer after an event. A picker whose button is disabled takes no
/// files; picking images drops a pending video, and picking a video drops
/// the pending images; a post that was sent empties the composer.
pub open spec fn compose_next(m: ComposerModel, ev: ComposerEvent) -> ComposerModel {
    match ev {
        ComposerEvent::PickImages(files) => if image_picker_enabled(m) {
            ComposerModel {
                images: m.images + files@.take(slots_taken(m.images.len(), files@.len()) as int),
                video: None,
                ..m
            }
        } else {
            m
        },
        ComposerEvent::PickVideo => if video_picker_enabled(m) {
            ComposerModel { images: Seq::empty(), video: None, compressing: true, ..m }
        } else {
            m
        },
        ComposerEvent::VideoReady(v) => if m.compressing {
            ComposerModel { video: Some(v), compressing: false, ..m }
        } else {
            m
        },
        ComposerEvent::VideoFailed => ComposerModel { compressing: false, ..m },
        ComposerEvent::RemoveImage(idx) => if idx < m.images.len() {
            ComposerModel { images: m.images.remove(idx as int), ..m }
        } else {
            m
        },
        ComposerEvent::ClearVideo => ComposerModel { video: None, ..m },
        ComposerEvent::Submit(has_text, has_token) => if !m.busy && !m.compressing && has_token && (
        has_text || m.images.len() > 0 || m.video is Some) {
            ComposerModel { busy: true, ..m }
        } else {
            m
        },
        ComposerEvent::Finished(posted) => if posted {
            ComposerModel { images: Seq::empty(), video: None, busy: false, ..m }
        } else {
            ComposerModel { busy: false, ..m }
        },
    }
}

/// The composer after a run of events, in order.
pub open spec fn compose_run(m: ComposerModel, events: Seq<ComposerEvent>) -> ComposerModel
    decreases events.len(),
{
    if events.len() == 0 {
        m
    } else {
        compose_run(compose_next(m, events[0]), events.drop_first())
    }
}

/// Applies an event to the composer.
pub fn compose_step(s: &mut ComposerState, ev: ComposerEvent)
    ensures
        final(s).model() == compose_next(old(s).model(), ev),
{
    match ev {
        ComposerEvent::PickImages(files) => {
            if !s.busy && !s.compressing && can_add_image(s.images.len(), s.video.is_some()) {
                let n = images_to_take(s.images.len(), files.len());
                assert(n == slots_taken(s.images@.len(), files@.len()));
                let ghost before = s.images@;
                let mut i: usize = 0;
                while i < n
                    invariant
                        i <= n,
                        n <= files@.len(),
                        s.images@ == before + files@.take(i as int),
                        s.busy == old(s).busy,
                        s.compressing == old(s).compressing,
                    decreases n - i,
                {
                    s.images.push(files[i]);
                    i += 1;
                    assert(files@.take(i as int) =~= files@.take(i - 1).push(files@[i - 1]));
                }
                s.video = None;
                assert(s.images@ =~= compose_next(old(s).model(), ev).images);
            }
        },
        ComposerEvent::PickVideo => {
            if !s.busy && !s.compressing && s.images.len() == 0 {
                s.images = Vec::new();
                s.video = None;
                s.compressing = true;
            }
        },
        ComposerEvent::VideoReady(v) => {
            if s.compressing {
                s.video = Some(v);
                s.compressing = false;
            }
        },
        ComposerEvent::VideoFailed => {
            s.compressing = false;
        },
        ComposerEvent::RemoveImage(idx) => {
            remove_at(&mut s.images, idx);
        },
        ComposerEvent::ClearVideo => {
            s.video = None;
        },
        ComposerEvent::Submit(has_text, has_token) => {
            if !s.busy && !s.compressing && has_token && (has_text || s.images.len() > 0
                || s.video.is_some()) {
                s.busy = true;
            }
        },
        ComposerEvent::Finished(posted) => {
            if posted {
                s.images = Vec::new();
                s.video = None;
            }
            s.busy = false;
        },
    }
    assert(s.model() =~= compose_next(old(s).model(), ev));
}

/// Every event keeps the composer's limits: at most four images, never
/// images and a video together.
pub proof fn composer_step_keeps_limits(m: ComposerModel, ev: ComposerEvent)
    requires
        composer_ok(m),
    ensures
        composer_ok(compose_next(m, ev)),
{
    match ev {
        ComposerEvent::PickImages(files) => {
            if image_picker_enabled(m) {
                let n = slots_taken(m.images.len(), files@.len());
                assert((m.images + files@.take(n as int)).len() == m.images.len() + n);
            }
        },
        ComposerEvent::RemoveImage(idx) => {},
        _ => {},
    }
}

/// After any run of events from a composer within its limits (a fresh one
/// among them), the limits still hold: at most four pending images, and
/// never images and a video pending together.
pub proof fn composer_keeps_limits(m: ComposerModel, events: Seq<ComposerEvent>)
    requires
        composer_ok(m),
    ensures
        composer_ok(compose_run(m, events)),
    decreases events.len(),
{
    if events.len() > 0 {
        composer_step_keeps_limits(m, events[0]);
        composer_keeps_limits(compose_next(m, events[0]), events.drop_first());
    }
}

/// Posting needs a session token: without one the post button changes
/// nothing, whatever the composer holds.
pub proof fn submit_needs_token(m: ComposerModel, has_text: bool)
    ensures
        compose_next(m, ComposerEvent::Submit(has_text, false)) == m,
{
}

/// While a post is being sent or a video compressed, the post button
/// changes nothing.
pub proof fn submit_waits_while_working(m: ComposerModel, has_text: bool, has_token: bool)
    requires
        m.busy || m.compressing,
    ensures
        compose_next(m, ComposerEvent::Submit(has_text, has_token)) == m,
{
}

/// An idle, signed-in composer with a non-blank text, or with any pending
/// image or video, starts sending: it becomes busy and keeps its media.
pub proof fn submit_starts_sending(m: ComposerModel, has_text: bool)
    requires
        !m.busy,
        !m.compressing,
        has_text || m.images.len() > 0 || m.video is Some,
    ensures
        compose_next(m, ComposerEvent::Submit(has_text, true)).busy,
        compose_next(m, ComposerEvent::Submit(has_text, true)).images == m.images,
        compose_next(m, ComposerEvent::Submit(has_text, true)).video == m.video,
{
}

/// A blank text with no image and no video is not sent.
pub proof fn empty_post_is_not_sent(m: ComposerModel, has_token: bool)
    requires
        m.images.len() == 0,
        m.video is None,
    ensures
        compose_next(m, ComposerEvent::Submit(false, has_token)) == m,
{
}

/// A post that was sent leaves the composer idle with no image and no video
/// pending; one that was refused leaves it idle with its media kept for
/// another try.
pub proof fn finishing_a_post(m: ComposerModel)
    ensures
        compose_next(m, ComposerEvent::Finished(true)).images.len() == 0,
        compose_next(m, ComposerEvent::Finished(true)).video is None,
        !compose_next(m, ComposerEvent::Finished(true)).busy,
        compose_next(m, ComposerEvent::Finished(false)).images == m.images,
        compose_next(m, ComposerEvent::Finished(false)).video == m.video,
        !compose_next(m, ComposerEvent::Finished(false)).busy,
{
}

/// Picking images keeps the pending ones and appends the chosen files in
/// their order, as many as fill the four slots, and drops a pending video;
/// a picker whose button is disabled changes nothing.
pub proof fn picking_images_fills_free_slots(m: ComposerModel, files: Vec<u64>)
    requires
        composer_ok(m),
    ensures
        ({
            let r = compose_next(m, ComposerEvent::PickImages(files));
            if image_picker_enabled(m) {
                &&& r.images.len() == if m.images.len() + files@.len() <= MAX_IMAGES {
                    m.images.len() + files@.len()
                } else {
                    MAX_IMAGES as nat
                }
                &&& r.images.take(m.images.len() as int) == m.images
                &&& forall|i: int|
                    m.images.len() <= i < r.images.len() ==> r.images[i] == files@[i
                        - m.images.len()]
                &&& r.video is None
                &&& r.busy == m.busy
                &&& r.compressing == m.compressing
            } else {
                r == m
            }
        }),
{
    if image_picker_enabled(m) {
        let r = compose_next(m, ComposerEvent::PickImages(files));
        assert(r.images.take(m.images.len() as int) =~= m.images);
    }
}

/// Taking out the image at `idx` removes exactly that image and keeps the
/// others in order; a place past the end changes nothing.
pub proof fn removing_an_image(m: ComposerModel, idx: usize)
    ensures
        ({
            let r = compose_next(m, ComposerEvent::RemoveImage(idx));
            &&& idx < m.images.len() ==> r.images.len() + 1 == m.images.len() && (forall|i: int|
                0 <= i < idx ==> r.images[i] == m.images[i]) && (forall|i: int|
                idx <= i < r.images.len() ==> r.images[i] == m.images[i + 1])
            &&& idx >= m.images.len() ==> r.images == m.images
            &&& r.video == m.video && r.busy == m.busy && r.compressing == m.compressing
        }),
{
}

/// Picking a video (when its button is enabled) drops pending images and
/// starts compressing; the compressed video then becomes the pending one and
/// compressing stops. Clearing the video keeps the images.
pub proof fn picking_a_video(m: ComposerModel, v: u64)
    ensures
        video_picker_enabled(m) ==> {
            let r = compose_next(m, ComposerEvent::PickVideo);
            &&& r.compressing && r.images.len() == 0 && r.video is None
            &&& compose_next(r, ComposerEvent::VideoReady(v)).video == Some(v)
            &&& !compose_next(r, ComposerEvent::VideoReady(v)).compressing
            &&& !compose_next(r, ComposerEvent::VideoFailed).compressing
            &&& compose_next(r, ComposerEvent::VideoFailed).video is None
        },
        !video_picker_enabled(m) ==> compose_next(m, ComposerEvent::PickVideo) == m,
        compose_next(m, ComposerEvent::ClearVideo).video is None,
        compose_next(m, ComposerEvent::ClearVideo).images == m.images,
{
}

} // verus!
