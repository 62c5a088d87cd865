use circle::composer::{compose_step, ComposerEvent, ComposerState};

fn st(images: Vec<u64>, video: Option<u64>) -> ComposerState {
    ComposerState { images, video, compressing: false, busy: false }
}

#[test]
fn images_fill_at_most_four_slots() {
    let mut s = ComposerState::new();
    compose_step(&mut s, ComposerEvent::PickImages(vec![1, 2, 3]));
    assert_eq!(s.images, vec![1, 2, 3]);
    compose_step(&mut s, ComposerEvent::PickImages(vec![4, 5, 6]));
    assert_eq!(s.images, vec![1, 2, 3, 4]);
    compose_step(&mut s, ComposerEvent::PickImages(vec![7]));
    assert_eq!(s.images, vec![1, 2, 3, 4]);
    compose_step(&mut s, ComposerEvent::RemoveImage(1));
    assert_eq!(s.images, vec![1, 3, 4]);
    compose_step(&mut s, ComposerEvent::RemoveImage(9));
    assert_eq!(s.images, vec![1, 3, 4]);
}

#[test]
fn video_and_images_exclude_each_other() {
    let mut s = st(vec![1], None);
    compose_step(&mut s, ComposerEvent::PickVideo);
    assert_eq!(s, st(vec![1], None));
    let mut s = ComposerState::new();
    compose_step(&mut s, ComposerEvent::PickVideo);
    assert!(s.compressing);
    compose_step(&mut s, ComposerEvent::PickImages(vec![1]));
    assert!(s.images.is_empty());
    compose_step(&mut s, ComposerEvent::VideoReady(9));
    assert_eq!(s, st(vec![], Some(9)));
    compose_step(&mut s, ComposerEvent::PickImages(vec![1]));
    assert_eq!(s, st(vec![], Some(9)));
    compose_step(&mut s, ComposerEvent::ClearVideo);
    compose_step(&mut s, ComposerEvent::PickImages(vec![1]));
    assert_eq!(s, st(vec![1], None));
}

#[test]
fn failed_compression_leaves_no_video() {
    let mut s = ComposerState::new();
    compose_step(&mut s, ComposerEvent::PickVideo);
    compose_step(&mut s, ComposerEvent::VideoFailed);
    assert_eq!(s, ComposerState::new());
}

#[test]
fn sending_and_finishing_a_post() {
    let mut s = ComposerState::new();
    compose_step(&mut s, ComposerEvent::Submit(false, true));
    assert!(!s.busy);
    compose_step(&mut s, ComposerEvent::PickImages(vec![5]));
    compose_step(&mut s, ComposerEvent::Submit(true, false));
    assert!(!s.busy);
    compose_step(&mut s, ComposerEvent::Submit(false, true));
    assert!(s.busy);
    compose_step(&mut s, ComposerEvent::PickImages(vec![6]));
    assert_eq!(s.images, vec![5]);
    compose_step(&mut s, ComposerEvent::Finished(false));
    assert_eq!(s, st(vec![5], None));
    compose_step(&mut s, ComposerEvent::Submit(true, true));
    compose_step(&mut s, ComposerEvent::Finished(true));
    assert_eq!(s, ComposerState::new());
}
