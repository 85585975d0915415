use video_viewer::frame::{AnnouncedSize, FlowError, FrameSlot, PaintedImage, Sample};

fn sample(width: i32, height: i32, pixels: Vec<u8>) -> Option<Sample> {
    Some(Sample {
        size: Some(AnnouncedSize { width: Some(width), height: Some(height) }),
        pixels: Some(pixels),
    })
}

#[test]
fn new_slot_has_nothing_to_show() {
    let mut slot = FrameSlot::new();
    assert!(!slot.is_ready());
    assert!(slot.paint().is_none());
}

#[test]
fn frame_is_shown_as_it_arrived() {
    let mut slot = FrameSlot::new();
    let pixels: Vec<u8> = (0..24).collect();
    assert_eq!(slot.receive(sample(3, 2, pixels.clone())), Ok(()));
    assert!(slot.is_ready());
    let shown = slot.paint().unwrap();
    assert_eq!(shown.data, pixels);
    assert_eq!((shown.width, shown.height), (3, 2));
    assert!(!slot.is_ready());
}

#[test]
fn frame_is_shown_again_until_the_next_one_arrives() {
    let mut slot = FrameSlot::new();
    slot.receive(sample(1, 1, vec![1, 2, 3, 4])).unwrap();
    assert_eq!(slot.paint().unwrap().data, [1, 2, 3, 4]);
    assert_eq!(slot.paint().unwrap().data, [1, 2, 3, 4]);
    slot.receive(sample(1, 1, vec![5, 6, 7, 8])).unwrap();
    slot.receive(sample(1, 1, vec![9, 9, 9, 9])).unwrap();
    assert_eq!(slot.paint().unwrap().data, [9, 9, 9, 9]);
}

#[test]
fn frame_with_too_few_bytes_is_not_shown() {
    let mut slot = FrameSlot::new();
    assert_eq!(slot.receive(sample(2, 2, vec![0; 15])), Ok(()));
    assert!(slot.is_ready());
    assert!(slot.paint().is_none());
    assert!(!slot.is_ready());
    slot.receive(sample(i32::MAX, i32::MAX, vec![0; 16])).unwrap();
    assert!(slot.paint().is_none());
}

#[test]
fn frame_with_bytes_to_spare_is_shown_with_them() {
    let mut slot = FrameSlot::new();
    slot.receive(sample(2, 2, vec![7; 20])).unwrap();
    assert_eq!(slot.paint().unwrap().data.len(), 20);
}

#[test]
fn unusable_samples_are_refused_and_change_nothing() {
    let mut slot = FrameSlot::new();
    slot.receive(sample(1, 1, vec![1, 2, 3, 4])).unwrap();
    slot.paint();
    let sized = |width, height| Some(AnnouncedSize { width, height });
    let bad = [
        None,
        Some(Sample { size: None, pixels: Some(vec![0; 4]) }),
        Some(Sample { size: sized(Some(1), Some(1)), pixels: None }),
        Some(Sample { size: sized(None, Some(1)), pixels: Some(vec![0; 4]) }),
        Some(Sample { size: sized(Some(1), None), pixels: Some(vec![0; 4]) }),
        Some(Sample { size: sized(Some(0), Some(1)), pixels: Some(vec![0; 4]) }),
        Some(Sample { size: sized(Some(1), Some(-1)), pixels: Some(vec![0; 4]) }),
    ];
    for sample in bad {
        assert_eq!(slot.receive(sample), Err(FlowError::Error));
        assert!(!slot.is_ready());
    }
    assert_eq!(slot.paint().unwrap().data, [1, 2, 3, 4]);
}

#[test]
fn painted_image_hands_out_the_one_before() {
    let mut painted = PaintedImage::new();
    assert_eq!(painted.replace("first"), None);
    assert_eq!(painted.replace("second"), Some("first"));
    assert_eq!(painted.current, Some("second"));
    let mut released = Vec::new();
    for image in ["third", "fourth", "fifth"] {
        released.extend(painted.replace(image));
    }
    assert_eq!(released, ["second", "third", "fourth"]);
    assert_eq!(painted.current, Some("fifth"));
}
