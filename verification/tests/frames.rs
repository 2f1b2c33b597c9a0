use frame_sequencer::{FrameImage, FrameSet, LoadError};

fn image(name: &str, width: u32, height: u32) -> FrameImage {
    FrameImage {
        name: name.to_string(),
        width,
        height,
        pixels: vec![0u8; (width * height * 3) as usize],
    }
}

#[test]
fn dimension_mismatch_names_file_and_both_dimension_pairs() {
    let images = vec![
        image("frame_000.png", 480, 800),
        image("frame_001.png", 480, 700),
        image("frame_002.png", 480, 800),
    ];
    match FrameSet::new(images, 480, 800) {
        Err(LoadError::DimensionMismatch {
            name,
            expected_width,
            expected_height,
            actual_width,
            actual_height,
        }) => {
            assert_eq!(name, "frame_001.png");
            assert_eq!((expected_width, expected_height), (480, 800));
            assert_eq!((actual_width, actual_height), (480, 700));
        }
        Err(LoadError::NoFrames) => panic!("wrong error variant"),
        Ok(_) => panic!("a mis-sized frame must not produce a frame set"),
    }
}

#[test]
fn first_offending_frame_is_reported() {
    let images = vec![
        image("a.png", 480, 800),
        image("b.png", 100, 100),
        image("c.png", 200, 200),
    ];
    match FrameSet::new(images, 480, 800) {
        Err(LoadError::DimensionMismatch { name, actual_width, actual_height, .. }) => {
            assert_eq!(name, "b.png");
            assert_eq!((actual_width, actual_height), (100, 100));
        }
        _ => panic!("expected a dimension mismatch"),
    }
}

#[test]
fn empty_frame_list_is_rejected() {
    match FrameSet::new(Vec::new(), 480, 800) {
        Err(LoadError::NoFrames) => {}
        _ => panic!("expected the no-frames error"),
    }
}

#[test]
fn valid_frames_build_the_set_in_order() {
    let images = vec![image("a.png", 2, 3), image("b.png", 2, 3)];
    let set = match FrameSet::new(images, 2, 3) {
        Ok(set) => set,
        Err(_) => panic!("valid frames must build a frame set"),
    };
    assert_eq!(set.len(), 2);
    assert_eq!(set.width(), 2);
    assert_eq!(set.height(), 3);
    assert_eq!(set.frame(0).name, "a.png");
    assert_eq!(set.frame(1).name, "b.png");
    assert_eq!(set.frame(0).pixels.len(), 18);
}
