use q6w::frames::{Frame, FrameStore};

fn frame(tag: u8) -> Frame {
    // One pixel: four bytes.
    Frame { data: vec![tag, tag, tag, tag], width: 1, height: 1 }
}

#[test]
fn empty_store_does_no_work() {
    let mut store = FrameStore::new(2);
    let mut calls = 0;
    let invoked = store.with_latest_frame(|_f| calls += 1);
    assert!(!invoked);
    assert_eq!(calls, 0);
}

#[test]
fn latest_of_several_frames_wins() {
    let mut store = FrameStore::new(4);
    store.push_frame(frame(1));
    store.push_frame(frame(2));
    store.push_frame(frame(3));

    let mut calls = 0;
    let mut got: Vec<u8> = Vec::new();
    let invoked = store.with_latest_frame(|f| {
        calls += 1;
        got = f.data;
    });
    assert!(invoked);
    assert_eq!(calls, 1);
    assert_eq!(got, vec![3, 3, 3, 3]);

    // Everything was drained: the next tick finds nothing.
    let invoked = store.with_latest_frame(|_f| panic!("no frame should be left"));
    assert!(!invoked);
}

#[test]
fn store_drops_oldest_under_backpressure() {
    let mut store = FrameStore::new(2);
    store.push_frame(frame(1));
    store.push_frame(frame(2));
    store.push_frame(frame(3));
    assert_eq!(store.frames.len(), 2);
    assert_eq!(store.frames[0].data, vec![2, 2, 2, 2]);
    assert_eq!(store.frames[1].data, vec![3, 3, 3, 3]);
}

#[test]
fn single_frame_is_delivered_with_dimensions() {
    let mut store = FrameStore::new(2);
    store.push_frame(Frame { data: vec![9; 2 * 3 * 4], width: 2, height: 3 });
    let mut size = (0u32, 0u32, 0usize);
    let invoked = store.with_latest_frame(|f| size = (f.width, f.height, f.data.len()));
    assert!(invoked);
    assert_eq!(size, (2, 3, 24));
}
