use dofus_vision::frame_store::FrameBuffer;
use dofus_vision::frame_store::FrameStore;
use dofus_vision::frame_store::snapshot_of;

#[test]
fn snapshot_is_none_before_first_write() {
    let store = FrameStore::new();
    assert!(store.read_snapshot().is_none());
}

#[test]
fn write_then_read_returns_exact_frame() {
    let store = FrameStore::new();
    let pixels: Vec<u8> = (0u8..8).collect();
    store.write(pixels.clone(), 1, 2);
    let fb = store.read_snapshot().expect("a frame was written");
    assert_eq!(fb.width, 1);
    assert_eq!(fb.height, 2);
    assert_eq!(fb.pixels.len(), 1 * 2 * 4);
    assert_eq!(fb.pixels, pixels);
}

#[test]
fn newest_frame_wins() {
    let store = FrameStore::new();
    store.write(vec![1; 4], 1, 1);
    store.write(vec![2; 16], 2, 2);
    let fb = store.read_snapshot().expect("a frame was written");
    assert_eq!(fb.width, 2);
    assert_eq!(fb.height, 2);
    assert_eq!(fb.pixels, vec![2; 16]);
}

#[test]
fn blank_write_reads_none() {
    let store = FrameStore::new();
    store.write(vec![3; 4], 1, 1);
    store.write(Vec::new(), 0, 0);
    assert!(store.read_snapshot().is_none());
}

#[test]
fn every_snapshot_matches_its_dimensions() {
    let store = FrameStore::new();
    let sizes: [(u32, u32); 5] = [(1, 1), (3, 2), (2, 3), (5, 1), (1, 7)];
    for (w, h) in sizes {
        let len = (w * h * 4) as usize;
        store.write(vec![7; len], w, h);
        let fb = store.read_snapshot().expect("a frame was written");
        assert_eq!(fb.pixels.len(), (fb.width * fb.height * 4) as usize);
    }
}

#[test]
fn snapshot_of_copies_a_filled_slot_exactly() {
    let cell = FrameBuffer { pixels: vec![1, 2, 3, 4], width: 1, height: 1 };
    let fb = snapshot_of(&cell).expect("the slot holds a frame");
    assert_eq!(fb.pixels, vec![1, 2, 3, 4]);
    assert_eq!((fb.width, fb.height), (1, 1));
}

#[test]
fn snapshot_of_a_blank_slot_is_none() {
    let cell = FrameBuffer { pixels: Vec::new(), width: 0, height: 0 };
    assert!(snapshot_of(&cell).is_none());
}

#[test]
fn snapshot_is_an_independent_copy() {
    let store = FrameStore::new();
    store.write(vec![9; 4], 1, 1);
    let mut fb = store.read_snapshot().expect("a frame was written");
    fb.pixels[0] = 0;
    let again = store.read_snapshot().expect("still there");
    assert_eq!(again.pixels[0], 9);
}
