use memmap2::{Mmap, MmapMut};
use memory_view::{Field, Frame, MemoryView, Message, ViewState};

fn map_of(bytes: &[u8]) -> Mmap {
    let mut map = MmapMut::map_anon(bytes.len()).unwrap();
    map.copy_from_slice(bytes);
    map.make_read_only().unwrap()
}

fn counting(len: usize) -> Vec<u8> {
    (0..len).map(|i| (i % 251) as u8).collect()
}

fn state(offset: usize, width: u32, height: u32) -> ViewState {
    ViewState { offset, width, height }
}

#[test]
fn new_view_shows_the_bytes_of_the_map() {
    let bytes = counting(100);
    let map = map_of(&bytes);
    let view = MemoryView::new(&map);
    assert_eq!(view.len(), 100);
    assert_eq!(view.state(), state(0, 1920, 1080));
    assert_eq!(view.pixel_slice().pixels, &bytes[..]);
}

#[test]
fn new_view_of_an_empty_map() {
    let map = map_of(&[]);
    let mut view = MemoryView::new(&map);
    assert_eq!(view.len(), 0);
    assert_eq!(view.offset_range(), 0..=0);
    assert!(view.pixel_slice().pixels.is_empty());
    view.set_offset(1);
    view.set_width(1);
    view.set_height(1);
    assert_eq!(view.state(), state(0, 1, 1));
    assert!(view.pixel_slice().pixels.is_empty());
}

#[test]
fn pixel_slice_borrows_from_the_map() {
    let bytes = counting(64);
    let map = map_of(&bytes);
    let mut view = MemoryView::new(&map);
    view.set_width(2);
    view.set_height(2);
    view.set_offset(8);
    let frame = view.pixel_slice();
    assert_eq!(frame.pixels.as_ptr(), map[8..].as_ptr());
    assert_eq!(frame.pixels, &bytes[8..24]);
}

#[test]
fn short_buffer_gives_a_short_frame() {
    let bytes = counting(100);
    let map = map_of(&bytes);
    let mut view = MemoryView::new(&map);
    assert_eq!(view.state().frame_bytes(), 8_294_400);
    assert_eq!(view.offset_max(), 0);
    assert_eq!(view.offset_range(), 0..=0);
    view.set_offset(50);
    assert_eq!(view.state(), state(0, 1920, 1080));
    let frame = view.pixel_slice();
    assert_eq!(frame.width, 1920);
    assert_eq!(frame.height, 1080);
    assert_eq!(frame.pixels.len(), 100);
    assert_eq!(frame.pixels, &bytes[..]);
}

#[test]
fn offset_beyond_the_range_is_lowered_to_its_end() {
    let bytes = vec![0u8; 8_000_000];
    let mut view = MemoryView::from_bytes(&bytes);
    view.set_width(1000);
    view.set_height(1000);
    assert_eq!(view.state().frame_bytes(), 4_000_000);
    assert_eq!(view.offset_range(), 0..=4_000_000);
    view.set_offset(5_000_000);
    assert_eq!(view.state(), state(4_000_000, 1000, 1000));
    assert_eq!(view.pixel_slice().pixels.len(), 4_000_000);
}

#[test]
fn from_bytes_starts_in_the_initial_state() {
    let bytes = counting(10);
    let view = MemoryView::from_bytes(&bytes);
    assert_eq!(view.len(), 10);
    assert_eq!(view.state(), ViewState::initial());
}

#[test]
fn setters_replace_one_field_each() {
    let bytes = counting(1000);
    let mut view = MemoryView::from_bytes(&bytes);
    view.set_width(4);
    assert_eq!(view.state(), state(0, 4, 1080));
    view.set_height(5);
    assert_eq!(view.state(), state(0, 4, 5));
    view.set_offset(123);
    assert_eq!(view.state(), state(123, 4, 5));
}

#[test]
fn setters_floor_dimensions_at_one() {
    let bytes = counting(1000);
    let mut view = MemoryView::from_bytes(&bytes);
    view.set_width(0);
    assert_eq!(view.state().width, 1);
    view.set_height(0);
    assert_eq!(view.state().height, 1);
    assert_eq!(view.pixel_slice().pixels.len(), 4);
}

#[test]
fn update_does_what_the_setters_do() {
    let bytes = counting(1000);
    let mut by_update = MemoryView::from_bytes(&bytes);
    let mut by_setter = MemoryView::from_bytes(&bytes);
    by_update.update(Message::WidthChanged(7));
    by_setter.set_width(7);
    assert_eq!(by_update.state(), by_setter.state());
    by_update.update(Message::HeightChanged(9));
    by_setter.set_height(9);
    assert_eq!(by_update.state(), by_setter.state());
    by_update.update(Message::OffsetChanged(999));
    by_setter.set_offset(999);
    assert_eq!(by_update.state(), by_setter.state());
    assert_eq!(by_update.state(), state(748, 7, 9));
}

#[test]
fn view_stays_inside_the_buffer_after_every_edit() {
    let bytes = counting(5000);
    let mut view = MemoryView::from_bytes(&bytes);
    let edits = [
        Message::WidthChanged(25),
        Message::HeightChanged(25),
        Message::OffsetChanged(4000),
        Message::HeightChanged(50),
        Message::OffsetChanged(1),
        Message::HeightChanged(51),
        Message::WidthChanged(0),
        Message::OffsetChanged(usize::MAX),
        Message::HeightChanged(u32::MAX),
    ];
    for edit in edits {
        view.update(edit);
        let s = view.state();
        assert!(s.width >= 1 && s.height >= 1);
        let frame = view.pixel_slice();
        assert_eq!(frame.width, s.width);
        assert_eq!(frame.height, s.height);
        assert_eq!(frame.pixels.len(), s.frame_bytes().min(5000));
        assert_eq!(frame.pixels, &bytes[s.offset..s.offset + frame.pixels.len()]);
    }
}

#[test]
fn offset_range_follows_width_and_height() {
    let bytes = counting(1000);
    let mut view = MemoryView::from_bytes(&bytes);
    assert_eq!(view.offset_range(), 0..=0);
    view.set_width(10);
    view.set_height(10);
    assert_eq!(view.offset_range(), 0..=600);
    view.set_height(20);
    assert_eq!(view.offset_range(), 0..=200);
    view.set_height(25);
    assert_eq!(view.offset_range(), 0..=0);
    view.set_height(26);
    assert_eq!(view.offset_range(), 0..=0);
}

#[test]
fn every_offset_in_range_is_kept_and_stays_inside() {
    let bytes = counting(200);
    let mut view = MemoryView::from_bytes(&bytes);
    view.set_width(5);
    view.set_height(5);
    let range = view.offset_range();
    assert_eq!(range, 0..=100);
    for offset in range {
        view.set_offset(offset);
        assert_eq!(view.state().offset, offset);
        let frame = view.pixel_slice();
        assert_eq!(frame.pixels, &bytes[offset..offset + 100]);
    }
}

#[test]
fn growing_a_dimension_past_the_buffer_resets_the_offset() {
    let bytes = counting(100);
    let mut view = MemoryView::from_bytes(&bytes);
    view.set_width(5);
    view.set_height(2);
    view.set_offset(60);
    assert_eq!(view.state(), state(60, 5, 2));
    view.set_height(6);
    assert_eq!(view.state(), state(0, 5, 6));
    assert_eq!(view.pixel_slice().pixels.len(), 100);
}

#[test]
fn dimension_ranges_start_at_one_and_leave_headroom() {
    let bytes = counting(16);
    let mut view = MemoryView::from_bytes(&bytes);
    assert_eq!(view.width_range(), 1..=10000);
    assert_eq!(view.height_range(), 1..=10000);
    view.set_width(9999);
    assert_eq!(view.width_range(), 1..=10000);
    view.set_width(10000);
    assert_eq!(view.width_range(), 1..=10001);
    view.set_height(70000);
    assert_eq!(view.height_range(), 1..=70001);
    assert_eq!(view.width_range(), 1..=10001);
}

#[test]
fn dimension_ranges_end_at_the_largest_value() {
    let bytes = counting(16);
    let mut view = MemoryView::from_bytes(&bytes);
    view.set_width(u32::MAX);
    view.set_height(u32::MAX - 1);
    assert_eq!(view.width_range(), 1..=u32::MAX);
    assert_eq!(view.height_range(), 1..=u32::MAX);
}

#[test]
fn setting_a_field_to_its_value_is_a_no_op() {
    let bytes = counting(300);
    let mut view = MemoryView::from_bytes(&bytes);
    view.set_width(6);
    view.set_height(7);
    view.set_offset(100);
    let before = view.state();
    let pixels = view.pixel_slice().pixels;
    view.set_offset(before.offset);
    assert_eq!(view.state(), before);
    view.set_width(before.width);
    assert_eq!(view.state(), before);
    view.set_height(before.height);
    assert_eq!(view.state(), before);
    assert_eq!(view.pixel_slice().pixels, pixels);
    assert_eq!(view.pixel_slice().pixels.as_ptr(), pixels.as_ptr());
}

#[test]
fn pixel_slice_does_not_change_the_view() {
    let bytes = counting(300);
    let mut view = MemoryView::from_bytes(&bytes);
    view.set_width(3);
    view.set_height(3);
    view.set_offset(30);
    let first = view.pixel_slice();
    let second = view.pixel_slice();
    assert_eq!(first.pixels, second.pixels);
    assert_eq!(first.pixels, &bytes[30..66]);
    assert_eq!(view.state(), state(30, 3, 3));
}

#[test]
fn steps_follow_the_ranges() {
    let bytes = counting(100);
    let mut view = MemoryView::from_bytes(&bytes);
    view.set_width(2);
    view.set_height(2);
    assert_eq!(view.step_down(Field::Offset), None);
    assert_eq!(view.step_up(Field::Offset), Some(Message::OffsetChanged(1)));
    view.set_offset(84);
    assert_eq!(view.step_down(Field::Offset), Some(Message::OffsetChanged(83)));
    assert_eq!(view.step_up(Field::Offset), None);
    assert_eq!(view.step_down(Field::Width), Some(Message::WidthChanged(1)));
    assert_eq!(view.step_up(Field::Height), Some(Message::HeightChanged(3)));
    view.set_width(1);
    assert_eq!(view.step_down(Field::Width), None);
}

#[test]
fn a_step_moves_the_value_by_one() {
    let bytes = counting(100);
    let mut view = MemoryView::from_bytes(&bytes);
    view.set_width(2);
    view.set_height(2);
    view.set_offset(10);
    let up = view.step_up(Field::Offset).unwrap();
    view.update(up);
    assert_eq!(view.state(), state(11, 2, 2));
    let down = view.step_down(Field::Height).unwrap();
    view.update(down);
    assert_eq!(view.state(), state(11, 2, 1));
}

#[test]
fn a_frame_is_complete_with_four_bytes_for_each_pixel() {
    let bytes = counting(24);
    assert!(Frame { width: 3, height: 2, pixels: &bytes }.is_complete());
    assert!(!Frame { width: 3, height: 2, pixels: &bytes[..23] }.is_complete());
    assert!(!Frame { width: 2, height: 2, pixels: &bytes }.is_complete());
    assert!(Frame { width: 0, height: 2, pixels: &bytes[..0] }.is_complete());
}

#[test]
fn pixel_slice_is_complete_where_one_frame_fits() {
    let bytes = counting(100);
    let mut view = MemoryView::from_bytes(&bytes);
    assert!(!view.pixel_slice().is_complete());
    view.set_width(5);
    view.set_height(5);
    assert!(view.pixel_slice().is_complete());
    view.set_height(6);
    let frame = view.pixel_slice();
    assert!(!frame.is_complete());
    assert_eq!(frame.pixels.len(), 100);
    view.set_offset(3);
    assert_eq!(view.state(), state(0, 5, 6));
}

#[test]
fn views_of_one_map_do_not_disturb_each_other() {
    let bytes = counting(64);
    let map = map_of(&bytes);
    let mut first = MemoryView::new(&map);
    let mut second = MemoryView::new(&map);
    first.set_width(1);
    first.set_height(1);
    first.set_offset(60);
    second.set_width(4);
    second.set_height(4);
    assert_eq!(first.pixel_slice().pixels, &bytes[60..64]);
    assert_eq!(second.pixel_slice().pixels, &bytes[..]);
    assert_eq!(second.offset_range(), 0..=0);
    assert_eq!(first.offset_range(), 0..=60);
}
