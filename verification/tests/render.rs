use chitchat::layout::Layout;
use chitchat::render::{get_messages_height, SizeInfo, CHAT_MESSAGE_PADDING, CONTACT_PADDING};

#[test]
fn sizes_for_a_canvas_of_800_by_600() {
    let s = SizeInfo::from_canvas(800, 600);
    assert_eq!(s.contact_pane, (160, 600));
    assert_eq!(s.contact, (140, 50));
    assert_eq!(s.plus_button, (25, 25));
    assert_eq!(s.chat_pane, (640, 600));
    assert_eq!(s.chat_message_max_width, 427);
    assert_eq!(s.chat_total_height, 0);
    assert_eq!(s.chat_title, (640, 75));
    assert_eq!(s.chat_input, (640, 75));
}

#[test]
fn sizes_for_a_canvas_too_narrow_for_the_padding() {
    let s = SizeInfo::from_canvas(99, 10);
    assert_eq!(s.contact_pane, (19, 10));
    assert_eq!(s.contact, (0, 50));
    assert_eq!(s.chat_pane, (80, 10));
    assert_eq!(s.chat_message_max_width, 54);
    let s = SizeInfo::from_canvas(100, 10);
    assert_eq!(s.contact, (0, 50));
    let s = SizeInfo::from_canvas(105, 10);
    assert_eq!(s.contact, (1, 50));
    let s = SizeInfo::from_canvas(0, 0);
    assert_eq!(s.contact_pane, (0, 0));
    assert_eq!(s.chat_message_max_width, 0);
}

#[test]
fn sizes_for_the_largest_canvas() {
    let s = SizeInfo::from_canvas(u32::MAX, u32::MAX);
    assert_eq!(s.contact_pane, (858993459, u32::MAX));
    assert_eq!(s.chat_pane, (3435973836, u32::MAX));
    assert_eq!(s.chat_message_max_width, 3435973836 - 1145324612);
}

#[test]
fn padding_constants() {
    assert_eq!(CONTACT_PADDING, 10);
    assert_eq!(CHAT_MESSAGE_PADDING, 10);
}

#[test]
fn chat_viewport_is_the_pane_less_its_two_bars() {
    assert_eq!(SizeInfo::from_canvas(800, 600).chat_viewport(), 450);
    assert_eq!(SizeInfo::from_canvas(800, 150).chat_viewport(), 0);
    assert_eq!(SizeInfo::from_canvas(800, 100).chat_viewport(), 0);
    assert_eq!(SizeInfo::from_canvas(800, u32::MAX).chat_viewport(), i32::MAX);
}

#[test]
fn chat_content_is_never_negative() {
    let mut s = SizeInfo::from_canvas(800, 600);
    assert_eq!(s.chat_content(), 0);
    s.chat_total_height = 321;
    assert_eq!(s.chat_content(), 321);
    s.chat_total_height = -5;
    assert_eq!(s.chat_content(), 0);
}

#[test]
fn contact_list_height_and_viewport() {
    let s = SizeInfo::from_canvas(800, 600);
    assert_eq!(s.contacts_content(0), 10);
    assert_eq!(s.contacts_content(3), 10 + 3 * 60);
    assert_eq!(s.contacts_content(usize::MAX), i32::MAX);
    assert_eq!(s.contacts_viewport(), 600);
    assert_eq!(SizeInfo::from_canvas(800, u32::MAX).contacts_viewport(), i32::MAX);
}

#[test]
fn messages_height_adds_overhead_and_wrapped_text() {
    let s = SizeInfo::from_canvas(800, 600);
    assert_eq!(get_messages_height(&vec![], &s, 1), 0);
    assert_eq!(get_messages_height(&vec![(100, 30)], &s, 1), 40 + 7);
    assert_eq!(get_messages_height(&vec![(427, 30)], &s, 1), 40 + 30);
    assert_eq!(get_messages_height(&vec![(100, 30), (427, 30)], &s, 1), 117);
    assert_eq!(get_messages_height(&vec![(100, 30), (427, 30)], &s, 2), 58);
    assert_eq!(get_messages_height(&vec![(0, 30), (30, 0)], &s, 1), 80);
}

#[test]
fn messages_height_stops_at_the_greatest_height() {
    let s = SizeInfo::from_canvas(800, 600);
    assert_eq!(get_messages_height(&vec![(u32::MAX, u32::MAX)], &s, 1), i32::MAX);
    assert_eq!(get_messages_height(&vec![(u32::MAX, u32::MAX), (1, 1)], &s, 2), i32::MAX / 2);
    let tall = vec![(427, 1_000_000_000), (427, 1_000_000_000), (427, 1_000_000_000)];
    assert_eq!(get_messages_height(&tall, &s, 1), i32::MAX);
}

#[test]
fn update_follows_the_canvas_and_the_open_conversation() {
    let layout = Layout::sample();
    let mut s = SizeInfo::from_canvas(10, 10);
    s.update_from_canvas_and_layout(800, 600, &layout, &vec![(100, 30), (427, 30)], 2);
    assert_eq!(s.contact_pane, (160, 600));
    assert_eq!(s.chat_message_max_width, 427);
    assert_eq!(s.chat_total_height, 58);
}

#[test]
fn update_without_a_conversation_gives_no_height() {
    let layout = Layout::new(vec![], vec![]);
    let mut s = SizeInfo::from_canvas(800, 600);
    s.chat_total_height = 99;
    s.update_from_canvas_and_layout(400, 300, &layout, &vec![(100, 30)], 0);
    assert_eq!(s.chat_pane, (320, 300));
    assert_eq!(s.chat_total_height, 0);
}
