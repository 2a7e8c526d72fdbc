use chitchat::bar::Bar;
use chitchat::button::{Buttons, ClickAction};
use chitchat::chat::Message;
use chitchat::chat_client::{FetchOutcome, ServerInfo, Status, User};
use chitchat::contacts::Contact;
use chitchat::geometry::{Color, ScaleMismatchError};
use chitchat::layout::{
    where_is_mouse, Events, IndexOutOfRange, InputEvent, Layout, SendOutcome, UIElements,
    SCROLL_SENSITIVITY,
};
use chitchat::render::SizeInfo;
use chitchat::scroll::{RegionKind, ScrollRegion};
use chitchat::session::{scripted_reply, ChatSession};

fn sizes() -> SizeInfo {
    SizeInfo::from_canvas(800, 600)
}

fn sizes_with_height(height: i32) -> SizeInfo {
    let mut s = sizes();
    s.chat_total_height = height;
    s
}

fn server_guy() -> Contact {
    Contact::new(
        String::from("194.163.183.44"),
        String::from("Server Guy"),
        vec![Message::new(String::from("Welcome!"), false)],
    )
}

fn send_bar(x: i32, y: i32) -> Bar {
    Bar::new(
        x,
        y,
        1,
        None,
        vec![
            Buttons::sample(),
            Buttons::new_send(
                25,
                10,
                Some(Color::gray()),
                String::from("ping"),
                User::new(String::from("peer"), String::from("10.0.0.9")),
            ),
        ],
    )
}

fn hovering(layout: &Layout, bar: usize) -> Vec<bool> {
    layout.bars[bar].buttons.iter().map(|b| b.get_hovering()).collect()
}

#[test]
fn where_is_mouse_splits_at_the_contact_pane() {
    let s = sizes();
    assert_eq!(where_is_mouse(&100, &130, &s, 1), UIElements::Contacts(2));
    assert_eq!(where_is_mouse(&160, &0, &s, 1), UIElements::Contacts(0));
    assert_eq!(where_is_mouse(&161, &0, &s, 1), UIElements::Chat);
    assert_eq!(where_is_mouse(&80, &59, &s, 2), UIElements::Contacts(1));
    assert_eq!(where_is_mouse(&81, &59, &s, 2), UIElements::Chat);
    assert_eq!(where_is_mouse(&-5, &59, &s, 1), UIElements::Contacts(0));
}

#[test]
fn where_is_mouse_rounds_the_entry_toward_zero() {
    let s = sizes();
    assert_eq!(where_is_mouse(&0, &59, &s, 1), UIElements::Contacts(0));
    assert_eq!(where_is_mouse(&0, &60, &s, 1), UIElements::Contacts(1));
    assert_eq!(where_is_mouse(&0, &-59, &s, 1), UIElements::Contacts(0));
    assert_eq!(where_is_mouse(&0, &-60, &s, 1), UIElements::Contacts(-1));
    assert_eq!(where_is_mouse(&0, &-130, &s, 1), UIElements::Contacts(-2));
}

#[test]
fn where_is_mouse_at_the_ends_of_the_numbers() {
    let s = sizes();
    assert_eq!(where_is_mouse(&i32::MAX, &i32::MAX, &s, i32::MAX), UIElements::Chat);
    assert_eq!(
        where_is_mouse(&i32::MIN, &i32::MIN, &s, i32::MIN),
        UIElements::Chat
    );
    assert_eq!(
        where_is_mouse(&i32::MIN, &i32::MIN, &s, i32::MAX),
        UIElements::Contacts((i32::MIN as i64 * i32::MAX as i64) / 60)
    );
    assert_eq!(where_is_mouse(&5, &5, &s, 0), UIElements::Contacts(0));
}

#[test]
fn scripted_replies_take_turns() {
    assert_eq!(scripted_reply(0), "Hey!");
    assert_eq!(scripted_reply(1), "Tell me more.");
    assert_eq!(scripted_reply(2), "Interesting...");
    assert_eq!(scripted_reply(3), "Talk to you later!");
    assert_eq!(scripted_reply(4), "Hey!");
    assert_eq!(scripted_reply(usize::MAX), scripted_reply(usize::MAX % 4));
}

#[test]
fn sample_layout() {
    let layout = Layout::sample();
    assert_eq!(layout.contacts.len(), 3);
    assert_eq!(layout.contacts[0].name, "Mette Frederiksen");
    assert_eq!(layout.contacts[0].addr, "123.2.2");
    assert_eq!(layout.contacts[1].name, "Sample Guy - OR GIRL!");
    assert_eq!(layout.contacts[2].name, "Polsegut");
    assert_eq!(layout.contacts[2].addr, "123.123.2");
    let session = layout.session.as_ref().unwrap();
    assert_eq!(session.contact, 2);
    assert_eq!(session.messages.len(), 0);
    assert_eq!(session.draft, "");
    assert_eq!(session.scroll.offset, 0);
    assert_eq!(layout.contact_scroll.offset, 0);
    assert_eq!(layout.bars.len(), 0);
    assert_eq!(layout.dispatcher.server_info(), ServerInfo::default());
}

#[test]
fn new_layout_has_no_conversation() {
    let layout = Layout::new(vec![server_guy()], vec![Bar::sample()]);
    assert!(layout.session.is_none());
    assert_eq!(layout.contacts.len(), 1);
    assert_eq!(layout.bars.len(), 1);
    assert_eq!(layout.contact_scroll, ScrollRegion::new(RegionKind::List));
}

#[test]
fn select_contact_seeds_the_conversation() {
    let mut layout = Layout::new(vec![server_guy()], vec![]);
    assert_eq!(layout.select_contact(0, &sizes_with_height(60)), Ok(()));
    let session = layout.session.as_ref().unwrap();
    assert_eq!(session.contact, 0);
    assert_eq!(session.messages.len(), 1);
    assert_eq!(session.messages[0].content, "Welcome!");
    assert_eq!(session.scroll.offset, 0);
    assert_eq!(session.draft, "");
}

#[test]
fn select_contact_scrolls_a_long_conversation_to_its_bottom() {
    let mut layout = Layout::new(vec![server_guy(), Contact::sample()], vec![]);
    assert_eq!(layout.select_contact(1, &sizes_with_height(1000)), Ok(()));
    let session = layout.session.as_ref().unwrap();
    assert_eq!(session.messages.len(), 3);
    assert_eq!(session.scroll.offset, 550);
    assert_eq!((session.scroll.min_offset, session.scroll.max_offset), (-550, 550));
    assert_eq!(session.scroll.kind, RegionKind::Content);
}

#[test]
fn select_contact_out_of_range_changes_nothing() {
    let mut layout = Layout::sample();
    layout.type_text("kept");
    assert_eq!(
        layout.select_contact(3, &sizes()),
        Err(IndexOutOfRange { index: 3, len: 3 })
    );
    assert_eq!(
        layout.select_contact(usize::MAX, &sizes()),
        Err(IndexOutOfRange { index: usize::MAX, len: 3 })
    );
    let session = layout.session.as_ref().unwrap();
    assert_eq!(session.contact, 2);
    assert_eq!(session.draft, "kept");
    assert_eq!(layout.contacts[2].draft, "");
    let mut empty = Layout::new(vec![], vec![]);
    assert_eq!(empty.select_contact(0, &sizes()), Err(IndexOutOfRange { index: 0, len: 0 }));
    assert!(empty.session.is_none());
}

#[test]
fn select_contact_keeps_the_draft_with_its_contact() {
    let mut layout = Layout::sample();
    layout.type_text("to polsegut");
    assert_eq!(layout.select_contact(0, &sizes()), Ok(()));
    assert_eq!(layout.contacts[2].draft, "to polsegut");
    assert_eq!(layout.session.as_ref().unwrap().draft, "");
    layout.type_text("to mette");
    assert_eq!(layout.select_contact(2, &sizes()), Ok(()));
    assert_eq!(layout.contacts[0].draft, "to mette");
    assert_eq!(layout.session.as_ref().unwrap().draft, "to polsegut");
    assert_eq!(layout.select_contact(2, &sizes()), Ok(()));
    assert_eq!(layout.session.as_ref().unwrap().draft, "to polsegut");
}

#[test]
fn send_message_adds_own_message_and_reply() {
    let mut layout = Layout::new(vec![Contact::sample()], vec![]);
    assert_eq!(layout.select_contact(0, &sizes()), Ok(()));
    layout.type_text("hi");
    assert_eq!(layout.send_message(&sizes()), SendOutcome::Sent);
    let session = layout.session.as_ref().unwrap();
    assert_eq!(session.messages.len(), 3 + 2);
    assert_eq!(session.draft, "");
    assert_eq!(session.messages[3].content, "hi");
    assert!(session.messages[3].is_own);
    assert_eq!(session.messages[4].content, "Talk to you later!");
    assert!(!session.messages[4].is_own);
    let history = &layout.contacts[0].history;
    assert_eq!(history.len(), 5);
    assert_eq!(history[3].content, "hi");
    assert!(history[3].is_own);
    assert_eq!(history[4].content, "Talk to you later!");
    assert!(!history[4].is_own);
}

#[test]
fn send_message_scrolls_to_the_bottom() {
    let mut layout = Layout::new(vec![Contact::sample()], vec![]);
    assert_eq!(layout.select_contact(0, &sizes_with_height(100)), Ok(()));
    assert_eq!(layout.session.as_ref().unwrap().scroll.offset, 0);
    layout.type_text("hi");
    assert_eq!(layout.send_message(&sizes_with_height(700)), SendOutcome::Sent);
    assert_eq!(layout.session.as_ref().unwrap().scroll.offset, 250);
}

#[test]
fn replies_take_turns_as_the_conversation_grows() {
    let mut layout = Layout::sample();
    for expected in ["Hey!", "Interesting...", "Hey!"] {
        layout.type_text("x");
        assert_eq!(layout.send_message(&sizes()), SendOutcome::Sent);
        let session = layout.session.as_ref().unwrap();
        assert_eq!(session.messages.last().unwrap().content, expected);
    }
    assert_eq!(layout.contacts[2].history.len(), 6);
    assert_eq!(layout.contacts[0].history.len(), 0);
    assert_eq!(layout.contacts[1].history.len(), 3);
}

#[test]
fn blank_draft_is_not_sent() {
    let mut layout = Layout::sample();
    assert_eq!(layout.send_message(&sizes()), SendOutcome::EmptySubmission);
    layout.type_text("  \t ");
    assert_eq!(layout.send_message(&sizes()), SendOutcome::EmptySubmission);
    let session = layout.session.as_ref().unwrap();
    assert_eq!(session.messages.len(), 0);
    assert_eq!(session.draft, "  \t ");
    assert_eq!(layout.contacts[2].history.len(), 0);
}

#[test]
fn nothing_is_sent_without_a_conversation() {
    let mut layout = Layout::new(vec![server_guy()], vec![]);
    layout.type_text("lost");
    layout.backspace();
    assert_eq!(layout.send_message(&sizes()), SendOutcome::NoConversation);
    assert!(layout.session.is_none());
    assert_eq!(layout.contacts[0].history.len(), 1);
}

#[test]
fn typing_and_backspace_edit_the_draft() {
    let mut layout = Layout::sample();
    layout.type_text("hé");
    layout.type_text("llo");
    assert_eq!(layout.session.as_ref().unwrap().draft, "héllo");
    layout.backspace();
    layout.backspace();
    layout.backspace();
    layout.backspace();
    assert_eq!(layout.session.as_ref().unwrap().draft, "h");
    layout.backspace();
    layout.backspace();
    assert_eq!(layout.session.as_ref().unwrap().draft, "");
}

#[test]
fn chat_session_on_its_own() {
    let mut session = ChatSession::open(4, &Contact::sample(), 1000, 400);
    assert_eq!(session.contact, 4);
    assert_eq!(session.messages.len(), 3);
    assert_eq!(session.scroll.offset, 600);
    session.append_message(Message::new(String::from("more"), true));
    assert_eq!(session.messages.len(), 4);
    assert_eq!(session.messages[3].content, "more");
    session.push_text("ab");
    session.push_text("c");
    session.backspace();
    assert_eq!(session.draft, "ab");
    session.scroll(-10, 5);
    assert_eq!(session.scroll.offset, 550);
    let bubbles = session.bubbles(427);
    assert_eq!(bubbles.len(), 4);
    assert_eq!(bubbles[0].text, Message::sample().content);
    assert!(!bubbles[0].is_own);
    assert_eq!(bubbles[3].text, "more");
    assert!(bubbles[3].is_own);
    assert_eq!(bubbles[3].max_width, 427);
}

#[test]
fn click_on_a_contact_selects_it() {
    let mut layout = Layout::sample();
    let actions = layout.click(&100, &70, &sizes(), 1);
    assert!(actions.is_empty());
    let session = layout.session.as_ref().unwrap();
    assert_eq!(session.contact, 1);
    assert_eq!(session.messages.len(), 3);
    let actions = layout.click(&160, &0, &sizes(), 1);
    assert!(actions.is_empty());
    assert_eq!(layout.session.as_ref().unwrap().contact, 0);
}

#[test]
fn click_below_the_last_contact_selects_nothing() {
    let mut layout = Layout::sample();
    layout.click(&100, &180, &sizes(), 1);
    assert_eq!(layout.session.as_ref().unwrap().contact, 2);
    layout.click(&100, &500, &sizes(), 1);
    assert_eq!(layout.session.as_ref().unwrap().contact, 2);
    layout.click(&100, &-500, &sizes(), 1);
    assert_eq!(layout.session.as_ref().unwrap().contact, 2);
    layout.click(&100, &179, &sizes(), 1);
    assert_eq!(layout.session.as_ref().unwrap().contact, 2);
    layout.click(&100, &119, &sizes(), 1);
    assert_eq!(layout.session.as_ref().unwrap().contact, 1);
}

#[test]
fn click_in_the_chat_pane_selects_nothing() {
    let mut layout = Layout::sample();
    layout.click(&400, &30, &sizes(), 1);
    assert_eq!(layout.session.as_ref().unwrap().contact, 2);
}

#[test]
fn click_hands_back_what_the_clicked_widgets_ask_for() {
    let bars = vec![send_bar(300, 100), send_bar(300, 100), Bar::sample()];
    let mut layout = Layout::new(vec![], bars);
    let actions = layout.click(&330, &105, &sizes(), 1);
    assert_eq!(actions.len(), 2);
    for action in &actions {
        match action {
            ClickAction::Pending(request) => assert_eq!(request.target.addr(), "10.0.0.9"),
            ClickAction::Pressed(_) => panic!("the send button was clicked"),
        }
    }
    let actions = layout.click(&305, &105, &sizes(), 1);
    assert_eq!(actions.len(), 2);
    assert!(matches!(actions[0], ClickAction::Pressed(_)));
    let actions = layout.click(&5, &5, &sizes(), 1);
    assert_eq!(actions.len(), 1);
    assert!(matches!(actions[0], ClickAction::Pressed(_)));
    let actions = layout.click(&300, &100, &sizes(), 1);
    assert!(actions.is_empty());
    let actions = layout.click(&700, &500, &sizes(), 1);
    assert!(actions.is_empty());
}

#[test]
fn hover_reaches_every_bar() {
    let mut layout = Layout::new(vec![], vec![Bar::sample(), send_bar(300, 100)]);
    layout.hover(30, 5);
    assert_eq!(hovering(&layout, 0), vec![false, true, false]);
    assert_eq!(hovering(&layout, 1), vec![false, false]);
    layout.hover(305, 105);
    assert_eq!(hovering(&layout, 0), vec![false, false, false]);
    assert_eq!(hovering(&layout, 1), vec![true, false]);
    assert_eq!(layout.bars[0].buttons[1].get_color(), Some(Color::gray()));
    layout.hover(600, 500);
    assert_eq!(hovering(&layout, 1), vec![false, false]);
}

#[test]
fn scroll_in_the_chat_pane_moves_the_conversation() {
    let mut layout = Layout::sample();
    let s = sizes_with_height(1000);
    layout.scroll(&400, &300, &s, &3, 1);
    let session = layout.session.as_ref().unwrap();
    assert_eq!(session.scroll.offset, 3 * SCROLL_SENSITIVITY);
    assert_eq!((session.scroll.min_offset, session.scroll.max_offset), (-550, 550));
    assert_eq!(layout.contact_scroll.offset, 0);
    layout.scroll(&400, &300, &s, &-1000, 1);
    assert_eq!(layout.session.as_ref().unwrap().scroll.offset, -550);
    layout.scroll(&400, &300, &sizes_with_height(100), &0, 1);
    assert_eq!(layout.session.as_ref().unwrap().scroll.offset, 0);
}

#[test]
fn scroll_in_the_contact_pane_moves_the_list() {
    let contacts = (0..20).map(|_| Contact::sample()).collect();
    let mut layout = Layout::new(contacts, vec![]);
    let s = sizes();
    layout.scroll(&10, &10, &s, &4, 1);
    assert_eq!(layout.contact_scroll.offset, 20);
    assert_eq!((layout.contact_scroll.min_offset, layout.contact_scroll.max_offset), (0, 610));
    layout.scroll(&10, &10, &s, &-10, 1);
    assert_eq!(layout.contact_scroll.offset, 0);
    layout.scroll(&10, &10, &s, &1000, 1);
    assert_eq!(layout.contact_scroll.offset, 610);
}

#[test]
fn short_contact_list_does_not_scroll() {
    let mut layout = Layout::sample();
    layout.scroll(&10, &10, &sizes(), &7, 1);
    assert_eq!(layout.contact_scroll.offset, 0);
    assert_eq!(layout.session.as_ref().unwrap().scroll.offset, 0);
}

#[test]
fn events_are_handled_in_turn() {
    let mut layout = Layout::new(vec![Contact::sample()], vec![send_bar(300, 100)]);
    let s = sizes();
    let outcome = layout.handle_event(&InputEvent::PointerDown { x: 10, y: 10 }, &s, 1);
    assert_eq!(outcome.kind, Events::Click);
    assert!(outcome.actions.is_empty());
    assert_eq!(outcome.scale, None);
    assert_eq!(layout.session.as_ref().unwrap().contact, 0);

    let outcome = layout.handle_event(&InputEvent::TextInput(String::from("hi!")), &s, 1);
    assert_eq!(outcome.kind, Events::Text);
    let outcome = layout.handle_event(&InputEvent::Backspace, &s, 1);
    assert_eq!(outcome.kind, Events::Text);
    assert_eq!(layout.session.as_ref().unwrap().draft, "hi");

    let outcome = layout.handle_event(&InputEvent::Submit, &s, 1);
    assert_eq!(outcome.kind, Events::SentMessage);
    assert_eq!(layout.contacts[0].history.len(), 5);
    let outcome = layout.handle_event(&InputEvent::Submit, &s, 1);
    assert_eq!(outcome.kind, Events::EmptySubmission);
    assert_eq!(layout.contacts[0].history.len(), 5);

    let outcome = layout.handle_event(&InputEvent::PointerMoved { x: 305, y: 105 }, &s, 1);
    assert_eq!(outcome.kind, Events::Hovered);
    assert_eq!(hovering(&layout, 0), vec![true, false]);

    let outcome = layout.handle_event(&InputEvent::PointerDown { x: 330, y: 105 }, &s, 1);
    assert_eq!(outcome.kind, Events::Click);
    assert_eq!(outcome.actions.len(), 1);
    assert!(matches!(outcome.actions[0], ClickAction::Pending(_)));
    assert_eq!(layout.session.as_ref().unwrap().contact, 0);

    let outcome = layout.handle_event(
        &InputEvent::Scroll { x: 400, y: 300, delta: 2 },
        &sizes_with_height(900),
        1,
    );
    assert_eq!(outcome.kind, Events::Scrolled);
    assert_eq!(layout.session.as_ref().unwrap().scroll.offset, 10);

    assert_eq!(layout.handle_event(&InputEvent::Other, &s, 1).kind, Events::Unhandled);
    assert_eq!(layout.handle_event(&InputEvent::Quit, &s, 1).kind, Events::Quit);
}

#[test]
fn submit_without_a_conversation_is_unhandled() {
    let mut layout = Layout::new(vec![], vec![]);
    assert_eq!(layout.handle_event(&InputEvent::Submit, &sizes(), 1).kind, Events::Unhandled);
}

#[test]
fn resize_hands_back_the_scale_factor() {
    let mut layout = Layout::sample();
    let outcome = layout.handle_event(
        &InputEvent::Resized { logical: (800, 600), physical: (1600, 1200) },
        &sizes(),
        1,
    );
    assert_eq!(outcome.kind, Events::Resized);
    assert_eq!(outcome.scale, Some(Ok(2)));
    let outcome = layout.handle_event(
        &InputEvent::Resized { logical: (800, 600), physical: (1600, 600) },
        &sizes(),
        1,
    );
    assert_eq!(outcome.kind, Events::Resized);
    assert_eq!(
        outcome.scale,
        Some(Err(ScaleMismatchError {
            logical_w: 800,
            logical_h: 600,
            physical_w: 1600,
            physical_h: 600
        }))
    );
}

#[test]
fn click_then_fetch_then_status() {
    let mut layout = Layout::new(vec![], vec![send_bar(300, 100)]);
    let actions = layout.click(&330, &105, &sizes(), 1);
    assert_eq!(actions.len(), 1);
    let ticket = layout.dispatcher.dispatch().unwrap();
    let actions = layout.click(&330, &105, &sizes(), 1);
    assert_eq!(actions.len(), 1);
    let late = layout.dispatcher.dispatch().unwrap();
    assert!(layout.dispatcher.complete(ticket, &FetchOutcome::TransportFailure));
    assert_eq!(
        layout.dispatcher.server_info(),
        ServerInfo { player_count: 0, status: Status::Error }
    );
    assert!(!layout.dispatcher.complete(ticket, &FetchOutcome::TransportFailure));
    assert!(layout.dispatcher.is_pending(late));
}

#[test]
fn find_contact_looks_up_by_address() {
    let layout = Layout::sample();
    assert_eq!(layout.find_contact(&String::from("123.2.2")), Some(0));
    assert_eq!(layout.find_contact(&String::from("123.123.123.12")), Some(1));
    assert_eq!(layout.find_contact(&String::from("123.123.2")), Some(2));
    assert_eq!(layout.find_contact(&String::from("123.123")), None);
    assert_eq!(layout.find_contact(&String::new()), None);
    assert_eq!(Layout::new(vec![], vec![]).find_contact(&String::from("123.2.2")), None);
}

#[test]
fn find_contact_gives_the_first_of_two_with_one_address() {
    let layout = Layout::new(vec![server_guy(), Contact::sample(), server_guy()], vec![]);
    assert_eq!(layout.find_contact(&String::from("194.163.183.44")), Some(0));
    assert!(!layout.has_unique_addresses());
}

#[test]
fn addresses_of_the_sample_are_unique_and_stay_so() {
    let mut layout = Layout::sample();
    assert!(layout.has_unique_addresses());
    layout.type_text("hello");
    assert_eq!(layout.send_message(&sizes()), SendOutcome::Sent);
    assert_eq!(layout.select_contact(0, &sizes()), Ok(()));
    assert!(layout.has_unique_addresses());
    assert!(Layout::new(vec![], vec![]).has_unique_addresses());
    assert!(Layout::new(vec![server_guy()], vec![]).has_unique_addresses());
}

#[test]
fn message_appended_to_the_open_conversation_is_kept_when_another_contact_is_selected() {
    let mut layout = Layout::sample();
    layout
        .session
        .as_mut()
        .unwrap()
        .append_message(Message::new(String::from("hi"), true));
    let actions = layout.click(&5, &5, &sizes(), 1);
    assert!(actions.is_empty());
    assert_eq!(layout.contacts[2].history.len(), 1);
    assert_eq!(layout.contacts[2].history[0].content, "hi");
    assert!(layout.contacts[2].history[0].is_own);
    let session = layout.session.as_ref().unwrap();
    assert_eq!(session.contact, 0);
    assert_eq!(layout.contacts[session.contact].addr, "123.2.2");
    assert_eq!(layout.select_contact(2, &sizes()), Ok(()));
    let session = layout.session.as_ref().unwrap();
    assert_eq!(session.messages.len(), 1);
    assert_eq!(session.messages[0].content, "hi");
}

#[test]
fn message_pushed_on_the_open_conversation_is_kept_when_another_contact_is_selected() {
    let mut layout = Layout::sample();
    layout.session.as_mut().unwrap().messages.push(Message::new(String::from("hi"), false));
    assert_eq!(layout.select_contact(1, &sizes()), Ok(()));
    assert_eq!(layout.contacts[2].history.len(), 1);
    assert_eq!(layout.contacts[2].history[0].content, "hi");
    assert!(!layout.contacts[2].history[0].is_own);
    assert_eq!(layout.contacts[1].history.len(), 3);
}

#[test]
fn send_writes_the_whole_conversation_back() {
    let mut layout = Layout::sample();
    layout
        .session
        .as_mut()
        .unwrap()
        .append_message(Message::new(String::from("received"), false));
    layout.type_text("answer");
    assert_eq!(layout.send_message(&sizes()), SendOutcome::Sent);
    let session = layout.session.as_ref().unwrap();
    assert_eq!(session.messages.len(), 3);
    let history = &layout.contacts[2].history;
    assert_eq!(history.len(), 3);
    assert_eq!(history[0].content, "received");
    assert_eq!(history[1].content, "answer");
    assert_eq!(history[2].content, "Tell me more.");
    assert_eq!(layout.contacts[2].draft, "");
}

#[test]
fn layout_append_message_reaches_conversation_and_contact() {
    let mut layout = Layout::new(vec![server_guy(), Contact::sample()], vec![]);
    assert!(!layout.append_message(Message::new(String::from("lost"), false)));
    assert_eq!(layout.contacts[0].history.len(), 1);
    assert_eq!(layout.select_contact(0, &sizes()), Ok(()));
    assert!(layout.append_message(Message::new(String::from("pong"), false)));
    assert!(layout.append_message(Message::new(String::from("ping"), true)));
    let session = layout.session.as_ref().unwrap();
    assert_eq!(session.messages.len(), 3);
    assert_eq!(session.messages[1].content, "pong");
    assert_eq!(session.messages[2].content, "ping");
    assert!(session.messages[2].is_own);
    let history = &layout.contacts[0].history;
    assert_eq!(history.len(), 3);
    assert_eq!(history[0].content, "Welcome!");
    assert_eq!(history[1].content, "pong");
    assert!(!history[1].is_own);
    assert_eq!(history[2].content, "ping");
    assert_eq!(layout.contacts[1].history.len(), 3);
}

#[test]
fn scroll_to_bottom_follows_a_new_measure() {
    let mut layout = Layout::new(vec![Contact::sample()], vec![]);
    layout.scroll_to_bottom(&sizes_with_height(1000));
    assert!(layout.session.is_none());
    assert_eq!(layout.select_contact(0, &sizes_with_height(100)), Ok(()));
    assert_eq!(layout.session.as_ref().unwrap().scroll.offset, 0);
    layout.scroll_to_bottom(&sizes_with_height(1000));
    let scroll = layout.session.as_ref().unwrap().scroll;
    assert_eq!((scroll.min_offset, scroll.max_offset, scroll.offset), (-550, 550, 550));
    layout.scroll_to_bottom(&sizes_with_height(1000));
    assert_eq!(layout.session.as_ref().unwrap().scroll, scroll);
    layout.scroll_to_bottom(&sizes_with_height(200));
    assert_eq!(layout.session.as_ref().unwrap().scroll.offset, 0);
}

#[test]
fn scroll_regions_keep_their_kinds() {
    let mut layout = Layout::sample();
    let s = sizes_with_height(900);
    layout.scroll(&10, &10, &s, &-3, 1);
    layout.scroll(&400, &10, &s, &3, 1);
    layout.click(&5, &5, &s, 1);
    layout.type_text("x");
    assert_eq!(layout.send_message(&s), SendOutcome::Sent);
    assert_eq!(layout.contact_scroll.kind, RegionKind::List);
    assert_eq!(layout.contact_scroll.min_offset, 0);
    assert_eq!(layout.session.as_ref().unwrap().scroll.kind, RegionKind::Content);
}
