use screen_capture::capture::capture_engine::CaptureConfig;
use screen_capture::capture::capturer::{Capturer, Room};
use screen_capture::capture::display::Display;
use screen_capture::capture::ffi::{NativeHandle, NativeRequest, OpenReply, StreamKind};
use screen_capture::capture::frame::NativeEvent;
use screen_capture::capture::pcm_buffer::AudioFormat;
use screen_capture::capture::screen_recorder::RecorderState;
use screen_capture::gui::app;
use screen_capture::gui::component::sharing::{
    Effect, InviteTab, Message, SharingPage, UpdateProps, ViewProps, ViewersTab, CARD_CHROME,
    NARROW_CARD, WIDE_CARD,
};

fn room() -> Room {
    Room {
        id: String::from("4711"),
        password: String::from("s3same"),
        invite_link: String::from("https://example.org/join/4711"),
    }
}

fn sharing() -> Capturer {
    let mut capturer = Capturer::new();
    capturer.open_room(room());
    let display =
        Display { id: 1, width: 800, height: 600, scale_percent: 100, name: String::from("Main") };
    let config = CaptureConfig {
        frame_rate: 30,
        audio: AudioFormat::new(48_000, 1, 16).unwrap(),
        audio_buffer_frames: 64,
        frame_queue_len: 4,
    };
    capturer.start(display, config).unwrap();
    capturer.handle_event(NativeEvent::VideoReply(OpenReply::Granted(10)));
    capturer.handle_event(NativeEvent::AudioReply(OpenReply::Granted(20)));
    assert_eq!(capturer.state(), RecorderState::Recording);
    capturer
}

fn written(effect: Effect) -> Option<String> {
    match effect {
        Effect::WriteClipboard(text) => Some(text),
        _ => None,
    }
}

#[test]
fn a_new_page_shows_its_first_tab() {
    assert_eq!(SharingPage::new().current_tab(), 0);
}

#[test]
fn change_tab_shows_the_tab() {
    let mut page = SharingPage::new();
    let mut capturer = sharing();
    let effect = page.update(Message::ChangeTab(1), UpdateProps { capturer: &mut capturer });
    assert!(matches!(effect, Effect::Nothing));
    assert_eq!(page.current_tab(), 1);
    assert_eq!(capturer.state(), RecorderState::Recording);
    assert_eq!(capturer.get_room_id(), Some(String::from("4711")));
}

#[test]
fn copy_messages_write_the_field_they_name() {
    let mut page = SharingPage::new();
    let mut capturer = sharing();
    let effect = page.update(Message::CopyInviteLink, UpdateProps { capturer: &mut capturer });
    assert_eq!(written(effect), Some(String::from("https://example.org/join/4711")));
    let effect = page.update(Message::CopyRoomID, UpdateProps { capturer: &mut capturer });
    assert_eq!(written(effect), Some(String::from("4711")));
    let effect = page.update(Message::CopyPasscode, UpdateProps { capturer: &mut capturer });
    assert_eq!(written(effect), Some(String::from("s3same")));
    assert_eq!(page.current_tab(), 0);
    assert_eq!(capturer.state(), RecorderState::Recording);
}

#[test]
fn copy_without_a_room_does_nothing() {
    let mut page = SharingPage::new();
    let mut capturer = Capturer::new();
    for message in [Message::CopyInviteLink, Message::CopyRoomID, Message::CopyPasscode] {
        let effect = page.update(message, UpdateProps { capturer: &mut capturer });
        assert!(matches!(effect, Effect::Nothing));
    }
    assert_eq!(capturer.get_invite_link(), None);
    assert_eq!(capturer.get_room_id(), None);
    assert_eq!(capturer.get_room_password(), None);
}

#[test]
fn stop_shuts_the_capturer_down() {
    let mut page = SharingPage::new();
    let mut capturer = sharing();
    let effect = page.update(Message::Stop, UpdateProps { capturer: &mut capturer });
    match effect {
        Effect::Perform(requests) => assert_eq!(
            requests,
            vec![
                NativeRequest::Close(NativeHandle { kind: StreamKind::Video, raw: 10 }),
                NativeRequest::Close(NativeHandle { kind: StreamKind::Audio, raw: 20 }),
            ]
        ),
        other => panic!("unexpected effect {:?}", other),
    }
    assert_eq!(capturer.state(), RecorderState::Idle);
    assert_eq!(capturer.get_room_id(), None);
    let effect = page.update(Message::Stop, UpdateProps { capturer: &mut capturer });
    assert!(matches!(effect, Effect::Perform(requests) if requests.is_empty()));
}

#[test]
fn shutdown_twice_asks_for_nothing_the_second_time() {
    let mut capturer = sharing();
    assert_eq!(capturer.shutdown().len(), 2);
    assert_eq!(capturer.shutdown(), Vec::new());
    assert_eq!(capturer.state(), RecorderState::Idle);
}

#[test]
fn tab_titles() {
    assert_eq!(InviteTab {}.title(), "Invite");
    assert_eq!(ViewersTab {}.title(), "Viewers");
}

#[test]
fn invite_cards() {
    let props = ViewProps {
        room_id: String::from("4711"),
        room_password: String::from("s3same"),
        invite_link: String::from("https://example.org/join/4711"),
    };
    let cards = InviteTab {}.cards(props);
    assert_eq!(cards.len(), 3);
    assert_eq!(cards[0].head, "Room");
    assert_eq!(cards[0].body, "4711");
    assert_eq!(cards[0].on_copy, Message::CopyRoomID);
    assert_eq!((cards[0].width, cards[0].text_width), (156, 84));
    assert_eq!(cards[1].head, "Passcode");
    assert_eq!(cards[1].body, "s3same");
    assert_eq!(cards[1].on_copy, Message::CopyPasscode);
    assert_eq!((cards[1].width, cards[1].text_width), (156, 84));
    assert_eq!(cards[2].head, "Invite Link");
    assert_eq!(cards[2].body, "https://example.org/join/4711");
    assert_eq!(cards[2].on_copy, Message::CopyInviteLink);
    assert_eq!((cards[2].width, cards[2].text_width), (324, 252));
    assert_eq!((NARROW_CARD, WIDE_CARD, CARD_CHROME), (156, 324, 72));
}

#[test]
fn page_messages_become_application_messages() {
    let wrapped: app::Message = Message::CopyPasscode.into();
    assert!(matches!(wrapped, app::Message::Sharing(Message::CopyPasscode)));
    let wrapped = app::Message::from(Message::ChangeTab(2));
    assert!(matches!(wrapped, app::Message::Sharing(Message::ChangeTab(2))));
}
