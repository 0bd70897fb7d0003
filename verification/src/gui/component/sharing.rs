//! The page shown while the screen is shared: a tab that invites viewers, a
//! tab that lists them, and the button that ends the sharing.
//!
//! `update` decides what a message does and hands the outside work back as
//! an [`Effect`]; the caller writes to the clipboard and performs the native
//! requests.
use vstd::prelude::*;

use crate::capture::capturer::{Capturer, CapturerView};
use crate::capture::ffi::NativeRequest;

verus! {

/// The sharing page.
#[derive(Debug)]
pub struct SharingPage {
    current_tab: usize,
    invite_tab: InviteTab,
    viewers_tab: ViewersTab,
}

/// The tab that shows how to join the room.
#[derive(Debug)]
pub struct InviteTab {}

/// The tab that lists the viewers.
#[derive(Debug)]
pub struct ViewersTab {}

/// What `update` works on.
pub struct UpdateProps<'a> {
    pub capturer: &'a mut Capturer,
}

/// What the page shows.
#[derive(Clone, Debug)]
pub struct ViewProps {
    pub room_id: String,
    pub room_password: String,
    pub invite_link: String,
}

/// What the user did on the page.
#[derive(Clone, Copy, Debug, PartialEq, Eq, Structural)]
pub enum Message {
    Stop,
    CopyRoomID,
    CopyPasscode,
    CopyInviteLink,
    ChangeTab(usize),
}

/// The outside work that a message asks for.
#[derive(Debug)]
pub enum Effect {
    /// Nothing.
    Nothing,
    /// Write this text to the clipboard.
    WriteClipboard(String),
    /// Perform these native requests, in this order.
    Perform(Vec<NativeRequest>),
}

/// What is copied for a message, from a capturer: the field of the room that
/// the message names.
pub open spec fn copied(message: Message, capturer: CapturerView) -> Option<String> {
    match capturer.room {
        Some(room) => match message {
            Message::CopyInviteLink => Some(room.invite_link),
            Message::CopyRoomID => Some(room.id),
            Message::CopyPasscode => Some(room.password),
            _ => None,
        },
        None => None,
    }
}

/// Whether an effect is the one that a message asks for, given the capturer
/// before the message.
pub open spec fn effect_of(effect: Effect, message: Message, capturer: CapturerView) -> bool {
    match message {
        Message::Stop => effect matches Effect::Perform(requests) && requests@
            == capturer.shutdown().1,
        Message::ChangeTab(_) => effect is Nothing,
        _ => match copied(message, capturer) {
            Some(text) => effect matches Effect::WriteClipboard(written) && written@ == text@,
            None => effect is Nothing,
        },
    }
}

/// One card of the invite tab: a headline, a text to show and copy, the
/// message that its copy button sends, and its layout in pixels.
#[derive(Debug)]
pub struct InfoCard {
    pub head: String,
    pub body: String,
    pub on_copy: Message,
    /// The width of the card.
    pub width: u16,
    /// The width left for the text beside the copy button.
    pub text_width: u16,
}

/// The width of a narrow card.
pub const NARROW_CARD: u16 = 156;

/// The width of a wide card.
pub const WIDE_CARD: u16 = 324;

/// The width that the copy button and the padding of a card take.
pub const CARD_CHROME: u16 = 72;

impl InfoCard {
    /// Whether this is the card with this headline, text, message and width.
    pub open spec fn is(self, head: Seq<char>, body: Seq<char>, on_copy: Message, width: u16) -> bool {
        &&& self.head@ == head
        &&& self.body@ == body
        &&& self.on_copy == on_copy
        &&& self.width == width
        &&& self.text_width == width - CARD_CHROME
    }
}

impl SharingPage {
    /// The page with its first tab shown.
    pub fn new() -> (page: SharingPage)
        ensures
            page.shown_tab() == 0,
    {
        SharingPage { current_tab: 0, invite_tab: InviteTab {  }, viewers_tab: ViewersTab {  } }
    }

    /// The tab that is shown.
    pub closed spec fn shown_tab(&self) -> usize {
        self.current_tab
    }

    /// The tab that is shown.
    pub fn current_tab(&self) -> (tab: usize)
        ensures
            tab == self.shown_tab(),
    {
        self.current_tab
    }

    /// Takes a message of the page.
    ///
    /// A copy message asks for the named field of the room to be written to
    /// the clipboard, if a room is open. `Stop` shuts the capturer down and
    /// asks for the native requests of the shutdown. `ChangeTab` shows
    /// another tab. Nothing else changes.
    pub fn update(&mut self, message: Message, props: UpdateProps<'_>) -> (effect: Effect)
        requires
            old(props.capturer).wf(),
        ensures
            final(props.capturer).wf(),
            effect_of(effect, message, old(props.capturer)@),
            final(props.capturer)@ == if message is Stop {
                old(props.capturer)@.shutdown().0
            } else {
                old(props.capturer)@
            },
            final(self).shown_tab() == match message {
                Message::ChangeTab(tab) => tab,
                _ => old(self).shown_tab(),
            },
    {
        match message {
            Message::CopyInviteLink => {
                if let Some(invite_link) = props.capturer.get_invite_link() {
                    return Effect::WriteClipboard(invite_link);
                }
            },
            Message::CopyRoomID => {
                if let Some(room_id) = props.capturer.get_room_id() {
                    return Effect::WriteClipboard(room_id);
                }
            },
            Message::CopyPasscode => {
                if let Some(room_password) = props.capturer.get_room_password() {
                    return Effect::WriteClipboard(room_password);
                }
            },
            Message::Stop => {
                return Effect::Perform(props.capturer.shutdown());
            },
            Message::ChangeTab(tab) => {
                self.current_tab = tab;
            },
        }
        Effect::Nothing
    }
}

impl InviteTab {
    /// The title of the tab.
    pub fn title(&self) -> (title: String)
        ensures
            title@ == "Invite"@,
    {
        "Invite".to_string()
    }

    /// The cards of the tab: the room and the passcode, narrow, and the
    /// invite link, wide.
    pub fn cards(&self, props: ViewProps) -> (cards: Vec<InfoCard>)
        ensures
            cards@.len() == 3,
            cards@[0].is("Room"@, props.room_id@, Message::CopyRoomID, NARROW_CARD),
            cards@[1].is("Passcode"@, props.room_password@, Message::CopyPasscode, NARROW_CARD),
            cards@[2].is("Invite Link"@, props.invite_link@, Message::CopyInviteLink, WIDE_CARD),
    {
        let mut cards: Vec<InfoCard> = Vec::new();
        cards.push(
            InfoCard {
                head: "Room".to_string(),
                body: props.room_id,
                on_copy: Message::CopyRoomID,
                width: NARROW_CARD,
                text_width: NARROW_CARD - CARD_CHROME,
            },
        );
        cards.push(
            InfoCard {
                head: "Passcode".to_string(),
                body: props.room_password,
                on_copy: Message::CopyPasscode,
                width: NARROW_CARD,
                text_width: NARROW_CARD - CARD_CHROME,
            },
        );
        cards.push(
            InfoCard {
                head: "Invite Link".to_string(),
                body: props.invite_link,
                on_copy: Message::CopyInviteLink,
                width: WIDE_CARD,
                text_width: WIDE_CARD - CARD_CHROME,
            },
        );
        cards
    }
}

impl ViewersTab {
    /// The title of the tab.
    pub fn title(&self) -> (title: String)
        ensures
            title@ == "Viewers"@,
    {
        "Viewers".to_string()
    }
}

} // verus!
