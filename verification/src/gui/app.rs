//! The messages of the application.
use vstd::prelude::*;
use vstd::std_specs::convert::FromSpecImpl;

use crate::gui::component::sharing;

verus! {

/// A message of the application.
#[derive(Clone, Debug)]
pub enum Message {
    /// A message of the sharing page.
    Sharing(sharing::Message),
    /// Nothing to do.
    Ignore,
}

impl From<sharing::Message> for Message {
    fn from(message: sharing::Message) -> (wrapped: Message) {
        Message::Sharing(message)
    }
}

impl FromSpecImpl<sharing::Message> for Message {
    open spec fn obeys_from_spec() -> bool {
        true
    }

    open spec fn from_spec(message: sharing::Message) -> Message {
        Message::Sharing(message)
    }
}

} // verus!
