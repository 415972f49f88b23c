//! The view models that the pages are rendered from.

use vstd::prelude::*;

use crate::models::{web_password, ChatRoom};

verus! {

/// A room as listed on the home page: its name and whether it is closed.
#[derive(Debug)]
pub struct ChatRoomCard {
    pub name: String,
    pub has_password: bool,
}

/// The card that lists `room`.
pub open spec fn card_of(room: ChatRoom) -> ChatRoomCard {
    ChatRoomCard { name: room.name, has_password: room.password is Some }
}

impl From<ChatRoom> for ChatRoomCard {
    fn from(chat_room: ChatRoom) -> (card: Self)
        ensures
            card == card_of(chat_room),
            card.name == chat_room.name,
            card.has_password == (chat_room.password is Some),
    {
        let has_password = chat_room.password.is_some();
        ChatRoomCard { name: chat_room.name, has_password }
    }
}

impl vstd::std_specs::convert::FromSpecImpl<ChatRoom> for ChatRoomCard {
    open spec fn obeys_from_spec() -> bool {
        true
    }

    open spec fn from_spec(v: ChatRoom) -> Self {
        card_of(v)
    }
}

/// The page of one chat room.
#[derive(Debug)]
pub struct ChatRoomTemplate {
    pub chatroom: ChatRoom,
}

/// The home page: the list of rooms.
#[derive(Debug)]
pub struct Home {
    pub room_cards: Vec<ChatRoomCard>,
}

/// The landing page.
#[derive(Debug)]
pub struct Index {}

/// One chat message as the room page shows it.
#[derive(Debug)]
pub struct Message {
    sender: String,
    content: String,
}

/// The dialog that creates a room.
#[derive(Debug)]
pub struct CreateRoomDialog {}

/// The login page.
#[derive(Debug)]
pub struct LoginPage {}

/// The page answered for an unknown path.
#[derive(Debug)]
pub struct NotFoundTemplate {}

/// A room created from the web form with an empty password field is listed as
/// open, and one created with a non-empty password as closed.
pub proof fn lemma_web_room_card(name: String, typed: String)
    ensures
        card_of(ChatRoom { name, password: web_password(typed) }).has_password
            == (typed@.len() > 0),
        card_of(ChatRoom { name, password: web_password(typed) }).name == name,
{
}

/// The card of a room says it is closed exactly when the room has a password.
pub proof fn lemma_card_reflects_password(room: ChatRoom)
    ensures
        card_of(room).has_password == (room.password is Some),
        card_of(room).name == room.name,
{
}

} // verus!
