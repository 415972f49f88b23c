//! The home page and the creation of rooms.

use vstd::prelude::*;

use crate::models::ChatRoom;
use crate::templates::{card_of, ChatRoomCard, Home};

verus! {

/// The home page for the stored `rooms`: one card per room, in the order the
/// rooms were read.
pub fn home(rooms: Vec<ChatRoom>) -> (page: Home)
    ensures
        page.room_cards@ == rooms@.map_values(|room: ChatRoom| card_of(room)),
        page.room_cards@.len() == rooms@.len(),
        forall|i: int|
            0 <= i < rooms@.len() ==> {
                &&& (#[trigger] page.room_cards@[i]).name == rooms@[i].name
                &&& page.room_cards@[i].has_password == (rooms@[i].password is Some)
            },
{
    let ghost all = rooms@;
    let mut room_cards: Vec<ChatRoomCard> = Vec::new();
    for room in it: rooms.into_iter()
        invariant
            it.seq() == all,
            room_cards@ == all.take(it.index() as int).map_values(|r: ChatRoom| card_of(r)),
    {
        let ghost i = it.index();
        room_cards.push(ChatRoomCard::from(room));
        assert(all.take(i + 1) == all.take(i as int).push(all[i as int]));
    }
    assert(all.take(all.len() as int) == all);
    Home { room_cards }
}

/// The answer to a room that was just created and stored: an `Hx-Trigger`
/// header that closes the creation dialog, and the card of the new room.
#[derive(Debug)]
pub struct RoomCreated {
    pub trigger_header: &'static str,
    pub trigger_event: &'static str,
    pub card: ChatRoomCard,
}

/// What the creation of `chatroom` is answered with, once it is stored.
pub fn create_room(chatroom: ChatRoom) -> (created: RoomCreated)
    ensures
        created.trigger_header@ == "Hx-Trigger"@,
        created.trigger_event@ == "closeModal"@,
        created.card == card_of(chatroom),
        created.card.name == chatroom.name,
        created.card.has_password == (chatroom.password is Some),
{
    RoomCreated {
        trigger_header: "Hx-Trigger",
        trigger_event: "closeModal",
        card: ChatRoomCard::from(chatroom),
    }
}

} // verus!
