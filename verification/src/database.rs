//! What the handlers make of the answers of the room queries.

use vstd::prelude::*;

use crate::models::ChatRoom;

verus! {

/// The rooms to list, given the answer of the query for all rooms: the rooms
/// it returned, or none at all when the query failed.
pub fn rooms_or_empty<E>(fetched: Result<Vec<ChatRoom>, E>) -> (rooms: Vec<ChatRoom>)
    ensures
        rooms@ == (match fetched {
            Ok(found) => found@,
            Err(_) => Seq::<ChatRoom>::empty(),
        }),
{
    match fetched {
        Ok(found) => found,
        Err(_) => Vec::new(),
    }
}

/// The room to show, given the answer of the query for a room by name: the
/// room it returned, or an open room named `"Error room"` when it failed.
pub fn room_or_error_room<E>(fetched: Result<ChatRoom, E>) -> (room: ChatRoom)
    ensures
        fetched matches Ok(found) ==> room == found,
        fetched is Err ==> room.name@ == "Error room"@ && room.password is None,
{
    match fetched {
        Ok(found) => found,
        Err(_) => ChatRoom { name: "Error room".to_owned(), password: None },
    }
}

} // verus!
