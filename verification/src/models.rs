//! Chat rooms, which may be closed by a password.

use vstd::prelude::*;

verus! {

/// A chat room: its name and, when it is closed, its password.
#[derive(Debug)]
pub struct ChatRoom {
    pub name: String,
    pub password: Option<String>,
}

/// The password a room gets from what was typed into the web form: an empty
/// field means the room is open.
pub open spec fn web_password(typed: String) -> Option<String> {
    if typed@.len() == 0 {
        None
    } else {
        Some(typed)
    }
}

/// How a room's password is shown: masked when there is one.
pub open spec fn coded_password_text(room: ChatRoom) -> Seq<char> {
    if room.password is Some {
        "********"@
    } else {
        "None"@
    }
}

impl ChatRoom {
    /// Whether the room is closed by a password.
    pub fn has_password(&self) -> (closed: bool)
        ensures
            closed == (self.password is Some),
    {
        self.password.is_some()
    }

    /// Reads the password field of the room form: an empty text gives an open room.
    pub fn from_web_password(typed: String) -> (password: Option<String>)
        ensures
            password == web_password(typed),
            typed@.len() == 0 ==> password is None,
            typed@.len() > 0 ==> password == Some(typed),
    {
        if !typed.as_str().is_empty() {
            Some(typed)
        } else {
            None
        }
    }

    /// The password as a page may show it: `"********"` for a closed room,
    /// `"None"` for an open one.
    pub fn coded_password(&self) -> (shown: &'static str)
        ensures
            shown@ == coded_password_text(*self),
            self.password is Some ==> shown@ == "********"@,
            self.password is None ==> shown@ == "None"@,
    {
        if self.password.is_some() {
            "********"
        } else {
            "None"
        }
    }
}

/// A room's password is shown masked whatever the password is, and an open
/// room is shown as having none.
pub proof fn lemma_coded_password_masks_every_password(room: ChatRoom)
    ensures
        room.password is Some ==> coded_password_text(room) == "********"@,
        room.password is None ==> coded_password_text(room) == "None"@,
{
}

/// The web form's password field closes a room exactly when it is not empty,
/// and then with exactly the typed text.
pub proof fn lemma_web_password_keeps_typed_text(typed: String)
    ensures
        typed@.len() == 0 ==> web_password(typed) is None,
        typed@.len() > 0 ==> web_password(typed) == Some(typed),
{
}

} // verus!
