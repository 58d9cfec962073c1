//! The per-movie chat listing: chat rows joined with the posting user's
//! username, in the order the rows were created.

use vstd::prelude::*;

use crate::store::{seq_has_user_id, seq_user_id_index, ChatRowView, StoreView, UserView};

verus! {

/// One element of a `/chat/:movie_id` listing: a chat row joined with the
/// poster's username.
pub struct ChatEntry {
    pub chat_id: i64,
    pub movie_id: i32,
    pub user_id: i64,
    pub username: String,
    pub text: String,
    pub created_at: i64,
}

/// Mathematical value of a [`ChatEntry`].
pub struct ChatEntryView {
    pub chat_id: int,
    pub movie_id: int,
    pub user_id: int,
    pub username: Seq<char>,
    pub text: Seq<char>,
    pub created_at: int,
}

impl View for ChatEntry {
    type V = ChatEntryView;

    open spec fn view(&self) -> ChatEntryView {
        ChatEntryView {
            chat_id: self.chat_id as int,
            movie_id: self.movie_id as int,
            user_id: self.user_id as int,
            username: self.username@,
            text: self.text@,
            created_at: self.created_at as int,
        }
    }
}

/// A chat row joined with the username of the user row carrying its user id.
pub open spec fn joined_entry(c: ChatRowView, users: Seq<UserView>) -> ChatEntryView {
    ChatEntryView {
        chat_id: c.chat_id,
        movie_id: c.movie_id,
        user_id: c.user_id,
        username: users[seq_user_id_index(users, c.user_id)].username,
        text: c.text,
        created_at: c.created_at,
    }
}

/// The listing of the given chat rows for one movie: rows for that movie
/// whose user id resolves, joined with the username, in row order.
pub open spec fn listing_of(chats: Seq<ChatRowView>, users: Seq<UserView>, movie_id: int) -> Seq<
    ChatEntryView,
>
    decreases chats.len(),
{
    if chats.len() == 0 {
        Seq::empty()
    } else {
        let rest = listing_of(chats.drop_last(), users, movie_id);
        let c = chats.last();
        if c.movie_id == movie_id && seq_has_user_id(users, c.user_id) {
            rest.push(joined_entry(c, users))
        } else {
            rest
        }
    }
}

/// The listing a store answers for one movie.
pub open spec fn chat_listing(s: StoreView, movie_id: int) -> Seq<ChatEntryView> {
    listing_of(s.chats, s.users, movie_id)
}

} // verus!
