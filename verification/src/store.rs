//! The in-memory model of the relational store: a `users` table, a `chats`
//! table, and a read-only `movies` table, with the constraints the schema
//! declares (unique usernames, auto-assigned ascending primary keys).

use vstd::prelude::*;

use crate::movies::{MovieRecord, MovieView};
use crate::text::str_eq;

verus! {

/// One row of the `users` table.
pub struct UserRecord {
    pub id: i64,
    pub username: String,
    pub password: String,
    pub logged_in: bool,
}

/// Mathematical value of a [`UserRecord`].
pub struct UserView {
    pub id: int,
    pub username: Seq<char>,
    pub password: Seq<char>,
    pub logged_in: bool,
}

impl View for UserRecord {
    type V = UserView;

    open spec fn view(&self) -> UserView {
        UserView {
            id: self.id as int,
            username: self.username@,
            password: self.password@,
            logged_in: self.logged_in,
        }
    }
}

/// One row of the `chats` table.
pub struct ChatRow {
    pub chat_id: i64,
    pub movie_id: i32,
    pub user_id: i64,
    pub text: String,
    pub created_at: i64,
}

/// Mathematical value of a [`ChatRow`].
pub struct ChatRowView {
    pub chat_id: int,
    pub movie_id: int,
    pub user_id: int,
    pub text: Seq<char>,
    pub created_at: int,
}

impl View for ChatRow {
    type V = ChatRowView;

    open spec fn view(&self) -> ChatRowView {
        ChatRowView {
            chat_id: self.chat_id as int,
            movie_id: self.movie_id as int,
            user_id: self.user_id as int,
            text: self.text@,
            created_at: self.created_at as int,
        }
    }
}

/// Mathematical value of a [`Store`].
pub struct StoreView {
    pub users: Seq<UserView>,
    pub chats: Seq<ChatRowView>,
    pub movies: Seq<MovieView>,
    pub next_user_id: int,
    pub next_chat_id: int,
}

impl StoreView {
    /// The constraints the schema enforces: unique usernames, unique user ids
    /// below the next free one, and chat ids assigned in ascending order.
    pub open spec fn wf(self) -> bool {
        &&& forall|i: int, j: int|
            0 <= i < j < self.users.len() ==> self.users[i].username != self.users[j].username
        &&& forall|i: int, j: int|
            0 <= i < j < self.users.len() ==> self.users[i].id != self.users[j].id
        &&& forall|i: int| 0 <= i < self.users.len() ==> self.users[i].id < self.next_user_id
        &&& forall|i: int, j: int|
            0 <= i < j < self.chats.len() ==> self.chats[i].chat_id < self.chats[j].chat_id
        &&& forall|i: int| 0 <= i < self.chats.len() ==> self.chats[i].chat_id < self.next_chat_id
        &&& 1 <= self.next_user_id <= i64::MAX
        &&& 1 <= self.next_chat_id <= i64::MAX
    }

    /// Some user row carries this username.
    pub open spec fn has_username(self, name: Seq<char>) -> bool {
        exists|i: int| 0 <= i < self.users.len() && self.users[i].username == name
    }

    /// The index of the user row carrying this username (unique under `wf`).
    pub open spec fn username_index(self, name: Seq<char>) -> int {
        choose|i: int| 0 <= i < self.users.len() && self.users[i].username == name
    }

    /// The user row carrying this username.
    pub open spec fn user_named(self, name: Seq<char>) -> UserView {
        self.users[self.username_index(name)]
    }

    /// The store after a fresh user row is appended with the next free id.
    pub open spec fn with_new_user(self, name: Seq<char>, password_hash: Seq<char>) -> StoreView {
        StoreView {
            users: self.users.push(
                UserView {
                    id: self.next_user_id,
                    username: name,
                    password: password_hash,
                    logged_in: false,
                },
            ),
            next_user_id: self.next_user_id + 1,
            ..self
        }
    }

    /// The store after the `logged_in` flag of the named user is set.
    pub open spec fn with_user_logged(self, name: Seq<char>, flag: bool) -> StoreView {
        let i = self.username_index(name);
        StoreView {
            users: self.users.update(i, UserView { logged_in: flag, ..self.users[i] }),
            ..self
        }
    }

    /// The store after a chat row is appended with the next free id.
    pub open spec fn with_new_chat(
        self,
        movie_id: int,
        user_id: int,
        text: Seq<char>,
        created_at: int,
    ) -> StoreView {
        StoreView {
            chats: self.chats.push(
                ChatRowView { chat_id: self.next_chat_id, movie_id, user_id, text, created_at },
            ),
            next_chat_id: self.next_chat_id + 1,
            ..self
        }
    }
}

/// Some user row carries this id.
pub open spec fn seq_has_user_id(users: Seq<UserView>, id: int) -> bool {
    exists|i: int| 0 <= i < users.len() && users[i].id == id
}

/// The index of the user row carrying this id (unique when ids are distinct).
pub open spec fn seq_user_id_index(users: Seq<UserView>, id: int) -> int {
    choose|i: int| 0 <= i < users.len() && users[i].id == id
}

/// The whole store: both mutable tables, the read-only movie table, and the
/// next auto-assigned primary key of each mutable table.
pub struct Store {
    pub users: Vec<UserRecord>,
    pub chats: Vec<ChatRow>,
    pub movies: Vec<MovieRecord>,
    pub next_user_id: i64,
    pub next_chat_id: i64,
}

impl View for Store {
    type V = StoreView;

    open spec fn view(&self) -> StoreView {
        StoreView {
            users: self.users@.map_values(|u: UserRecord| u@),
            chats: self.chats@.map_values(|c: ChatRow| c@),
            movies: self.movies@.map_values(|m: MovieRecord| m@),
            next_user_id: self.next_user_id as int,
            next_chat_id: self.next_chat_id as int,
        }
    }
}

impl Store {
    /// An empty store over a pre-populated movie table.
    pub fn new(movies: Vec<MovieRecord>) -> (s: Store)
        ensures
            s@.wf(),
            s@.users =~= Seq::<UserView>::empty(),
            s@.chats =~= Seq::<ChatRowView>::empty(),
            s@.movies =~= movies@.map_values(|m: MovieRecord| m@),
            s@.next_user_id == 1,
            s@.next_chat_id == 1,
    {
        Store { users: Vec::new(), chats: Vec::new(), movies, next_user_id: 1, next_chat_id: 1 }
    }

    /// Finds the row index of a username, `None` when no row carries it.
    pub fn find_username(&self, name: &str) -> (r: Option<usize>)
        requires
            self@.wf(),
        ensures
            r is Some <==> self@.has_username(name@),
            r is Some ==> r->0 == self@.username_index(name@)
                && r->0 < self.users.len()
                && self@.users[r->0 as int].username == name@,
    {
        let n = self.users.len();
        for i in 0..n
            invariant
                n == self.users.len(),
                self@.wf(),
                forall|j: int| 0 <= j < i ==> self@.users[j].username != name@,
        {
            if str_eq(self.users[i].username.as_str(), name) {
                proof {
                    let k = self@.username_index(name@);
                    assert(self@.users[i as int].username == name@);
                    assert(0 <= k < self@.users.len() && self@.users[k].username == name@);
                    assert(k == i as int);
                }
                return Some(i);
            }
        }
        None
    }

    /// Finds the row index of a user id, `None` when no row carries it.
    pub fn find_user_id(&self, id: i64) -> (r: Option<usize>)
        requires
            self@.wf(),
        ensures
            r is Some <==> seq_has_user_id(self@.users, id as int),
            r is Some ==> r->0 == seq_user_id_index(self@.users, id as int)
                && r->0 < self.users.len()
                && self@.users[r->0 as int].id == id as int,
    {
        let n = self.users.len();
        for i in 0..n
            invariant
                n == self.users.len(),
                self@.wf(),
                forall|j: int| 0 <= j < i ==> self@.users[j].id != id as int,
        {
            if self.users[i].id == id {
                proof {
                    let k = seq_user_id_index(self@.users, id as int);
                    assert(self@.users[i as int].id == id as int);
                    assert(0 <= k < self@.users.len() && self@.users[k].id == id as int);
                    assert(k == i as int);
                }
                return Some(i);
            }
        }
        None
    }
}

} // verus!
