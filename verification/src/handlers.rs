//! The six request handlers: register, login, logout, list movies, post a
//! chat, and list a movie's chats. Each states exactly what it answers and
//! how it moves the store, for every input.

use vstd::prelude::*;

use crate::chat::{chat_listing, joined_entry, listing_of, ChatEntry};
use crate::hashing::{bcrypt_check, hash_password, verify_password};
use crate::movies::{rewrite_movie, rewritten_movie, MovieRecord, MovieView};
use crate::response::{ApiResponse, ResponseView, StatusClass};
use crate::store::{ChatRow, Store, StoreView, UserRecord, UserView};
use crate::text::{is_blank, is_blank_text, movie_id_of, parse_movie_id};

verus! {

use vstd::pervasive::VecAdditionalExecFns;
use vstd::string::StringExecFns;

pub open spec fn register_ok_view() -> ResponseView {
    ResponseView {
        class: StatusClass::Success,
        status: "success"@,
        message: "Berhasil Daftar"@,
    }
}

pub open spec fn register_dup_view() -> ResponseView {
    ResponseView {
        class: StatusClass::BadRequest,
        status: "Failed"@,
        message: "Gagal Daftar: UNIQUE constraint failed: users.username"@,
    }
}

pub open spec fn login_not_found_view() -> ResponseView {
    ResponseView {
        class: StatusClass::Unauthorized,
        status: "Failed"@,
        message: "User tidak ditemukan"@,
    }
}

pub open spec fn login_wrong_view() -> ResponseView {
    ResponseView {
        class: StatusClass::Unauthorized,
        status: "Failed"@,
        message: "Password salah"@,
    }
}

pub open spec fn login_ok_view() -> ResponseView {
    ResponseView { class: StatusClass::Success, status: "success"@, message: "Berhasil Login"@ }
}

pub open spec fn logout_not_found_view() -> ResponseView {
    ResponseView {
        class: StatusClass::BadRequest,
        status: "error"@,
        message: "User tidak ditemukan"@,
    }
}

pub open spec fn logout_ok_view() -> ResponseView {
    ResponseView { class: StatusClass::Success, status: "success"@, message: "Sayonara"@ }
}

pub open spec fn chat_empty_view() -> ResponseView {
    ResponseView {
        class: StatusClass::BadRequest,
        status: "error"@,
        message: "Pesan chat tidak boleh kosong"@,
    }
}

pub open spec fn chat_ok_view() -> ResponseView {
    ResponseView { class: StatusClass::Success, status: "success"@, message: "Pesan terkirim"@ }
}

/// What registration answers and does: a taken username is refused with the
/// store's constraint error and the store stands; a fresh one either gets a
/// row appended whose password is a hash accepted for the given password —
/// sixty characters opening with '$', never the plaintext layout — or, only
/// when hashing itself failed, a server error with the store unchanged.
pub open spec fn register_post(
    pre: StoreView,
    post: StoreView,
    r: ResponseView,
    u: Seq<char>,
    pw: Seq<char>,
) -> bool {
    &&& (pre.has_username(u) ==> r == register_dup_view() && post == pre)
    &&& (!pre.has_username(u) ==> {
        ||| {
            &&& r == register_ok_view()
            &&& post == pre.with_new_user(u, post.users.last().password)
            &&& crate::hashing::bcrypt_accepts(pw, post.users.last().password)
            &&& post.users.last().password.len() == 60
            &&& post.users.last().password[0] == '$'
        }
        ||| (r.class is ServerError && r.status == "error"@ && post == pre)
    })
}

/// What login answers and does, following the deterministic outcome of the
/// password check: an unknown username is refused; a known one is logged in
/// exactly when the stored hash accepts the password, refused with the
/// wrong-password message when it does not, and answered with a server error
/// (store unchanged) exactly when the stored hash cannot be checked.
pub open spec fn login_post(
    pre: StoreView,
    post: StoreView,
    r: ResponseView,
    u: Seq<char>,
    pw: Seq<char>,
) -> bool {
    &&& (!pre.has_username(u) ==> r == login_not_found_view() && post == pre)
    &&& (pre.has_username(u) ==> (match bcrypt_check(pw, pre.user_named(u).password) {
        Option::Some(true) => r == login_ok_view() && post == pre.with_user_logged(u, true),
        Option::Some(false) => r == login_wrong_view() && post == pre,
        Option::None => r.class is ServerError && r.status == "error"@ && post == pre,
    }))
}

/// What logout answers and does: an unknown username is refused, a known one
/// has its flag cleared whatever it was.
pub open spec fn logout_post(pre: StoreView, post: StoreView, r: ResponseView, u: Seq<char>) -> bool {
    if pre.has_username(u) {
        r == logout_ok_view() && post == pre.with_user_logged(u, false)
    } else {
        r == logout_not_found_view() && post == pre
    }
}

/// What posting a chat answers and does: blank text is refused and the store
/// stands; anything else is appended as a row, whether or not the movie or
/// user ids resolve.
pub open spec fn post_chat_post(
    pre: StoreView,
    post: StoreView,
    r: ResponseView,
    movie_id: int,
    user_id: int,
    text: Seq<char>,
    created_at: int,
) -> bool {
    if is_blank(text) {
        r == chat_empty_view() && post == pre
    } else {
        r == chat_ok_view() && post == pre.with_new_chat(movie_id, user_id, text, created_at)
    }
}

/// Replaces a user row with the same row carrying the given flag.
fn set_logged(store: &mut Store, i: usize, flag: bool)
    requires
        old(store)@.wf(),
        i < old(store).users.len(),
    ensures
        final(store)@.wf(),
        final(store)@ == (StoreView {
            users: old(store)@.users.update(
                i as int,
                (UserView { logged_in: flag, ..old(store)@.users[i as int] }),
            ),
            ..old(store)@
        }),
{
    let row = &store.users[i];
    let replacement = UserRecord {
        id: row.id,
        username: row.username.clone(),
        password: row.password.clone(),
        logged_in: flag,
    };
    let ghost pre = store@;
    store.users.set(i, replacement);
    proof {
        let target = StoreView {
            users: pre.users.update(i as int, (UserView { logged_in: flag, ..pre.users[i as int] })),
            ..pre
        };
        assert(store@.users =~= target.users);
        assert(store@ == target);
        assert forall|a: int, b: int|
            0 <= a < b < store@.users.len() implies store@.users[a].username
            != store@.users[b].username by {
            assert(store@.users[a].username == pre.users[a].username);
            assert(store@.users[b].username == pre.users[b].username);
        }
        assert forall|a: int, b: int|
            0 <= a < b < store@.users.len() implies store@.users[a].id != store@.users[b].id by {
            assert(store@.users[a].id == pre.users[a].id);
            assert(store@.users[b].id == pre.users[b].id);
        }
        assert forall|a: int| 0 <= a < store@.users.len() implies store@.users[a].id
            < store@.next_user_id by {
            assert(store@.users[a].id == pre.users[a].id);
        }
        assert(store@.wf());
    }
}

/// Registers a username: hashes the password and appends the user row,
/// refusing a username the store already holds.
pub fn register(store: &mut Store, username: &str, password: &str) -> (r: ApiResponse)
    requires
        old(store)@.wf(),
        old(store)@.next_user_id < i64::MAX,
    ensures
        final(store)@.wf(),
        register_post(old(store)@, final(store)@, r@, username@, password@),
{
    match store.find_username(username) {
        Option::Some(_) => ApiResponse::of(
            StatusClass::BadRequest,
            "Failed",
            "Gagal Daftar: UNIQUE constraint failed: users.username",
        ),
        Option::None => match hash_password(password) {
            Result::Err(e) => ApiResponse {
                class: StatusClass::ServerError,
                status: String::from_str("error"),
                message: e,
            },
            Result::Ok(h) => {
                let ghost pre = store@;
                let id = store.next_user_id;
                let ghost hview = h@;
                store.users.push(
                    UserRecord {
                        id,
                        username: String::from_str(username),
                        password: h,
                        logged_in: false,
                    },
                );
                store.next_user_id = id + 1;
                proof {
                    let target = pre.with_new_user(username@, hview);
                    assert(store@.users =~= target.users);
                    assert(store@ == target);
                    assert forall|a: int, b: int|
                        0 <= a < b < store@.users.len() implies store@.users[a].username
                        != store@.users[b].username by {
                        if b < store@.users.len() - 1 {
                            assert(pre.users[a].username != pre.users[b].username);
                        } else {
                            assert(store@.users[b].username == username@);
                            assert(store@.users[a] == pre.users[a]);
                        }
                    }
                    assert forall|a: int, b: int|
                        0 <= a < b < store@.users.len() implies store@.users[a].id
                        != store@.users[b].id by {
                        if b < store@.users.len() - 1 {
                            assert(pre.users[a].id != pre.users[b].id);
                        } else {
                            assert(store@.users[a] == pre.users[a]);
                        }
                    }
                    assert(store@.wf());
                    assert(store@.users.last().password == hview);
                }
                ApiResponse::of(StatusClass::Success, "success", "Berhasil Daftar")
            }
        },
    }
}

/// Logs a user in: checks the password against the stored hash and sets the
/// `logged_in` flag on success.
pub fn login(store: &mut Store, username: &str, password: &str) -> (r: ApiResponse)
    requires
        old(store)@.wf(),
    ensures
        final(store)@.wf(),
        login_post(old(store)@, final(store)@, r@, username@, password@),
{
    match store.find_username(username) {
        Option::None => ApiResponse::of(
            StatusClass::Unauthorized,
            "Failed",
            "User tidak ditemukan",
        ),
        Option::Some(i) => {
            let outcome = verify_password(password, store.users[i].password.as_str());
            match outcome {
                Result::Err(e) => ApiResponse {
                    class: StatusClass::ServerError,
                    status: String::from_str("error"),
                    message: e,
                },
                Result::Ok(false) => ApiResponse::of(
                    StatusClass::Unauthorized,
                    "Failed",
                    "Password salah",
                ),
                Result::Ok(true) => {
                    set_logged(store, i, true);
                    ApiResponse::of(StatusClass::Success, "success", "Berhasil Login")
                }
            }
        }
    }
}

/// Logs a user out: clears the `logged_in` flag whatever it was, refusing an
/// unknown username.
pub fn logout(store: &mut Store, username: &str) -> (r: ApiResponse)
    requires
        old(store)@.wf(),
    ensures
        final(store)@.wf(),
        logout_post(old(store)@, final(store)@, r@, username@),
{
    match store.find_username(username) {
        Option::None => ApiResponse::of(StatusClass::BadRequest, "error", "User tidak ditemukan"),
        Option::Some(i) => {
            set_logged(store, i, false);
            ApiResponse::of(StatusClass::Success, "success", "Sayonara")
        }
    }
}

/// Lists every movie row with both image paths absolutized.
pub fn get_movies(store: &Store) -> (r: Vec<MovieRecord>)
    ensures
        r@.map_values(|m: MovieRecord| m@) == store@.movies.map_values(
            |m: MovieView| rewritten_movie(m),
        ),
{
    let mut out: Vec<MovieRecord> = Vec::new();
    let n = store.movies.len();
    for i in 0..n
        invariant
            n == store.movies.len(),
            out@.len() == i,
            forall|j: int| 0 <= j < i ==> out@[j]@ == rewritten_movie(store@.movies[j]),
    {
        out.push(rewrite_movie(&store.movies[i]));
    }
    proof {
        assert(out@.map_values(|m: MovieRecord| m@) =~= store@.movies.map_values(
            |m: MovieView| rewritten_movie(m),
        ));
    }
    out
}

/// Appends a chat row, refusing blank text; the ids need not resolve.
pub fn post_chat(
    store: &mut Store,
    movie_id: i32,
    user_id: i64,
    text: &str,
    created_at: i64,
) -> (r: ApiResponse)
    requires
        old(store)@.wf(),
        old(store)@.next_chat_id < i64::MAX,
    ensures
        final(store)@.wf(),
        post_chat_post(
            old(store)@,
            final(store)@,
            r@,
            movie_id as int,
            user_id as int,
            text@,
            created_at as int,
        ),
{
    if is_blank_text(text) {
        return ApiResponse::of(StatusClass::BadRequest, "error", "Pesan chat tidak boleh kosong");
    }
    let ghost pre = store@;
    let id = store.next_chat_id;
    store.chats.push(
        ChatRow { chat_id: id, movie_id, user_id, text: String::from_str(text), created_at },
    );
    store.next_chat_id = id + 1;
    proof {
        let target = pre.with_new_chat(movie_id as int, user_id as int, text@, created_at as int);
        assert(store@.chats =~= target.chats);
        assert(store@ == target);
        assert forall|a: int, b: int|
            0 <= a < b < store@.chats.len() implies store@.chats[a].chat_id
            < store@.chats[b].chat_id by {
            if b < store@.chats.len() - 1 {
                assert(pre.chats[a].chat_id < pre.chats[b].chat_id);
            } else {
                assert(store@.chats[a] == pre.chats[a]);
            }
        }
        assert(store@.wf());
    }
    ApiResponse::of(StatusClass::Success, "success", "Pesan terkirim")
}

/// Lists a movie's chats joined with each poster's username, in creation
/// order; an unparsable path parameter selects movie id 0.
pub fn get_chats(store: &Store, movie_id_param: &str) -> (r: Vec<ChatEntry>)
    requires
        store@.wf(),
    ensures
        r@.map_values(|e: ChatEntry| e@) == chat_listing(store@, movie_id_of(movie_id_param@)),
{
    let m = parse_movie_id(movie_id_param);
    let mut out: Vec<ChatEntry> = Vec::new();
    let n = store.chats.len();
    for i in 0..n
        invariant
            n == store.chats.len(),
            store@.wf(),
            m as int == movie_id_of(movie_id_param@),
            out@.map_values(|e: ChatEntry| e@) =~= listing_of(
                store@.chats.subrange(0, i as int),
                store@.users,
                m as int,
            ),
    {
        let row = &store.chats[i];
        proof {
            assert(store@.chats.subrange(0, i as int + 1).drop_last() =~= store@.chats.subrange(
                0,
                i as int,
            ));
            assert(store@.chats.subrange(0, i as int + 1).last() == store@.chats[i as int]);
        }
        if row.movie_id == m {
            match store.find_user_id(row.user_id) {
                Option::Some(ui) => {
                    let entry = ChatEntry {
                        chat_id: row.chat_id,
                        movie_id: row.movie_id,
                        user_id: row.user_id,
                        username: store.users[ui].username.clone(),
                        text: row.text.clone(),
                        created_at: row.created_at,
                    };
                    proof {
                        assert(entry@ == joined_entry(store@.chats[i as int], store@.users));
                    }
                    out.push(entry);
                    proof {
                        assert(out@.map_values(|e: ChatEntry| e@) =~= listing_of(
                            store@.chats.subrange(0, i as int + 1),
                            store@.users,
                            m as int,
                        ));
                    }
                }
                Option::None => {
                    proof {
                        assert(out@.map_values(|e: ChatEntry| e@) =~= listing_of(
                            store@.chats.subrange(0, i as int + 1),
                            store@.users,
                            m as int,
                        ));
                    }
                }
            }
        } else {
            proof {
                assert(out@.map_values(|e: ChatEntry| e@) =~= listing_of(
                    store@.chats.subrange(0, i as int + 1),
                    store@.users,
                    m as int,
                ));
            }
        }
    }
    proof {
        assert(store@.chats.subrange(0, n as int) =~= store@.chats);
    }
    out
}

} // verus!
