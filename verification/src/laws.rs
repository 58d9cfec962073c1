//! The guarantees that relate several handlers, stated over the handlers'
//! own postcondition predicates and proved once for every store and input.

use vstd::prelude::*;

use crate::chat::{chat_listing, joined_entry, listing_of, ChatEntryView};
use crate::handlers::{
    chat_ok_view, login_not_found_view, login_ok_view, login_post, login_wrong_view,
    logout_not_found_view, logout_ok_view, logout_post, post_chat_post, register_dup_view,
    register_ok_view, register_post,
};
use crate::hashing::{bcrypt_accepts, bcrypt_check};
use crate::response::ResponseView;
use crate::store::{seq_has_user_id, StoreView};
use crate::text::{is_blank, movie_id_of, well_formed_int};

verus! {

/// Setting the `logged_in` flag of a named user touches that row's flag and
/// nothing else that naming a user can reach.
pub proof fn lemma_with_user_logged(s: StoreView, u: Seq<char>, flag: bool)
    requires
        s.wf(),
        s.has_username(u),
    ensures
        s.with_user_logged(u, flag).wf(),
        s.with_user_logged(u, flag).has_username(u),
        s.with_user_logged(u, flag).user_named(u).logged_in == flag,
        s.with_user_logged(u, flag).user_named(u).username == u,
        s.with_user_logged(u, flag).user_named(u).id == s.user_named(u).id,
        s.with_user_logged(u, flag).user_named(u).password == s.user_named(u).password,
{
    let i = s.username_index(u);
    let t = s.with_user_logged(u, flag);
    assert(0 <= i < s.users.len() && s.users[i].username == u);
    assert(t.users[i].username == u);
    assert(t.has_username(u));
    let k = t.username_index(u);
    assert(0 <= k < t.users.len() && t.users[k].username == u);
    if k != i {
        assert(t.users[k] == s.users[k]);
        assert(s.users[k].username == u);
        assert(false);
    }
    assert forall|a: int, b: int|
        0 <= a < b < t.users.len() implies t.users[a].username != t.users[b].username by {
        assert(t.users[a].username == s.users[a].username);
        assert(t.users[b].username == s.users[b].username);
    }
    assert forall|a: int, b: int| 0 <= a < b < t.users.len() implies t.users[a].id
        != t.users[b].id by {
        assert(t.users[a].id == s.users[a].id);
        assert(t.users[b].id == s.users[b].id);
    }
    assert forall|a: int| 0 <= a < t.users.len() implies t.users[a].id < t.next_user_id by {
        assert(t.users[a].id == s.users[a].id);
    }
}

/// Registering a username a second time fails with the constraint error and
/// moves nothing, while the first success stored a hash — sixty characters
/// opening with '$' — that the registered password is accepted against.
pub proof fn lemma_register_twice(
    s0: StoreView,
    s1: StoreView,
    s2: StoreView,
    r1: ResponseView,
    r2: ResponseView,
    u: Seq<char>,
    pw1: Seq<char>,
    pw2: Seq<char>,
)
    requires
        register_post(s0, s1, r1, u, pw1),
        r1 == register_ok_view(),
        register_post(s1, s2, r2, u, pw2),
    ensures
        r2 == register_dup_view(),
        s2 == s1,
        s1.users.len() > 0,
        bcrypt_accepts(pw1, s1.users.last().password),
        s1.users.last().password.len() == 60,
        s1.users.last().password[0] == '$',
{
    assert(!s0.has_username(u));
    assert(s1 == s0.with_new_user(u, s1.users.last().password));
    assert(s1.users[s1.users.len() - 1].username == u);
    assert(s1.has_username(u));
}

/// A user registered with a password is then logged in by that password: the
/// login answers success and leaves the row's `logged_in` flag set.
pub proof fn lemma_register_then_login(
    s0: StoreView,
    s1: StoreView,
    s2: StoreView,
    r1: ResponseView,
    r2: ResponseView,
    u: Seq<char>,
    pw: Seq<char>,
)
    requires
        s1.wf(),
        register_post(s0, s1, r1, u, pw),
        r1 == register_ok_view(),
        login_post(s1, s2, r2, u, pw),
    ensures
        r2 == login_ok_view(),
        s2.has_username(u),
        s2.user_named(u).logged_in == true,
{
    assert(!s0.has_username(u));
    let h = s1.users.last().password;
    assert(s1 == s0.with_new_user(u, h));
    let last = s1.users.len() - 1;
    assert(s1.users[last].username == u);
    assert(s1.has_username(u));
    let i = s1.username_index(u);
    assert(0 <= i < s1.users.len() && s1.users[i].username == u);
    if i != last {
        assert(s1.users[i].username != s1.users[last].username);
        assert(false);
    }
    assert(s1.user_named(u).password == h);
    assert(bcrypt_check(pw, h) == Some(true));
    assert(r2 == login_ok_view());
    assert(s2 == s1.with_user_logged(u, true));
    lemma_with_user_logged(s1, u, true);
}

/// A wrong password and an unknown username are both refused with an
/// unauthorized-class response that moves nothing, under two messages that
/// differ from one another.
pub proof fn lemma_login_rejections(
    pre: StoreView,
    post: StoreView,
    r: ResponseView,
    u: Seq<char>,
    pw: Seq<char>,
)
    requires
        login_post(pre, post, r, u, pw),
        !pre.has_username(u) || bcrypt_check(pw, pre.user_named(u).password) == Some(false),
    ensures
        post == pre,
        r.class == crate::response::StatusClass::Unauthorized,
        !pre.has_username(u) ==> r == login_not_found_view(),
        pre.has_username(u) ==> r == login_wrong_view(),
        login_not_found_view().message != login_wrong_view().message,
{
    reveal_strlit("User tidak ditemukan");
    reveal_strlit("Password salah");
    assert(login_not_found_view().message.len() != login_wrong_view().message.len());
}

/// Logging out an unknown username is refused as not found; logging out a
/// registered one succeeds whatever the flag held, and clears it.
pub proof fn lemma_logout(pre: StoreView, post: StoreView, r: ResponseView, u: Seq<char>)
    requires
        pre.wf(),
        logout_post(pre, post, r, u),
    ensures
        !pre.has_username(u) ==> r == logout_not_found_view() && post == pre,
        pre.has_username(u) ==> r == logout_ok_view() && post.user_named(u).logged_in == false,
{
    if pre.has_username(u) {
        lemma_with_user_logged(pre, u, false);
    }
}

/// A posted chat with non-blank text is acknowledged and appears at the end
/// of its movie's listing, after every earlier message, joined with its
/// poster's username.
pub proof fn lemma_posted_chat_listed(
    pre: StoreView,
    post: StoreView,
    r: ResponseView,
    movie_id: int,
    user_id: int,
    text: Seq<char>,
    created_at: int,
)
    requires
        post_chat_post(pre, post, r, movie_id, user_id, text, created_at),
        !is_blank(text),
        seq_has_user_id(pre.users, user_id),
    ensures
        r == chat_ok_view(),
        post.chats.len() > 0,
        post.chats.last().text == text,
        post.chats.last().movie_id == movie_id,
        chat_listing(post, movie_id) == chat_listing(pre, movie_id).push(
            joined_entry(post.chats.last(), post.users),
        ),
{
    assert(post == pre.with_new_chat(movie_id, user_id, text, created_at));
    assert(post.chats.drop_last() =~= pre.chats);
    assert(chat_listing(post, movie_id) == listing_of(post.chats, post.users, movie_id));
}

/// The listing of a movie no chat row names is empty.
pub proof fn lemma_listing_empty_without_rows(s: StoreView, movie_id: int)
    requires
        forall|i: int| 0 <= i < s.chats.len() ==> s.chats[i].movie_id != movie_id,
    ensures
        chat_listing(s, movie_id) == Seq::<ChatEntryView>::empty(),
{
    lemma_listing_of_empty(s.chats, s.users, movie_id);
}

/// A path parameter that is not a decimal integer selects movie id 0.
pub proof fn lemma_malformed_id_selects_zero(s: Seq<char>)
    requires
        !well_formed_int(s),
    ensures
        movie_id_of(s) == 0,
{
}

proof fn lemma_listing_of_empty(
    chats: Seq<crate::store::ChatRowView>,
    users: Seq<crate::store::UserView>,
    movie_id: int,
)
    requires
        forall|i: int| 0 <= i < chats.len() ==> chats[i].movie_id != movie_id,
    ensures
        listing_of(chats, users, movie_id) == Seq::<ChatEntryView>::empty(),
    decreases chats.len(),
{
    if chats.len() > 0 {
        lemma_listing_of_empty(chats.drop_last(), users, movie_id);
    }
}

} // verus!

