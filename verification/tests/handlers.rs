use movie_chat::handlers::{get_chats, get_movies, login, logout, post_chat, register};
use movie_chat::movies::MovieRecord;
use movie_chat::response::StatusClass;
use movie_chat::store::Store;
use movie_chat::text::parse_movie_id;

fn empty_store() -> Store {
    Store::new(Vec::new())
}

fn sample_movie(id: i32, poster: Option<&str>, backdrop: Option<&str>) -> MovieRecord {
    MovieRecord {
        id,
        adult: false,
        backdrop_path: backdrop.map(|s| s.to_string()),
        genre_ids: "[18, 80]".to_string(),
        origin_country: "US".to_string(),
        original_language: Some("en".to_string()),
        original_name: None,
        original_title: Some("A Title".to_string()),
        overview: Some("An overview.".to_string()),
        popularity_bits: 12.5f64.to_bits(),
        poster_path: poster.map(|s| s.to_string()),
        first_air_date: None,
        release_date: Some("1999-10-15".to_string()),
        name: None,
        title: Some("A Title".to_string()),
        video: false,
        vote_average_bits: 8.4f64.to_bits(),
        vote_count: 1234,
    }
}

#[test]
fn register_stores_hash_not_plaintext() {
    let mut store = empty_store();
    let r = register(&mut store, "alice", "pw1");
    assert_eq!(r.class, StatusClass::Success);
    assert_eq!(r.status, "success");
    assert_eq!(r.message, "Berhasil Daftar");
    assert_eq!(store.users.len(), 1);
    let row = &store.users[0];
    assert_eq!(row.username, "alice");
    assert_ne!(row.password, "pw1");
    assert_eq!(row.password.len(), 60);
    assert!(row.password.starts_with('$'));
    assert!(!row.logged_in);
}

#[test]
fn register_duplicate_username_fails() {
    let mut store = empty_store();
    let first = register(&mut store, "alice", "pw1");
    assert_eq!(first.class, StatusClass::Success);
    let second = register(&mut store, "alice", "other");
    assert_eq!(second.class, StatusClass::BadRequest);
    assert_eq!(second.status, "Failed");
    assert_eq!(
        second.message,
        "Gagal Daftar: UNIQUE constraint failed: users.username"
    );
    assert_eq!(store.users.len(), 1);
}

#[test]
fn login_correct_credentials_sets_flag() {
    let mut store = empty_store();
    register(&mut store, "alice", "pw1");
    let r = login(&mut store, "alice", "pw1");
    assert_eq!(r.class, StatusClass::Success);
    assert_eq!(r.status, "success");
    assert_eq!(r.message, "Berhasil Login");
    assert!(store.users[0].logged_in);
}

#[test]
fn login_wrong_password_unauthorized() {
    let mut store = empty_store();
    register(&mut store, "alice", "pw1");
    let r = login(&mut store, "alice", "wrong");
    assert_eq!(r.class, StatusClass::Unauthorized);
    assert_eq!(r.class.code(), 401);
    assert_eq!(r.status, "Failed");
    assert_eq!(r.message, "Password salah");
    assert!(!store.users[0].logged_in);
}

#[test]
fn login_unknown_user_unauthorized() {
    let mut store = empty_store();
    register(&mut store, "alice", "pw1");
    let r = login(&mut store, "bob", "pw1");
    assert_eq!(r.class, StatusClass::Unauthorized);
    assert_eq!(r.class.code(), 401);
    assert_eq!(r.status, "Failed");
    assert_eq!(r.message, "User tidak ditemukan");
}

#[test]
fn logout_unknown_user_not_found() {
    let mut store = empty_store();
    let r = logout(&mut store, "bob");
    assert_eq!(r.class, StatusClass::BadRequest);
    assert_eq!(r.class.code(), 400);
    assert_eq!(r.status, "error");
    assert_eq!(r.message, "User tidak ditemukan");
}

#[test]
fn logout_succeeds_whatever_the_prior_state() {
    let mut store = empty_store();
    register(&mut store, "alice", "pw1");
    // Never logged in: logout still succeeds.
    let r = logout(&mut store, "alice");
    assert_eq!(r.class, StatusClass::Success);
    assert_eq!(r.message, "Sayonara");
    assert!(!store.users[0].logged_in);
    // Logged in: logout clears the flag.
    login(&mut store, "alice", "pw1");
    assert!(store.users[0].logged_in);
    let r = logout(&mut store, "alice");
    assert_eq!(r.class, StatusClass::Success);
    assert!(!store.users[0].logged_in);
}

#[test]
fn post_chat_blank_text_rejected() {
    let mut store = empty_store();
    register(&mut store, "alice", "pw1");
    for blank in ["", " ", "   ", " \t\r\n ", "\u{00A0}\u{2003}"] {
        let r = post_chat(&mut store, 1, 1, blank, 1000);
        assert_eq!(r.class, StatusClass::BadRequest);
        assert_eq!(r.status, "error");
        assert_eq!(r.message, "Pesan chat tidak boleh kosong");
    }
    assert_eq!(store.chats.len(), 0);
}

#[test]
fn posted_chats_listed_in_order() {
    let mut store = empty_store();
    register(&mut store, "alice", "pw1");
    register(&mut store, "bob", "pw2");
    let alice_id = store.users[0].id;
    let bob_id = store.users[1].id;
    let r = post_chat(&mut store, 5, alice_id, "hello", 1000);
    assert_eq!(r.class, StatusClass::Success);
    assert_eq!(r.message, "Pesan terkirim");
    post_chat(&mut store, 5, bob_id, "hi alice", 1001);
    post_chat(&mut store, 6, alice_id, "elsewhere", 1002);
    let listing = get_chats(&store, "5");
    assert_eq!(listing.len(), 2);
    assert_eq!(listing[0].username, "alice");
    assert_eq!(listing[0].text, "hello");
    assert_eq!(listing[0].movie_id, 5);
    assert_eq!(listing[0].created_at, 1000);
    assert_eq!(listing[1].username, "bob");
    assert_eq!(listing[1].text, "hi alice");
    assert!(listing[0].chat_id < listing[1].chat_id);
}

#[test]
fn chat_listing_empty_for_unknown_movie() {
    let mut store = empty_store();
    register(&mut store, "alice", "pw1");
    let uid = store.users[0].id;
    post_chat(&mut store, 5, uid, "hello", 1000);
    let listing = get_chats(&store, "7");
    assert!(listing.is_empty());
}

#[test]
fn chat_listing_for_malformed_id_selects_zero() {
    let mut store = empty_store();
    register(&mut store, "alice", "pw1");
    let listing = get_chats(&store, "not-a-number");
    assert!(listing.is_empty());
    // The lenient parse makes a malformed id mean movie 0, not an error.
    let uid = store.users[0].id;
    post_chat(&mut store, 0, uid, "at zero", 1000);
    let listing = get_chats(&store, "not-a-number");
    assert_eq!(listing.len(), 1);
    assert_eq!(listing[0].text, "at zero");
}

#[test]
fn chat_listing_drops_unresolvable_poster() {
    let mut store = empty_store();
    register(&mut store, "alice", "pw1");
    let dangling = store.users[0].id + 1;
    post_chat(&mut store, 5, dangling, "ghost", 1000);
    let uid = store.users[0].id;
    post_chat(&mut store, 5, uid, "real", 1001);
    let listing = get_chats(&store, "5");
    assert_eq!(listing.len(), 1);
    assert_eq!(listing[0].text, "real");
}

#[test]
fn movies_rewrite_poster_path() {
    let store = Store::new(vec![
        sample_movie(1, Some("/abc.jpg"), Some("/back.jpg")),
        sample_movie(2, None, None),
    ]);
    let movies = get_movies(&store);
    assert_eq!(movies.len(), 2);
    assert_eq!(
        movies[0].poster_path.as_deref(),
        Some("https://image.tmdb.org/t/p/original/abc.jpg")
    );
    assert_eq!(
        movies[0].backdrop_path.as_deref(),
        Some("https://image.tmdb.org/t/p/original/back.jpg")
    );
    assert_eq!(movies[1].poster_path, None);
    assert_eq!(movies[1].backdrop_path, None);
    // Everything else passes through untouched.
    assert_eq!(movies[0].id, 1);
    assert_eq!(movies[0].genre_ids, "[18, 80]");
    assert_eq!(f64::from_bits(movies[0].vote_average_bits), 8.4);
    assert_eq!(movies[0].vote_count, 1234);
    assert_eq!(movies[0].release_date.as_deref(), Some("1999-10-15"));
}

#[test]
fn parse_movie_id_accepts_decimal_integers() {
    assert_eq!(parse_movie_id("0"), 0);
    assert_eq!(parse_movie_id("42"), 42);
    assert_eq!(parse_movie_id("+17"), 17);
    assert_eq!(parse_movie_id("-9"), -9);
    assert_eq!(parse_movie_id("2147483647"), i32::MAX);
    assert_eq!(parse_movie_id("-2147483648"), i32::MIN);
}

#[test]
fn parse_movie_id_defaults_to_zero() {
    assert_eq!(parse_movie_id(""), 0);
    assert_eq!(parse_movie_id("abc"), 0);
    assert_eq!(parse_movie_id("12a"), 0);
    assert_eq!(parse_movie_id("+"), 0);
    assert_eq!(parse_movie_id("-"), 0);
    assert_eq!(parse_movie_id("--1"), 0);
    assert_eq!(parse_movie_id(" 5"), 0);
    assert_eq!(parse_movie_id("2147483648"), 0);
    assert_eq!(parse_movie_id("-2147483649"), 0);
    assert_eq!(parse_movie_id("99999999999999999999999999"), 0);
}

#[test]
fn full_session_scenario() {
    let mut store = empty_store();
    let r = register(&mut store, "alice", "pw1");
    assert_eq!(r.class, StatusClass::Success);
    let r = login(&mut store, "alice", "pw1");
    assert_eq!(r.class, StatusClass::Success);
    assert!(store.users[0].logged_in);
    let r = login(&mut store, "alice", "wrong");
    assert_eq!(r.class.code(), 401);
    assert_eq!(r.message, "Password salah");
    let r = logout(&mut store, "alice");
    assert_eq!(r.class, StatusClass::Success);
    assert!(!store.users[0].logged_in);
    let r = logout(&mut store, "bob");
    assert_eq!(r.class.code(), 400);
    assert_eq!(r.message, "User tidak ditemukan");
}
