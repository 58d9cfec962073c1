//! The read-only movie catalog: the row shape the `movies` table carries and
//! the image-path rewrite applied when rows are listed.
//!
//! The two fractional rating fields are carried untouched as the bit patterns
//! of their 64-bit encoding; nothing here reads them.

use vstd::prelude::*;

verus! {

use vstd::string::StringExecFns;

/// One row of the `movies` table.
pub struct MovieRecord {
    pub id: i32,
    pub adult: bool,
    pub backdrop_path: Option<String>,
    pub genre_ids: String,
    pub origin_country: String,
    pub original_language: Option<String>,
    pub original_name: Option<String>,
    pub original_title: Option<String>,
    pub overview: Option<String>,
    pub popularity_bits: u64,
    pub poster_path: Option<String>,
    pub first_air_date: Option<String>,
    pub release_date: Option<String>,
    pub name: Option<String>,
    pub title: Option<String>,
    pub video: bool,
    pub vote_average_bits: u64,
    pub vote_count: i32,
}

/// Mathematical value of a [`MovieRecord`].
pub struct MovieView {
    pub id: int,
    pub adult: bool,
    pub backdrop_path: Option<Seq<char>>,
    pub genre_ids: Seq<char>,
    pub origin_country: Seq<char>,
    pub original_language: Option<Seq<char>>,
    pub original_name: Option<Seq<char>>,
    pub original_title: Option<Seq<char>>,
    pub overview: Option<Seq<char>>,
    pub popularity_bits: u64,
    pub poster_path: Option<Seq<char>>,
    pub first_air_date: Option<Seq<char>>,
    pub release_date: Option<Seq<char>>,
    pub name: Option<Seq<char>>,
    pub title: Option<Seq<char>>,
    pub video: bool,
    pub vote_average_bits: u64,
    pub vote_count: int,
}

/// The contents of an optional text column.
pub open spec fn opt_text(o: Option<String>) -> Option<Seq<char>> {
    match o {
        Option::None => Option::None,
        Option::Some(s) => Option::Some(s@),
    }
}

impl View for MovieRecord {
    type V = MovieView;

    open spec fn view(&self) -> MovieView {
        MovieView {
            id: self.id as int,
            adult: self.adult,
            backdrop_path: opt_text(self.backdrop_path),
            genre_ids: self.genre_ids@,
            origin_country: self.origin_country@,
            original_language: opt_text(self.original_language),
            original_name: opt_text(self.original_name),
            original_title: opt_text(self.original_title),
            overview: opt_text(self.overview),
            popularity_bits: self.popularity_bits,
            poster_path: opt_text(self.poster_path),
            first_air_date: opt_text(self.first_air_date),
            release_date: opt_text(self.release_date),
            name: opt_text(self.name),
            title: opt_text(self.title),
            video: self.video,
            vote_average_bits: self.vote_average_bits,
            vote_count: self.vote_count as int,
        }
    }
}

/// The fixed base every relative image path is absolutized against.
pub open spec fn image_base() -> Seq<char> {
    "https://image.tmdb.org/t/p/original"@
}

/// An optional image path after absolutization: a present path gets the base
/// prepended, an absent one stays absent.
pub open spec fn abs_path(p: Option<Seq<char>>) -> Option<Seq<char>> {
    match p {
        Option::None => Option::None,
        Option::Some(rel) => Option::Some(image_base() + rel),
    }
}

/// A movie row as `/movies` reports it: both image paths absolutized, every
/// other column untouched.
pub open spec fn rewritten_movie(m: MovieView) -> MovieView {
    MovieView { backdrop_path: abs_path(m.backdrop_path), poster_path: abs_path(m.poster_path), ..m }
}

/// Absolutizes an optional image path.
pub fn absolutize_path(p: &Option<String>) -> (r: Option<String>)
    ensures
        opt_text(r) == abs_path(opt_text(*p)),
{
    match p {
        Option::None => Option::None,
        Option::Some(rel) => Option::Some(
            String::from_str("https://image.tmdb.org/t/p/original").concat(rel.as_str()),
        ),
    }
}

/// Copies a movie row with both image paths absolutized.
pub fn rewrite_movie(m: &MovieRecord) -> (r: MovieRecord)
    ensures
        r@ == rewritten_movie(m@),
{
    MovieRecord {
        id: m.id,
        adult: m.adult,
        backdrop_path: absolutize_path(&m.backdrop_path),
        genre_ids: m.genre_ids.clone(),
        origin_country: m.origin_country.clone(),
        original_language: clone_opt_text(&m.original_language),
        original_name: clone_opt_text(&m.original_name),
        original_title: clone_opt_text(&m.original_title),
        overview: clone_opt_text(&m.overview),
        popularity_bits: m.popularity_bits,
        poster_path: absolutize_path(&m.poster_path),
        first_air_date: clone_opt_text(&m.first_air_date),
        release_date: clone_opt_text(&m.release_date),
        name: clone_opt_text(&m.name),
        title: clone_opt_text(&m.title),
        video: m.video,
        vote_average_bits: m.vote_average_bits,
        vote_count: m.vote_count,
    }
}

/// Copies an optional text column.
pub fn clone_opt_text(o: &Option<String>) -> (r: Option<String>)
    ensures
        opt_text(r) == opt_text(*o),
{
    match o {
        Option::None => Option::None,
        Option::Some(s) => Option::Some(s.clone()),
    }
}

} // verus!
