//! Authors and their series: aggregates that are not stored anywhere. Each is
//! known by a text alone, and what belongs to it is worked out when asked for.

use vstd::prelude::*;

use crate::data::AuthContext;
use crate::error::EngineError;
use crate::finder::{find_visible, MediaQuery};
use crate::object::media::Media;
use crate::resolver::{
    author_books_of, distinct_series_titles, lemma_unmatched_author_has_no_books,
    no_visible_book_names, resolve_author_books, resolve_series_books, series_books_of,
    series_titles,
};
use crate::store::MediaStore;

verus! {

/// An author, known by name.
#[derive(Debug, PartialEq, Eq)]
pub struct Author {
    name: String,
}

/// A series of an author, known by title.
#[derive(Debug, PartialEq, Eq)]
pub struct AuthorSeries {
    title: String,
}

impl View for Author {
    type V = Seq<char>;

    /// An author is their name.
    closed spec fn view(&self) -> Seq<char> {
        self.name@
    }
}

impl View for AuthorSeries {
    type V = Seq<char>;

    /// A series is its title.
    closed spec fn view(&self) -> Seq<char> {
        self.title@
    }
}

impl DeepView for AuthorSeries {
    type V = Seq<char>;

    open spec fn deep_view(&self) -> Seq<char> {
        self@
    }
}

impl AuthorSeries {
    /// The series with the given title.
    pub fn new(title: String) -> (series: AuthorSeries)
        ensures
            series@ == title@,
    {
        AuthorSeries { title }
    }

    /// The title of the series.
    pub fn title(&self) -> (title: &String)
        ensures
            title@ == self@,
    {
        &self.title
    }

    /// The series found among `books`: one for each series title, in the order
    /// in which the titles first occur.
    pub fn among(books: &Vec<Media>) -> (found: Vec<AuthorSeries>)
        ensures
            found.deep_view() == series_titles(books.deep_view()),
            found.deep_view().no_duplicates(),
    {
        let titles = distinct_series_titles(books);
        let mut found: Vec<AuthorSeries> = Vec::new();
        for i in 0..titles.len()
            invariant
                found.deep_view() == titles.deep_view().take(i as int),
        {
            let ghost before = found.deep_view();
            found.push(AuthorSeries::new(titles[i].clone()));
            assert(found.deep_view() =~= before.push(titles[i as int]@));
        }
        assert(titles.deep_view().take(titles.len() as int) =~= titles.deep_view());
        found
    }

    /// The query for the books of this series as the user of `ctx` may see
    /// them: the visible media whose series text contains the title.
    pub fn books_query(&self, ctx: &AuthContext) -> (outcome: Result<MediaQuery, EngineError>)
        ensures
            match ctx@ {
                Some(user) => outcome is Ok && outcome->Ok_0@ == series_books_of(user, self@),
                None => outcome == Err::<MediaQuery, EngineError>(
                    EngineError::UnauthorizedContext,
                ),
            },
    {
        match find_visible(ctx) {
            Ok(visible) => Ok(resolve_series_books(&visible, self.title.as_str())),
            Err(error) => Err(error),
        }
    }

    /// The books of this series that the user of `ctx` may see, in storage
    /// order. A series without visible books has the empty list.
    pub fn books(&self, ctx: &AuthContext, store: &MediaStore) -> (outcome: Result<
        Vec<Media>,
        EngineError,
    >)
        ensures
            match ctx@ {
                Some(user) => outcome is Ok && outcome->Ok_0.deep_view() == series_books_of(
                    user,
                    self@,
                ).select(store@),
                None => outcome == Err::<Vec<Media>, EngineError>(
                    EngineError::UnauthorizedContext,
                ),
            },
    {
        match self.books_query(ctx) {
            Ok(query) => Ok(query.fetch(store)),
            Err(error) => Err(error),
        }
    }
}

impl Author {
    /// The author with the given name.
    pub fn new(name: String) -> (author: Author)
        ensures
            author@ == name@,
    {
        Author { name }
    }

    /// The name of the author.
    pub fn name(&self) -> (name: &String)
        ensures
            name@ == self@,
    {
        &self.name
    }

    /// The query for the books of this author as the user of `ctx` may see
    /// them: the visible media whose writer list contains the name.
    pub fn books_query(&self, ctx: &AuthContext) -> (outcome: Result<MediaQuery, EngineError>)
        ensures
            match ctx@ {
                Some(user) => outcome is Ok && outcome->Ok_0@ == author_books_of(user, self@),
                None => outcome == Err::<MediaQuery, EngineError>(
                    EngineError::UnauthorizedContext,
                ),
            },
    {
        match find_visible(ctx) {
            Ok(visible) => Ok(resolve_author_books(&visible, self.name.as_str())),
            Err(error) => Err(error),
        }
    }

    /// The books of this author that the user of `ctx` may see, in storage
    /// order. An author without visible books has the empty list, not an error.
    pub fn books(&self, ctx: &AuthContext, store: &MediaStore) -> (outcome: Result<
        Vec<Media>,
        EngineError,
    >)
        ensures
            match ctx@ {
                Some(user) => {
                    &&& outcome is Ok
                    &&& outcome->Ok_0.deep_view() == author_books_of(user, self@).select(store@)
                    &&& no_visible_book_names(store@, user, self@) ==> outcome->Ok_0@.len() == 0
                },
                None => outcome == Err::<Vec<Media>, EngineError>(
                    EngineError::UnauthorizedContext,
                ),
            },
    {
        match self.books_query(ctx) {
            Ok(query) => {
                let found = query.fetch(store);
                proof {
                    if no_visible_book_names(store@, ctx@->0, self@) {
                        lemma_unmatched_author_has_no_books(store@, ctx@->0, self@);
                        assert(found.deep_view().len() == 0);
                    }
                }
                Ok(found)
            },
            Err(error) => Err(error),
        }
    }

    /// The series of this author: one for each series title found among the
    /// author's visible books, in the order in which the titles first occur.
    pub fn series(&self, ctx: &AuthContext, store: &MediaStore) -> (outcome: Result<
        Vec<AuthorSeries>,
        EngineError,
    >)
        ensures
            match ctx@ {
                Some(user) => {
                    &&& outcome is Ok
                    &&& outcome->Ok_0.deep_view() == series_titles(
                        author_books_of(user, self@).select(store@),
                    )
                    &&& outcome->Ok_0.deep_view().no_duplicates()
                },
                None => outcome == Err::<Vec<AuthorSeries>, EngineError>(
                    EngineError::UnauthorizedContext,
                ),
            },
    {
        match self.books(ctx, store) {
            Ok(books) => Ok(AuthorSeries::among(&books)),
            Err(error) => Err(error),
        }
    }
}

} // verus!
