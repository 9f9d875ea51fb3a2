//! The relationship resolver: author to books, series to books and author to
//! series, none of them stored, all of them read off the free-text metadata of
//! the media a query is scoped to.
//!
//! Matching is by case-sensitive substring. The writer list of a media item is
//! one text, so a name also matches where it is only part of a longer name:
//! `"Ann"` matches a writer list that reads `"Anna Smith"`.

use vstd::prelude::*;

use crate::finder::{
    lemma_nothing_admitted_nothing_selected, lemma_selected_are_those_admitted,
    lemma_unadmitted_entry_is_ignored, MediaQuery, MediaQueryView,
};
use crate::object::media::{Media, MediaView, MetadataField};
use crate::store::{MediaStore, StoredMediaView};
use crate::text::{field_contains_text, holds_text};

verus! {

/// The query for the books of an author, as `user` may see them.
pub open spec fn author_books_of(user: Seq<char>, author_name: Seq<char>) -> MediaQueryView {
    MediaQueryView::scope_of(user).refined(MetadataField::Writers, author_name)
}

/// The query for the books of a series, as `user` may see them.
pub open spec fn series_books_of(user: Seq<char>, series_title: Seq<char>) -> MediaQueryView {
    MediaQueryView::scope_of(user).refined(MetadataField::Series, series_title)
}

/// Narrows `query` to the media whose writer list contains `author_name`.
pub fn resolve_author_books(query: &MediaQuery, author_name: &str) -> (narrowed: MediaQuery)
    ensures
        narrowed@ == query@.refined(MetadataField::Writers, author_name@),
{
    query.containing(MetadataField::Writers, author_name)
}

/// Narrows `query` to the media whose series text contains `series_title`.
pub fn resolve_series_books(query: &MediaQuery, series_title: &str) -> (narrowed: MediaQuery)
    ensures
        narrowed@ == query@.refined(MetadataField::Series, series_title@),
{
    query.containing(MetadataField::Series, series_title)
}

/// No entry of the store is visible to both users.
pub open spec fn disjoint_visibility(
    entries: Seq<StoredMediaView>,
    user: Seq<char>,
    other: Seq<char>,
) -> bool {
    forall|i: int|
        0 <= i < entries.len() ==> !((#[trigger] entries[i]).visible_to(user)
            && entries[i].visible_to(other))
}

/// Some entry holds `media`, shows it to `user` and hides it from `other`.
pub open spec fn shown_to_one_only(
    entries: Seq<StoredMediaView>,
    user: Seq<char>,
    other: Seq<char>,
    media: MediaView,
) -> bool {
    exists|i: int|
        0 <= i < entries.len() && (#[trigger] entries[i]).media == media && entries[i].visible_to(
            user,
        ) && !entries[i].visible_to(other)
}

/// Scopes do not leak. Where two different users share no visible entry, the
/// books of an author resolved for the first user never include an item that
/// only the second may see: every item returned is held by an entry that the
/// first user sees and the second does not, and any entry that the second user
/// sees can be taken out of the store without changing what the first gets.
pub proof fn lemma_author_books_stay_in_scope(
    entries: Seq<StoredMediaView>,
    user: Seq<char>,
    other: Seq<char>,
    author_name: Seq<char>,
)
    requires
        user != other,
        disjoint_visibility(entries, user, other),
    ensures
        forall|media: MediaView| #[trigger]
            author_books_of(user, author_name).select(entries).contains(media)
                ==> shown_to_one_only(entries, user, other, media),
        forall|at: int|
            0 <= at < entries.len() && (#[trigger] entries[at]).visible_to(other)
                ==> author_books_of(user, author_name).select(entries.remove(at))
                == author_books_of(user, author_name).select(entries),
{
    let query = author_books_of(user, author_name);
    let books = query.select(entries);
    assert forall|media: MediaView| #[trigger] books.contains(media) implies shown_to_one_only(
        entries,
        user,
        other,
        media,
    ) by {
        lemma_selected_are_those_admitted(query, entries, media);
        let i = choose|i: int|
            0 <= i < entries.len() && query.admits(#[trigger] entries[i]) && entries[i].media
                == media;
        assert(entries[i].visible_to(user) && !entries[i].visible_to(other));
    }
    assert forall|at: int|
        0 <= at < entries.len() && (#[trigger] entries[at]).visible_to(
            other,
        ) implies query.select(entries.remove(at)) == books by {
        lemma_unadmitted_entry_is_ignored(query, entries, at);
    }
}

/// No entry that `user` may see has a writer list containing `author_name`.
pub open spec fn no_visible_book_names(
    entries: Seq<StoredMediaView>,
    user: Seq<char>,
    author_name: Seq<char>,
) -> bool {
    forall|i: int|
        0 <= i < entries.len() && (#[trigger] entries[i]).visible_to(user) ==> !field_contains_text(
            entries[i].media.metadata.writers,
            author_name,
        )
}

/// An author without visible books has none. Where no entry that `user` may
/// see has a writer list containing `author_name`, the books of that author
/// are the empty sequence.
pub proof fn lemma_unmatched_author_has_no_books(
    entries: Seq<StoredMediaView>,
    user: Seq<char>,
    author_name: Seq<char>,
)
    requires
        no_visible_book_names(entries, user, author_name),
    ensures
        author_books_of(user, author_name).select(entries) == Seq::<MediaView>::empty(),
{
    let query = author_books_of(user, author_name);
    assert forall|i: int| 0 <= i < entries.len() implies !query.admits(#[trigger] entries[i]) by {
        if entries[i].visible_to(user) {
            assert(!query.predicates[0].holds_for(entries[i].media));
        }
    }
    lemma_nothing_admitted_nothing_selected(query, entries);
}

/// Some book of `books` carries the series title `title`.
pub open spec fn carries_series(books: Seq<MediaView>, title: Seq<char>) -> bool {
    exists|i: int| 0 <= i < books.len() && (#[trigger] books[i]).metadata.series == Some(title)
}

/// The book at `at` has a series title that no book before it has.
pub open spec fn introduces_series(books: Seq<MediaView>, at: int) -> bool {
    &&& 0 <= at < books.len()
    &&& books[at].metadata.series is Some
    &&& forall|before: int|
        0 <= before < at ==> (#[trigger] books[before]).metadata.series != books[at].metadata.series
}

/// The series titles found among `books`, each once, in the order in which
/// they first occur. A book without a series title adds none; a title is taken
/// as it stands, and two titles are the same only if they are equal texts.
pub open spec fn series_titles(books: Seq<MediaView>) -> Seq<Seq<char>>
    decreases books.len(),
{
    if books.len() == 0 {
        Seq::empty()
    } else {
        let earlier = series_titles(books.drop_last());
        if introduces_series(books, books.len() - 1) {
            earlier.push(books.last().metadata.series->0)
        } else {
            earlier
        }
    }
}

/// A title is among the series titles of `books` exactly if one of the books
/// carries it.
pub proof fn lemma_series_titles_are_those_carried(books: Seq<MediaView>, title: Seq<char>)
    ensures
        series_titles(books).contains(title) <==> carries_series(books, title),
    decreases books.len(),
{
    if books.len() == 0 {
    } else {
        let prefix = books.drop_last();
        let last = books.len() - 1;
        let earlier = series_titles(prefix);
        lemma_series_titles_are_those_carried(prefix, title);
        assert forall|i: int| 0 <= i < prefix.len() implies prefix[i] == books[i] by {}
        if books[last].metadata.series == Some(title) {
            assert(carries_series(books, title));
            if introduces_series(books, last) {
                assert(earlier.push(title)[earlier.len() as int] == title);
            } else {
                let before = choose|before: int|
                    0 <= before < last && (#[trigger] books[before]).metadata.series
                        == books[last].metadata.series;
                assert(prefix[before].metadata.series == Some(title));
                assert(carries_series(prefix, title));
            }
        } else {
            if carries_series(books, title) {
                let i = choose|i: int|
                    0 <= i < books.len() && (#[trigger] books[i]).metadata.series == Some(title);
                assert(prefix[i].metadata.series == Some(title));
                assert(carries_series(prefix, title));
            }
            if carries_series(prefix, title) {
                let i = choose|i: int|
                    0 <= i < prefix.len() && (#[trigger] prefix[i]).metadata.series == Some(title);
                assert(books[i].metadata.series == Some(title));
            }
            if introduces_series(books, last) {
                let added = books[last].metadata.series->0;
                let grown = earlier.push(added);
                if grown.contains(title) {
                    let k = choose|k: int| 0 <= k < grown.len() && grown[k] == title;
                    assert(k < earlier.len());
                    assert(earlier[k] == title);
                }
                if earlier.contains(title) {
                    let k = choose|k: int| 0 <= k < earlier.len() && earlier[k] == title;
                    assert(grown[k] == title);
                }
            }
        }
    }
}

/// The last book adds a series title exactly if it has one and the titles of
/// the books before it do not hold it.
pub proof fn lemma_last_book_adds_unlisted_title(books: Seq<MediaView>)
    requires
        books.len() > 0,
        books.last().metadata.series is Some,
    ensures
        introduces_series(books, books.len() - 1) <==> !series_titles(books.drop_last()).contains(
            books.last().metadata.series->0,
        ),
{
    let prefix = books.drop_last();
    let last = books.len() - 1;
    let title = books.last().metadata.series->0;
    lemma_series_titles_are_those_carried(prefix, title);
    if carries_series(prefix, title) {
        let i = choose|i: int|
            0 <= i < prefix.len() && (#[trigger] prefix[i]).metadata.series == Some(title);
        assert(books[i].metadata.series == books[last].metadata.series);
    }
    if !introduces_series(books, last) {
        let before = choose|before: int|
            0 <= before < last && (#[trigger] books[before]).metadata.series
                == books[last].metadata.series;
        assert(prefix[before].metadata.series == Some(title));
    }
}

/// No series title is listed twice.
pub proof fn lemma_series_titles_are_distinct(books: Seq<MediaView>)
    ensures
        series_titles(books).no_duplicates(),
    decreases books.len(),
{
    if books.len() > 0 {
        lemma_series_titles_are_distinct(books.drop_last());
        if introduces_series(books, books.len() - 1) {
            lemma_last_book_adds_unlisted_title(books);
        }
    }
}

/// Lists the series titles found among `books`, each once, in the order in
/// which they first occur.
pub fn distinct_series_titles(books: &Vec<Media>) -> (titles: Vec<String>)
    ensures
        titles.deep_view() == series_titles(books.deep_view()),
        titles.deep_view().no_duplicates(),
{
    let ghost all = books.deep_view();
    let mut titles: Vec<String> = Vec::new();
    assert(titles.deep_view() =~= Seq::empty());
    for i in 0..books.len()
        invariant
            all == books.deep_view(),
            titles.deep_view() == series_titles(all.take(i as int)),
    {
        let ghost upto = all.take(i + 1);
        proof {
            assert(upto.drop_last() =~= all.take(i as int));
            assert(upto.last() == books[i as int]@);
        }
        match &books[i].metadata.series {
            Some(title) => {
                proof {
                    lemma_last_book_adds_unlisted_title(upto);
                }
                if !holds_text(&titles, title) {
                    let ghost before = titles.deep_view();
                    titles.push(title.clone());
                    assert(titles.deep_view() =~= before.push(title@));
                }
            },
            None => {},
        }
    }
    proof {
        assert(all.take(books.len() as int) =~= all);
        lemma_series_titles_are_distinct(all);
    }
    titles
}

/// Lists the series titles of an author: those found among the media that
/// `query` is scoped to and whose writer list contains `author_name`, each
/// once, in the order in which they first occur in `store`.
pub fn resolve_series_titles_for_author(
    query: &MediaQuery,
    author_name: &str,
    store: &MediaStore,
) -> (titles: Vec<String>)
    ensures
        titles.deep_view() == series_titles(
            query@.refined(MetadataField::Writers, author_name@).select(store@),
        ),
        titles.deep_view().no_duplicates(),
{
    let books = resolve_author_books(query, author_name).fetch(store);
    distinct_series_titles(&books)
}

} // verus!
