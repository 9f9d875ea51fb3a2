//! The scoped entity finder: the one way to obtain a query over media.
//!
//! A [`MediaQuery`] is bound to the user it was opened for. Later stages may
//! narrow it with text predicates; nothing can widen it or change its user.

use vstd::prelude::*;

use crate::data::AuthContext;
use crate::error::EngineError;
use crate::object::media::{Media, MediaView, MetadataField};
use crate::store::{seen_by_only, MediaStore, StoredMediaView};
use crate::text::{contains, field_contains_text, holds_text};

verus! {

/// Asks that a metadata attribute be present and contain `needle` as a
/// case-sensitive substring.
#[derive(Debug, PartialEq, Eq)]
pub struct TextPredicate {
    pub field: MetadataField,
    pub needle: String,
}

/// The mathematical content of a [`TextPredicate`].
pub ghost struct TextPredicateView {
    pub field: MetadataField,
    pub needle: Seq<char>,
}

impl TextPredicateView {
    /// The predicate is true of `media`.
    pub open spec fn holds_for(self, media: MediaView) -> bool {
        field_contains_text(media.metadata.text(self.field), self.needle)
    }
}

impl View for TextPredicate {
    type V = TextPredicateView;

    open spec fn view(&self) -> TextPredicateView {
        TextPredicateView { field: self.field, needle: self.needle@ }
    }
}

impl DeepView for TextPredicate {
    type V = TextPredicateView;

    open spec fn deep_view(&self) -> TextPredicateView {
        self@
    }
}

impl Clone for TextPredicate {
    fn clone(&self) -> (copy: TextPredicate)
        ensures
            copy == *self,
    {
        TextPredicate { field: self.field, needle: self.needle.clone() }
    }
}

impl TextPredicate {
    /// Tests the predicate on one media item.
    pub fn holds_for(&self, media: &Media) -> (ok: bool)
        ensures
            ok == self@.holds_for(media@),
    {
        match media.metadata.text(self.field) {
            Some(hay) => contains(hay.as_str(), self.needle.as_str()),
            None => false,
        }
    }
}

/// A query over the media that one user may see, narrowed by zero or more text
/// predicates.
#[derive(Debug, PartialEq, Eq)]
pub struct MediaQuery {
    viewer: String,
    predicates: Vec<TextPredicate>,
}

/// The mathematical content of a [`MediaQuery`].
pub ghost struct MediaQueryView {
    /// The identifier of the user whose visibility bounds the query.
    pub viewer: Seq<char>,
    /// The text predicates, all of which a media item must meet.
    pub predicates: Seq<TextPredicateView>,
}

impl MediaQueryView {
    /// The query for everything `user` may see.
    pub open spec fn scope_of(user: Seq<char>) -> MediaQueryView {
        MediaQueryView { viewer: user, predicates: Seq::empty() }
    }

    /// This query with one more predicate. The user stays.
    pub open spec fn refined(self, field: MetadataField, needle: Seq<char>) -> MediaQueryView {
        MediaQueryView {
            viewer: self.viewer,
            predicates: self.predicates.push(TextPredicateView { field, needle }),
        }
    }

    /// `media` meets every predicate.
    pub open spec fn accepts(self, media: MediaView) -> bool {
        forall|i: int|
            0 <= i < self.predicates.len() ==> (#[trigger] self.predicates[i]).holds_for(media)
    }

    /// The entry is visible to the query's user and meets every predicate.
    pub open spec fn admits(self, entry: StoredMediaView) -> bool {
        entry.visible_to(self.viewer) && self.accepts(entry.media)
    }

    /// The media of the entries that the query admits, in storage order.
    pub open spec fn select(self, entries: Seq<StoredMediaView>) -> Seq<MediaView> {
        entries.filter(|entry: StoredMediaView| self.admits(entry)).map_values(
            |entry: StoredMediaView| entry.media,
        )
    }
}

/// What the last entry of a store adds to a selection: its media if the query
/// admits the entry, nothing if not. An empty store gives an empty selection.
pub proof fn lemma_select_by_last_entry(query: MediaQueryView, entries: Seq<StoredMediaView>)
    ensures
        entries.len() == 0 ==> query.select(entries) == Seq::<MediaView>::empty(),
        entries.len() > 0 && query.admits(entries.last()) ==> query.select(entries)
            == query.select(entries.drop_last()).push(entries.last().media),
        entries.len() > 0 && !query.admits(entries.last()) ==> query.select(entries)
            == query.select(entries.drop_last()),
{
    reveal(Seq::filter);
    let admitting = |entry: StoredMediaView| query.admits(entry);
    let media_of = |entry: StoredMediaView| entry.media;
    if entries.len() == 0 {
        assert(query.select(entries) =~= Seq::<MediaView>::empty());
    } else if query.admits(entries.last()) {
        let kept = entries.drop_last().filter(admitting);
        assert(entries.filter(admitting) == kept.push(entries.last()));
        assert(kept.push(entries.last()).map_values(media_of) =~= kept.map_values(media_of).push(
            entries.last().media,
        ));
    }
}

impl View for MediaQuery {
    type V = MediaQueryView;

    closed spec fn view(&self) -> MediaQueryView {
        MediaQueryView { viewer: self.viewer@, predicates: self.predicates.deep_view() }
    }
}

/// Copies a list of predicates.
fn copy_predicates(list: &Vec<TextPredicate>) -> (copy: Vec<TextPredicate>)
    ensures
        copy.deep_view() == list.deep_view(),
{
    let mut copy: Vec<TextPredicate> = Vec::new();
    for i in 0..list.len()
        invariant
            copy.deep_view() == list.deep_view().take(i as int),
    {
        let ghost before = copy.deep_view();
        copy.push(list[i].clone());
        assert(copy.deep_view() =~= before.push(list[i as int]@));
    }
    assert(list.deep_view().take(list.len() as int) =~= list.deep_view());
    copy
}

impl Clone for MediaQuery {
    fn clone(&self) -> (copy: MediaQuery)
        ensures
            copy@ == self@,
    {
        MediaQuery { viewer: self.viewer.clone(), predicates: copy_predicates(&self.predicates) }
    }
}

/// Opens the query over all media visible to the user of `ctx`. A context
/// without a user has no scope, and gets no query.
pub fn find_visible(ctx: &AuthContext) -> (outcome: Result<MediaQuery, EngineError>)
    ensures
        match ctx@ {
            Some(user) => outcome is Ok && outcome->Ok_0@ == MediaQueryView::scope_of(user),
            None => outcome == Err::<MediaQuery, EngineError>(EngineError::UnauthorizedContext),
        },
{
    match &ctx.user {
        Some(user) => {
            let query = MediaQuery { viewer: user.id.clone(), predicates: Vec::new() };
            assert(query@.predicates =~= Seq::empty());
            Ok(query)
        },
        None => Err(EngineError::UnauthorizedContext),
    }
}

impl MediaQuery {
    /// The identifier of the user whose visibility bounds the query.
    pub fn viewer(&self) -> (id: &String)
        ensures
            id@ == self@.viewer,
    {
        &self.viewer
    }

    /// The text predicates of the query, in the order they were added.
    pub fn predicates(&self) -> (list: &Vec<TextPredicate>)
        ensures
            list.deep_view() == self@.predicates,
    {
        &self.predicates
    }

    /// A query like this one that also asks `field` to contain `needle`. This
    /// query is left as it is and may be narrowed again.
    pub fn containing(&self, field: MetadataField, needle: &str) -> (narrowed: MediaQuery)
        ensures
            narrowed@ == self@.refined(field, needle@),
    {
        let mut predicates = copy_predicates(&self.predicates);
        let ghost copied = predicates.deep_view();
        predicates.push(TextPredicate { field, needle: needle.to_owned() });
        assert(predicates.deep_view() =~= copied.push(
            TextPredicateView { field, needle: needle@ },
        ));
        MediaQuery { viewer: self.viewer.clone(), predicates }
    }

    /// Tells whether `media` meets every predicate of the query.
    pub fn accepts(&self, media: &Media) -> (ok: bool)
        ensures
            ok == self@.accepts(media@),
    {
        for i in 0..self.predicates.len()
            invariant
                forall|j: int| 0 <= j < i ==> (#[trigger] self@.predicates[j]).holds_for(media@),
        {
            if !self.predicates[i].holds_for(media) {
                assert(!self@.predicates[i as int].holds_for(media@));
                return false;
            }
        }
        true
    }

    /// Runs the query on a snapshot: the media that the user may see and that
    /// meet every predicate, in storage order.
    pub fn fetch(&self, store: &MediaStore) -> (found: Vec<Media>)
        ensures
            found.deep_view() == self@.select(store@),
    {
        let ghost entries = store@;
        let mut found: Vec<Media> = Vec::new();
        proof {
            lemma_select_by_last_entry(self@, entries.take(0));
            assert(found.deep_view() =~= Seq::empty());
        }
        for i in 0..store.entries.len()
            invariant
                entries == store@,
                found.deep_view() == self@.select(entries.take(i as int)),
        {
            let entry = &store.entries[i];
            proof {
                assert(entries.take(i + 1).drop_last() =~= entries.take(i as int));
                assert(entries.take(i + 1).last() == entry@);
                lemma_select_by_last_entry(self@, entries.take(i + 1));
            }
            if holds_text(&entry.viewers, &self.viewer) && self.accepts(&entry.media) {
                let ghost before = found.deep_view();
                found.push(entry.media.clone());
                assert(found.deep_view() =~= before.push(entry.media@));
            }
        }
        assert(entries.take(store.entries.len() as int) =~= entries);
        found
    }
}

/// A media item is selected exactly if an entry that the query admits holds it.
pub proof fn lemma_selected_are_those_admitted(
    query: MediaQueryView,
    entries: Seq<StoredMediaView>,
    media: MediaView,
)
    ensures
        query.select(entries).contains(media) <==> exists|i: int|
            0 <= i < entries.len() && query.admits(#[trigger] entries[i]) && entries[i].media
                == media,
    decreases entries.len(),
{
    lemma_select_by_last_entry(query, entries);
    if entries.len() == 0 {
    } else {
        let prefix = entries.drop_last();
        let last = entries.len() - 1;
        let earlier = query.select(prefix);
        lemma_selected_are_those_admitted(query, prefix, media);
        assert forall|i: int| 0 <= i < prefix.len() implies prefix[i] == entries[i] by {}
        if query.select(entries).contains(media) {
            let k = choose|k: int|
                0 <= k < query.select(entries).len() && query.select(entries)[k] == media;
            if query.admits(entries[last]) && k == earlier.len() {
                assert(query.admits(entries[last]) && entries[last].media == media);
            } else {
                assert(earlier[k] == media);
                let i = choose|i: int|
                    0 <= i < prefix.len() && query.admits(#[trigger] prefix[i]) && prefix[i].media
                        == media;
                assert(query.admits(entries[i]) && entries[i].media == media);
            }
        }
        if exists|i: int|
            0 <= i < entries.len() && query.admits(#[trigger] entries[i]) && entries[i].media
                == media {
            let i = choose|i: int|
                0 <= i < entries.len() && query.admits(#[trigger] entries[i]) && entries[i].media
                    == media;
            if i == last {
                assert(earlier.push(media)[earlier.len() as int] == media);
            } else {
                assert(query.admits(prefix[i]) && prefix[i].media == media);
                let k = choose|k: int| 0 <= k < earlier.len() && earlier[k] == media;
                assert(query.select(entries)[k] == media);
            }
        }
    }
}

/// The query opened for a user selects the media of exactly the entries that
/// the user may see: all of them, and nothing else.
pub proof fn lemma_scope_selects_what_is_visible(
    user: Seq<char>,
    entries: Seq<StoredMediaView>,
    media: MediaView,
)
    ensures
        MediaQueryView::scope_of(user).select(entries).contains(media) <==> exists|i: int|
            0 <= i < entries.len() && (#[trigger] entries[i]).visible_to(user) && entries[i].media
                == media,
{
    let scope = MediaQueryView::scope_of(user);
    lemma_selected_are_those_admitted(scope, entries, media);
    if scope.select(entries).contains(media) {
        let i = choose|i: int|
            0 <= i < entries.len() && scope.admits(#[trigger] entries[i]) && entries[i].media
                == media;
        assert(entries[i].visible_to(user) && entries[i].media == media);
    }
    if exists|i: int|
        0 <= i < entries.len() && (#[trigger] entries[i]).visible_to(user) && entries[i].media
            == media {
        let i = choose|i: int|
            0 <= i < entries.len() && (#[trigger] entries[i]).visible_to(user) && entries[i].media
                == media;
        assert(scope.admits(entries[i]) && entries[i].media == media);
    }
}

/// Narrowing a query never widens it: what the narrowed query selects, the
/// query it came from selects too, and for the same user.
pub proof fn lemma_narrowing_stays_within(
    query: MediaQueryView,
    field: MetadataField,
    needle: Seq<char>,
    entries: Seq<StoredMediaView>,
    media: MediaView,
)
    requires
        query.refined(field, needle).select(entries).contains(media),
    ensures
        query.refined(field, needle).viewer == query.viewer,
        query.select(entries).contains(media),
{
    let narrowed = query.refined(field, needle);
    lemma_selected_are_those_admitted(narrowed, entries, media);
    lemma_selected_are_those_admitted(query, entries, media);
    let i = choose|i: int|
        0 <= i < entries.len() && narrowed.admits(#[trigger] entries[i]) && entries[i].media
            == media;
    assert forall|k: int| 0 <= k < query.predicates.len() implies (
    #[trigger] query.predicates[k]).holds_for(entries[i].media) by {
        assert(narrowed.predicates[k] == query.predicates[k]);
    }
    assert(query.admits(entries[i]) && entries[i].media == media);
}

/// A snapshot of what one user sees, queried for that user, gives the items
/// that meet every predicate of the query, in order.
pub proof fn lemma_own_snapshot_keeps_accepted(query: MediaQueryView, items: Seq<MediaView>)
    ensures
        query.select(seen_by_only(query.viewer, items)) == items.filter(
            |media: MediaView| query.accepts(media),
        ),
    decreases items.len(),
{
    reveal(Seq::filter);
    let entries = seen_by_only(query.viewer, items);
    let accepting = |media: MediaView| query.accepts(media);
    lemma_select_by_last_entry(query, entries);
    if items.len() > 0 {
        lemma_own_snapshot_keeps_accepted(query, items.drop_last());
        assert(entries.drop_last() =~= seen_by_only(query.viewer, items.drop_last()));
        assert(entries.last().viewers[0] == query.viewer);
        assert(entries.last().visible_to(query.viewer));
        assert(query.admits(entries.last()) == query.accepts(items.last()));
    } else {
        assert(items.filter(accepting) =~= Seq::<MediaView>::empty());
    }
}

/// An entry that the query does not admit can be taken out of the store
/// without changing what the query selects.
pub proof fn lemma_unadmitted_entry_is_ignored(
    query: MediaQueryView,
    entries: Seq<StoredMediaView>,
    at: int,
)
    requires
        0 <= at < entries.len(),
        !query.admits(entries[at]),
    ensures
        query.select(entries.remove(at)) == query.select(entries),
    decreases entries.len(),
{
    let last = entries.len() - 1;
    lemma_select_by_last_entry(query, entries);
    if at == last {
        assert(entries.remove(at) =~= entries.drop_last());
    } else {
        lemma_unadmitted_entry_is_ignored(query, entries.drop_last(), at);
        lemma_select_by_last_entry(query, entries.remove(at));
        assert(entries.remove(at).drop_last() =~= entries.drop_last().remove(at));
        assert(entries.remove(at).last() == entries.last());
    }
}

/// A query that admits no entry selects nothing.
pub proof fn lemma_nothing_admitted_nothing_selected(
    query: MediaQueryView,
    entries: Seq<StoredMediaView>,
)
    requires
        forall|i: int| 0 <= i < entries.len() ==> !query.admits(#[trigger] entries[i]),
    ensures
        query.select(entries) == Seq::<MediaView>::empty(),
    decreases entries.len(),
{
    lemma_select_by_last_entry(query, entries);
    if entries.len() > 0 {
        let prefix = entries.drop_last();
        assert forall|i: int| 0 <= i < prefix.len() implies !query.admits(#[trigger] prefix[i]) by {
            assert(prefix[i] == entries[i]);
        }
        lemma_nothing_admitted_nothing_selected(query, prefix);
    }
}

} // verus!
