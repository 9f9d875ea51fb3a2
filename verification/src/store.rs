//! A snapshot of what the persistence collaborator holds: media items, each
//! with the users who may see it.

use vstd::prelude::*;

use crate::object::media::{Media, MediaView};

verus! {

/// One stored media item and the identifiers of the users it is visible to.
#[derive(Debug, PartialEq, Eq)]
pub struct StoredMedia {
    pub media: Media,
    pub viewers: Vec<String>,
}

/// The mathematical content of a [`StoredMedia`] entry.
pub ghost struct StoredMediaView {
    pub media: MediaView,
    pub viewers: Seq<Seq<char>>,
}

impl StoredMediaView {
    /// The user with identifier `user` may see this item.
    pub open spec fn visible_to(self, user: Seq<char>) -> bool {
        self.viewers.contains(user)
    }
}

impl View for StoredMedia {
    type V = StoredMediaView;

    open spec fn view(&self) -> StoredMediaView {
        StoredMediaView { media: self.media@, viewers: self.viewers.deep_view() }
    }
}

impl DeepView for StoredMedia {
    type V = StoredMediaView;

    open spec fn deep_view(&self) -> StoredMediaView {
        self@
    }
}

/// The stored media, in storage order.
#[derive(Debug, PartialEq, Eq)]
pub struct MediaStore {
    pub entries: Vec<StoredMedia>,
}

impl View for MediaStore {
    type V = Seq<StoredMediaView>;

    open spec fn view(&self) -> Seq<StoredMediaView> {
        self.entries.deep_view()
    }
}

/// The entries that hold `items`, in order, each visible to `viewer` and to
/// nobody else.
pub open spec fn seen_by_only(viewer: Seq<char>, items: Seq<MediaView>) -> Seq<StoredMediaView> {
    Seq::new(items.len(), |i: int| StoredMediaView { media: items[i], viewers: seq![viewer] })
}

impl MediaStore {
    /// The snapshot that holds what one user was found to see: `items`, in
    /// order, each visible to `viewer` alone.
    pub fn seen_by(viewer: &str, items: &Vec<Media>) -> (store: MediaStore)
        ensures
            store@ == seen_by_only(viewer@, items.deep_view()),
    {
        let mut entries: Vec<StoredMedia> = Vec::new();
        for i in 0..items.len()
            invariant
                entries.deep_view() == seen_by_only(viewer@, items.deep_view()).take(i as int),
        {
            let ghost before = entries.deep_view();
            let mut viewers: Vec<String> = Vec::new();
            viewers.push(viewer.to_owned());
            assert(viewers.deep_view() =~= seq![viewer@]);
            let entry = StoredMedia { media: items[i].clone(), viewers };
            entries.push(entry);
            assert(entries.deep_view() =~= before.push(entry@));
        }
        assert(seen_by_only(viewer@, items.deep_view()).take(items.len() as int) =~= seen_by_only(
            viewer@,
            items.deep_view(),
        ));
        MediaStore { entries }
    }
}

} // verus!
