//! Media items and their free-text metadata.

use vstd::prelude::*;

verus! {

/// The text attributes of a media item's metadata.
#[derive(Debug, Clone, Copy, PartialEq, Eq, Structural)]
pub enum MetadataField {
    Title,
    Series,
    Writers,
    Publisher,
}

/// The metadata record owned by one media item. Every attribute is free text
/// and may be missing. `writers` holds the whole writer list as one text.
#[derive(Debug, PartialEq, Eq)]
pub struct MediaMetadata {
    pub title: Option<String>,
    pub series: Option<String>,
    pub writers: Option<String>,
    pub publisher: Option<String>,
}

/// The mathematical content of a [`MediaMetadata`] record.
pub ghost struct MediaMetadataView {
    pub title: Option<Seq<char>>,
    pub series: Option<Seq<char>>,
    pub writers: Option<Seq<char>>,
    pub publisher: Option<Seq<char>>,
}

impl MediaMetadataView {
    /// The text stored under `field`, if any.
    pub open spec fn text(self, field: MetadataField) -> Option<Seq<char>> {
        match field {
            MetadataField::Title => self.title,
            MetadataField::Series => self.series,
            MetadataField::Writers => self.writers,
            MetadataField::Publisher => self.publisher,
        }
    }
}

impl View for MediaMetadata {
    type V = MediaMetadataView;

    open spec fn view(&self) -> MediaMetadataView {
        MediaMetadataView {
            title: self.title.deep_view(),
            series: self.series.deep_view(),
            writers: self.writers.deep_view(),
            publisher: self.publisher.deep_view(),
        }
    }
}

impl DeepView for MediaMetadata {
    type V = MediaMetadataView;

    open spec fn deep_view(&self) -> MediaMetadataView {
        self@
    }
}

impl MediaMetadata {
    /// The text stored under `field`, if any.
    pub fn text(&self, field: MetadataField) -> (text: &Option<String>)
        ensures
            text.deep_view() == self@.text(field),
    {
        match field {
            MetadataField::Title => &self.title,
            MetadataField::Series => &self.series,
            MetadataField::Writers => &self.writers,
            MetadataField::Publisher => &self.publisher,
        }
    }
}

impl Clone for MediaMetadata {
    fn clone(&self) -> (copy: MediaMetadata)
        ensures
            copy == *self,
    {
        MediaMetadata {
            title: self.title.clone(),
            series: self.series.clone(),
            writers: self.writers.clone(),
            publisher: self.publisher.clone(),
        }
    }
}

/// A single library item with the metadata record it owns.
#[derive(Debug, PartialEq, Eq)]
pub struct Media {
    pub id: String,
    pub metadata: MediaMetadata,
}

/// The mathematical content of a [`Media`] item.
pub ghost struct MediaView {
    pub id: Seq<char>,
    pub metadata: MediaMetadataView,
}

impl View for Media {
    type V = MediaView;

    open spec fn view(&self) -> MediaView {
        MediaView { id: self.id@, metadata: self.metadata@ }
    }
}

impl DeepView for Media {
    type V = MediaView;

    open spec fn deep_view(&self) -> MediaView {
        self@
    }
}

impl Clone for Media {
    fn clone(&self) -> (copy: Media)
        ensures
            copy == *self,
    {
        Media { id: self.id.clone(), metadata: self.metadata.clone() }
    }
}

} // verus!
