//! Series metadata: the partial-update input, the mutation it maps to, and the
//! record the mutation is applied to.

use vstd::prelude::*;

use crate::error::EngineError;
use crate::text::holds_text;

verus! {

/// The editable attributes of a series metadata record, in declaration order.
#[derive(Debug, Clone, Copy, PartialEq, Eq, Structural)]
pub enum SeriesField {
    MetaType,
    Title,
    Summary,
    Publisher,
    Imprint,
    ExternalId,
    Volume,
    Booktype,
    AgeRating,
    Status,
}

impl SeriesField {
    /// The name under which the attribute is known to callers.
    pub open spec fn name_text(self) -> Seq<char> {
        match self {
            SeriesField::MetaType => "meta_type"@,
            SeriesField::Title => "title"@,
            SeriesField::Summary => "summary"@,
            SeriesField::Publisher => "publisher"@,
            SeriesField::Imprint => "imprint"@,
            SeriesField::ExternalId => "external_id"@,
            SeriesField::Volume => "volume"@,
            SeriesField::Booktype => "booktype"@,
            SeriesField::AgeRating => "age_rating"@,
            SeriesField::Status => "status"@,
        }
    }

    /// The name under which the attribute is known to callers.
    pub fn name(&self) -> (name: &'static str)
        ensures
            name@ == self.name_text(),
    {
        match self {
            SeriesField::MetaType => "meta_type",
            SeriesField::Title => "title",
            SeriesField::Summary => "summary",
            SeriesField::Publisher => "publisher",
            SeriesField::Imprint => "imprint",
            SeriesField::ExternalId => "external_id",
            SeriesField::Volume => "volume",
            SeriesField::Booktype => "booktype",
            SeriesField::AgeRating => "age_rating",
            SeriesField::Status => "status",
        }
    }
}

/// What a mutation does to one attribute: leave the stored value alone, or
/// overwrite it with the value carried. On an optional attribute, `SetTo(None)`
/// clears what was stored.
#[derive(Debug, PartialEq, Eq)]
pub enum FieldMutation<T> {
    Leave,
    SetTo(T),
}

impl<T: Clone> Clone for FieldMutation<T> {
    fn clone(&self) -> (copy: FieldMutation<T>)
        ensures
            self is Leave ==> copy is Leave,
            self is SetTo ==> copy is SetTo && cloned::<T>(self->SetTo_0, copy->SetTo_0),
    {
        match self {
            FieldMutation::Leave => FieldMutation::Leave,
            FieldMutation::SetTo(value) => FieldMutation::SetTo(value.clone()),
        }
    }
}

impl<T: DeepView> DeepView for FieldMutation<T> {
    type V = FieldMutation<T::V>;

    open spec fn deep_view(&self) -> FieldMutation<T::V> {
        match self {
            FieldMutation::Leave => FieldMutation::Leave,
            FieldMutation::SetTo(value) => FieldMutation::SetTo(value.deep_view()),
        }
    }
}

impl<T> FieldMutation<T> {
    /// The stored value after this mutation, given the value stored before.
    pub open spec fn resolve(self, stored: T) -> T {
        match self {
            FieldMutation::Leave => stored,
            FieldMutation::SetTo(value) => value,
        }
    }
}

/// The mutation that an optional input value asks for: none where the value is
/// absent, an overwrite with the value where it is present.
pub open spec fn mutation_of<T>(supplied: Option<T>) -> FieldMutation<Option<T>> {
    match supplied {
        Some(value) => FieldMutation::SetTo(Some(value)),
        None => FieldMutation::Leave,
    }
}

/// What an attribute holds after an input was applied: the supplied value where
/// there is one, else what was stored.
pub open spec fn supplied_or<T>(supplied: Option<T>, stored: Option<T>) -> Option<T> {
    if supplied is Some {
        supplied
    } else {
        stored
    }
}

/// A partial update of a series metadata record. An attribute left `None` is
/// not part of the update; one that is `Some`, an empty text included, is.
#[derive(Debug, PartialEq, Eq)]
pub struct SeriesMetadataInput {
    pub meta_type: Option<String>,
    pub title: Option<String>,
    pub summary: Option<String>,
    pub publisher: Option<String>,
    pub imprint: Option<String>,
    pub external_id: Option<i32>,
    pub volume: Option<i32>,
    pub booktype: Option<String>,
    pub age_rating: Option<i32>,
    pub status: Option<String>,
}

/// The mathematical content of a [`SeriesMetadataInput`].
pub ghost struct SeriesMetadataInputView {
    pub meta_type: Option<Seq<char>>,
    pub title: Option<Seq<char>>,
    pub summary: Option<Seq<char>>,
    pub publisher: Option<Seq<char>>,
    pub imprint: Option<Seq<char>>,
    pub external_id: Option<i32>,
    pub volume: Option<i32>,
    pub booktype: Option<Seq<char>>,
    pub age_rating: Option<i32>,
    pub status: Option<Seq<char>>,
}

impl View for SeriesMetadataInput {
    type V = SeriesMetadataInputView;

    open spec fn view(&self) -> SeriesMetadataInputView {
        SeriesMetadataInputView {
            meta_type: self.meta_type.deep_view(),
            title: self.title.deep_view(),
            summary: self.summary.deep_view(),
            publisher: self.publisher.deep_view(),
            imprint: self.imprint.deep_view(),
            external_id: self.external_id,
            volume: self.volume,
            booktype: self.booktype.deep_view(),
            age_rating: self.age_rating,
            status: self.status.deep_view(),
        }
    }
}

impl Clone for SeriesMetadataInput {
    fn clone(&self) -> (copy: SeriesMetadataInput)
        ensures
            copy@ == self@,
    {
        SeriesMetadataInput {
            meta_type: self.meta_type.clone(),
            title: self.title.clone(),
            summary: self.summary.clone(),
            publisher: self.publisher.clone(),
            imprint: self.imprint.clone(),
            external_id: self.external_id.clone(),
            volume: self.volume.clone(),
            booktype: self.booktype.clone(),
            age_rating: self.age_rating.clone(),
            status: self.status.clone(),
        }
    }
}

/// A mutation of a series metadata record: one instruction per attribute.
#[derive(Debug, PartialEq, Eq)]
pub struct SeriesMetadataMutation {
    pub meta_type: FieldMutation<Option<String>>,
    pub title: FieldMutation<Option<String>>,
    pub summary: FieldMutation<Option<String>>,
    pub publisher: FieldMutation<Option<String>>,
    pub imprint: FieldMutation<Option<String>>,
    pub external_id: FieldMutation<Option<i32>>,
    pub volume: FieldMutation<Option<i32>>,
    pub booktype: FieldMutation<Option<String>>,
    pub age_rating: FieldMutation<Option<i32>>,
    pub status: FieldMutation<Option<String>>,
}

/// The mathematical content of a [`SeriesMetadataMutation`].
pub ghost struct SeriesMetadataMutationView {
    pub meta_type: FieldMutation<Option<Seq<char>>>,
    pub title: FieldMutation<Option<Seq<char>>>,
    pub summary: FieldMutation<Option<Seq<char>>>,
    pub publisher: FieldMutation<Option<Seq<char>>>,
    pub imprint: FieldMutation<Option<Seq<char>>>,
    pub external_id: FieldMutation<Option<i32>>,
    pub volume: FieldMutation<Option<i32>>,
    pub booktype: FieldMutation<Option<Seq<char>>>,
    pub age_rating: FieldMutation<Option<i32>>,
    pub status: FieldMutation<Option<Seq<char>>>,
}

impl View for SeriesMetadataMutation {
    type V = SeriesMetadataMutationView;

    open spec fn view(&self) -> SeriesMetadataMutationView {
        SeriesMetadataMutationView {
            meta_type: self.meta_type.deep_view(),
            title: self.title.deep_view(),
            summary: self.summary.deep_view(),
            publisher: self.publisher.deep_view(),
            imprint: self.imprint.deep_view(),
            external_id: self.external_id.deep_view(),
            volume: self.volume.deep_view(),
            booktype: self.booktype.deep_view(),
            age_rating: self.age_rating.deep_view(),
            status: self.status.deep_view(),
        }
    }
}

/// Copies one text instruction.
fn copy_text_instruction(instruction: &FieldMutation<Option<String>>) -> (copy: FieldMutation<
    Option<String>,
>)
    ensures
        copy == *instruction,
{
    match instruction {
        FieldMutation::Leave => FieldMutation::Leave,
        FieldMutation::SetTo(value) => FieldMutation::SetTo(value.clone()),
    }
}

/// Copies one number instruction.
fn copy_number_instruction(instruction: &FieldMutation<Option<i32>>) -> (copy: FieldMutation<
    Option<i32>,
>)
    ensures
        copy == *instruction,
{
    match instruction {
        FieldMutation::Leave => FieldMutation::Leave,
        FieldMutation::SetTo(value) => FieldMutation::SetTo(*value),
    }
}

impl Clone for SeriesMetadataMutation {
    fn clone(&self) -> (copy: SeriesMetadataMutation)
        ensures
            copy@ == self@,
    {
        SeriesMetadataMutation {
            meta_type: copy_text_instruction(&self.meta_type),
            title: copy_text_instruction(&self.title),
            summary: copy_text_instruction(&self.summary),
            publisher: copy_text_instruction(&self.publisher),
            imprint: copy_text_instruction(&self.imprint),
            external_id: copy_number_instruction(&self.external_id),
            volume: copy_number_instruction(&self.volume),
            booktype: copy_text_instruction(&self.booktype),
            age_rating: copy_number_instruction(&self.age_rating),
            status: copy_text_instruction(&self.status),
        }
    }
}

impl SeriesMetadataInputView {
    /// No attribute is part of the update.
    pub open spec fn supplies_nothing(self) -> bool {
        &&& self.meta_type is None
        &&& self.title is None
        &&& self.summary is None
        &&& self.publisher is None
        &&& self.imprint is None
        &&& self.external_id is None
        &&& self.volume is None
        &&& self.booktype is None
        &&& self.age_rating is None
        &&& self.status is None
    }

    /// The mutation this input stands for: every supplied attribute is set,
    /// every other one is left.
    pub open spec fn mutation(self) -> SeriesMetadataMutationView {
        SeriesMetadataMutationView {
            meta_type: mutation_of(self.meta_type),
            title: mutation_of(self.title),
            summary: mutation_of(self.summary),
            publisher: mutation_of(self.publisher),
            imprint: mutation_of(self.imprint),
            external_id: mutation_of(self.external_id),
            volume: mutation_of(self.volume),
            booktype: mutation_of(self.booktype),
            age_rating: mutation_of(self.age_rating),
            status: mutation_of(self.status),
        }
    }
}

/// A stored series metadata record. Every attribute may be empty.
#[derive(Debug, PartialEq, Eq)]
pub struct SeriesMetadata {
    pub meta_type: Option<String>,
    pub title: Option<String>,
    pub summary: Option<String>,
    pub publisher: Option<String>,
    pub imprint: Option<String>,
    pub external_id: Option<i32>,
    pub volume: Option<i32>,
    pub booktype: Option<String>,
    pub age_rating: Option<i32>,
    pub status: Option<String>,
}

/// The mathematical content of a [`SeriesMetadata`] record.
pub ghost struct SeriesMetadataView {
    pub meta_type: Option<Seq<char>>,
    pub title: Option<Seq<char>>,
    pub summary: Option<Seq<char>>,
    pub publisher: Option<Seq<char>>,
    pub imprint: Option<Seq<char>>,
    pub external_id: Option<i32>,
    pub volume: Option<i32>,
    pub booktype: Option<Seq<char>>,
    pub age_rating: Option<i32>,
    pub status: Option<Seq<char>>,
}

impl View for SeriesMetadata {
    type V = SeriesMetadataView;

    open spec fn view(&self) -> SeriesMetadataView {
        SeriesMetadataView {
            meta_type: self.meta_type.deep_view(),
            title: self.title.deep_view(),
            summary: self.summary.deep_view(),
            publisher: self.publisher.deep_view(),
            imprint: self.imprint.deep_view(),
            external_id: self.external_id,
            volume: self.volume,
            booktype: self.booktype.deep_view(),
            age_rating: self.age_rating,
            status: self.status.deep_view(),
        }
    }
}

impl Clone for SeriesMetadata {
    fn clone(&self) -> (copy: SeriesMetadata)
        ensures
            copy@ == self@,
    {
        SeriesMetadata {
            meta_type: self.meta_type.clone(),
            title: self.title.clone(),
            summary: self.summary.clone(),
            publisher: self.publisher.clone(),
            imprint: self.imprint.clone(),
            external_id: self.external_id.clone(),
            volume: self.volume.clone(),
            booktype: self.booktype.clone(),
            age_rating: self.age_rating.clone(),
            status: self.status.clone(),
        }
    }
}

impl SeriesMetadataView {
    /// The record in which no attribute holds a value.
    pub open spec fn empty() -> SeriesMetadataView {
        SeriesMetadataView {
            meta_type: None,
            title: None,
            summary: None,
            publisher: None,
            imprint: None,
            external_id: None,
            volume: None,
            booktype: None,
            age_rating: None,
            status: None,
        }
    }
}

impl SeriesMetadataMutationView {
    /// The mutation that touches nothing.
    pub open spec fn all_leave() -> SeriesMetadataMutationView {
        SeriesMetadataMutationView {
            meta_type: FieldMutation::Leave,
            title: FieldMutation::Leave,
            summary: FieldMutation::Leave,
            publisher: FieldMutation::Leave,
            imprint: FieldMutation::Leave,
            external_id: FieldMutation::Leave,
            volume: FieldMutation::Leave,
            booktype: FieldMutation::Leave,
            age_rating: FieldMutation::Leave,
            status: FieldMutation::Leave,
        }
    }

    /// The record that results from applying this mutation to `record`.
    pub open spec fn applied_to(self, record: SeriesMetadataView) -> SeriesMetadataView {
        SeriesMetadataView {
            meta_type: self.meta_type.resolve(record.meta_type),
            title: self.title.resolve(record.title),
            summary: self.summary.resolve(record.summary),
            publisher: self.publisher.resolve(record.publisher),
            imprint: self.imprint.resolve(record.imprint),
            external_id: self.external_id.resolve(record.external_id),
            volume: self.volume.resolve(record.volume),
            booktype: self.booktype.resolve(record.booktype),
            age_rating: self.age_rating.resolve(record.age_rating),
            status: self.status.resolve(record.status),
        }
    }
}

/// Carries out one text instruction on one stored attribute.
fn write_text(instruction: &FieldMutation<Option<String>>, stored: &mut Option<String>)
    ensures
        final(stored).deep_view() == instruction.deep_view().resolve(old(stored).deep_view()),
{
    match instruction {
        FieldMutation::Leave => {},
        FieldMutation::SetTo(value) => {
            *stored = value.clone();
        },
    }
}

/// Carries out one number instruction on one stored attribute.
fn write_number(instruction: &FieldMutation<Option<i32>>, stored: &mut Option<i32>)
    ensures
        *final(stored) == instruction.resolve(*old(stored)),
{
    match instruction {
        FieldMutation::Leave => {},
        FieldMutation::SetTo(value) => {
            *stored = *value;
        },
    }
}

impl SeriesMetadataMutation {
    /// Applies the mutation to `record`: every attribute tagged `SetTo` takes the
    /// value carried, every attribute tagged `Leave` keeps what it held.
    pub fn apply(&self, record: &mut SeriesMetadata)
        ensures
            final(record)@ == self@.applied_to(old(record)@),
    {
        write_text(&self.meta_type, &mut record.meta_type);
        write_text(&self.title, &mut record.title);
        write_text(&self.summary, &mut record.summary);
        write_text(&self.publisher, &mut record.publisher);
        write_text(&self.imprint, &mut record.imprint);
        write_number(&self.external_id, &mut record.external_id);
        write_number(&self.volume, &mut record.volume);
        write_text(&self.booktype, &mut record.booktype);
        write_number(&self.age_rating, &mut record.age_rating);
        write_text(&self.status, &mut record.status);
    }
}

impl SeriesMetadata {
    /// Applies `input` to this record, or nothing at all: an input that fails
    /// the taxonomy leaves every attribute as it was.
    pub fn update(&mut self, input: SeriesMetadataInput, taxonomy: &Taxonomy) -> (outcome: Result<
        (),
        EngineError,
    >)
        ensures
            match input@.first_invalid(taxonomy@) {
                Some(field) => {
                    &&& outcome == Err::<(), EngineError>(EngineError::InvalidFieldValue { field })
                    &&& final(self)@ == old(self)@
                },
                None => {
                    &&& outcome is Ok
                    &&& final(self)@ == input@.mutation().applied_to(old(self)@)
                },
            },
    {
        match input.into_active_model_checked(taxonomy) {
            Err(error) => Err(error),
            Ok(mutation) => {
                mutation.apply(self);
                Ok(())
            },
        }
    }
}

impl Default for SeriesMetadata {
    /// A fresh record: no attribute holds a value.
    fn default() -> (record: SeriesMetadata)
        ensures
            record@ == SeriesMetadataView::empty(),
    {
        SeriesMetadata {
            meta_type: None,
            title: None,
            summary: None,
            publisher: None,
            imprint: None,
            external_id: None,
            volume: None,
            booktype: None,
            age_rating: None,
            status: None,
        }
    }
}

impl Default for SeriesMetadataInput {
    /// The input that supplies nothing.
    fn default() -> (input: SeriesMetadataInput)
        ensures
            input@.mutation() == SeriesMetadataMutationView::all_leave(),
            input@.supplies_nothing(),
    {
        SeriesMetadataInput {
            meta_type: None,
            title: None,
            summary: None,
            publisher: None,
            imprint: None,
            external_id: None,
            volume: None,
            booktype: None,
            age_rating: None,
            status: None,
        }
    }
}

/// The values that the categorical attributes may take. An attribute whose
/// domain is `None` is unconstrained; one whose domain is `Some` accepts the
/// listed values only, compared exactly.
#[derive(Debug, PartialEq, Eq)]
pub struct Taxonomy {
    pub meta_type: Option<Vec<String>>,
    pub booktype: Option<Vec<String>>,
    pub status: Option<Vec<String>>,
}

/// The mathematical content of a [`Taxonomy`].
pub ghost struct TaxonomyView {
    pub meta_type: Option<Seq<Seq<char>>>,
    pub booktype: Option<Seq<Seq<char>>>,
    pub status: Option<Seq<Seq<char>>>,
}

impl View for Taxonomy {
    type V = TaxonomyView;

    open spec fn view(&self) -> TaxonomyView {
        TaxonomyView {
            meta_type: self.meta_type.deep_view(),
            booktype: self.booktype.deep_view(),
            status: self.status.deep_view(),
        }
    }
}

/// Copies one domain.
fn copy_domain(domain: &Option<Vec<String>>) -> (copy: Option<Vec<String>>)
    ensures
        copy.deep_view() == domain.deep_view(),
{
    match domain {
        Some(allowed) => {
            let mut copy: Vec<String> = Vec::new();
            for i in 0..allowed.len()
                invariant
                    copy.deep_view() == allowed.deep_view().take(i as int),
            {
                let ghost before = copy.deep_view();
                copy.push(allowed[i].clone());
                assert(copy.deep_view() =~= before.push(allowed[i as int]@));
            }
            assert(allowed.deep_view().take(allowed.len() as int) =~= allowed.deep_view());
            Some(copy)
        },
        None => None,
    }
}

impl Clone for Taxonomy {
    fn clone(&self) -> (copy: Taxonomy)
        ensures
            copy@ == self@,
    {
        Taxonomy {
            meta_type: copy_domain(&self.meta_type),
            booktype: copy_domain(&self.booktype),
            status: copy_domain(&self.status),
        }
    }
}

impl TaxonomyView {
    /// The taxonomy that constrains nothing.
    pub open spec fn unconstrained() -> TaxonomyView {
        TaxonomyView { meta_type: None, booktype: None, status: None }
    }
}

impl Taxonomy {
    /// The taxonomy that constrains nothing: every text is accepted for every
    /// categorical attribute.
    pub fn unconstrained() -> (taxonomy: Taxonomy)
        ensures
            taxonomy@ == TaxonomyView::unconstrained(),
    {
        Taxonomy { meta_type: None, booktype: None, status: None }
    }
}

/// A supplied value passes a domain unless the domain is set, the value is
/// supplied, and the value is not among the allowed ones.
pub open spec fn domain_admits(
    domain: Option<Seq<Seq<char>>>,
    supplied: Option<Seq<char>>,
) -> bool {
    match (domain, supplied) {
        (Some(allowed), Some(value)) => allowed.contains(value),
        _ => true,
    }
}

impl SeriesMetadataInputView {
    /// The first categorical attribute, in declaration order, whose supplied
    /// value lies outside its domain.
    pub open spec fn first_invalid(self, taxonomy: TaxonomyView) -> Option<SeriesField> {
        if !domain_admits(taxonomy.meta_type, self.meta_type) {
            Some(SeriesField::MetaType)
        } else if !domain_admits(taxonomy.booktype, self.booktype) {
            Some(SeriesField::Booktype)
        } else if !domain_admits(taxonomy.status, self.status) {
            Some(SeriesField::Status)
        } else {
            None
        }
    }
}

/// Tests one supplied value against one domain.
fn admits(domain: &Option<Vec<String>>, supplied: &Option<String>) -> (ok: bool)
    ensures
        ok == domain_admits(domain.deep_view(), supplied.deep_view()),
{
    match domain {
        Some(allowed) => match supplied {
            Some(value) => holds_text(allowed, value),
            None => true,
        },
        None => true,
    }
}

/// Tags one input value: `Some` becomes an overwrite, `None` leaves the
/// attribute alone.
fn tag<T: DeepView>(supplied: Option<T>) -> (m: FieldMutation<Option<T>>)
    ensures
        m.deep_view() == mutation_of(supplied.deep_view()),
{
    match supplied {
        Some(value) => FieldMutation::SetTo(Some(value)),
        None => FieldMutation::Leave,
    }
}

impl SeriesMetadataInput {
    /// Maps the input onto a mutation: each supplied attribute is tagged
    /// `SetTo`, each absent one `Leave`. No taxonomy is consulted; this is the
    /// mapping that [`Self::into_active_model_checked`] makes of a valid input.
    pub fn into_active_model(self) -> (m: SeriesMetadataMutation)
        ensures
            m@ == self@.mutation(),
    {
        SeriesMetadataMutation {
            meta_type: tag(self.meta_type),
            title: tag(self.title),
            summary: tag(self.summary),
            publisher: tag(self.publisher),
            imprint: tag(self.imprint),
            external_id: tag(self.external_id),
            volume: tag(self.volume),
            booktype: tag(self.booktype),
            age_rating: tag(self.age_rating),
            status: tag(self.status),
        }
    }

    /// Checks the categorical attributes against `taxonomy`. The error names the
    /// first offending attribute in declaration order.
    pub fn validate(&self, taxonomy: &Taxonomy) -> (outcome: Result<(), EngineError>)
        ensures
            outcome == match self@.first_invalid(taxonomy@) {
                Some(field) => Err::<(), EngineError>(EngineError::InvalidFieldValue { field }),
                None => Ok::<(), EngineError>(()),
            },
    {
        if !admits(&taxonomy.meta_type, &self.meta_type) {
            Err(EngineError::InvalidFieldValue { field: SeriesField::MetaType })
        } else if !admits(&taxonomy.booktype, &self.booktype) {
            Err(EngineError::InvalidFieldValue { field: SeriesField::Booktype })
        } else if !admits(&taxonomy.status, &self.status) {
            Err(EngineError::InvalidFieldValue { field: SeriesField::Status })
        } else {
            Ok(())
        }
    }

    /// Maps the input onto a mutation after checking it against `taxonomy`.
    /// An input with a categorical value outside its domain yields no mutation.
    pub fn into_active_model_checked(self, taxonomy: &Taxonomy) -> (outcome: Result<
        SeriesMetadataMutation,
        EngineError,
    >)
        ensures
            match self@.first_invalid(taxonomy@) {
                Some(field) => outcome == Err::<SeriesMetadataMutation, EngineError>(
                    EngineError::InvalidFieldValue { field },
                ),
                None => outcome is Ok && outcome->Ok_0@ == self@.mutation(),
            },
    {
        match self.validate(taxonomy) {
            Err(error) => Err(error),
            Ok(()) => Ok(self.into_active_model()),
        }
    }
}

/// Applying the mutation of an input gives, attribute by attribute, the
/// supplied value where the input supplies one and the stored value where it
/// does not. Applying it once more changes nothing.
pub proof fn lemma_input_overwrites_exactly_what_it_supplies(
    input: SeriesMetadataInputView,
    record: SeriesMetadataView,
)
    ensures
        ({
            let after = input.mutation().applied_to(record);
            &&& after.meta_type == supplied_or(input.meta_type, record.meta_type)
            &&& after.title == supplied_or(input.title, record.title)
            &&& after.summary == supplied_or(input.summary, record.summary)
            &&& after.publisher == supplied_or(input.publisher, record.publisher)
            &&& after.imprint == supplied_or(input.imprint, record.imprint)
            &&& after.external_id == supplied_or(input.external_id, record.external_id)
            &&& after.volume == supplied_or(input.volume, record.volume)
            &&& after.booktype == supplied_or(input.booktype, record.booktype)
            &&& after.age_rating == supplied_or(input.age_rating, record.age_rating)
            &&& after.status == supplied_or(input.status, record.status)
            &&& input.mutation().applied_to(after) == after
        }),
{
}

/// Applying a mutation twice leaves the record as applying it once does.
pub proof fn lemma_apply_is_idempotent(
    mutation: SeriesMetadataMutationView,
    record: SeriesMetadataView,
)
    ensures
        mutation.applied_to(mutation.applied_to(record)) == mutation.applied_to(record),
{
}

/// An input that supplies nothing maps to the mutation that leaves every
/// attribute, and applying that mutation changes no record.
pub proof fn lemma_empty_input_changes_nothing(
    input: SeriesMetadataInputView,
    record: SeriesMetadataView,
)
    requires
        input.supplies_nothing(),
    ensures
        input.mutation() == SeriesMetadataMutationView::all_leave(),
        input.mutation().applied_to(record) == record,
{
}

/// Under the taxonomy that constrains nothing, every input is valid.
pub proof fn lemma_unconstrained_accepts_all(input: SeriesMetadataInputView)
    ensures
        input.first_invalid(TaxonomyView::unconstrained()) is None,
{
}

} // verus!
