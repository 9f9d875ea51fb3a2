use media_graph::error::EngineError;
use media_graph::input::series::{
    FieldMutation, SeriesField, SeriesMetadata, SeriesMetadataInput, SeriesMetadataMutation,
    Taxonomy,
};

fn text(s: &str) -> Option<String> {
    Some(s.to_string())
}

fn stored_record() -> SeriesMetadata {
    SeriesMetadata {
        meta_type: text("comic"),
        title: text("Untitled"),
        summary: text("A summary"),
        publisher: text("DC"),
        imprint: text("Vertigo"),
        external_id: Some(4050),
        volume: Some(1),
        booktype: text("Print"),
        age_rating: Some(17),
        status: text("Continuing"),
    }
}

fn full_input() -> SeriesMetadataInput {
    SeriesMetadataInput {
        meta_type: text("manga"),
        title: text("Akira"),
        summary: text("Neo-Tokyo"),
        publisher: text("Kodansha"),
        imprint: text("Young Magazine"),
        external_id: Some(77),
        volume: Some(6),
        booktype: text("TPB"),
        age_rating: Some(16),
        status: text("Ended"),
    }
}

fn strict_taxonomy() -> Taxonomy {
    Taxonomy {
        meta_type: Some(vec!["comic".to_string(), "manga".to_string()]),
        booktype: Some(vec!["Print".to_string(), "TPB".to_string(), "Digital".to_string()]),
        status: Some(vec!["Continuing".to_string(), "Ended".to_string()]),
    }
}

#[test]
fn watchmen_update_keeps_publisher() {
    let mut record = SeriesMetadata { publisher: text("DC"), ..SeriesMetadata::default() };
    let input = SeriesMetadataInput {
        title: text("Watchmen"),
        status: text("Ended"),
        ..SeriesMetadataInput::default()
    };
    let outcome = record.update(input, &Taxonomy::unconstrained());
    assert_eq!(outcome, Ok(()));
    assert_eq!(
        record,
        SeriesMetadata {
            title: text("Watchmen"),
            status: text("Ended"),
            publisher: text("DC"),
            ..SeriesMetadata::default()
        }
    );
}

#[test]
fn watchmen_update_leaves_other_fields_as_before() {
    let mut record = stored_record();
    let input = SeriesMetadataInput {
        title: text("Watchmen"),
        status: text("Ended"),
        ..SeriesMetadataInput::default()
    };
    assert_eq!(record.update(input, &Taxonomy::unconstrained()), Ok(()));
    assert_eq!(
        record,
        SeriesMetadata { title: text("Watchmen"), status: text("Ended"), ..stored_record() }
    );
}

#[test]
fn supplied_fields_are_tagged_set_and_absent_ones_leave() {
    let input = SeriesMetadataInput {
        title: text("Watchmen"),
        volume: Some(2),
        ..SeriesMetadataInput::default()
    };
    let mutation = input.into_active_model();
    assert_eq!(
        mutation,
        SeriesMetadataMutation {
            meta_type: FieldMutation::Leave,
            title: FieldMutation::SetTo(text("Watchmen")),
            summary: FieldMutation::Leave,
            publisher: FieldMutation::Leave,
            imprint: FieldMutation::Leave,
            external_id: FieldMutation::Leave,
            volume: FieldMutation::SetTo(Some(2)),
            booktype: FieldMutation::Leave,
            age_rating: FieldMutation::Leave,
            status: FieldMutation::Leave,
        }
    );
}

#[test]
fn every_field_of_a_full_input_is_tagged_set() {
    let mutation = full_input().into_active_model();
    assert_eq!(
        mutation,
        SeriesMetadataMutation {
            meta_type: FieldMutation::SetTo(text("manga")),
            title: FieldMutation::SetTo(text("Akira")),
            summary: FieldMutation::SetTo(text("Neo-Tokyo")),
            publisher: FieldMutation::SetTo(text("Kodansha")),
            imprint: FieldMutation::SetTo(text("Young Magazine")),
            external_id: FieldMutation::SetTo(Some(77)),
            volume: FieldMutation::SetTo(Some(6)),
            booktype: FieldMutation::SetTo(text("TPB")),
            age_rating: FieldMutation::SetTo(Some(16)),
            status: FieldMutation::SetTo(text("Ended")),
        }
    );
}

#[test]
fn full_input_overwrites_every_field() {
    let mut record = stored_record();
    assert_eq!(record.update(full_input(), &Taxonomy::unconstrained()), Ok(()));
    assert_eq!(
        record,
        SeriesMetadata {
            meta_type: text("manga"),
            title: text("Akira"),
            summary: text("Neo-Tokyo"),
            publisher: text("Kodansha"),
            imprint: text("Young Magazine"),
            external_id: Some(77),
            volume: Some(6),
            booktype: text("TPB"),
            age_rating: Some(16),
            status: text("Ended"),
        }
    );
}

#[test]
fn empty_input_maps_to_all_leave_and_changes_nothing() {
    let mutation = SeriesMetadataInput::default().into_active_model();
    assert_eq!(
        mutation,
        SeriesMetadataMutation {
            meta_type: FieldMutation::Leave,
            title: FieldMutation::Leave,
            summary: FieldMutation::Leave,
            publisher: FieldMutation::Leave,
            imprint: FieldMutation::Leave,
            external_id: FieldMutation::Leave,
            volume: FieldMutation::Leave,
            booktype: FieldMutation::Leave,
            age_rating: FieldMutation::Leave,
            status: FieldMutation::Leave,
        }
    );
    let mut record = stored_record();
    mutation.apply(&mut record);
    assert_eq!(record, stored_record());
}

#[test]
fn explicit_empty_text_overwrites() {
    let mut record = stored_record();
    let input = SeriesMetadataInput { summary: text(""), ..SeriesMetadataInput::default() };
    assert_eq!(record.update(input, &Taxonomy::unconstrained()), Ok(()));
    assert_eq!(record, SeriesMetadata { summary: text(""), ..stored_record() });
}

#[test]
fn applying_twice_equals_applying_once() {
    let input = SeriesMetadataInput {
        title: text("Watchmen"),
        external_id: Some(18),
        status: text("Ended"),
        ..SeriesMetadataInput::default()
    };
    let mutation = input.into_active_model();
    let mut once = stored_record();
    mutation.apply(&mut once);
    let mut twice = stored_record();
    mutation.apply(&mut twice);
    mutation.apply(&mut twice);
    assert_eq!(once, twice);
    assert_eq!(
        once,
        SeriesMetadata {
            title: text("Watchmen"),
            external_id: Some(18),
            status: text("Ended"),
            ..stored_record()
        }
    );
}

#[test]
fn mutation_can_clear_a_field() {
    let mutation = SeriesMetadataMutation {
        imprint: FieldMutation::SetTo(None),
        age_rating: FieldMutation::SetTo(None),
        ..SeriesMetadataInput::default().into_active_model()
    };
    let mut record = stored_record();
    mutation.apply(&mut record);
    assert_eq!(record, SeriesMetadata { imprint: None, age_rating: None, ..stored_record() });
}

#[test]
fn update_of_a_fresh_record_holds_only_what_was_supplied() {
    let mut record = SeriesMetadata::default();
    let input = SeriesMetadataInput { volume: Some(3), ..SeriesMetadataInput::default() };
    assert_eq!(record.update(input, &Taxonomy::unconstrained()), Ok(()));
    assert_eq!(record, SeriesMetadata { volume: Some(3), ..SeriesMetadata::default() });
}

#[test]
fn fresh_record_is_empty() {
    assert_eq!(
        SeriesMetadata::default(),
        SeriesMetadata {
            meta_type: None,
            title: None,
            summary: None,
            publisher: None,
            imprint: None,
            external_id: None,
            volume: None,
            booktype: None,
            age_rating: None,
            status: None,
        }
    );
}

#[test]
fn unconstrained_taxonomy_accepts_any_text() {
    let input = SeriesMetadataInput {
        meta_type: text("???"),
        booktype: text(""),
        status: text("no such status"),
        ..SeriesMetadataInput::default()
    };
    assert_eq!(input.validate(&Taxonomy::unconstrained()), Ok(()));
}

#[test]
fn values_inside_the_taxonomy_are_accepted() {
    assert_eq!(full_input().validate(&strict_taxonomy()), Ok(()));
    let mutation = full_input().into_active_model_checked(&strict_taxonomy());
    assert_eq!(mutation, Ok(full_input().into_active_model()));
}

#[test]
fn absent_categorical_fields_are_accepted() {
    let input = SeriesMetadataInput { title: text("Akira"), ..SeriesMetadataInput::default() };
    assert_eq!(input.validate(&strict_taxonomy()), Ok(()));
}

#[test]
fn status_outside_the_taxonomy_is_rejected() {
    let input = SeriesMetadataInput { status: text("Paused"), ..full_input() };
    assert_eq!(
        input.validate(&strict_taxonomy()),
        Err(EngineError::InvalidFieldValue { field: SeriesField::Status })
    );
}

#[test]
fn booktype_outside_the_taxonomy_is_rejected() {
    let input = SeriesMetadataInput { booktype: text("Scroll"), ..full_input() };
    assert_eq!(
        input.into_active_model_checked(&strict_taxonomy()),
        Err(EngineError::InvalidFieldValue { field: SeriesField::Booktype })
    );
}

#[test]
fn taxonomy_values_are_compared_exactly() {
    let input = SeriesMetadataInput { status: text("ended"), ..SeriesMetadataInput::default() };
    assert_eq!(
        input.validate(&strict_taxonomy()),
        Err(EngineError::InvalidFieldValue { field: SeriesField::Status })
    );
    let input = SeriesMetadataInput { status: text(""), ..SeriesMetadataInput::default() };
    assert_eq!(
        input.validate(&strict_taxonomy()),
        Err(EngineError::InvalidFieldValue { field: SeriesField::Status })
    );
}

#[test]
fn first_offending_field_is_reported() {
    let input = SeriesMetadataInput {
        meta_type: text("novel"),
        booktype: text("Scroll"),
        status: text("Paused"),
        ..SeriesMetadataInput::default()
    };
    assert_eq!(
        input.validate(&strict_taxonomy()),
        Err(EngineError::InvalidFieldValue { field: SeriesField::MetaType })
    );
    let input = SeriesMetadataInput {
        booktype: text("Scroll"),
        status: text("Paused"),
        ..SeriesMetadataInput::default()
    };
    assert_eq!(
        input.validate(&strict_taxonomy()),
        Err(EngineError::InvalidFieldValue { field: SeriesField::Booktype })
    );
}

#[test]
fn only_constrained_fields_are_checked() {
    let taxonomy =
        Taxonomy { meta_type: None, booktype: None, status: Some(vec!["Ended".to_string()]) };
    let input = SeriesMetadataInput {
        meta_type: text("anything"),
        booktype: text("anything"),
        status: text("Ended"),
        ..SeriesMetadataInput::default()
    };
    assert_eq!(input.validate(&taxonomy), Ok(()));
}

#[test]
fn empty_domain_rejects_every_supplied_value() {
    let taxonomy = Taxonomy { meta_type: None, booktype: None, status: Some(Vec::new()) };
    let input = SeriesMetadataInput { status: text("Ended"), ..SeriesMetadataInput::default() };
    assert_eq!(
        input.validate(&taxonomy),
        Err(EngineError::InvalidFieldValue { field: SeriesField::Status })
    );
    assert_eq!(SeriesMetadataInput::default().validate(&taxonomy), Ok(()));
}

#[test]
fn rejected_update_changes_nothing() {
    let mut record = stored_record();
    let input = SeriesMetadataInput {
        title: text("Watchmen"),
        publisher: text("Titan"),
        status: text("Paused"),
        ..SeriesMetadataInput::default()
    };
    assert_eq!(
        record.update(input, &strict_taxonomy()),
        Err(EngineError::InvalidFieldValue { field: SeriesField::Status })
    );
    assert_eq!(record, stored_record());
}

#[test]
fn accepted_update_under_a_taxonomy_is_applied_whole() {
    let mut record = stored_record();
    let input = SeriesMetadataInput {
        title: text("Watchmen"),
        status: text("Ended"),
        ..SeriesMetadataInput::default()
    };
    assert_eq!(record.update(input, &strict_taxonomy()), Ok(()));
    assert_eq!(
        record,
        SeriesMetadata { title: text("Watchmen"), status: text("Ended"), ..stored_record() }
    );
}

#[test]
fn field_names_are_those_of_the_input() {
    assert_eq!(SeriesField::MetaType.name(), "meta_type");
    assert_eq!(SeriesField::Title.name(), "title");
    assert_eq!(SeriesField::Summary.name(), "summary");
    assert_eq!(SeriesField::Publisher.name(), "publisher");
    assert_eq!(SeriesField::Imprint.name(), "imprint");
    assert_eq!(SeriesField::ExternalId.name(), "external_id");
    assert_eq!(SeriesField::Volume.name(), "volume");
    assert_eq!(SeriesField::Booktype.name(), "booktype");
    assert_eq!(SeriesField::AgeRating.name(), "age_rating");
    assert_eq!(SeriesField::Status.name(), "status");
}

#[test]
fn copies_of_inputs_mutations_and_records_equal_them() {
    assert_eq!(full_input().clone(), full_input());
    assert_eq!(SeriesMetadataInput::default().clone(), SeriesMetadataInput::default());
    assert_eq!(stored_record().clone(), stored_record());
    assert_eq!(strict_taxonomy().clone(), strict_taxonomy());
    assert_eq!(Taxonomy::unconstrained().clone(), Taxonomy::unconstrained());
    let mutation = SeriesMetadataInput {
        title: text("Watchmen"),
        volume: Some(2),
        ..SeriesMetadataInput::default()
    }
    .into_active_model();
    let copy = mutation.clone();
    assert_eq!(copy, mutation);
    assert_eq!(copy.title, FieldMutation::SetTo(text("Watchmen")));
    assert_eq!(copy.volume.clone(), FieldMutation::SetTo(Some(2)));
    assert_eq!(copy.status.clone(), FieldMutation::Leave);
}

#[test]
fn copies_of_errors_equal_them() {
    let invalid = EngineError::InvalidFieldValue { field: SeriesField::Booktype };
    assert_eq!(invalid.clone(), invalid);
    assert_eq!(EngineError::UnauthorizedContext.clone(), EngineError::UnauthorizedContext);
    let failed = EngineError::PersistenceFailure { message: "disk full".to_string() };
    assert_eq!(failed.clone(), failed);
}

#[test]
fn unconstrained_taxonomy_has_no_domain() {
    assert_eq!(
        Taxonomy::unconstrained(),
        Taxonomy { meta_type: None, booktype: None, status: None }
    );
}
