use invoice_intake::record::{Field, InvoiceRecord};

const FIELDS: [Field; 4] =
    [Field::InvoiceNumber, Field::PeriodStart, Field::PeriodEnd, Field::DueDate];

fn complete() -> InvoiceRecord {
    InvoiceRecord {
        invoice_number: Some("987".to_string()),
        period_start: Some("01 Ιανουαρίου 2024".to_string()),
        period_end: Some("31 Ιανουαρίου 2024".to_string()),
        due_date: Some("15/02/2024".to_string()),
    }
}

#[test]
fn complete_record_is_accepted() {
    assert!(complete().is_complete());
    for field in FIELDS {
        assert!(complete().has(field));
    }
}

#[test]
fn absent_record_is_rejected() {
    let record = InvoiceRecord::absent();
    assert!(!record.is_complete());
    for field in FIELDS {
        assert!(!record.has(field));
    }
}

#[test]
fn adding_a_found_field_keeps_acceptance() {
    for field in FIELDS {
        let record = complete().with_field(field, "again".to_string());
        assert!(record.is_complete());
    }
}

#[test]
fn removing_any_field_rejects() {
    for field in FIELDS {
        let record = complete().without_field(field);
        assert!(!record.is_complete());
        assert!(!record.has(field));
        for other in FIELDS {
            if other != field {
                assert!(record.has(other));
            }
        }
    }
}

#[test]
fn every_proper_subset_is_rejected() {
    for mask in 0u8..15 {
        let mut record = InvoiceRecord::absent();
        for (bit, field) in FIELDS.iter().enumerate() {
            if mask & (1 << bit) != 0 {
                record = record.with_field(*field, "x".to_string());
            }
        }
        assert!(!record.is_complete());
    }
}

#[test]
fn with_field_changes_only_that_field() {
    let record = InvoiceRecord::absent().with_field(Field::PeriodEnd, "31 May 2024".to_string());
    assert_eq!(
        record,
        InvoiceRecord {
            invoice_number: None,
            period_start: None,
            period_end: Some("31 May 2024".to_string()),
            due_date: None,
        }
    );
    assert_eq!(record.without_field(Field::PeriodEnd), InvoiceRecord::absent());
}

#[test]
fn empty_text_counts_as_present() {
    let record = complete().with_field(Field::DueDate, String::new());
    assert!(record.is_complete());
}
