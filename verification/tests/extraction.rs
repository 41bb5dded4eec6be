use invoice_intake::extract::{record_from_matches, Extractor, FieldEvent, PatternSet};
use invoice_intake::record::{published_fields, Field, InvoiceRecord};

fn extractor() -> Extractor {
    Extractor::standard().expect("the recognised patterns compile")
}

fn text(value: &str) -> Option<String> {
    Some(value.to_string())
}

#[test]
fn invoice_number_alone_leaves_the_rest_absent() {
    let record = extractor().extract("Invoice number/Αριθμός τιμολογίου: 12345");
    assert_eq!(
        record,
        InvoiceRecord {
            invoice_number: text("12345"),
            period_start: None,
            period_end: None,
            due_date: None,
        }
    );
    assert!(!record.is_complete());
}

#[test]
fn all_patterns_give_a_complete_record() {
    let document = "Λογαριασμός\nΓια την περίοδο 01 Ιανουαρίου 2024 - 31 Ιανουαρίου 2024\n\
                    Πληρωτέο μέχρι 15/02/2024\nInvoice number/Αριθμός τιμολογίου: 987\n";
    let record = extractor().extract(document);
    assert_eq!(
        record,
        InvoiceRecord {
            invoice_number: text("987"),
            period_start: text("01 Ιανουαρίου 2024"),
            period_end: text("31 Ιανουαρίου 2024"),
            due_date: text("15/02/2024"),
        }
    );
    assert!(record.is_complete());
}

#[test]
fn text_without_any_pattern_gives_the_absent_record() {
    let record = extractor().extract("nothing of interest: 12345, 01/01/2024");
    assert_eq!(record, InvoiceRecord::absent());
    assert!(!record.is_complete());
}

#[test]
fn empty_text_is_not_an_error() {
    let record = extractor().extract("");
    assert_eq!(record, InvoiceRecord::absent());
}

#[test]
fn garbled_text_yields_fewer_fields() {
    let record = extractor().extract("\u{fffd}\u{0}Πληρωτέο μέχρι 01/03/2024\u{fffd}\u{fffd}");
    assert_eq!(record.due_date, text("01/03/2024"));
    assert_eq!(record.invoice_number, None);
    assert!(!record.has(Field::PeriodStart));
    assert!(!record.has(Field::PeriodEnd));
}

#[test]
fn invoice_number_keeps_its_bracketed_sub_index() {
    let record = extractor().extract("Invoice number/Αριθμός τιμολογίου: 4410[27] ");
    assert_eq!(record.invoice_number, text("4410[27]"));
}

#[test]
fn unclosed_bracket_falls_back_to_the_digits() {
    let record = extractor().extract("Invoice number/Αριθμός τιμολογίου: 4410[27");
    assert_eq!(record.invoice_number, text("4410"));
}

#[test]
fn only_the_first_match_counts() {
    let document = "Invoice number/Αριθμός τιμολογίου: 1\nInvoice number/Αριθμός τιμολογίου: 2\n\
                    Πληρωτέο μέχρι 01/01/2024 Πληρωτέο μέχρι 02/02/2024";
    let record = extractor().extract(document);
    assert_eq!(record.invoice_number, text("1"));
    assert_eq!(record.due_date, text("01/01/2024"));
}

#[test]
fn matching_is_case_sensitive() {
    let record = extractor().extract("invoice number/αριθμός τιμολογίου: 12345");
    assert_eq!(record.invoice_number, None);
}

#[test]
fn matching_is_diacritic_sensitive() {
    let record = extractor().extract("Πληρωτεο μεχρι 15/02/2024");
    assert_eq!(record.due_date, None);
}

#[test]
fn period_is_found_whole_or_not_at_all() {
    let record = extractor().extract("Για την περίοδο 01 Ιανουαρίου 2024 - ");
    assert_eq!(record.period_start, None);
    assert_eq!(record.period_end, None);
}

#[test]
fn ill_formed_due_date_is_not_found() {
    let record = extractor().extract("Πληρωτέο μέχρι 5/2/2024");
    assert_eq!(record.due_date, None);
}

#[test]
fn record_from_matches_takes_the_period_only_in_full() {
    let record = record_from_matches(
        Some(vec!["7".to_string()]),
        Some(vec!["01 May 2024".to_string()]),
        Some(vec!["09/06/2024".to_string()]),
    );
    assert_eq!(
        record,
        InvoiceRecord {
            invoice_number: text("7"),
            period_start: None,
            period_end: None,
            due_date: text("09/06/2024"),
        }
    );
}

#[test]
fn record_from_matches_orders_the_period() {
    let record = record_from_matches(
        None,
        Some(vec!["01 May 2024".to_string(), "31 May 2024".to_string()]),
        Some(vec![]),
    );
    assert_eq!(
        record,
        InvoiceRecord {
            invoice_number: None,
            period_start: text("01 May 2024"),
            period_end: text("31 May 2024"),
            due_date: None,
        }
    );
}

#[test]
fn standard_set_declares_the_published_patterns() {
    let set = PatternSet::standard();
    assert_eq!(set.invoice_number.name, "invoice number");
    assert_eq!(
        set.invoice_number.expression,
        r"Invoice number/Αριθμός τιμολογίου: (\d+\[\d+\]|\d+)"
    );
    assert_eq!(set.invoice_number.groups, vec![1]);
    assert_eq!(set.period.name, "period");
    assert_eq!(
        set.period.expression,
        r"Για την περίοδο (\d{2} \w+ \d{4}) - (\d{2} \w+ \d{4})"
    );
    assert_eq!(set.period.groups, vec![1, 2]);
    assert_eq!(set.due_date.name, "date due");
    assert_eq!(set.due_date.expression, r"Πληρωτέο μέχρι (\d{2}/\d{2}/\d{4})");
    assert_eq!(set.due_date.groups, vec![1]);
}

#[test]
fn compiled_set_keeps_the_declarations() {
    let compiled = extractor();
    let set = PatternSet::standard();
    let invoice_number = compiled.pattern_for(Field::InvoiceNumber);
    assert_eq!(invoice_number.name(), set.invoice_number.name);
    assert_eq!(invoice_number.expression(), set.invoice_number.expression);
    assert_eq!(invoice_number.field_count(), 1);
    assert_eq!(compiled.pattern_for(Field::PeriodStart).expression(), set.period.expression);
    assert_eq!(compiled.pattern_for(Field::PeriodEnd).field_count(), 2);
    assert_eq!(compiled.pattern_for(Field::DueDate).expression(), set.due_date.expression);
    assert_eq!(compiled.pattern_for(Field::DueDate).field_count(), 1);
}

#[test]
fn fields_are_published_in_column_order() {
    assert_eq!(
        published_fields(),
        vec![Field::InvoiceNumber, Field::PeriodStart, Field::PeriodEnd, Field::DueDate]
    );
}

#[test]
fn each_field_has_its_pattern() {
    let compiled = extractor();
    assert_eq!(compiled.pattern_for(Field::InvoiceNumber).name(), "invoice number");
    assert_eq!(compiled.pattern_for(Field::PeriodStart).name(), "period");
    assert_eq!(compiled.pattern_for(Field::PeriodEnd).name(), "period");
    assert_eq!(compiled.pattern_for(Field::DueDate).name(), "date due");
}

#[test]
fn events_flag_each_field() {
    let compiled = extractor();
    let record = compiled.extract("Invoice number/Αριθμός τιμολογίου: 12345");
    let event = |field: Field, pattern: &str, found: bool| FieldEvent {
        field,
        pattern: pattern.to_string(),
        found,
    };
    assert_eq!(
        compiled.events(&record),
        vec![
            event(Field::InvoiceNumber, "invoice number", true),
            event(Field::PeriodStart, "period", false),
            event(Field::PeriodEnd, "period", false),
            event(Field::DueDate, "date due", false),
        ]
    );
    let full = InvoiceRecord {
        invoice_number: text("1"),
        period_start: text("a"),
        period_end: text("b"),
        due_date: text("c"),
    };
    assert!(compiled.events(&full).iter().all(|event| event.found));
    assert!(compiled.events(&InvoiceRecord::absent()).iter().all(|event| !event.found));
}
