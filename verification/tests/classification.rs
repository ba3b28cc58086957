use sheet_frame::{dispatch, into_cell_value, CellError, CellValues, Date, Dispatch, RawCell};

fn integer(number: i64) -> RawCell {
    RawCell { int: Some(number), ..RawCell::default() }
}

fn float(number: f64) -> RawCell {
    RawCell { float: Some(number.to_bits()), ..RawCell::default() }
}

fn text(content: &str) -> RawCell {
    RawCell { text: Some(content.to_string()), ..RawCell::default() }
}

fn boolean(value: bool) -> RawCell {
    RawCell { boolean: Some(value), ..RawCell::default() }
}

fn empty() -> RawCell {
    RawCell { empty: true, ..RawCell::default() }
}

fn error(mark: CellError) -> RawCell {
    RawCell { error: Some(mark), ..RawCell::default() }
}

#[test]
fn an_integer_cell_becomes_an_integer() {
    assert_eq!(into_cell_value(&integer(5)), Some(CellValues::Int(5)));
}

#[test]
fn a_float_cell_becomes_a_float() {
    assert_eq!(into_cell_value(&float(5.5)), Some(CellValues::Float(5.5f64.to_bits())));
    match into_cell_value(&float(5.5)) {
        Some(CellValues::Float(bits)) => assert_eq!(f64::from_bits(bits), 5.5),
        other => panic!("not a float: {:?}", other),
    }
}

#[test]
fn a_text_cell_becomes_a_text() {
    assert_eq!(into_cell_value(&text("hi")), Some(CellValues::Text("hi".to_string())));
}

#[test]
fn an_empty_cell_has_no_value() {
    assert_eq!(into_cell_value(&empty()), None);
}

#[test]
fn a_boolean_cell_becomes_its_text() {
    assert_eq!(into_cell_value(&boolean(true)), Some(CellValues::Text("true".to_string())));
    assert_eq!(into_cell_value(&boolean(false)), Some(CellValues::Text("false".to_string())));
}

#[test]
fn a_cell_with_an_error_mark_has_no_value() {
    assert_eq!(into_cell_value(&error(CellError::Div0)), None);
    assert_eq!(into_cell_value(&error(CellError::NA)), None);
    assert_eq!(dispatch(&error(CellError::Ref)), Dispatch::Error);
}

#[test]
fn a_cell_that_answers_no_probe_has_no_value() {
    assert_eq!(into_cell_value(&RawCell::default()), None);
    assert_eq!(dispatch(&RawCell::default()), Dispatch::Unrecognized);
}

#[test]
fn a_date_and_time_cell_is_not_settled_by_the_dispatch() {
    let raw = RawCell { date_time: Some(45943.541f64.to_bits()), ..RawCell::default() };
    assert_eq!(into_cell_value(&raw), None);
    assert_eq!(dispatch(&raw), Dispatch::Unrecognized);
}

#[test]
fn integers_at_the_edges_of_32_bits_are_kept() {
    assert_eq!(into_cell_value(&integer(i32::MAX as i64)), Some(CellValues::Int(i32::MAX)));
    assert_eq!(into_cell_value(&integer(i32::MIN as i64)), Some(CellValues::Int(i32::MIN)));
    assert_eq!(into_cell_value(&integer(0)), Some(CellValues::Int(0)));
    assert_eq!(into_cell_value(&integer(-1)), Some(CellValues::Int(-1)));
}

#[test]
fn an_integer_past_32_bits_with_no_other_answer_is_dropped() {
    assert_eq!(into_cell_value(&integer(i32::MAX as i64 + 1)), None);
    assert_eq!(into_cell_value(&integer(i32::MIN as i64 - 1)), None);
    assert_eq!(into_cell_value(&integer(i64::MAX)), None);
    assert_eq!(into_cell_value(&integer(i64::MIN)), None);
    assert_eq!(dispatch(&integer(i64::MAX)), Dispatch::Unrecognized);
}

#[test]
fn an_integer_past_32_bits_gives_way_to_the_later_probes() {
    let with_float = RawCell { int: Some(1 << 40), float: Some(2.5f64.to_bits()), ..RawCell::default() };
    assert_eq!(into_cell_value(&with_float), Some(CellValues::Float(2.5f64.to_bits())));
    let with_text = RawCell { int: Some(1 << 40), text: Some("big".to_string()), ..RawCell::default() };
    assert_eq!(into_cell_value(&with_text), Some(CellValues::Text("big".to_string())));
    let with_empty = RawCell { int: Some(1 << 40), empty: true, ..RawCell::default() };
    assert_eq!(dispatch(&with_empty), Dispatch::Empty);
}

#[test]
fn the_first_probe_that_answers_wins() {
    let all = RawCell {
        int: Some(1),
        float: Some(2.0f64.to_bits()),
        text: Some("three".to_string()),
        boolean: Some(true),
        empty: true,
        error: Some(CellError::Value),
        date_time: Some(4.0f64.to_bits()),
    };
    assert_eq!(dispatch(&all), Dispatch::Integer);
    assert_eq!(into_cell_value(&all), Some(CellValues::Int(1)));

    let no_int = RawCell { int: None, ..all.clone() };
    assert_eq!(dispatch(&no_int), Dispatch::Float);
    assert_eq!(into_cell_value(&no_int), Some(CellValues::Float(2.0f64.to_bits())));

    let no_float = RawCell { float: None, ..no_int.clone() };
    assert_eq!(dispatch(&no_float), Dispatch::Text);
    assert_eq!(into_cell_value(&no_float), Some(CellValues::Text("three".to_string())));

    let no_text = RawCell { text: None, ..no_float.clone() };
    assert_eq!(dispatch(&no_text), Dispatch::Boolean);
    assert_eq!(into_cell_value(&no_text), Some(CellValues::Text("true".to_string())));

    let no_bool = RawCell { boolean: None, ..no_text.clone() };
    assert_eq!(dispatch(&no_bool), Dispatch::Empty);
    assert_eq!(into_cell_value(&no_bool), None);

    let not_empty = RawCell { empty: false, ..no_bool.clone() };
    assert_eq!(dispatch(&not_empty), Dispatch::Error);
    assert_eq!(into_cell_value(&not_empty), None);

    let no_error = RawCell { error: None, ..not_empty.clone() };
    assert_eq!(dispatch(&no_error), Dispatch::Unrecognized);
    assert_eq!(into_cell_value(&no_error), None);
}

#[test]
fn the_dispatch_names_each_kind() {
    assert_eq!(dispatch(&integer(5)), Dispatch::Integer);
    assert_eq!(dispatch(&float(5.5)), Dispatch::Float);
    assert_eq!(dispatch(&text("hi")), Dispatch::Text);
    assert_eq!(dispatch(&boolean(false)), Dispatch::Boolean);
    assert_eq!(dispatch(&empty()), Dispatch::Empty);
}

#[test]
fn a_float_keeps_every_bit() {
    for number in [0.0f64, -0.0, 5.5, f64::MAX, f64::MIN_POSITIVE, f64::INFINITY, f64::NEG_INFINITY] {
        assert_eq!(into_cell_value(&float(number)), Some(CellValues::Float(number.to_bits())));
    }
    let nan = f64::NAN.to_bits();
    let raw = RawCell { float: Some(nan), ..RawCell::default() };
    assert_eq!(into_cell_value(&raw), Some(CellValues::Float(nan)));
}

#[test]
fn a_text_is_copied_as_it_is() {
    for content in ["", " ", "hi", "5", "true", "héllo wörld", "日本語", "line\nbreak"] {
        assert_eq!(into_cell_value(&text(content)), Some(CellValues::Text(content.to_string())));
    }
}

#[test]
fn cell_values_are_made_from_plain_values() {
    assert_eq!(CellValues::from(7), CellValues::Int(7));
    assert_eq!(CellValues::from(String::from("seven")), CellValues::Text("seven".to_string()));
    assert_eq!(CellValues::from("seven"), CellValues::Text("seven".to_string()));
    let date = Date { year: 2000, month: 2, day: 4 };
    assert_eq!(CellValues::Date(date), CellValues::Date(Date { year: 2000, month: 2, day: 4 }));
}
