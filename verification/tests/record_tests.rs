use mouse_script::record::{decode_fields, encode_fields, Column, FieldError, MouseAction};

fn row(fields: [&str; 7]) -> Vec<String> {
    fields.iter().map(|f| f.to_string()).collect()
}

#[test]
fn full_row_is_decoded() {
    let got = decode_fields(&row(["click", "150", "300", "200", "left", "shift", "1"]));
    assert_eq!(
        got,
        Ok(MouseAction {
            action: "click".to_string(),
            x_position: Some(150),
            y_position: Some(300),
            delay_ms: Some(200),
            button: Some("left".to_string()),
            modifiers: Some("shift".to_string()),
            repeat_count: Some(1),
        })
    );
}

#[test]
fn empty_fields_are_absent() {
    let got = decode_fields(&row(["wait", "", "", "", "", "", ""]));
    assert_eq!(
        got,
        Ok(MouseAction {
            action: "wait".to_string(),
            x_position: None,
            y_position: None,
            delay_ms: None,
            button: None,
            modifiers: None,
            repeat_count: None,
        })
    );
}

#[test]
fn empty_action_is_kept_as_text() {
    let got = decode_fields(&row(["", "1", "2", "", "", "", ""])).unwrap();
    assert_eq!(got.action, "");
    assert_eq!(got.x_position, Some(1));
}

#[test]
fn zero_is_not_absent() {
    let got = decode_fields(&row(["move", "0", "0", "0", "", "", "0"])).unwrap();
    assert_eq!(got.x_position, Some(0));
    assert_eq!(got.y_position, Some(0));
    assert_eq!(got.delay_ms, Some(0));
    assert_eq!(got.repeat_count, Some(0));
}

#[test]
fn negative_coordinates_are_decoded() {
    let got = decode_fields(&row(["move_relative", "50", "-30", "300", "", "", ""])).unwrap();
    assert_eq!(got.x_position, Some(50));
    assert_eq!(got.y_position, Some(-30));
}

#[test]
fn each_numeric_column_reports_itself() {
    assert_eq!(
        decode_fields(&row(["move", "abc", "1", "1", "", "", "1"])),
        Err(FieldError::Invalid(Column::XPosition))
    );
    assert_eq!(
        decode_fields(&row(["move", "1", "1.5", "1", "", "", "1"])),
        Err(FieldError::Invalid(Column::YPosition))
    );
    assert_eq!(
        decode_fields(&row(["move", "1", "1", "-1", "", "", "1"])),
        Err(FieldError::Invalid(Column::DelayMs))
    );
    assert_eq!(
        decode_fields(&row(["move", "1", "1", "1", "", "", "many"])),
        Err(FieldError::Invalid(Column::RepeatCount))
    );
}

#[test]
fn first_bad_column_wins() {
    assert_eq!(
        decode_fields(&row(["move", "1", "y", "z", "", "", "w"])),
        Err(FieldError::Invalid(Column::YPosition))
    );
}

#[test]
fn out_of_range_is_a_field_error() {
    assert_eq!(
        decode_fields(&row(["move", "2147483648", "", "", "", "", ""])),
        Err(FieldError::Invalid(Column::XPosition))
    );
    assert_eq!(
        decode_fields(&row(["move", "", "", "", "", "", "4294967296"])),
        Err(FieldError::Invalid(Column::RepeatCount))
    );
    assert_eq!(
        decode_fields(&row(["move", "", "", "18446744073709551616", "", "", ""])),
        Err(FieldError::Invalid(Column::DelayMs))
    );
}

#[test]
fn wrong_field_count_is_refused() {
    let six: Vec<String> = ["move", "1", "2", "3", "", ""].iter().map(|f| f.to_string()).collect();
    assert_eq!(decode_fields(&six), Err(FieldError::FieldCount));
    let eight: Vec<String> =
        ["move", "1", "2", "3", "", "", "", ""].iter().map(|f| f.to_string()).collect();
    assert_eq!(decode_fields(&eight), Err(FieldError::FieldCount));
    assert_eq!(decode_fields(&Vec::new()), Err(FieldError::FieldCount));
}

#[test]
fn record_is_written_as_seven_fields() {
    let record = MouseAction {
        action: "scroll".to_string(),
        x_position: Some(500),
        y_position: Some(-600),
        delay_ms: Some(200),
        button: None,
        modifiers: Some("down".to_string()),
        repeat_count: Some(5),
    };
    assert_eq!(encode_fields(&record), row(["scroll", "500", "-600", "200", "", "down", "5"]));
}

#[test]
fn absent_values_are_written_empty() {
    let record = MouseAction {
        action: "wait".to_string(),
        x_position: None,
        y_position: None,
        delay_ms: None,
        button: None,
        modifiers: None,
        repeat_count: None,
    };
    assert_eq!(encode_fields(&record), row(["wait", "", "", "", "", "", ""]));
}

#[test]
fn decoding_then_writing_keeps_the_fields() {
    let rows = [
        ["move", "100", "200", "500", "", "", ""],
        ["click", "150", "300", "200", "left", "", "1"],
        ["scroll", "500", "600", "200", "", "down", "5"],
        ["wait", "", "", "2000", "", "", ""],
        ["move_relative", "50", "-30", "300", "", "", ""],
        ["teleport", "-2147483648", "2147483647", "18446744073709551615", "x", "y", "4294967295"],
    ];
    for fields in rows {
        let fields = row(fields);
        let record = decode_fields(&fields).unwrap();
        assert_eq!(encode_fields(&record), fields);
    }
}

#[test]
fn writing_then_decoding_keeps_the_record() {
    let record = MouseAction {
        action: "double_click".to_string(),
        x_position: Some(i32::MIN),
        y_position: Some(i32::MAX),
        delay_ms: Some(u64::MAX),
        button: Some("middle".to_string()),
        modifiers: None,
        repeat_count: Some(u32::MAX),
    };
    assert_eq!(decode_fields(&encode_fields(&record)), Ok(record));
}

#[test]
fn other_spellings_decode_to_the_same_value() {
    let plain = decode_fields(&row(["move", "16", "7", "5", "", "", "2"])).unwrap();
    let fancy = decode_fields(&row(["move", "0x10", "+007", "05", "", "", "+2"])).unwrap();
    assert_eq!(plain, fancy);
    assert_eq!(encode_fields(&fancy), row(["move", "16", "7", "5", "", "", "2"]));
}
