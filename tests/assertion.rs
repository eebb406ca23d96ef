use antithesis_sdk::assertion::{AssertType, AssertionInfo};
use antithesis_sdk::gate::{Catalog, EmissionGate};
use serde_json::Value;

fn details(color: &str, extent: u64) -> Value {
    let mut m = serde_json::Map::new();
    m.insert("color".to_owned(), Value::String(color.to_owned()));
    m.insert("extent".to_owned(), Value::from(extent));
    Value::Object(m)
}

#[test]
fn new_assertion_info_always() {
    let this_assert_type = AssertType::Always;
    let this_display_type = "Always";
    let this_condition = true;
    let this_message = "Always message";
    let this_class = "binary::always";
    let this_function = "binary::always::always_function";
    let this_file = "/home/user/binary/src/always_binary.rs";
    let this_begin_line = 10;
    let this_begin_column = 5;
    let this_hit = true;
    let this_must_hit = true;
    let this_id = "ID Always message";
    let this_details = details("always red", 15);

    let ai = AssertionInfo::new(
        this_assert_type,
        this_display_type.to_owned(),
        this_condition,
        this_message.to_owned(),
        this_class.to_owned(),
        this_function.to_owned(),
        this_file.to_owned(),
        this_begin_line,
        this_begin_column,
        this_hit,
        this_must_hit,
        this_id.to_owned(),
        &this_details,
    );
    assert_eq!(ai.display_type.as_str(), this_display_type);
    assert_eq!(ai.condition, this_condition);
    assert_eq!(ai.message.as_str(), this_message);
    assert_eq!(ai.location.class.as_str(), this_class);
    assert_eq!(ai.location.function.as_str(), this_function);
    assert_eq!(ai.location.file.as_str(), this_file);
    assert_eq!(ai.location.begin_line, this_begin_line);
    assert_eq!(ai.location.begin_column, this_begin_column);
    assert_eq!(ai.hit, this_hit);
    assert_eq!(ai.must_hit, this_must_hit);
    assert_eq!(ai.id.as_str(), this_id);
    assert_eq!(ai.details, this_details);
}

#[test]
fn new_assertion_info_sometimes() {
    let this_assert_type = AssertType::Sometimes;
    let this_display_type = "Sometimes";
    let this_condition = true;
    let this_message = "Sometimes message";
    let this_class = "binary::sometimes";
    let this_function = "binary::sometimes::sometimes_function";
    let this_file = "/home/user/binary/src/sometimes_binary.rs";
    let this_begin_line = 11;
    let this_begin_column = 6;
    let this_hit = true;
    let this_must_hit = true;
    let this_id = "ID Sometimes message";
    let this_details = details("sometimes red", 17);

    let ai = AssertionInfo::new(
        this_assert_type,
        this_display_type.to_owned(),
        this_condition,
        this_message.to_owned(),
        this_class.to_owned(),
        this_function.to_owned(),
        this_file.to_owned(),
        this_begin_line,
        this_begin_column,
        this_hit,
        this_must_hit,
        this_id.to_owned(),
        &this_details,
    );
    assert_eq!(ai.display_type.as_str(), this_display_type);
    assert_eq!(ai.condition, this_condition);
    assert_eq!(ai.message.as_str(), this_message);
    assert_eq!(ai.location.class.as_str(), this_class);
    assert_eq!(ai.location.function.as_str(), this_function);
    assert_eq!(ai.location.file.as_str(), this_file);
    assert_eq!(ai.location.begin_line, this_begin_line);
    assert_eq!(ai.location.begin_column, this_begin_column);
    assert_eq!(ai.hit, this_hit);
    assert_eq!(ai.must_hit, this_must_hit);
    assert_eq!(ai.id.as_str(), this_id);
    assert_eq!(ai.details, this_details);
}

#[test]
fn new_assertion_info_reachable() {
    let this_assert_type = AssertType::Reachability;
    let this_display_type = "Reachable";
    let this_condition = true;
    let this_message = "Reachable message";
    let this_class = "binary::reachable";
    let this_function = "binary::reachable::reachable_function";
    let this_file = "/home/user/binary/src/reachable_binary.rs";
    let this_begin_line = 12;
    let this_begin_column = 7;
    let this_hit = true;
    let this_must_hit = true;
    let this_id = "ID Reachable message";
    let this_details = details("reachable red", 19);

    let ai = AssertionInfo::new(
        this_assert_type,
        this_display_type.to_owned(),
        this_condition,
        this_message.to_owned(),
        this_class.to_owned(),
        this_function.to_owned(),
        this_file.to_owned(),
        this_begin_line,
        this_begin_column,
        this_hit,
        this_must_hit,
        this_id.to_owned(),
        &this_details,
    );
    assert_eq!(ai.display_type.as_str(), this_display_type);
    assert_eq!(ai.condition, this_condition);
    assert_eq!(ai.message.as_str(), this_message);
    assert_eq!(ai.location.class.as_str(), this_class);
    assert_eq!(ai.location.function.as_str(), this_function);
    assert_eq!(ai.location.file.as_str(), this_file);
    assert_eq!(ai.location.begin_line, this_begin_line);
    assert_eq!(ai.location.begin_column, this_begin_column);
    assert_eq!(ai.hit, this_hit);
    assert_eq!(ai.must_hit, this_must_hit);
    assert_eq!(ai.id.as_str(), this_id);
    assert_eq!(ai.details, this_details);
}

#[test]
fn assert_impl_pass() {
    let this_assert_type = AssertType::Always;
    let this_display_type = "Always";
    let this_condition = true;
    let this_message = "Always message 2";
    let this_class = "binary::always";
    let this_function = "binary::always::always_function";
    let this_file = "/home/user/binary/src/always_binary.rs";
    let this_begin_line = 10;
    let this_begin_column = 5;
    let this_hit = true;
    let this_must_hit = true;
    let this_id = "ID Always message 2";
    let this_details = details("always red", 15);

    let mut gate = EmissionGate::new(Catalog::new());
    let before_tracker = gate.tracking_info(&this_id.to_owned());

    let _ = gate.evaluate(AssertionInfo::new(
        this_assert_type,
        this_display_type.to_owned(),
        this_condition,
        this_message.to_owned(),
        this_class.to_owned(),
        this_function.to_owned(),
        this_file.to_owned(),
        this_begin_line,
        this_begin_column,
        this_hit,
        this_must_hit,
        this_id.to_owned(),
        &this_details,
    ));

    let after_tracker = gate.tracking_info(&this_id.to_owned());

    if this_condition {
        assert_eq!(before_tracker.pass_count + 1, after_tracker.pass_count);
        assert_eq!(before_tracker.fail_count, after_tracker.fail_count);
    } else {
        assert_eq!(before_tracker.fail_count + 1, after_tracker.fail_count);
        assert_eq!(before_tracker.pass_count, after_tracker.pass_count);
    };
}

#[test]
fn assert_impl_fail() {
    let this_assert_type = AssertType::Always;
    let this_display_type = "Always";
    let this_condition = false;
    let this_message = "Always message 3";
    let this_class = "binary::always";
    let this_function = "binary::always::always_function";
    let this_file = "/home/user/binary/src/always_binary.rs";
    let this_begin_line = 10;
    let this_begin_column = 5;
    let this_hit = true;
    let this_must_hit = true;
    let this_id = "ID Always message 3";
    let this_details = details("always red", 15);

    let mut gate = EmissionGate::new(Catalog::new());
    let before_tracker = gate.tracking_info(&this_id.to_owned());

    let _ = gate.evaluate(AssertionInfo::new(
        this_assert_type,
        this_display_type.to_owned(),
        this_condition,
        this_message.to_owned(),
        this_class.to_owned(),
        this_function.to_owned(),
        this_file.to_owned(),
        this_begin_line,
        this_begin_column,
        this_hit,
        this_must_hit,
        this_id.to_owned(),
        &this_details,
    ));

    let after_tracker = gate.tracking_info(&this_id.to_owned());

    if this_condition {
        assert_eq!(before_tracker.pass_count + 1, after_tracker.pass_count);
        assert_eq!(before_tracker.fail_count, after_tracker.fail_count);
    } else {
        assert_eq!(before_tracker.fail_count + 1, after_tracker.fail_count);
        assert_eq!(before_tracker.pass_count, after_tracker.pass_count);
    };
}
