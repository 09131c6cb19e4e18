use display_switch::display_identity::{all_unique, label, DisplayMetadata};

fn meta(
    manufacturer_id: Option<&str>,
    model_name: Option<&str>,
    serial_number: Option<&str>,
    opaque_id: Option<&str>,
) -> DisplayMetadata {
    DisplayMetadata {
        manufacturer_id: manufacturer_id.map(|s| s.to_string()),
        model_name: model_name.map(|s| s.to_string()),
        serial_number: serial_number.map(|s| s.to_string()),
        opaque_id: opaque_id.map(|s| s.to_string()),
    }
}

#[test]
fn label_joins_all_hardware_fields() {
    let m = meta(Some("GSM"), Some("LG HDR 4K"), Some("12345"), None);
    assert_eq!(label(&m, None), "'GSM LG HDR 4K 12345'");
}

#[test]
fn label_omits_missing_fields() {
    let m = meta(Some("GSM"), None, Some("12345"), None);
    assert_eq!(label(&m, None), "'GSM 12345'");
}

#[test]
fn label_treats_empty_fields_as_missing() {
    let m = meta(Some(""), Some("Mon"), Some(""), None);
    assert_eq!(label(&m, None), "'Mon'");
}

#[test]
fn label_falls_back_to_opaque_id() {
    let m = meta(None, None, None, Some("DISPLAY-7"));
    assert_eq!(label(&m, None), "'DISPLAY-7'");
}

#[test]
fn label_prefers_hardware_fields_over_opaque_id() {
    let m = meta(Some("DEL"), None, None, Some("DISPLAY-7"));
    assert_eq!(label(&m, None), "'DEL'");
}

#[test]
fn label_never_fails_on_empty_metadata() {
    let m = meta(None, None, None, None);
    assert_eq!(label(&m, None), "''");
}

#[test]
fn label_appends_ordinal_inside_quotes() {
    let m = meta(Some("GSM"), None, None, None);
    assert_eq!(label(&m, Some(1)), "'GSM #1'");
    assert_eq!(label(&m, Some(12)), "'GSM #12'");
}

#[test]
fn label_ordinal_on_empty_metadata() {
    let m = meta(None, None, None, None);
    assert_eq!(label(&m, Some(3)), "' #3'");
}

#[test]
fn all_unique_false_on_duplicate_labels() {
    let ds = vec![meta(Some("A"), Some("B"), Some("C"), None), meta(Some("A"), Some("B"), Some("C"), None)];
    assert!(!all_unique(&ds));
}

#[test]
fn all_unique_true_on_distinct_labels() {
    let ds = vec![meta(Some("A"), Some("B"), Some("C"), None), meta(Some("D"), Some("E"), Some("F"), None)];
    assert!(all_unique(&ds));
}

#[test]
fn all_unique_on_trivial_collections() {
    let none: Vec<DisplayMetadata> = Vec::new();
    assert!(all_unique(&none));
    let one = vec![meta(None, None, None, Some("X"))];
    assert!(all_unique(&one));
}

#[test]
fn different_fields_can_still_collide() {
    // "A B" as one field and "A" + "B" as two join to the same label.
    let ds = vec![meta(Some("A B"), None, None, None), meta(Some("A"), Some("B"), None, None)];
    assert_eq!(label(&ds[0], None), label(&ds[1], None));
    assert!(!all_unique(&ds));
}

#[test]
fn all_unique_spots_duplicate_among_many() {
    let ds = vec![
        meta(Some("A"), None, None, None),
        meta(Some("B"), None, None, None),
        meta(Some("A"), None, None, None),
    ];
    assert!(!all_unique(&ds));
}
