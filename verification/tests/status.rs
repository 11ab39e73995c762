use mini_tracker::status::Status;

#[test]
fn wire_names_are_lower_case() {
    assert_eq!(Status::Unassembled.as_str(), "unassembled");
    assert_eq!(Status::Assembled.as_str(), "assembled");
    assert_eq!(Status::Painted.as_str(), "painted");
}

#[test]
fn labels_are_capitalised() {
    assert_eq!(Status::Unassembled.label(), "Unassembled");
    assert_eq!(Status::Assembled.label(), "Assembled");
    assert_eq!(Status::Painted.label(), "Painted");
}

#[test]
fn all_lists_the_three_in_order() {
    assert_eq!(Status::all(), [Status::Unassembled, Status::Assembled, Status::Painted]);
}

#[test]
fn every_wire_name_reads_back() {
    for status in Status::all() {
        assert_eq!(Status::from_str(status.as_str()), Ok(status));
    }
}

#[test]
fn other_texts_are_no_status() {
    for text in ["broken", "", "Painted", "painted ", "paint", "unassembledx", "assembled\n"] {
        assert_eq!(Status::from_str(text), Err(()));
    }
}

#[test]
fn labels_are_no_wire_names() {
    for status in Status::all() {
        assert_eq!(Status::from_str(status.label()), Err(()));
    }
}
