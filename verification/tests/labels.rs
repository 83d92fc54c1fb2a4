use todoist_core::colors::Colors;
use todoist_core::labels::{Label, LabelBuilder};

#[test]
fn labels_error_test() {
    match LabelBuilder::default().build() {
        Ok(_) => panic!("Label with no name should fail"),
        Err(value) => assert_eq!(value, "Label must have a name."),
    }

    LabelBuilder::default().name("Foo bar").build().unwrap();
}

#[test]
fn label_create_test() {
    let expected = Label {
        id: None,
        name: String::from("Foo bar"),
        color: Colors::default(),
        item_order: 0,
        is_deleted: false,
        is_favorite: false,
    };

    let actual = Label::builder().name("Foo bar").build().unwrap();

    assert_eq!(actual, expected);
}

#[test]
fn label_update_test() {
    let mut expected = Label {
        id: Some(1),
        name: String::from("Foo bar"),
        color: Colors::default(),
        item_order: 0,
        is_deleted: false,
        is_favorite: false,
    };

    let actual = Label::builder().id(1).name("Foo bar").build().unwrap();

    assert_eq!(actual, expected);

    let mut builder = expected.to_builder().unwrap();
    builder = builder.color(&Colors::BerryRed);

    let actual = builder.build().unwrap();
    assert_ne!(actual, expected);

    expected.color = Colors::BerryRed;
    assert_eq!(actual, expected);
}

#[test]
fn label_derive_no_id_test() {
    let label = Label::builder().name("Foo bar").build().unwrap();
    match label.to_builder() {
        Ok(_) => panic!("Label with no ID should fail when trying to create builder"),
        Err(value) => assert_eq!(value, "Builder from label with no ID not allowed"),
    }
}

#[test]
fn label_field_setters_test() {
    let actual = Label::builder()
        .id(2)
        .name("Foo bar")
        .item_order(5)
        .is_deleted(true)
        .is_favorite(true)
        .build()
        .unwrap();

    assert_eq!(actual.id, Some(2));
    assert_eq!(actual.item_order, 5);
    assert!(actual.is_deleted);
    assert!(actual.is_favorite);

    let derived = actual.to_builder().unwrap().build().unwrap();
    assert_eq!(derived, actual);
}
