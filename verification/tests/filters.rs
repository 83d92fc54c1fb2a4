use todoist_core::colors::Colors;
use todoist_core::filters::{Filter, FilterBuilder};

#[test]
fn filters_error_test() {
    match FilterBuilder::default().build() {
        Ok(_) => panic!("Builder with no ID, name, or query should fail"),
        Err(value) => assert_eq!(value, "No name set for filter"),
    }

    match FilterBuilder::default().id(1).build() {
        Ok(_) => panic!("Builder with no ID, name, or query should fail"),
        Err(value) => assert_eq!(value, "No name set for filter"),
    }

    match FilterBuilder::default().id(1).name("foo").build() {
        Ok(_) => panic!("Builder with no ID, name, or query should fail"),
        Err(value) => assert_eq!(value, "No query set for filter"),
    }

    let expected = Filter {
        id: Some(1),
        name: String::from("foo"),
        query: String::from("bar"),
        color: Colors::default(),
        item_order: 0,
        is_deleted: false,
        is_favorite: false,
    };

    let actual = FilterBuilder::default().id(1).name("foo").query("bar").build().unwrap();
    assert_eq!(actual, expected);
}

#[test]
fn simple_test() {
    let expected = Filter {
        id: Some(1),
        name: String::from("foo"),
        query: String::from("bar"),
        color: Colors::Red,
        item_order: 0,
        is_deleted: false,
        is_favorite: false,
    };
    let actual = FilterBuilder::default()
        .id(1)
        .name("foo")
        .query("bar")
        .color(Colors::Red)
        .build()
        .unwrap();

    assert_eq!(actual, expected)
}

#[test]
fn filter_field_setters_test() {
    let actual = Filter::builder()
        .name("foo")
        .query("bar")
        .item_order(3)
        .is_deleted(true)
        .is_favorite(true)
        .build()
        .unwrap();

    assert_eq!(actual.id, None);
    assert_eq!(actual.item_order, 3);
    assert!(actual.is_deleted);
    assert!(actual.is_favorite);
}
