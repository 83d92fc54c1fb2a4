use todoist_core::dates::DueDate;
use todoist_core::items::{Item, ItemBuilder};
use todoist_core::priority::Priority;

#[test]
fn items_error_test() {
    match ItemBuilder::default().build() {
        Ok(_) => panic!("ItemBuilder with no fields should fail."),
        Err(e) => assert_eq!(e, "Task has no user ID."),
    };

    match ItemBuilder::default().user_id(1).build() {
        Ok(_) => panic!("ItemBuilder with no fields should fail."),
        Err(e) => assert_eq!(e, "Task has no project ID."),
    };

    match ItemBuilder::default().user_id(1).project_id(1).build() {
        Ok(_) => panic!("ItemBuilder with no fields should fail."),
        Err(e) => assert_eq!(e, "Task has no content."),
    };

    match ItemBuilder::default().user_id(1).project_id(1).content("Lorem ipsum").build() {
        Ok(_) => panic!("ItemBuilder with no fields should fail."),
        Err(e) => assert_eq!(e, "Task has no creation date."),
    };

    ItemBuilder::default()
        .user_id(1)
        .project_id(1)
        .content("Lorem ipsum")
        .date_added("1999-01-01")
        .build()
        .unwrap();
}

#[test]
fn new_item_test() {
    let expected = Item {
        id: None,
        user_id: 1,
        project_id: 1,
        content: String::from("Lorem ipsum"),
        description: None,
        due: DueDate::default(),
        priority: Priority::default(),
        parent_id: None,
        child_order: 0,
        section_id: None,
        day_order: 0,
        collapsed: false,
        labels: Vec::new(),
        checked: false,
        is_deleted: false,
        date_completed: None,
        date_added: String::from("1999-01-01"),
    };
    let actual = Item::builder()
        .user_id(1)
        .project_id(1)
        .content("Lorem ipsum")
        .date_added("1999-01-01")
        .build()
        .unwrap();

    assert_eq!(expected, actual)
}

#[test]
fn modified_item_test() {
    let mut base = Item {
        id: None,
        user_id: 1,
        project_id: 1,
        content: String::from("Lorem ipsum"),
        description: None,
        due: DueDate::default(),
        priority: Priority::default(),
        parent_id: None,
        child_order: 0,
        section_id: None,
        day_order: 0,
        collapsed: false,
        labels: Vec::new(),
        checked: false,
        is_deleted: false,
        date_completed: None,
        date_added: String::from("1999-01-01"),
    };

    match base.to_builder() {
        Ok(_) => panic!("Getting builder from Item with no ID should fail."),
        Err(value) => assert_eq!(value, "Builder from Item with no ID not allowed."),
    };

    base.id = Some(1);

    let mut builder = base.to_builder().unwrap();
    let actual = builder.build().unwrap();
    assert_eq!(base, actual);

    builder = builder.content("Dolor sit met");

    let actual = builder.build().unwrap();
    assert_ne!(base, actual);

    base.content = String::from("Dolor sit met");
    assert_eq!(base, actual);
}

#[test]
fn labels_test() {
    let mut base = Item {
        id: Some(1),
        user_id: 1,
        project_id: 1,
        content: String::from("Lorem ipsum"),
        description: None,
        due: DueDate::default(),
        priority: Priority::default(),
        parent_id: None,
        child_order: 0,
        section_id: None,
        day_order: 0,
        collapsed: false,
        labels: Vec::new(),
        checked: false,
        is_deleted: false,
        date_completed: None,
        date_added: String::from("1999-01-01"),
    };

    let mut builder = base.to_builder().unwrap();

    let mut labels: Vec<u64> = Vec::new();
    for i in 1..6 {
        builder = builder.label_add(i);
        labels.push(i);
    }

    let actual = builder.build().unwrap();
    assert_ne!(base, actual);

    base.labels = labels.clone();
    assert_eq!(base, actual);

    builder = builder.label_remove(5);
    labels.pop();

    let actual = builder.build().unwrap();
    assert_ne!(base, actual);

    base.labels = labels.clone();
    assert_eq!(base, actual);

    for i in 1..5 {
        builder = builder.label_remove(i);
        labels.pop();
    }

    let actual = builder.build().unwrap();
    assert_ne!(base, actual);

    base.labels = labels.clone();
    assert_eq!(base, actual);
}

#[test]
fn checked_test() {
    let base = Item {
        id: Some(1),
        user_id: 1,
        project_id: 1,
        content: String::from("Lorem ipsum"),
        description: None,
        due: DueDate::default(),
        priority: Priority::default(),
        parent_id: None,
        child_order: 0,
        section_id: None,
        day_order: 0,
        collapsed: false,
        labels: Vec::new(),
        checked: false,
        is_deleted: false,
        date_completed: None,
        date_added: String::from("1999-01-01"),
    };

    let mut builder = base.to_builder().unwrap();
    builder = builder.checked(true);

    match builder.build() {
        Ok(_) => panic!("Checked item without completed date should fail."),
        Err(value) => assert_eq!(value, "Completed task must have a completion date."),
    };

    builder = builder.date_completed("2000-01-01");
    builder.build().unwrap();
}

#[test]
fn uncompleted_with_date_test() {
    let builder = ItemBuilder::default()
        .user_id(1)
        .project_id(1)
        .content("Lorem ipsum")
        .date_added("1999-01-01")
        .date_completed("2000-01-01");

    match builder.build() {
        Ok(_) => panic!("Unchecked item with completed date should fail."),
        Err(value) => assert_eq!(value, "Uncompleted task can't have a completion date"),
    };

    let builder = builder.checked(true);
    let actual = builder.build().unwrap();
    assert!(actual.checked);
    assert_eq!(actual.date_completed, Some("2000-01-01".to_string()));
}

#[test]
fn label_remove_missing_test() {
    let builder = ItemBuilder::default()
        .user_id(1)
        .project_id(1)
        .content("Lorem ipsum")
        .date_added("1999-01-01")
        .label_add(7)
        .label_remove(9);

    let actual = builder.build().unwrap();
    assert_eq!(actual.labels, vec![7]);

    let builder = ItemBuilder::default()
        .user_id(1)
        .project_id(1)
        .content("Lorem ipsum")
        .date_added("1999-01-01")
        .label_remove(9);

    let actual = builder.build().unwrap();
    assert_eq!(actual.labels, Vec::<u64>::new());
}

#[test]
fn item_field_setters_test() {
    let due = DueDate::builder().no_date(true).build().unwrap();
    let actual = ItemBuilder::default()
        .id(9)
        .user_id(1)
        .project_id(2)
        .content("Lorem ipsum")
        .description("dolor")
        .due(&due)
        .priority(&Priority::P1)
        .parent_id(3)
        .child_order(4)
        .section_id(5)
        .day_order(6)
        .collapsed(true)
        .is_deleted(true)
        .date_added("1999-01-01")
        .build()
        .unwrap();

    assert_eq!(actual.id, Some(9));
    assert_eq!(actual.description, Some("dolor".to_string()));
    assert_eq!(actual.due, due);
    assert_eq!(actual.priority, Priority::P1);
    assert_eq!(actual.parent_id, Some(3));
    assert_eq!(actual.child_order, 4);
    assert_eq!(actual.section_id, Some(5));
    assert_eq!(actual.day_order, 6);
    assert!(actual.collapsed);
    assert!(actual.is_deleted);
}
