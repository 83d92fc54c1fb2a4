use todoist_core::colors::Colors;
use todoist_core::projects::{Project, ProjectBuilder};

#[test]
fn projects_error_test() {
    match ProjectBuilder::default().build() {
        Ok(_) => panic!("Project with no name should fail."),
        Err(value) => assert_eq!(value, "Project has no name."),
    }

    ProjectBuilder::default().name("Foo").build().unwrap();
}

#[test]
fn project_create_test() {
    let expected = Project {
        id: Some(1),
        name: String::from("Foo"),
        color: Colors::default(),
        parent_id: None,
        child_order: 0,
        collapsed: false,
        shared: false,
        sync_id: None,
        is_deleted: false,
        is_archived: false,
        is_favorite: false,
        inbox_project: false,
    };

    let actual = Project::builder().id(1).name("Foo").build().unwrap();

    assert_eq!(actual, expected);
}

#[test]
fn project_update_test() {
    let mut expected = Project {
        id: None,
        name: String::from("Foo"),
        color: Colors::default(),
        parent_id: None,
        child_order: 0,
        collapsed: false,
        shared: false,
        sync_id: None,
        is_deleted: false,
        is_archived: false,
        is_favorite: false,
        inbox_project: false,
    };

    let actual = Project::builder().name("Foo").build().unwrap();

    assert_eq!(actual, expected);

    match expected.to_builder() {
        Ok(_) => panic!("`to_builder` with no ID should fail."),
        Err(value) => assert_eq!(value, "Builder from project with no ID not allowed."),
    };

    expected.id = Some(1);

    let mut builder = expected.to_builder().unwrap();
    builder = builder.name("Bar");

    let actual = builder.build().unwrap();
    assert_ne!(actual, expected);

    expected.name = String::from("Bar");
    assert_eq!(actual, expected);
}

#[test]
fn inbox_project_test() {
    ProjectBuilder::default().name("Not inbox").inbox_project(true).build().unwrap();

    match ProjectBuilder::default().inbox_project(true).name("Not inbox").build() {
        Ok(_) => panic!("Project not named 'Inbox' should fail when marked as inbox project"),
        Err(value) => {
            assert_eq!(value, "Project is not named 'Inbox' but is marked as inbox project")
        },
    }
}

#[test]
fn inbox_project_unnamed_test() {
    let actual = ProjectBuilder::default().inbox_project(true).build().unwrap();
    assert_eq!(actual.name, String::from("Inbox"));
    assert!(actual.inbox_project);
}

#[test]
fn unsupported_shared_test() {
    match ProjectBuilder::default().name("Foo").shared(true) {
        Ok(_) => panic!("Shared projects are unsupported and should fail"),
        Err(value) => assert_eq!(value, "Shared projects not supported."),
    }

    match ProjectBuilder::default().name("Foo").sync_id(1) {
        Ok(_) => panic!("Shared projects are unsupported and should fail"),
        Err(value) => assert_eq!(value, "Shared projects not supported."),
    }
}

#[test]
fn project_field_setters_test() {
    let actual = Project::builder()
        .name("Foo")
        .color(Colors::Blue)
        .parent_id(2)
        .child_order(3)
        .collapsed(true)
        .is_deleted(true)
        .is_archived(true)
        .is_favorite(true)
        .build()
        .unwrap();

    assert_eq!(actual.color, Colors::Blue);
    assert_eq!(actual.parent_id, Some(2));
    assert_eq!(actual.child_order, 3);
    assert!(actual.collapsed);
    assert!(actual.is_deleted);
    assert!(actual.is_archived);
    assert!(actual.is_favorite);
    assert!(!actual.shared);
    assert_eq!(actual.sync_id, None);
}
