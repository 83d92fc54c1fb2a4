use todoist_core::sections::{Section, SectionBuilder};

#[test]
fn sections_error_test() {
    match SectionBuilder::default().build() {
        Ok(_) => panic!("Section with no name should fail."),
        Err(value) => assert_eq!(value, "Section does not have a name."),
    }

    match SectionBuilder::default().name("Foo").build() {
        Ok(_) => panic!("Section with no project ID should fail."),
        Err(value) => assert_eq!(value, "Section does not have a project ID."),
    }

    match SectionBuilder::default().name("Foo").project_id(1).build() {
        Ok(_) => panic!("Section with no creation date should fail."),
        Err(value) => assert_eq!(value, "Section does not have an added date."),
    }

    SectionBuilder::default().name("Foo").project_id(1).date_added("1999-01-01").build().unwrap();
}

#[test]
fn section_create_test() {
    let expected = Section {
        id: None,
        name: String::from("Foo"),
        project_id: 1,
        section_order: 0,
        collapsed: false,
        is_deleted: false,
        is_archived: false,
        date_archived: None,
        date_added: String::from("1999-01-01"),
    };

    let actual = Section::builder()
        .name("Foo")
        .project_id(1)
        .date_added("1999-01-01")
        .build()
        .unwrap();

    assert_eq!(actual, expected);
}

#[test]
fn section_update_test() {
    let mut expected = Section {
        id: None,
        name: String::from("Foo"),
        project_id: 1,
        section_order: 0,
        collapsed: false,
        is_deleted: false,
        is_archived: false,
        date_archived: None,
        date_added: String::from("1999-01-01"),
    };

    match expected.to_builder() {
        Ok(_) => panic!("Section with no ID should fail when trying to create builder"),
        Err(value) => assert_eq!(value, "Builder from section with no ID not allowed."),
    };

    expected.id = Some(1);

    let mut builder = expected.to_builder().unwrap();
    builder = builder.is_deleted(true);

    let actual = builder.build().unwrap();
    assert_ne!(actual, expected);

    expected.is_deleted = true;
    assert_eq!(actual, expected);
}

#[test]
fn section_archive_test() {
    let mut builder = Section::builder();
    builder = builder.name("Foo").project_id(1).date_added("1999-01-01").is_archived(true);

    match builder.build() {
        Ok(_) => panic!("Building archived section with no archive date should fail."),
        Err(value) => assert_eq!(value, "Section marked as archived with no date."),
    }

    builder = builder.date_archived("2000-01-01");
    builder.build().unwrap();

    builder = builder.is_archived(false);
    builder.build().unwrap();

    builder = builder.date_archived("2000-02-01");
    builder.build().unwrap();
}

#[test]
fn section_archive_clears_date_test() {
    let builder = Section::builder()
        .name("Foo")
        .project_id(1)
        .date_added("1999-01-01")
        .date_archived("2000-01-01");

    let actual = builder.build().unwrap();
    assert!(actual.is_archived);
    assert_eq!(actual.date_archived, Some("2000-01-01".to_string()));

    let builder = actual.to_builder();
    match builder {
        Ok(_) => panic!("Section with no ID should fail when trying to create builder"),
        Err(value) => assert_eq!(value, "Builder from section with no ID not allowed."),
    }

    let builder = Section::builder()
        .name("Foo")
        .project_id(1)
        .date_added("1999-01-01")
        .date_archived("2000-01-01")
        .is_archived(false);

    let actual = builder.build().unwrap();
    assert!(!actual.is_archived);
    assert_eq!(actual.date_archived, None);
}

#[test]
fn section_field_setters_test() {
    let actual = Section::builder()
        .id(4)
        .name("Foo")
        .project_id(1)
        .section_order(7)
        .collapsed(true)
        .date_added("1999-01-01")
        .build()
        .unwrap();

    assert_eq!(actual.id, Some(4));
    assert_eq!(actual.section_order, 7);
    assert!(actual.collapsed);

    let derived = actual.to_builder().unwrap().build().unwrap();
    assert_eq!(derived, actual);
}
