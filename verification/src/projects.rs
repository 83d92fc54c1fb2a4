//! Projects and their staging builder.
//!
//! A committed project always carries a name, and a project marked as the
//! inbox is named exactly `"Inbox"`. Shared projects are unsupported: the
//! `shared` flag is always false and the sync identifier always absent,
//! and any attempt to set them fails.

use vstd::prelude::*;
use crate::colors::Colors;
use crate::text::str_eq;

verus! {

/// Mathematical model of a committed [`Project`].
#[verifier::ext_equal]
pub ghost struct ProjectView {
    pub id: Option<u64>,
    pub name: Seq<char>,
    pub color: Colors,
    pub parent_id: Option<u64>,
    pub child_order: u32,
    pub collapsed: bool,
    pub shared: bool,
    pub sync_id: Option<u64>,
    pub is_deleted: bool,
    pub is_archived: bool,
    pub is_favorite: bool,
    pub inbox_project: bool,
}

/// Mathematical model of a [`ProjectBuilder`].
#[verifier::ext_equal]
pub ghost struct ProjectBuilderView {
    pub id: Option<u64>,
    pub name: Option<Seq<char>>,
    pub color: Option<Colors>,
    pub parent_id: Option<u64>,
    pub child_order: u32,
    pub collapsed: bool,
    pub shared: bool,
    pub sync_id: Option<u64>,
    pub is_deleted: bool,
    pub is_archived: bool,
    pub is_favorite: bool,
    pub inbox_project: bool,
}

impl ProjectBuilderView {
    /// A builder with nothing set.
    pub open spec fn empty() -> ProjectBuilderView {
        ProjectBuilderView {
            id: None,
            name: None,
            color: None,
            parent_id: None,
            child_order: 0,
            collapsed: false,
            shared: false,
            sync_id: None,
            is_deleted: false,
            is_archived: false,
            is_favorite: false,
            inbox_project: false,
        }
    }

    /// The builder after marking the project as the inbox: whatever name
    /// was staged — or none — the staged name becomes `"Inbox"`.
    pub open spec fn with_inbox_project(self, value: bool) -> ProjectBuilderView {
        ProjectBuilderView { name: Some("Inbox"@), inbox_project: value, ..self }
    }

    /// What committing this builder yields: the error for a missing name,
    /// then the error for an inbox project whose staged name is not
    /// `"Inbox"`, else the project, with a missing color defaulting to
    /// `Grey`.
    pub open spec fn spec_build(self) -> Result<ProjectView, Seq<char>> {
        if self.name is None {
            Err("Project has no name."@)
        } else if self.inbox_project && self.name->0 != "Inbox"@ {
            Err("Project is not named 'Inbox' but is marked as inbox project"@)
        } else {
            Ok(
                ProjectView {
                    id: self.id,
                    name: self.name->0,
                    color: match self.color {
                        Some(c) => c,
                        None => Colors::Grey,
                    },
                    parent_id: self.parent_id,
                    child_order: self.child_order,
                    collapsed: self.collapsed,
                    shared: self.shared,
                    sync_id: self.sync_id,
                    is_deleted: self.is_deleted,
                    is_archived: self.is_archived,
                    is_favorite: self.is_favorite,
                    inbox_project: self.inbox_project,
                },
            )
        }
    }
}

impl ProjectView {
    /// The field-consistency rule of a committed project: one marked as
    /// the inbox is named exactly `"Inbox"`.
    pub open spec fn wf(self) -> bool {
        self.inbox_project ==> self.name == "Inbox"@
    }

    /// The staging form this project derives: every field is carried over.
    pub open spec fn spec_to_builder(self) -> ProjectBuilderView {
        ProjectBuilderView {
            id: self.id,
            name: Some(self.name),
            color: Some(self.color),
            parent_id: self.parent_id,
            child_order: self.child_order,
            collapsed: self.collapsed,
            shared: self.shared,
            sync_id: self.sync_id,
            is_deleted: self.is_deleted,
            is_archived: self.is_archived,
            is_favorite: self.is_favorite,
            inbox_project: self.inbox_project,
        }
    }
}

/// A committed project.
///
/// `id` is absent while the project has not been created remotely.
/// `shared` is always false and `sync_id` always absent; a project with
/// `inbox_project` set is named exactly `"Inbox"`.
#[derive(Debug, PartialEq)]
pub struct Project {
    pub id: Option<u64>,
    pub name: String,
    pub color: Colors,
    pub parent_id: Option<u64>,
    pub child_order: u32,
    pub collapsed: bool,
    pub shared: bool,
    pub sync_id: Option<u64>,
    pub is_deleted: bool,
    pub is_archived: bool,
    pub is_favorite: bool,
    pub inbox_project: bool,
}

impl View for Project {
    type V = ProjectView;

    open spec fn view(&self) -> ProjectView {
        ProjectView {
            id: self.id,
            name: self.name@,
            color: self.color,
            parent_id: self.parent_id,
            child_order: self.child_order,
            collapsed: self.collapsed,
            shared: self.shared,
            sync_id: self.sync_id,
            is_deleted: self.is_deleted,
            is_archived: self.is_archived,
            is_favorite: self.is_favorite,
            inbox_project: self.inbox_project,
        }
    }
}

impl Project {
    /// Returns a fresh builder; a `Project` is only made by committing one.
    pub fn builder() -> (r: ProjectBuilder)
        ensures
            r@ == ProjectBuilderView::empty(),
    {
        ProjectBuilder::default()
    }

    /// Returns a builder staged with this project's fields, for editing
    /// it. Fails exactly when the project has no identifier.
    pub fn to_builder(&self) -> (r: Result<ProjectBuilder, &'static str>)
        ensures
            match r {
                Ok(b) => self.id is Some && b@ == self@.spec_to_builder(),
                Err(m) => self.id is None && m@ == "Builder from project with no ID not allowed."@,
            },
    {
        let id = match self.id {
            Some(value) => Some(value),
            None => {
                return Err("Builder from project with no ID not allowed.");
            },
        };
        Ok(
            ProjectBuilder {
                id,
                name: Some(self.name.clone()),
                color: Some(self.color),
                parent_id: self.parent_id,
                child_order: self.child_order,
                collapsed: self.collapsed,
                shared: self.shared,
                sync_id: self.sync_id,
                is_deleted: self.is_deleted,
                is_archived: self.is_archived,
                is_favorite: self.is_favorite,
                inbox_project: self.inbox_project,
            },
        )
    }
}

/// Staging form of a [`Project`].
#[derive(Debug)]
pub struct ProjectBuilder {
    id: Option<u64>,
    name: Option<String>,
    color: Option<Colors>,
    parent_id: Option<u64>,
    child_order: u32,
    collapsed: bool,
    shared: bool,
    sync_id: Option<u64>,
    is_deleted: bool,
    is_archived: bool,
    is_favorite: bool,
    inbox_project: bool,
}

impl View for ProjectBuilder {
    type V = ProjectBuilderView;

    closed spec fn view(&self) -> ProjectBuilderView {
        ProjectBuilderView {
            id: self.id,
            name: self.name.deep_view(),
            color: self.color,
            parent_id: self.parent_id,
            child_order: self.child_order,
            collapsed: self.collapsed,
            shared: self.shared,
            sync_id: self.sync_id,
            is_deleted: self.is_deleted,
            is_archived: self.is_archived,
            is_favorite: self.is_favorite,
            inbox_project: self.inbox_project,
        }
    }
}

impl Default for ProjectBuilder {
    /// A fresh builder has nothing set.
    fn default() -> (r: Self)
        ensures
            r@ == ProjectBuilderView::empty(),
    {
        ProjectBuilder {
            id: None,
            name: None,
            color: None,
            parent_id: None,
            child_order: 0,
            collapsed: false,
            shared: false,
            sync_id: None,
            is_deleted: false,
            is_archived: false,
            is_favorite: false,
            inbox_project: false,
        }
    }
}

impl ProjectBuilder {
    /// Stages the project's identifier; unnecessary for a new project.
    pub fn id(self, value: u64) -> (r: Self)
        ensures
            r@ == (ProjectBuilderView { id: Some(value), ..self@ }),
    {
        ProjectBuilder { id: Some(value), ..self }
    }

    /// Stages the name of the project. Required.
    pub fn name(self, value: &str) -> (r: Self)
        ensures
            r@ == (ProjectBuilderView { name: Some(value@), ..self@ }),
    {
        ProjectBuilder { name: Some(value.to_string()), ..self }
    }

    /// Stages the color of the project icon; unset commits as `Grey`.
    pub fn color(self, value: Colors) -> (r: Self)
        ensures
            r@ == (ProjectBuilderView { color: Some(value), ..self@ }),
    {
        ProjectBuilder { color: Some(value), ..self }
    }

    /// Stages the identifier of the parent project.
    pub fn parent_id(self, value: u64) -> (r: Self)
        ensures
            r@ == (ProjectBuilderView { parent_id: Some(value), ..self@ }),
    {
        ProjectBuilder { parent_id: Some(value), ..self }
    }

    /// Stages the order of the project among the projects with the same
    /// parent.
    pub fn child_order(self, value: u32) -> (r: Self)
        ensures
            r@ == (ProjectBuilderView { child_order: value, ..self@ }),
    {
        ProjectBuilder { child_order: value, ..self }
    }

    /// Stages whether the project's sub-projects are collapsed.
    pub fn collapsed(self, value: bool) -> (r: Self)
        ensures
            r@ == (ProjectBuilderView { collapsed: value, ..self@ }),
    {
        ProjectBuilder { collapsed: value, ..self }
    }

    /// Shared projects are not supported: the call always reports failure
    /// and the builder is discarded.
    pub fn shared(self, value: bool) -> (r: Result<Self, &'static str>)
        ensures
            r matches Err(m) && m@ == "Shared projects not supported."@,
    {
        Err("Shared projects not supported.")
    }

    /// The sync identifier belongs to shared projects, which are not
    /// supported: the call always reports failure and the builder is
    /// discarded.
    pub fn sync_id(self, value: u64) -> (r: Result<Self, &'static str>)
        ensures
            r matches Err(m) && m@ == "Shared projects not supported."@,
    {
        Err("Shared projects not supported.")
    }

    /// Stages whether the project is marked as deleted.
    pub fn is_deleted(self, value: bool) -> (r: Self)
        ensures
            r@ == (ProjectBuilderView { is_deleted: value, ..self@ }),
    {
        ProjectBuilder { is_deleted: value, ..self }
    }

    /// Stages whether the project is marked as archived.
    pub fn is_archived(self, value: bool) -> (r: Self)
        ensures
            r@ == (ProjectBuilderView { is_archived: value, ..self@ }),
    {
        ProjectBuilder { is_archived: value, ..self }
    }

    /// Stages whether the project is marked as favorite.
    pub fn is_favorite(self, value: bool) -> (r: Self)
        ensures
            r@ == (ProjectBuilderView { is_favorite: value, ..self@ }),
    {
        ProjectBuilder { is_favorite: value, ..self }
    }

    /// Marks the project as the inbox: whatever name was staged — or none
    /// — the staged name becomes `"Inbox"`.
    pub fn inbox_project(self, value: bool) -> (r: Self)
        ensures
            r@ == self@.with_inbox_project(value),
    {
        let name = match self.name {
            Some(n) => {
                if !str_eq(n.as_str(), "Inbox") {
                    "Inbox".to_string()
                } else {
                    n
                }
            },
            None => "Inbox".to_string(),
        };
        ProjectBuilder { name: Some(name), inbox_project: value, ..self }
    }

    /// Commits the staged fields into a project. Fails exactly when no
    /// name is staged, or when the project is marked as the inbox but its
    /// staged name is not `"Inbox"`.
    pub fn build(&self) -> (r: Result<Project, &'static str>)
        ensures
            match r {
                Ok(p) => self@.spec_build() == Ok::<ProjectView, Seq<char>>(p@),
                Err(m) => self@.spec_build() == Err::<ProjectView, Seq<char>>(m@),
            },
    {
        let name = match &self.name {
            Some(value) => {
                if self.inbox_project && !str_eq(value.as_str(), "Inbox") {
                    return Err("Project is not named 'Inbox' but is marked as inbox project");
                }
                value.clone()
            },
            None => {
                return Err("Project has no name.");
            },
        };
        Ok(
            Project {
                id: self.id,
                name,
                color: match self.color {
                    Some(value) => value,
                    None => Colors::default(),
                },
                parent_id: self.parent_id,
                child_order: self.child_order,
                collapsed: self.collapsed,
                shared: self.shared,
                sync_id: self.sync_id,
                is_deleted: self.is_deleted,
                is_archived: self.is_archived,
                is_favorite: self.is_favorite,
                inbox_project: self.inbox_project,
            },
        )
    }
}

/// Marking any builder as the inbox stages the name `"Inbox"`, and
/// committing right away succeeds with that name.
pub proof fn lemma_inbox_names_project(b: ProjectBuilderView)
    ensures
        b.with_inbox_project(true).name == Some("Inbox"@),
        b.with_inbox_project(true).spec_build() matches Ok(p) && p.name == "Inbox"@
            && p.inbox_project,
{
}

/// A builder whose staged name differs from `"Inbox"` — as after staging
/// a name over the inbox mark — fails to commit with the inbox-name
/// error.
pub proof fn lemma_inbox_name_mismatch(b: ProjectBuilderView)
    requires
        b.inbox_project,
        b.name matches Some(n) && n != "Inbox"@,
    ensures
        b.spec_build() == Err::<ProjectView, Seq<char>>(
            "Project is not named 'Inbox' but is marked as inbox project"@,
        ),
{
}

/// Every project that leaves a commit satisfies the inbox-name rule.
pub proof fn lemma_project_build_establishes_wf(b: ProjectBuilderView)
    ensures
        b.spec_build() matches Ok(p) ==> p.wf(),
{
}

/// Editing a project with an identifier and committing without changes
/// reproduces the project. A committed project marked as the inbox is
/// named `"Inbox"`, which the derived builder keeps.
pub proof fn lemma_project_round_trip(r: ProjectView)
    requires
        r.id is Some,
        r.wf(),
    ensures
        r.spec_to_builder().spec_build() == Ok::<ProjectView, Seq<char>>(r),
{
    let rebuilt = r.spec_to_builder().spec_build();
    assert(rebuilt matches Ok(v) && v =~= r);
}

} // verus!
