//! Sections and their staging builder.
//!
//! A committed section always carries a name, a project and a creation
//! date, and its archived flag agrees with the presence of an archive
//! date. The setters keep the two coupled — clearing the flag clears the
//! date, staging a date sets the flag — and commit re-checks both
//! directions independently.

use vstd::prelude::*;
use crate::text::clone_opt_string;

verus! {

/// Mathematical model of a committed [`Section`].
#[verifier::ext_equal]
pub ghost struct SectionView {
    pub id: Option<u64>,
    pub name: Seq<char>,
    pub project_id: u64,
    pub section_order: u32,
    pub collapsed: bool,
    pub is_deleted: bool,
    pub is_archived: bool,
    pub date_archived: Option<Seq<char>>,
    pub date_added: Seq<char>,
}

/// Mathematical model of a [`SectionBuilder`].
#[verifier::ext_equal]
pub ghost struct SectionBuilderView {
    pub id: Option<u64>,
    pub name: Option<Seq<char>>,
    pub project_id: Option<u64>,
    pub section_order: u32,
    pub collapsed: bool,
    pub is_deleted: bool,
    pub is_archived: bool,
    pub date_archived: Option<Seq<char>>,
    pub date_added: Option<Seq<char>>,
}

impl SectionBuilderView {
    /// A builder with nothing set.
    pub open spec fn empty() -> SectionBuilderView {
        SectionBuilderView {
            id: None,
            name: None,
            project_id: None,
            section_order: 0,
            collapsed: false,
            is_deleted: false,
            is_archived: false,
            date_archived: None,
            date_added: None,
        }
    }

    /// The builder after setting the archived flag: turning archival off
    /// clears any staged archive date.
    pub open spec fn with_is_archived(self, value: bool) -> SectionBuilderView {
        SectionBuilderView {
            is_archived: value,
            date_archived: if value {
                self.date_archived
            } else {
                None
            },
            ..self
        }
    }

    /// The builder after staging an archive date, which forces the
    /// archived flag on.
    pub open spec fn with_date_archived(self, value: Seq<char>) -> SectionBuilderView {
        SectionBuilderView { is_archived: true, date_archived: Some(value), ..self }
    }

    /// What committing this builder yields. The checks run in a fixed
    /// order — name, project, the archived flag without a date, a date
    /// without the archived flag, creation date — and the first violation
    /// is reported.
    pub open spec fn spec_build(self) -> Result<SectionView, Seq<char>> {
        if self.name is None {
            Err("Section does not have a name."@)
        } else if self.project_id is None {
            Err("Section does not have a project ID."@)
        } else if self.is_archived && self.date_archived is None {
            Err("Section marked as archived with no date."@)
        } else if self.date_archived is Some && !self.is_archived {
            Err("Section has archive date but not marked as archived."@)
        } else if self.date_added is None {
            Err("Section does not have an added date."@)
        } else {
            Ok(
                SectionView {
                    id: self.id,
                    name: self.name->0,
                    project_id: self.project_id->0,
                    section_order: self.section_order,
                    collapsed: self.collapsed,
                    is_deleted: self.is_deleted,
                    is_archived: self.is_archived,
                    date_archived: self.date_archived,
                    date_added: self.date_added->0,
                },
            )
        }
    }
}

impl SectionView {
    /// The field-consistency rule of a committed section: the archived
    /// flag agrees with the presence of an archive date.
    pub open spec fn wf(self) -> bool {
        self.is_archived <==> self.date_archived is Some
    }

    /// The staging form this section derives: every field is carried over.
    pub open spec fn spec_to_builder(self) -> SectionBuilderView {
        SectionBuilderView {
            id: self.id,
            name: Some(self.name),
            project_id: Some(self.project_id),
            section_order: self.section_order,
            collapsed: self.collapsed,
            is_deleted: self.is_deleted,
            is_archived: self.is_archived,
            date_archived: self.date_archived,
            date_added: Some(self.date_added),
        }
    }
}

/// A committed section.
///
/// `id` is absent while the section has not been created remotely. The
/// archived flag agrees with the presence of `date_archived`.
#[derive(Debug, PartialEq)]
pub struct Section {
    pub id: Option<u64>,
    pub name: String,
    pub project_id: u64,
    pub section_order: u32,
    pub collapsed: bool,
    pub is_deleted: bool,
    pub is_archived: bool,
    pub date_archived: Option<String>,
    pub date_added: String,
}

impl View for Section {
    type V = SectionView;

    open spec fn view(&self) -> SectionView {
        SectionView {
            id: self.id,
            name: self.name@,
            project_id: self.project_id,
            section_order: self.section_order,
            collapsed: self.collapsed,
            is_deleted: self.is_deleted,
            is_archived: self.is_archived,
            date_archived: self.date_archived.deep_view(),
            date_added: self.date_added@,
        }
    }
}

impl Section {
    /// Returns a fresh builder; a `Section` is only made by committing one.
    pub fn builder() -> (r: SectionBuilder)
        ensures
            r@ == SectionBuilderView::empty(),
    {
        SectionBuilder::default()
    }

    /// Returns a builder staged with this section's fields, for editing
    /// it. Fails exactly when the section has no identifier.
    pub fn to_builder(&self) -> (r: Result<SectionBuilder, &'static str>)
        ensures
            match r {
                Ok(b) => self.id is Some && b@ == self@.spec_to_builder(),
                Err(m) => self.id is None && m@ == "Builder from section with no ID not allowed."@,
            },
    {
        let id = match self.id {
            None => {
                return Err("Builder from section with no ID not allowed.");
            },
            Some(value) => Some(value),
        };
        Ok(
            SectionBuilder {
                id,
                name: Some(self.name.clone()),
                project_id: Some(self.project_id),
                section_order: self.section_order,
                collapsed: self.collapsed,
                is_deleted: self.is_deleted,
                is_archived: self.is_archived,
                date_archived: clone_opt_string(&self.date_archived),
                date_added: Some(self.date_added.clone()),
            },
        )
    }
}

/// Staging form of a [`Section`].
#[derive(Debug)]
pub struct SectionBuilder {
    id: Option<u64>,
    name: Option<String>,
    project_id: Option<u64>,
    section_order: u32,
    collapsed: bool,
    is_deleted: bool,
    is_archived: bool,
    date_archived: Option<String>,
    date_added: Option<String>,
}

impl View for SectionBuilder {
    type V = SectionBuilderView;

    closed spec fn view(&self) -> SectionBuilderView {
        SectionBuilderView {
            id: self.id,
            name: self.name.deep_view(),
            project_id: self.project_id,
            section_order: self.section_order,
            collapsed: self.collapsed,
            is_deleted: self.is_deleted,
            is_archived: self.is_archived,
            date_archived: self.date_archived.deep_view(),
            date_added: self.date_added.deep_view(),
        }
    }
}

impl Default for SectionBuilder {
    /// A fresh builder has nothing set.
    fn default() -> (r: Self)
        ensures
            r@ == SectionBuilderView::empty(),
    {
        SectionBuilder {
            id: None,
            name: None,
            project_id: None,
            section_order: 0,
            collapsed: false,
            is_deleted: false,
            is_archived: false,
            date_archived: None,
            date_added: None,
        }
    }
}

impl SectionBuilder {
    /// Stages the section's identifier; unnecessary for a new section.
    pub fn id(self, value: u64) -> (r: Self)
        ensures
            r@ == (SectionBuilderView { id: Some(value), ..self@ }),
    {
        SectionBuilder { id: Some(value), ..self }
    }

    /// Stages the name of the section. Required.
    pub fn name(self, value: &str) -> (r: Self)
        ensures
            r@ == (SectionBuilderView { name: Some(value@), ..self@ }),
    {
        SectionBuilder { name: Some(value.to_string()), ..self }
    }

    /// Stages the identifier of the project the section resides in.
    /// Required.
    pub fn project_id(self, value: u64) -> (r: Self)
        ensures
            r@ == (SectionBuilderView { project_id: Some(value), ..self@ }),
    {
        SectionBuilder { project_id: Some(value), ..self }
    }

    /// Stages the order of the section among the sections of its project.
    pub fn section_order(self, value: u32) -> (r: Self)
        ensures
            r@ == (SectionBuilderView { section_order: value, ..self@ }),
    {
        SectionBuilder { section_order: value, ..self }
    }

    /// Stages whether the section's tasks are collapsed.
    pub fn collapsed(self, value: bool) -> (r: Self)
        ensures
            r@ == (SectionBuilderView { collapsed: value, ..self@ }),
    {
        SectionBuilder { collapsed: value, ..self }
    }

    /// Stages whether the section is marked as deleted.
    pub fn is_deleted(self, value: bool) -> (r: Self)
        ensures
            r@ == (SectionBuilderView { is_deleted: value, ..self@ }),
    {
        SectionBuilder { is_deleted: value, ..self }
    }

    /// Stages whether the section is marked as archived; turning archival
    /// off clears any staged archive date.
    pub fn is_archived(self, value: bool) -> (r: Self)
        ensures
            r@ == self@.with_is_archived(value),
    {
        if value {
            SectionBuilder { is_archived: value, ..self }
        } else {
            SectionBuilder { is_archived: value, date_archived: None, ..self }
        }
    }

    /// Stages the date the section was archived, which forces the
    /// archived flag on.
    pub fn date_archived(self, value: &str) -> (r: Self)
        ensures
            r@ == self@.with_date_archived(value@),
    {
        SectionBuilder { is_archived: true, date_archived: Some(value.to_string()), ..self }
    }

    /// Stages the creation date of the section. Required.
    pub fn date_added(self, value: &str) -> (r: Self)
        ensures
            r@ == (SectionBuilderView { date_added: Some(value@), ..self@ }),
    {
        SectionBuilder { date_added: Some(value.to_string()), ..self }
    }

    /// Commits the staged fields into a section. The checks run in a
    /// fixed order — name, project, the archived flag without a date, a
    /// date without the archived flag, creation date — and the first
    /// violation is reported.
    pub fn build(&self) -> (r: Result<Section, &'static str>)
        ensures
            match r {
                Ok(s) => self@.spec_build() == Ok::<SectionView, Seq<char>>(s@),
                Err(m) => self@.spec_build() == Err::<SectionView, Seq<char>>(m@),
            },
    {
        let name = match self.name {
            Some(ref value) => value.clone(),
            None => {
                return Err("Section does not have a name.");
            },
        };
        let project_id = match self.project_id {
            Some(value) => value,
            None => {
                return Err("Section does not have a project ID.");
            },
        };
        if self.is_archived && self.date_archived.is_none() {
            return Err("Section marked as archived with no date.");
        }
        if self.date_archived.is_some() && !self.is_archived {
            return Err("Section has archive date but not marked as archived.");
        }
        let date_added = match self.date_added {
            Some(ref value) => value.clone(),
            None => {
                return Err("Section does not have an added date.");
            },
        };
        Ok(
            Section {
                id: self.id,
                name,
                project_id,
                section_order: self.section_order,
                collapsed: self.collapsed,
                is_deleted: self.is_deleted,
                is_archived: self.is_archived,
                date_archived: clone_opt_string(&self.date_archived),
                date_added,
            },
        )
    }
}

/// For a builder whose name, project and creation date are staged:
/// archiving without a date makes commit fail; staging a date then makes
/// it succeed archived with that date; turning archival back off makes it
/// succeed unarchived with the date cleared.
pub proof fn lemma_section_archive_cycle(b: SectionBuilderView, d: Seq<char>)
    requires
        b.name is Some,
        b.project_id is Some,
        b.date_added is Some,
    ensures
        b.date_archived is None ==> b.with_is_archived(true).spec_build() == Err::<
            SectionView,
            Seq<char>,
        >("Section marked as archived with no date."@),
        b.with_is_archived(true).with_date_archived(d).spec_build() matches Ok(s) && s.is_archived
            && s.date_archived == Some(d),
        b.with_is_archived(true).with_date_archived(d).with_is_archived(false).spec_build()
            matches Ok(s) && !s.is_archived && s.date_archived is None,
{
}

/// Every section that leaves a commit satisfies the archive rule.
pub proof fn lemma_section_build_establishes_wf(b: SectionBuilderView)
    ensures
        b.spec_build() matches Ok(s) ==> s.wf(),
{
}

/// Editing a section with an identifier and committing without changes
/// reproduces the section. A committed section's archived flag agrees
/// with the presence of its archive date.
pub proof fn lemma_section_round_trip(r: SectionView)
    requires
        r.id is Some,
        r.wf(),
    ensures
        r.spec_to_builder().spec_build() == Ok::<SectionView, Seq<char>>(r),
{
    let rebuilt = r.spec_to_builder().spec_build();
    assert(rebuilt matches Ok(v) && v =~= r);
}

} // verus!
