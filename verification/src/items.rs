//! Tasks (items) and their staging builder.
//!
//! A committed task always carries an owner, a project, its content and a
//! creation date, and its completed flag agrees with the presence of a
//! completion date. The label set is kept as "unset" rather than "empty"
//! when its last member is removed, a distinction the synchronization
//! payloads depend on.

use vstd::prelude::*;
use vstd::seq_lib::*;
use crate::dates::{due_date_default, DueDate, DueDateView};
use crate::priority::Priority;
use crate::text::clone_opt_string;

verus! {

/// Mathematical model of a committed [`Item`].
#[verifier::ext_equal]
pub ghost struct ItemView {
    pub id: Option<u64>,
    pub user_id: u64,
    pub project_id: u64,
    pub content: Seq<char>,
    pub description: Option<Seq<char>>,
    pub due: DueDateView,
    pub priority: Priority,
    pub parent_id: Option<u64>,
    pub child_order: u32,
    pub section_id: Option<u64>,
    pub day_order: u32,
    pub collapsed: bool,
    pub labels: Seq<u64>,
    pub checked: bool,
    pub is_deleted: bool,
    pub date_completed: Option<Seq<char>>,
    pub date_added: Seq<char>,
}

/// Mathematical model of an [`ItemBuilder`].
#[verifier::ext_equal]
pub ghost struct ItemBuilderView {
    pub id: Option<u64>,
    pub user_id: Option<u64>,
    pub project_id: Option<u64>,
    pub content: Option<Seq<char>>,
    pub description: Option<Seq<char>>,
    pub due: Option<DueDateView>,
    pub priority: Option<Priority>,
    pub parent_id: Option<u64>,
    pub child_order: Option<u32>,
    pub section_id: Option<u64>,
    pub day_order: Option<u32>,
    pub collapsed: bool,
    pub labels: Option<Seq<u64>>,
    pub checked: bool,
    pub is_deleted: bool,
    pub date_completed: Option<Seq<char>>,
    pub date_added: Option<Seq<char>>,
}

impl ItemBuilderView {
    /// A builder with nothing set.
    pub open spec fn empty() -> ItemBuilderView {
        ItemBuilderView {
            id: None,
            user_id: None,
            project_id: None,
            content: None,
            description: None,
            due: None,
            priority: None,
            parent_id: None,
            child_order: None,
            section_id: None,
            day_order: None,
            collapsed: false,
            labels: None,
            checked: false,
            is_deleted: false,
            date_completed: None,
            date_added: None,
        }
    }

    /// The builder after adding a label id: the set is materialized first
    /// when no label was staged yet, and the id is appended.
    pub open spec fn with_label_added(self, value: u64) -> ItemBuilderView {
        let current = match self.labels {
            Some(s) => s,
            None => Seq::empty(),
        };
        ItemBuilderView { labels: Some(current.push(value)), ..self }
    }

    /// The builder after removing a label id: the first occurrence is
    /// swapped out by the last staged id, and a set left empty collapses
    /// back to "unset".
    pub open spec fn with_label_removed(self, value: u64) -> ItemBuilderView {
        match self.labels {
            None => self,
            Some(s) => {
                let remaining = match s.index_of_first(value) {
                    Some(i) => s.update(i, s.last()).drop_last(),
                    None => s,
                };
                ItemBuilderView {
                    labels: if remaining.len() == 0 {
                        None
                    } else {
                        Some(remaining)
                    },
                    ..self
                }
            },
        }
    }

    /// What committing this builder yields. The required fields are
    /// checked in a fixed order — owner, project, content, the agreement
    /// of the completed flag with the completion date, creation date —
    /// and the first violation is reported. Missing due date and priority
    /// fall back to their defaults; missing labels commit as the empty
    /// set.
    pub open spec fn spec_build(self) -> Result<ItemView, Seq<char>> {
        if self.user_id is None {
            Err("Task has no user ID."@)
        } else if self.project_id is None {
            Err("Task has no project ID."@)
        } else if self.content is None {
            Err("Task has no content."@)
        } else if self.date_completed is Some && !self.checked {
            Err("Uncompleted task can't have a completion date"@)
        } else if self.date_completed is None && self.checked {
            Err("Completed task must have a completion date."@)
        } else if self.date_added is None {
            Err("Task has no creation date."@)
        } else {
            Ok(
                ItemView {
                    id: self.id,
                    user_id: self.user_id->0,
                    project_id: self.project_id->0,
                    content: self.content->0,
                    description: self.description,
                    due: match self.due {
                        Some(d) => d,
                        None => due_date_default(),
                    },
                    priority: match self.priority {
                        Some(p) => p,
                        None => Priority::P4,
                    },
                    parent_id: self.parent_id,
                    child_order: match self.child_order {
                        Some(o) => o,
                        None => 0,
                    },
                    section_id: self.section_id,
                    day_order: match self.day_order {
                        Some(o) => o,
                        None => 0,
                    },
                    collapsed: self.collapsed,
                    labels: match self.labels {
                        Some(s) => s,
                        None => Seq::empty(),
                    },
                    checked: self.checked,
                    is_deleted: self.is_deleted,
                    date_completed: self.date_completed,
                    date_added: self.date_added->0,
                },
            )
        }
    }
}

impl ItemView {
    /// The field-consistency rule of a committed task: the completed flag
    /// agrees with the presence of a completion date.
    pub open spec fn wf(self) -> bool {
        self.checked <==> self.date_completed is Some
    }

    /// The staging form a committed item yields: every field is carried over,
    /// except that a zero owner or project id — reserved as invalid —
    /// goes back to "unset".
    pub open spec fn spec_to_builder(self) -> ItemBuilderView {
        ItemBuilderView {
            id: self.id,
            user_id: if self.user_id == 0 {
                None
            } else {
                Some(self.user_id)
            },
            project_id: if self.project_id == 0 {
                None
            } else {
                Some(self.project_id)
            },
            content: Some(self.content),
            description: self.description,
            due: Some(self.due),
            priority: Some(self.priority),
            parent_id: self.parent_id,
            child_order: Some(self.child_order),
            section_id: self.section_id,
            day_order: Some(self.day_order),
            collapsed: self.collapsed,
            labels: Some(self.labels),
            checked: self.checked,
            is_deleted: self.is_deleted,
            date_completed: self.date_completed,
            date_added: Some(self.date_added),
        }
    }
}

/// A committed task.
///
/// `id` is absent while the task has not been created remotely. `labels`
/// holds label ids; an empty vector stands for "no labels". `checked`
/// agrees with the presence of `date_completed`.
#[derive(Debug, PartialEq)]
pub struct Item {
    pub id: Option<u64>,
    pub user_id: u64,
    pub project_id: u64,
    pub content: String,
    pub description: Option<String>,
    pub due: DueDate,
    pub priority: Priority,
    pub parent_id: Option<u64>,
    pub child_order: u32,
    pub section_id: Option<u64>,
    pub day_order: u32,
    pub collapsed: bool,
    pub labels: Vec<u64>,
    pub checked: bool,
    pub is_deleted: bool,
    pub date_completed: Option<String>,
    pub date_added: String,
}

impl View for Item {
    type V = ItemView;

    open spec fn view(&self) -> ItemView {
        ItemView {
            id: self.id,
            user_id: self.user_id,
            project_id: self.project_id,
            content: self.content@,
            description: self.description.deep_view(),
            due: self.due@,
            priority: self.priority,
            parent_id: self.parent_id,
            child_order: self.child_order,
            section_id: self.section_id,
            day_order: self.day_order,
            collapsed: self.collapsed,
            labels: self.labels@,
            checked: self.checked,
            is_deleted: self.is_deleted,
            date_completed: self.date_completed.deep_view(),
            date_added: self.date_added@,
        }
    }
}

impl Item {
    /// Returns a fresh builder; an `Item` is only made by committing one.
    pub fn builder() -> (r: ItemBuilder)
        ensures
            r@ == ItemBuilderView::empty(),
    {
        ItemBuilder::default()
    }

    /// Returns a builder staged with the item's fields, for editing it.
    /// Fails exactly when the task has no identifier, since an edit must
    /// address an existing remote object.
    pub fn to_builder(&self) -> (r: Result<ItemBuilder, &'static str>)
        ensures
            match r {
                Ok(b) => self.id is Some && b@ == self@.spec_to_builder(),
                Err(m) => self.id is None && m@ == "Builder from Item with no ID not allowed."@,
            },
    {
        let id = match self.id {
            None => {
                return Err("Builder from Item with no ID not allowed.");
            },
            Some(value) => Some(value),
        };
        let labels = self.labels.clone();
        proof {
            assert(labels@ =~= self.labels@);
        }
        Ok(
            ItemBuilder {
                id,
                user_id: match self.user_id {
                    0 => None,
                    value => Some(value),
                },
                project_id: match self.project_id {
                    0 => None,
                    value => Some(value),
                },
                content: Some(self.content.clone()),
                description: clone_opt_string(&self.description),
                due: Some(self.due.clone()),
                priority: Some(self.priority),
                parent_id: self.parent_id,
                child_order: Some(self.child_order),
                section_id: self.section_id,
                day_order: Some(self.day_order),
                collapsed: self.collapsed,
                labels: Some(labels),
                checked: self.checked,
                is_deleted: self.is_deleted,
                date_completed: clone_opt_string(&self.date_completed),
                date_added: Some(self.date_added.clone()),
            },
        )
    }
}

/// Staging form of an [`Item`].
#[derive(Debug)]
pub struct ItemBuilder {
    id: Option<u64>,
    user_id: Option<u64>,
    project_id: Option<u64>,
    content: Option<String>,
    description: Option<String>,
    due: Option<DueDate>,
    priority: Option<Priority>,
    parent_id: Option<u64>,
    child_order: Option<u32>,
    section_id: Option<u64>,
    day_order: Option<u32>,
    collapsed: bool,
    labels: Option<Vec<u64>>,
    checked: bool,
    is_deleted: bool,
    date_completed: Option<String>,
    date_added: Option<String>,
}

impl View for ItemBuilder {
    type V = ItemBuilderView;

    closed spec fn view(&self) -> ItemBuilderView {
        ItemBuilderView {
            id: self.id,
            user_id: self.user_id,
            project_id: self.project_id,
            content: self.content.deep_view(),
            description: self.description.deep_view(),
            due: match self.due {
                Some(ref d) => Some(d@),
                None => None,
            },
            priority: self.priority,
            parent_id: self.parent_id,
            child_order: self.child_order,
            section_id: self.section_id,
            day_order: self.day_order,
            collapsed: self.collapsed,
            labels: match self.labels {
                Some(ref v) => Some(v@),
                None => None,
            },
            checked: self.checked,
            is_deleted: self.is_deleted,
            date_completed: self.date_completed.deep_view(),
            date_added: self.date_added.deep_view(),
        }
    }
}

impl Default for ItemBuilder {
    /// A fresh builder has nothing set.
    fn default() -> (r: Self)
        ensures
            r@ == ItemBuilderView::empty(),
    {
        ItemBuilder {
            id: None,
            user_id: None,
            project_id: None,
            content: None,
            description: None,
            due: None,
            priority: None,
            parent_id: None,
            child_order: None,
            section_id: None,
            day_order: None,
            collapsed: false,
            labels: None,
            checked: false,
            is_deleted: false,
            date_completed: None,
            date_added: None,
        }
    }
}

/// Returns the position of the first occurrence of `value` in `v`.
fn find_first(v: &Vec<u64>, value: u64) -> (r: Option<usize>)
    ensures
        match r {
            Some(i) => i < v@.len() && v@[i as int] == value && forall|j: int|
                0 <= j < i ==> v@[j] != value,
            None => !v@.contains(value),
        },
{
    let mut i: usize = 0;
    while i < v.len()
        invariant
            i <= v@.len(),
            forall|j: int| 0 <= j < i ==> v@[j] != value,
        decreases v@.len() - i,
    {
        if v[i] == value {
            return Some(i);
        }
        i = i + 1;
    }
    None
}

impl ItemBuilder {
    /// Stages the task's identifier; unnecessary for a new task.
    pub fn id(self, value: u64) -> (r: Self)
        ensures
            r@ == (ItemBuilderView { id: Some(value), ..self@ }),
    {
        ItemBuilder { id: Some(value), ..self }
    }

    /// Stages the owner of the task. Required.
    pub fn user_id(self, value: u64) -> (r: Self)
        ensures
            r@ == (ItemBuilderView { user_id: Some(value), ..self@ }),
    {
        ItemBuilder { user_id: Some(value), ..self }
    }

    /// Stages the identifier of the parent project. Required.
    pub fn project_id(self, value: u64) -> (r: Self)
        ensures
            r@ == (ItemBuilderView { project_id: Some(value), ..self@ }),
    {
        ItemBuilder { project_id: Some(value), ..self }
    }

    /// Stages the text of the task. Required.
    pub fn content(self, value: &str) -> (r: Self)
        ensures
            r@ == (ItemBuilderView { content: Some(value@), ..self@ }),
    {
        ItemBuilder { content: Some(value.to_string()), ..self }
    }

    /// Stages the description of the task.
    pub fn description(self, value: &str) -> (r: Self)
        ensures
            r@ == (ItemBuilderView { description: Some(value@), ..self@ }),
    {
        ItemBuilder { description: Some(value.to_string()), ..self }
    }

    /// Stages the due date of the task; an unset due date commits as the
    /// no-date descriptor.
    pub fn due(self, value: &DueDate) -> (r: Self)
        ensures
            r@ == (ItemBuilderView { due: Some(value@), ..self@ }),
    {
        ItemBuilder { due: Some(value.clone()), ..self }
    }

    /// Stages the priority of the task; unset commits as `P4`.
    pub fn priority(self, value: &Priority) -> (r: Self)
        ensures
            r@ == (ItemBuilderView { priority: Some(*value), ..self@ }),
    {
        ItemBuilder { priority: Some(*value), ..self }
    }

    /// Stages the identifier of the parent task; unset means a root task.
    pub fn parent_id(self, value: u64) -> (r: Self)
        ensures
            r@ == (ItemBuilderView { parent_id: Some(value), ..self@ }),
    {
        ItemBuilder { parent_id: Some(value), ..self }
    }

    /// Stages the order of the task among the tasks with the same parent.
    pub fn child_order(self, value: u32) -> (r: Self)
        ensures
            r@ == (ItemBuilderView { child_order: Some(value), ..self@ }),
    {
        ItemBuilder { child_order: Some(value), ..self }
    }

    /// Stages the identifier of the parent section; unset means the task
    /// belongs to no section.
    pub fn section_id(self, value: u64) -> (r: Self)
        ensures
            r@ == (ItemBuilderView { section_id: Some(value), ..self@ }),
    {
        ItemBuilder { section_id: Some(value), ..self }
    }

    /// Stages the order of the task inside the day views.
    pub fn day_order(self, value: u32) -> (r: Self)
        ensures
            r@ == (ItemBuilderView { day_order: Some(value), ..self@ }),
    {
        ItemBuilder { day_order: Some(value), ..self }
    }

    /// Stages whether the task's sub-tasks are collapsed.
    pub fn collapsed(self, value: bool) -> (r: Self)
        ensures
            r@ == (ItemBuilderView { collapsed: value, ..self@ }),
    {
        ItemBuilder { collapsed: value, ..self }
    }

    /// Adds a label by its identifier, materializing the label set first
    /// if none was staged.
    pub fn label_add(self, value: u64) -> (r: Self)
        ensures
            r@ == self@.with_label_added(value),
    {
        let mut labels: Vec<u64> = match self.labels {
            Some(v) => v,
            None => Vec::new(),
        };
        labels.push(value);
        ItemBuilder { labels: Some(labels), ..self }
    }

    /// Removes a label by its identifier: the first occurrence is swapped
    /// out by the last staged id, and a set left empty collapses back to
    /// "unset".
    pub fn label_remove(self, value: u64) -> (r: Self)
        ensures
            r@ == self@.with_label_removed(value),
    {
        let mut labels: Vec<u64> = match self.labels {
            Some(v) => v,
            None => {
                return ItemBuilder { labels: None, ..self };
            },
        };
        let ghost staged = labels@;
        match find_first(&labels, value) {
            Some(pos) => {
                labels.swap_remove(pos);
                proof {
                    staged.index_of_first_ensures(value);
                    let k = staged.index_of_first(value)->0;
                    assert(staged[pos as int] == value);
                    if k < pos {
                        assert(staged[k] != value);
                    }
                    if pos < k {
                        assert(staged[pos as int] != value);
                    }
                    assert(k == pos);
                    assert(labels@ == staged.update(pos as int, staged.last()).drop_last());
                }
            },
            None => {
                proof {
                    staged.index_of_first_ensures(value);
                }
            },
        }
        if labels.is_empty() {
            ItemBuilder { labels: None, ..self }
        } else {
            ItemBuilder { labels: Some(labels), ..self }
        }
    }

    /// Stages whether the task is completed.
    pub fn checked(self, value: bool) -> (r: Self)
        ensures
            r@ == (ItemBuilderView { checked: value, ..self@ }),
    {
        ItemBuilder { checked: value, ..self }
    }

    /// Stages whether the task is marked as deleted.
    pub fn is_deleted(self, value: bool) -> (r: Self)
        ensures
            r@ == (ItemBuilderView { is_deleted: value, ..self@ }),
    {
        ItemBuilder { is_deleted: value, ..self }
    }

    /// Stages the completion date of the task.
    pub fn date_completed(self, value: &str) -> (r: Self)
        ensures
            r@ == (ItemBuilderView { date_completed: Some(value@), ..self@ }),
    {
        ItemBuilder { date_completed: Some(value.to_string()), ..self }
    }

    /// Stages the creation date of the task. Required.
    pub fn date_added(self, value: &str) -> (r: Self)
        ensures
            r@ == (ItemBuilderView { date_added: Some(value@), ..self@ }),
    {
        ItemBuilder { date_added: Some(value.to_string()), ..self }
    }

    /// Commits the staged fields into a task. The required fields are
    /// checked in a fixed order — owner, project, content, the agreement
    /// of the completed flag with the completion date, creation date —
    /// and the first violation is reported.
    pub fn build(&self) -> (r: Result<Item, &'static str>)
        ensures
            match r {
                Ok(item) => self@.spec_build() == Ok::<ItemView, Seq<char>>(item@),
                Err(m) => self@.spec_build() == Err::<ItemView, Seq<char>>(m@),
            },
    {
        let user_id = match self.user_id {
            Some(value) => value,
            None => {
                return Err("Task has no user ID.");
            },
        };
        let project_id = match self.project_id {
            Some(value) => value,
            None => {
                return Err("Task has no project ID.");
            },
        };
        let content = match self.content {
            Some(ref value) => value.clone(),
            None => {
                return Err("Task has no content.");
            },
        };
        let date_completed = match self.date_completed {
            Some(ref value) => {
                if !self.checked {
                    return Err("Uncompleted task can't have a completion date");
                }
                Some(value.clone())
            },
            None => {
                if self.checked {
                    return Err("Completed task must have a completion date.");
                }
                None
            },
        };
        let date_added = match self.date_added {
            Some(ref value) => value.clone(),
            None => {
                return Err("Task has no creation date.");
            },
        };
        let labels = match self.labels {
            Some(ref value) => value.clone(),
            None => Vec::new(),
        };
        proof {
            assert(labels@ =~= (match self@.labels {
                Some(s) => s,
                None => Seq::<u64>::empty(),
            }));
        }
        Ok(
            Item {
                id: self.id,
                user_id,
                project_id,
                content,
                description: clone_opt_string(&self.description),
                due: match self.due {
                    Some(ref value) => value.clone(),
                    None => DueDate::default(),
                },
                priority: match self.priority {
                    Some(value) => value,
                    None => Priority::default(),
                },
                parent_id: self.parent_id,
                child_order: match self.child_order {
                    Some(value) => value,
                    None => 0,
                },
                section_id: self.section_id,
                day_order: match self.day_order {
                    Some(value) => value,
                    None => 0,
                },
                collapsed: self.collapsed,
                labels,
                checked: self.checked,
                is_deleted: self.is_deleted,
                date_completed,
                date_added,
            },
        )
    }
}

/// Committing reports the first missing required field or the first
/// disagreement of the completed flag with the completion date, in the
/// fixed order: owner, project, content, completion agreement, creation
/// date.
pub proof fn lemma_item_required_fields(b: ItemBuilderView)
    ensures
        b.user_id is None ==> b.spec_build() == Err::<ItemView, Seq<char>>("Task has no user ID."@),
        b.user_id is Some && b.project_id is None ==> b.spec_build() == Err::<ItemView, Seq<char>>(
            "Task has no project ID."@,
        ),
        b.user_id is Some && b.project_id is Some && b.content is None ==> b.spec_build()
            == Err::<ItemView, Seq<char>>("Task has no content."@),
        b.user_id is Some && b.project_id is Some && b.content is Some && b.date_completed is Some
            && !b.checked ==> b.spec_build() == Err::<ItemView, Seq<char>>(
            "Uncompleted task can't have a completion date"@,
        ),
        b.user_id is Some && b.project_id is Some && b.content is Some && b.date_completed is None
            && b.checked ==> b.spec_build() == Err::<ItemView, Seq<char>>(
            "Completed task must have a completion date."@,
        ),
        b.user_id is Some && b.project_id is Some && b.content is Some && (b.checked
            <==> b.date_completed is Some) && b.date_added is None ==> b.spec_build()
            == Err::<ItemView, Seq<char>>("Task has no creation date."@),
{
}

/// Adding a label id that is not staged and then removing it restores the
/// builder, provided a staged label set is never empty — as every
/// sequence of builder operations leaves it.
pub proof fn lemma_label_add_remove(b: ItemBuilderView, value: u64)
    requires
        b.labels matches Some(s) ==> s.len() > 0 && !s.contains(value),
    ensures
        b.with_label_added(value).with_label_removed(value) == b,
{
    let added = b.with_label_added(value);
    let s1 = added.labels->0;
    s1.index_of_first_ensures(value);
    match b.labels {
        Some(s) => {
            assert(s1 == s.push(value));
            assert(s1[s.len() as int] == value);
            let k = s1.index_of_first(value)->0;
            if k < s.len() {
                assert(s.contains(value)) by {
                    assert(s[k] == s1[k]);
                }
            }
            assert(k == s.len());
            assert(s1.update(k, s1.last()).drop_last() =~= s);
            assert(b.with_label_added(value).with_label_removed(value) =~= b);
        },
        None => {
            assert(s1 == Seq::<u64>::empty().push(value));
            assert(s1[0] == value);
            let k = s1.index_of_first(value)->0;
            assert(k == 0);
            assert(s1.update(0, s1.last()).drop_last() =~= Seq::<u64>::empty());
            assert(b.with_label_added(value).with_label_removed(value) =~= b);
        },
    }
}

/// Every task that leaves a commit satisfies the completion rule.
pub proof fn lemma_item_build_establishes_wf(b: ItemBuilderView)
    ensures
        b.spec_build() matches Ok(item) ==> item.wf(),
{
}

/// Editing a task with an identifier and committing without changes
/// reproduces the task, provided its owner and project ids are not the
/// reserved zero value.
pub proof fn lemma_item_round_trip(r: ItemView)
    requires
        r.id is Some,
        r.user_id != 0,
        r.project_id != 0,
        r.wf(),
    ensures
        r.spec_to_builder().spec_build() == Ok::<ItemView, Seq<char>>(r),
{
    let rebuilt = r.spec_to_builder().spec_build();
    assert(rebuilt matches Ok(v) && v =~= r);
}

} // verus!
