//! Labels and their staging builder.
//!
//! A committed label always carries a name; every other field has a
//! stated default.

use vstd::prelude::*;
use crate::colors::Colors;

verus! {

/// Mathematical model of a committed [`Label`].
#[verifier::ext_equal]
pub ghost struct LabelView {
    pub id: Option<u64>,
    pub name: Seq<char>,
    pub color: Colors,
    pub item_order: u32,
    pub is_deleted: bool,
    pub is_favorite: bool,
}

/// Mathematical model of a [`LabelBuilder`].
#[verifier::ext_equal]
pub ghost struct LabelBuilderView {
    pub id: Option<u64>,
    pub name: Option<Seq<char>>,
    pub color: Option<Colors>,
    pub item_order: u32,
    pub is_deleted: bool,
    pub is_favorite: bool,
}

impl LabelBuilderView {
    /// A builder with nothing set.
    pub open spec fn empty() -> LabelBuilderView {
        LabelBuilderView {
            id: None,
            name: None,
            color: None,
            item_order: 0,
            is_deleted: false,
            is_favorite: false,
        }
    }

    /// What committing this builder yields: the error for a missing name,
    /// else the label, with a missing color defaulting to `Grey`.
    pub open spec fn spec_build(self) -> Result<LabelView, Seq<char>> {
        if self.name is None {
            Err("Label must have a name."@)
        } else {
            Ok(
                LabelView {
                    id: self.id,
                    name: self.name->0,
                    color: match self.color {
                        Some(c) => c,
                        None => Colors::Grey,
                    },
                    item_order: self.item_order,
                    is_deleted: self.is_deleted,
                    is_favorite: self.is_favorite,
                },
            )
        }
    }
}

impl LabelView {
    /// The staging form this label derives: every field is carried over.
    pub open spec fn spec_to_builder(self) -> LabelBuilderView {
        LabelBuilderView {
            id: self.id,
            name: Some(self.name),
            color: Some(self.color),
            item_order: self.item_order,
            is_deleted: self.is_deleted,
            is_favorite: self.is_favorite,
        }
    }
}

/// A committed label.
///
/// `id` is absent while the label has not been created remotely.
#[derive(Debug, PartialEq)]
pub struct Label {
    pub id: Option<u64>,
    pub name: String,
    pub color: Colors,
    pub item_order: u32,
    pub is_deleted: bool,
    pub is_favorite: bool,
}

impl View for Label {
    type V = LabelView;

    open spec fn view(&self) -> LabelView {
        LabelView {
            id: self.id,
            name: self.name@,
            color: self.color,
            item_order: self.item_order,
            is_deleted: self.is_deleted,
            is_favorite: self.is_favorite,
        }
    }
}

impl Label {
    /// Returns a fresh builder; a `Label` is only made by committing one.
    pub fn builder() -> (r: LabelBuilder)
        ensures
            r@ == LabelBuilderView::empty(),
    {
        LabelBuilder::default()
    }

    /// Returns a builder staged with this label's fields, for editing it.
    /// Fails exactly when the label has no identifier.
    pub fn to_builder(&self) -> (r: Result<LabelBuilder, &'static str>)
        ensures
            match r {
                Ok(b) => self.id is Some && b@ == self@.spec_to_builder(),
                Err(m) => self.id is None && m@ == "Builder from label with no ID not allowed"@,
            },
    {
        let id = match self.id {
            Some(value) => Some(value),
            None => {
                return Err("Builder from label with no ID not allowed");
            },
        };
        Ok(
            LabelBuilder {
                id,
                name: Some(self.name.clone()),
                color: Some(self.color),
                item_order: self.item_order,
                is_deleted: self.is_deleted,
                is_favorite: self.is_favorite,
            },
        )
    }
}

/// Staging form of a [`Label`].
#[derive(Debug)]
pub struct LabelBuilder {
    id: Option<u64>,
    name: Option<String>,
    color: Option<Colors>,
    item_order: u32,
    is_deleted: bool,
    is_favorite: bool,
}

impl View for LabelBuilder {
    type V = LabelBuilderView;

    closed spec fn view(&self) -> LabelBuilderView {
        LabelBuilderView {
            id: self.id,
            name: self.name.deep_view(),
            color: self.color,
            item_order: self.item_order,
            is_deleted: self.is_deleted,
            is_favorite: self.is_favorite,
        }
    }
}

impl Default for LabelBuilder {
    /// A fresh builder has nothing set.
    fn default() -> (r: Self)
        ensures
            r@ == LabelBuilderView::empty(),
    {
        LabelBuilder {
            id: None,
            name: None,
            color: None,
            item_order: 0,
            is_deleted: false,
            is_favorite: false,
        }
    }
}

impl LabelBuilder {
    /// Stages the label's identifier; unnecessary for a new label.
    pub fn id(self, value: u64) -> (r: Self)
        ensures
            r@ == (LabelBuilderView { id: Some(value), ..self@ }),
    {
        LabelBuilder { id: Some(value), ..self }
    }

    /// Stages the name of the label. Required.
    pub fn name(self, value: &str) -> (r: Self)
        ensures
            r@ == (LabelBuilderView { name: Some(value@), ..self@ }),
    {
        LabelBuilder { name: Some(value.to_string()), ..self }
    }

    /// Stages the color of the label; unset commits as `Grey`.
    pub fn color(self, value: &Colors) -> (r: Self)
        ensures
            r@ == (LabelBuilderView { color: Some(*value), ..self@ }),
    {
        LabelBuilder { color: Some(*value), ..self }
    }

    /// Stages the order of the label in the label list.
    pub fn item_order(self, value: u32) -> (r: Self)
        ensures
            r@ == (LabelBuilderView { item_order: value, ..self@ }),
    {
        LabelBuilder { item_order: value, ..self }
    }

    /// Stages whether the label is marked as deleted.
    pub fn is_deleted(self, value: bool) -> (r: Self)
        ensures
            r@ == (LabelBuilderView { is_deleted: value, ..self@ }),
    {
        LabelBuilder { is_deleted: value, ..self }
    }

    /// Stages whether the label is marked as favorite.
    pub fn is_favorite(self, value: bool) -> (r: Self)
        ensures
            r@ == (LabelBuilderView { is_favorite: value, ..self@ }),
    {
        LabelBuilder { is_favorite: value, ..self }
    }

    /// Commits the staged fields into a label. Fails exactly when no name
    /// is staged.
    pub fn build(&self) -> (r: Result<Label, &'static str>)
        ensures
            match r {
                Ok(l) => self@.spec_build() == Ok::<LabelView, Seq<char>>(l@),
                Err(m) => self@.spec_build() == Err::<LabelView, Seq<char>>(m@),
            },
    {
        let name = match self.name {
            Some(ref value) => value.clone(),
            None => {
                return Err("Label must have a name.");
            },
        };
        Ok(
            Label {
                id: self.id,
                name,
                color: match self.color {
                    Some(value) => value,
                    None => Colors::default(),
                },
                item_order: self.item_order,
                is_deleted: self.is_deleted,
                is_favorite: self.is_favorite,
            },
        )
    }
}

/// Editing a label with an identifier and committing without changes
/// reproduces the label.
pub proof fn lemma_label_round_trip(r: LabelView)
    requires
        r.id is Some,
    ensures
        r.spec_to_builder().spec_build() == Ok::<LabelView, Seq<char>>(r),
{
    let rebuilt = r.spec_to_builder().spec_build();
    assert(rebuilt matches Ok(v) && v =~= r);
}

} // verus!
