//! Filters and their staging builder.
//!
//! A committed filter always carries a name and a search query; every
//! other field has a stated default.

use vstd::prelude::*;
use crate::colors::Colors;

verus! {

/// Mathematical model of a committed [`Filter`].
#[verifier::ext_equal]
pub ghost struct FilterView {
    pub id: Option<u64>,
    pub name: Seq<char>,
    pub query: Seq<char>,
    pub color: Colors,
    pub item_order: u32,
    pub is_deleted: bool,
    pub is_favorite: bool,
}

/// Mathematical model of a [`FilterBuilder`].
#[verifier::ext_equal]
pub ghost struct FilterBuilderView {
    pub id: Option<u64>,
    pub name: Option<Seq<char>>,
    pub query: Option<Seq<char>>,
    pub color: Colors,
    pub item_order: u32,
    pub is_deleted: bool,
    pub is_favorite: bool,
}

impl FilterBuilderView {
    /// A builder with nothing set; the staged color starts at the default
    /// `Grey`.
    pub open spec fn empty() -> FilterBuilderView {
        FilterBuilderView {
            id: None,
            name: None,
            query: None,
            color: Colors::Grey,
            item_order: 0,
            is_deleted: false,
            is_favorite: false,
        }
    }

    /// What committing this builder yields: the error for a missing name,
    /// then the error for a missing query, else the filter.
    pub open spec fn spec_build(self) -> Result<FilterView, Seq<char>> {
        if self.name is None {
            Err("No name set for filter"@)
        } else if self.query is None {
            Err("No query set for filter"@)
        } else {
            Ok(
                FilterView {
                    id: self.id,
                    name: self.name->0,
                    query: self.query->0,
                    color: self.color,
                    item_order: self.item_order,
                    is_deleted: self.is_deleted,
                    is_favorite: self.is_favorite,
                },
            )
        }
    }
}

/// A committed filter.
///
/// `id` is absent while the filter has not been created remotely.
#[derive(Debug, PartialEq)]
pub struct Filter {
    pub id: Option<u64>,
    pub name: String,
    pub query: String,
    pub color: Colors,
    pub item_order: u32,
    pub is_deleted: bool,
    pub is_favorite: bool,
}

impl View for Filter {
    type V = FilterView;

    open spec fn view(&self) -> FilterView {
        FilterView {
            id: self.id,
            name: self.name@,
            query: self.query@,
            color: self.color,
            item_order: self.item_order,
            is_deleted: self.is_deleted,
            is_favorite: self.is_favorite,
        }
    }
}

impl Filter {
    /// Returns a fresh builder; a `Filter` is only made by committing one.
    pub fn builder() -> (r: FilterBuilder)
        ensures
            r@ == FilterBuilderView::empty(),
    {
        FilterBuilder::default()
    }
}

/// Staging form of a [`Filter`].
#[derive(Debug)]
pub struct FilterBuilder {
    id: Option<u64>,
    name: Option<String>,
    query: Option<String>,
    color: Colors,
    item_order: u32,
    is_deleted: bool,
    is_favorite: bool,
}

impl View for FilterBuilder {
    type V = FilterBuilderView;

    closed spec fn view(&self) -> FilterBuilderView {
        FilterBuilderView {
            id: self.id,
            name: self.name.deep_view(),
            query: self.query.deep_view(),
            color: self.color,
            item_order: self.item_order,
            is_deleted: self.is_deleted,
            is_favorite: self.is_favorite,
        }
    }
}

impl Default for FilterBuilder {
    /// A fresh builder has nothing set; the staged color starts at the
    /// default `Grey`.
    fn default() -> (r: Self)
        ensures
            r@ == FilterBuilderView::empty(),
    {
        FilterBuilder {
            id: None,
            name: None,
            query: None,
            color: Colors::default(),
            item_order: 0,
            is_deleted: false,
            is_favorite: false,
        }
    }
}

impl FilterBuilder {
    /// Stages the filter's identifier.
    pub fn id(self, value: u64) -> (r: Self)
        ensures
            r@ == (FilterBuilderView { id: Some(value), ..self@ }),
    {
        FilterBuilder { id: Some(value), ..self }
    }

    /// Stages the name of the filter. Required.
    pub fn name(self, value: &str) -> (r: Self)
        ensures
            r@ == (FilterBuilderView { name: Some(value@), ..self@ }),
    {
        FilterBuilder { name: Some(value.to_string()), ..self }
    }

    /// Stages the search query of the filter. Required.
    pub fn query(self, value: &str) -> (r: Self)
        ensures
            r@ == (FilterBuilderView { query: Some(value@), ..self@ }),
    {
        FilterBuilder { query: Some(value.to_string()), ..self }
    }

    /// Stages the color of the filter; the default is `Grey`.
    pub fn color(self, value: Colors) -> (r: Self)
        ensures
            r@ == (FilterBuilderView { color: value, ..self@ }),
    {
        FilterBuilder { color: value, ..self }
    }

    /// Stages the order of the filter in the filter list.
    pub fn item_order(self, value: u32) -> (r: Self)
        ensures
            r@ == (FilterBuilderView { item_order: value, ..self@ }),
    {
        FilterBuilder { item_order: value, ..self }
    }

    /// Stages whether the filter is marked as deleted.
    pub fn is_deleted(self, value: bool) -> (r: Self)
        ensures
            r@ == (FilterBuilderView { is_deleted: value, ..self@ }),
    {
        FilterBuilder { is_deleted: value, ..self }
    }

    /// Stages whether the filter is marked as favorite.
    pub fn is_favorite(self, value: bool) -> (r: Self)
        ensures
            r@ == (FilterBuilderView { is_favorite: value, ..self@ }),
    {
        FilterBuilder { is_favorite: value, ..self }
    }

    /// Commits the staged fields into a filter. Fails exactly when no
    /// name is staged, and then when no query is staged.
    pub fn build(&self) -> (r: Result<Filter, &'static str>)
        ensures
            match r {
                Ok(f) => self@.spec_build() == Ok::<FilterView, Seq<char>>(f@),
                Err(m) => self@.spec_build() == Err::<FilterView, Seq<char>>(m@),
            },
    {
        let name = match self.name {
            Some(ref value) => value.clone(),
            None => {
                return Err("No name set for filter");
            },
        };
        let query = match self.query {
            Some(ref value) => value.clone(),
            None => {
                return Err("No query set for filter");
            },
        };
        Ok(
            Filter {
                id: self.id,
                name,
                query,
                color: self.color,
                item_order: self.item_order,
                is_deleted: self.is_deleted,
                is_favorite: self.is_favorite,
            },
        )
    }
}

} // verus!
