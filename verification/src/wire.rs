//! The forms in which guests write down what they ask of a service.
use vstd::prelude::*;

use crate::meta::Meta;
use crate::services::database::{
    Filter, FilterOp, FilterView, ListOptions, ListOptionsView, SortField, SortFieldView,
};
use crate::text::text_eq;

verus! {

/// List options as a guest writes them.
#[derive(Debug)]
pub struct WireListOptions {
    pub filters: Vec<WireFilter>,
    pub sort: Vec<WireSortField>,
    pub limit: i64,
    pub offset: i64,
}

/// A filter as a guest writes it.
#[derive(Debug)]
pub struct WireFilter {
    pub field: String,
    pub operator: String,
    pub value: serde_json::Value,
}

/// A sort field as a guest writes it.
#[derive(Debug)]
pub struct WireSortField {
    pub field: String,
    pub desc: bool,
}

/// A query or statement in the database's own language.
#[derive(Debug)]
pub struct RawQuery {
    pub query: String,
    pub args: Vec<serde_json::Value>,
}

/// A network request as a guest writes it.
#[derive(Debug)]
pub struct WireNetworkRequest {
    pub method: String,
    pub url: String,
    pub headers: Meta,
    pub body: Option<serde_json::Value>,
}

/// The operator of a name. A name that is none compares for equality.
pub open spec fn filter_op(name: Seq<char>) -> FilterOp {
    if name == "neq"@ {
        FilterOp::NotEqual
    } else if name == "gt"@ {
        FilterOp::GreaterThan
    } else if name == "gte"@ {
        FilterOp::GreaterEqual
    } else if name == "lt"@ {
        FilterOp::LessThan
    } else if name == "lte"@ {
        FilterOp::LessEqual
    } else if name == "like"@ {
        FilterOp::Like
    } else if name == "in"@ {
        FilterOp::In
    } else {
        FilterOp::Equal
    }
}

/// The operator of a name.
pub fn parse_filter_op(op: &str) -> (r: FilterOp)
    ensures
        r == filter_op(op@),
{
    if text_eq(op, "neq") {
        FilterOp::NotEqual
    } else if text_eq(op, "gt") {
        FilterOp::GreaterThan
    } else if text_eq(op, "gte") {
        FilterOp::GreaterEqual
    } else if text_eq(op, "lt") {
        FilterOp::LessThan
    } else if text_eq(op, "lte") {
        FilterOp::LessEqual
    } else if text_eq(op, "like") {
        FilterOp::Like
    } else if text_eq(op, "in") {
        FilterOp::In
    } else {
        FilterOp::Equal
    }
}

impl WireFilter {
    /// The filter that is written.
    pub open spec fn meaning(self) -> FilterView {
        FilterView {
            field: self.field@,
            operator: filter_op(self.operator@),
            value: self.value,
        }
    }
}

impl WireSortField {
    /// The sort field that is written.
    pub open spec fn meaning(self) -> SortFieldView {
        SortFieldView { field: self.field@, desc: self.desc }
    }
}

/// The filters that are written, one for one.
pub open spec fn filters_meaning(filters: Seq<WireFilter>) -> Seq<FilterView> {
    filters.map_values(|f: WireFilter| f.meaning())
}

/// What filters hold, one for one.
pub open spec fn filters_view(filters: Seq<Filter>) -> Seq<FilterView> {
    filters.map_values(|f: Filter| f@)
}

/// Reads filters, one for one.
pub fn into_filters(filters: Vec<WireFilter>) -> (r: Vec<Filter>)
    ensures
        filters_view(r@) == filters_meaning(filters@),
{
    let mut out: Vec<Filter> = Vec::new();
    for f in it: filters
        invariant
            it.seq() == filters@,
            filters_view(out@) =~= filters_meaning(filters@).take(it.index()),
    {
        let ghost before = out@;
        let operator = parse_filter_op(f.operator.as_str());
        out.push(Filter { field: f.field, operator, value: f.value });
        assert(filters_view(out@) =~= filters_view(before).push(f.meaning()));
    }
    assert(filters_view(out@) =~= filters_meaning(filters@));
    out
}

impl WireListOptions {
    /// The list options that are written.
    pub open spec fn meaning(self) -> ListOptionsView {
        ListOptionsView {
            filters: filters_meaning(self.filters@),
            sort: self.sort@.map_values(|s: WireSortField| s.meaning()),
            limit: self.limit,
            offset: self.offset,
        }
    }

    /// Reads list options.
    pub fn into_list_options(self) -> (r: ListOptions)
        ensures
            r@ == self.meaning(),
    {
        let filters = into_filters(self.filters);
        let mut sort: Vec<SortField> = Vec::new();
        let wire_sort = self.sort;
        let ghost meant = wire_sort@.map_values(|s: WireSortField| s.meaning());
        for s in it: wire_sort
            invariant
                it.seq() == wire_sort@,
                meant == wire_sort@.map_values(|s: WireSortField| s.meaning()),
                sort@.map_values(|s: SortField| s@) =~= meant.take(it.index()),
        {
            let ghost before = sort@;
            sort.push(SortField { field: s.field, desc: s.desc });
            assert(sort@.map_values(|s: SortField| s@) =~= before.map_values(
                |s: SortField| s@,
            ).push(s.meaning()));
        }
        let r = ListOptions { filters, sort, limit: self.limit, offset: self.offset };
        assert(r@.filters == filters_view(filters@));
        assert(r@.sort =~= meant);
        r
    }
}

} // verus!
