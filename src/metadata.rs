use vstd::prelude::*;
use std::collections::HashMap;

verus! {

/// What a loaded table exposes: its current schema, base properties, the
/// additional properties of its current snapshot's summary (none without a
/// snapshot), its default and all of its partition specs, and its sort orders.
pub struct TableHandle<S, P, O> {
    pub schema: S,
    pub properties: HashMap<String, String>,
    pub snapshot_summary: Option<HashMap<String, String>>,
    pub default_partition_spec: P,
    pub partition_specs: Vec<P>,
    pub sort_orders: Vec<O>,
}

/// The aggregated properties of one table.
pub struct TableProperties<P, O> {
    pub properties: HashMap<String, String>,
    pub additional_properties: HashMap<String, String>,
    pub partition: Vec<P>,
    pub sort_orders: Vec<O>,
}

/// Properties, additional properties, partition specs, sort orders.
pub type TablePropertiesView<P, O> = (Map<String, String>, Map<String, String>, Seq<P>, Seq<O>);

impl<P, O> View for TableProperties<P, O> {
    type V = TablePropertiesView<P, O>;

    open spec fn view(&self) -> TablePropertiesView<P, O> {
        (self.properties@, self.additional_properties@, self.partition@, self.sort_orders@)
    }
}

/// The snapshot summary's additional properties, or nothing without a snapshot.
pub open spec fn additional_of(summary: Option<HashMap<String, String>>) -> Map<String, String> {
    match summary {
        Some(m) => m@,
        None => Map::empty(),
    }
}

/// The partition specs a backend exposes: all of them where it keeps the full
/// history, else only the default one.
pub open spec fn partition_of<S, P, O>(h: TableHandle<S, P, O>, full_history: bool) -> Seq<P> {
    if full_history {
        h.partition_specs@
    } else {
        seq![h.default_partition_spec]
    }
}

pub open spec fn expected_properties<S, P, O>(
    h: TableHandle<S, P, O>,
    full_history: bool,
) -> TablePropertiesView<P, O> {
    (h.properties@, additional_of(h.snapshot_summary), partition_of(h, full_history), h.sort_orders@)
}

/// Two handles that hold the same metadata.
pub open spec fn same_metadata<S, P, O>(a: TableHandle<S, P, O>, b: TableHandle<S, P, O>) -> bool {
    &&& a.properties@ == b.properties@
    &&& additional_of(a.snapshot_summary) == additional_of(b.snapshot_summary)
    &&& a.default_partition_spec == b.default_partition_spec
    &&& a.partition_specs@ == b.partition_specs@
    &&& a.sort_orders@ == b.sort_orders@
}

/// Assembles the properties of a loaded table from its four sources.
pub fn aggregate<S, P, O>(handle: TableHandle<S, P, O>, full_history: bool) -> (r: TableProperties<P, O>)
    ensures
        r@ == expected_properties(handle, full_history),
{
    let ghost h = handle;
    let TableHandle {
        schema: _,
        properties,
        snapshot_summary,
        default_partition_spec,
        partition_specs,
        sort_orders,
    } = handle;
    let additional_properties = match snapshot_summary {
        Some(m) => m,
        None => HashMap::new(),
    };
    let partition = if full_history {
        partition_specs
    } else {
        vec![default_partition_spec]
    };
    assert(partition@ =~= partition_of(h, full_history));
    TableProperties { properties, additional_properties, partition, sort_orders }
}

/// A table without a current snapshot has no additional properties.
pub proof fn no_snapshot_no_additional_properties<S, P, O>(h: TableHandle<S, P, O>, full_history: bool)
    requires
        h.snapshot_summary is None,
    ensures
        expected_properties(h, full_history).1 == Map::<String, String>::empty(),
{
}

/// Aggregation depends on the table's metadata alone: loading an unchanged
/// table again gives the same properties.
pub proof fn aggregate_idempotent<S, P, O>(
    a: TableHandle<S, P, O>,
    b: TableHandle<S, P, O>,
    full_history: bool,
)
    requires
        same_metadata(a, b),
    ensures
        expected_properties(a, full_history) == expected_properties(b, full_history),
{
    assert(partition_of(a, full_history) =~= partition_of(b, full_history));
}

} // verus!
