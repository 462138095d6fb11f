//! Warehouse selection: activate the requested warehouse when the catalog
//! lists it, otherwise fall back to a configurable default rather than fail.

use vstd::prelude::*;

use crate::model::WarehouseInfo;
use crate::text::{ci_seq_eq, eq_ignore_ascii_case};

verus! {

/// The requested name matches some listed warehouse up to ASCII case.
pub open spec fn spec_warehouse_listed(names: Seq<Seq<char>>, requested: Seq<char>) -> bool {
    exists|i: int| 0 <= i < names.len() && ci_seq_eq(names[i], requested)
}

/// The names of a warehouse list.
pub open spec fn warehouse_names(ws: Seq<WarehouseInfo>) -> Seq<Seq<char>> {
    ws.map_values(|w: WarehouseInfo| w.name@)
}

/// Picks the warehouse to activate: the requested name when the list holds
/// it up to ASCII case, the fallback name otherwise. A missing requested
/// warehouse never raises an error; run continuity wins over strictness.
pub fn select_warehouse(requested: &str, warehouses: &Vec<WarehouseInfo>, fallback: &str) -> (r:
    String)
    ensures
        spec_warehouse_listed(warehouse_names(warehouses@), requested@) ==> r@ == requested@,
        !spec_warehouse_listed(warehouse_names(warehouses@), requested@) ==> r@ == fallback@,
{
    let mut i: usize = 0;
    while i < warehouses.len()
        invariant
            0 <= i <= warehouses@.len(),
            forall|j: int|
                0 <= j < i ==> !ci_seq_eq(#[trigger] warehouse_names(warehouses@)[j], requested@),
        decreases warehouses@.len() - i,
    {
        if eq_ignore_ascii_case(warehouses[i].name.as_str(), requested) {
            proof {
                assert(ci_seq_eq(warehouse_names(warehouses@)[i as int], requested@));
            }
            return String::from_str(requested);
        }
        i += 1;
    }
    String::from_str(fallback)
}

/// The name activated when the requested warehouse is not listed.
pub fn default_fallback_warehouse() -> (r: String)
    ensures
        r@ == "COMPUTE_WH"@,
{
    String::from_str("COMPUTE_WH")
}

} // verus!
