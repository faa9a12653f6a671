//! Flash-sale sessions and the products they list.
use vstd::prelude::*;
use crate::prepare::{FSInfo, ProductInfo};

verus! {

/// The sessions of a `get_all_sessions` answer: none where the answer has
/// no data.
pub fn current_sessions(data: Option<Vec<FSInfo>>) -> (sessions: Vec<FSInfo>)
    ensures
        match data {
            Some(s) => sessions == s,
            None => sessions@.len() == 0,
        },
{
    match data {
        Some(s) => s,
        None => Vec::new(),
    }
}

/// The products of a `get_all_itemids` answer, with their item ids and no
/// shop id yet (0): none where the answer has no data.
pub fn products_from_itemids(itemids: Option<Vec<i64>>) -> (products: Vec<ProductInfo>)
    ensures
        match itemids {
            Some(ids) => products@.len() == ids@.len() && forall|i: int|
                0 <= i < ids@.len() ==> #[trigger] products@[i] == (ProductInfo { item_id: ids@[i], shop_id: 0 }),
            None => products@.len() == 0,
        },
{
    let mut out: Vec<ProductInfo> = Vec::new();
    match itemids {
        None => {},
        Some(ids) => {
            let n = ids.len();
            let mut i: usize = 0;
            while i < n
                invariant
                    n == ids@.len(),
                    i <= n,
                    out@.len() == i,
                    forall|j: int| 0 <= j < i ==> #[trigger] out@[j] == (ProductInfo { item_id: ids@[j], shop_id: 0 }),
                decreases n - i,
            {
                out.push(ProductInfo { item_id: ids[i], shop_id: 0 });
                i = i + 1;
            }
        },
    }
    out
}

} // verus!
