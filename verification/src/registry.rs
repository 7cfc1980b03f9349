//! The pending-order registry: what was asked of a provider, and which kind of
//! request went out last.

use vstd::hash_map::StringHashMap;
use vstd::prelude::*;

verus! {

/// The orders that were issued, by order id, and the method of the request
/// that was issued last. Nothing is ever removed from it.
pub struct PendingOrderRegistry {
    orders: StringHashMap<String>,
    last_method: Option<String>,
}

/// A registry as a mathematical value.
pub struct RegistryView {
    /// Order id to the terms that were requested under it.
    pub orders: Map<Seq<char>, Seq<char>>,
    /// The method name of the request issued last, if any was.
    pub last_method: Option<Seq<char>>,
}

impl View for PendingOrderRegistry {
    type V = RegistryView;

    closed spec fn view(&self) -> RegistryView {
        RegistryView {
            orders: self.orders@.map_values(|terms: String| terms@),
            last_method: match self.last_method {
                Some(method) => Some(method@),
                None => None,
            },
        }
    }
}

impl PendingOrderRegistry {
    /// A registry with no order and no recorded method.
    pub fn new() -> (r: PendingOrderRegistry)
        ensures
            r@.orders == Map::<Seq<char>, Seq<char>>::empty(),
            r@.last_method is None,
    {
        let r = PendingOrderRegistry { orders: StringHashMap::new(), last_method: None };
        assert(r@.orders =~= Map::<Seq<char>, Seq<char>>::empty());
        r
    }

    /// Records the terms requested under an order id, replacing earlier terms
    /// under the same id.
    pub fn insert_order(&mut self, id: String, terms: String)
        ensures
            final(self)@.orders == old(self)@.orders.insert(id@, terms@),
            final(self)@.last_method == old(self)@.last_method,
    {
        self.orders.insert(id, terms);
        assert(self@.orders =~= old(self)@.orders.insert(id@, terms@));
    }

    /// Records the method of the request that has just been issued.
    pub fn set_last_method(&mut self, method: String)
        ensures
            final(self)@.orders == old(self)@.orders,
            final(self)@.last_method == Some(method@),
    {
        self.last_method = Some(method);
    }

    /// The terms requested under an order id, if the id is known.
    pub fn order_terms(&self, id: &str) -> (r: Option<&String>)
        ensures
            r is Some <==> self@.orders.contains_key(id@),
            r is Some ==> r->Some_0@ == self@.orders[id@],
    {
        self.orders.get(id)
    }

    /// The method of the request issued last.
    pub fn last_method(&self) -> (r: Option<&String>)
        ensures
            r is Some <==> self@.last_method is Some,
            r is Some ==> r->Some_0@ == self@.last_method->Some_0,
    {
        self.last_method.as_ref()
    }
}

} // verus!
