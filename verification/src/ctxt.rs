//! What the lowering keeps for the whole program: the source types, the
//! target types already derived from them, and the names given to functions.
use crate::ir::{FnName, Type};
use crate::source::{SrcTy, TyId};
use crate::ty::{cache_ok, extends};
use std::collections::HashMap;
use vstd::prelude::*;

verus! {

/// Names were handed out in order: each is smaller than the number of names.
pub open spec fn names_ok(names: Map<u64, FnName>) -> bool {
    forall|k: u64| #[trigger] names.contains_key(k) ==> names[k].0 < names.len()
}

/// The name of the function `key` and the table after it was asked for:
/// the name that the table holds, or else the next unused one.
pub open spec fn intern(names: Map<u64, FnName>, key: u64) -> (FnName, Map<u64, FnName>) {
    if names.contains_key(key) {
        (names[key], names)
    } else {
        (FnName(names.len() as u64), names.insert(key, FnName(names.len() as u64)))
    }
}

/// A function that has no name is given one that no function has.
pub proof fn lemma_new_name_is_unused(names: Map<u64, FnName>, key: u64, other: u64)
    requires
        names_ok(names),
        names.dom().finite(),
        names.len() <= u64::MAX,
        !names.contains_key(key),
        names.contains_key(other),
    ensures
        intern(names, key).0 != names[other],
        intern(names, key).1[other] == names[other],
        names_ok(intern(names, key).1),
{
}

pub struct Ctxt {
    /// The source types with their layouts, by type identifier.
    pub types: Vec<SrcTy>,
    /// The source type of the result of a three-way comparison, where the
    /// program has it.
    pub three_way_ty: Option<TyId>,
    /// The target types derived so far. Entries are added, never changed.
    pub ty_cache: HashMap<usize, Type>,
    /// The names given to functions so far, by function identifier.
    /// Entries are added, never changed.
    pub fn_name_map: HashMap<u64, FnName>,
}

impl Ctxt {
    /// The caches agree with what they cache.
    pub open spec fn wf(&self) -> bool {
        &&& cache_ok(self.types@, self.ty_cache@)
        &&& names_ok(self.fn_name_map@)
    }

    /// `self` is `old` after some lowering of types: the same program and
    /// function names, and a type cache that holds what it held.
    pub open spec fn follows(&self, old: &Ctxt) -> bool {
        &&& self.types == old.types
        &&& self.three_way_ty == old.three_way_ty
        &&& self.fn_name_map@ == old.fn_name_map@
        &&& extends(old.ty_cache@, self.ty_cache@)
    }

    pub fn new(types: Vec<SrcTy>, three_way_ty: Option<TyId>) -> (cx: Ctxt)
        ensures
            cx.wf(),
            cx.types == types,
            cx.three_way_ty == three_way_ty,
            cx.ty_cache@ == Map::<usize, Type>::empty(),
            cx.fn_name_map@ == Map::<u64, FnName>::empty(),
    {
        Ctxt { types, three_way_ty, ty_cache: HashMap::new(), fn_name_map: HashMap::new() }
    }

    /// The name of the function `key`, which is given one if it has none.
    pub fn get_fn_name(&mut self, key: u64) -> (name: FnName)
        requires
            old(self).wf(),
        ensures
            final(self).wf(),
            final(self).types == old(self).types,
            final(self).three_way_ty == old(self).three_way_ty,
            final(self).ty_cache == old(self).ty_cache,
            (name, final(self).fn_name_map@) == intern(old(self).fn_name_map@, key),
    {
        broadcast use vstd::std_specs::hash::group_hash_axioms;

        if let Some(name) = self.fn_name_map.get(&key) {
            return *name;
        }
        let len = self.fn_name_map.len();
        let name = FnName(len as u64);
        self.fn_name_map.insert(key, name);
        name
    }
}

} // verus!
