//! What the lowering keeps for one function: the types and names of its
//! locals, the names of its blocks, and the target blocks built so far.
use crate::ctxt::Ctxt;
use crate::error::ErrorKind;
use crate::ir::{BbName, FnName, LocalName};
use crate::source::{SrcTy, TyId};
use crate::syntax::{BasicBlock, BasicBlockView};
use crate::ty::extends;
use std::collections::HashMap;
use vstd::prelude::*;

verus! {

/// What the lowering of an expression depends on.
pub struct Env {
    /// The source types, by type identifier.
    pub tys: Seq<SrcTy>,
    /// The source type of the result of a three-way comparison.
    pub three_way_ty: Option<TyId>,
    /// The type of each source local.
    pub locals: Seq<TyId>,
    /// The target name of each source local.
    pub local_names: Seq<LocalName>,
    /// The target name of each source block.
    pub bb_names: Seq<BbName>,
}

/// What the lowering of a block may change: the names given to functions,
/// the blocks built, and the number of the next unused block name.
pub struct State {
    pub names: Map<u64, FnName>,
    pub blocks: Map<u64, BasicBlockView>,
    pub next_bb: u64,
}

/// `new` holds every block of `old`, unchanged.
pub open spec fn blocks_kept(old: Map<u64, BasicBlockView>, new: Map<u64, BasicBlockView>) -> bool {
    forall|k: u64| #[trigger] old.contains_key(k) ==> new.contains_key(k) && new[k] == old[k]
}

pub struct FnCtxt {
    pub cx: Ctxt,
    /// The type of each source local.
    pub locals: Vec<TyId>,
    /// The target name of each source local.
    pub local_name_map: Vec<LocalName>,
    /// The target name of each source block.
    pub bb_name_map: Vec<BbName>,
    /// The target blocks built so far, by the number of their name.
    /// Blocks are added, never replaced.
    pub blocks: HashMap<u64, BasicBlock>,
    /// The number of the next block name to hand out.
    pub next_bb: u64,
}

impl FnCtxt {
    pub open spec fn env(&self) -> Env {
        Env {
            tys: self.cx.types@,
            three_way_ty: self.cx.three_way_ty,
            locals: self.locals@,
            local_names: self.local_name_map@,
            bb_names: self.bb_name_map@,
        }
    }

    pub open spec fn wf(&self) -> bool {
        self.cx.wf()
    }

    /// `self` lowers the same function of the same program as `old`, with a
    /// type cache that holds what it held.
    pub open spec fn same_fn(&self, old: &FnCtxt) -> bool {
        &&& self.env() == old.env()
        &&& extends(old.cx.ty_cache@, self.cx.ty_cache@)
    }

    /// The blocks built so far, by the number of their name.
    pub open spec fn blocks_view(&self) -> Map<u64, BasicBlockView> {
        Map::new(|k: u64| self.blocks@.contains_key(k), |k: u64| self.blocks@[k]@)
    }

    pub open spec fn state(&self) -> State {
        State { names: self.names(), blocks: self.blocks_view(), next_bb: self.next_bb }
    }

    /// The names given to functions so far.
    pub open spec fn names(&self) -> Map<u64, FnName> {
        self.cx.fn_name_map@
    }

    /// `self` is `old` but for types added to the type cache and names
    /// given to functions.
    pub open spec fn same_blocks(&self, old: &FnCtxt) -> bool {
        &&& self.same_fn(old)
        &&& self.blocks@ == old.blocks@
        &&& self.next_bb == old.next_bb
    }

    /// `self` is `old` but for types added to the type cache.
    pub open spec fn only_cache_grew(&self, old: &FnCtxt) -> bool {
        &&& self.same_blocks(old)
        &&& self.names() == old.names()
    }

    /// A context for a function with the given locals and `n_blocks` blocks:
    /// local `i` is named `i`, block `i` is named `i`, and the names from
    /// `n_blocks` on are unused.
    pub fn new(cx: Ctxt, locals: Vec<TyId>, n_blocks: u64) -> (fcx: FnCtxt)
        requires
            cx.wf(),
        ensures
            fcx.wf(),
            fcx.cx == cx,
            fcx.locals == locals,
            fcx.local_name_map@ == Seq::new(locals@.len(), |i: int| LocalName(i as u64)),
            fcx.bb_name_map@ == Seq::new(n_blocks as nat, |i: int| BbName(i as u64)),
            fcx.blocks@ == Map::<u64, BasicBlock>::empty(),
            fcx.next_bb == n_blocks,
    {
        let mut local_name_map: Vec<LocalName> = Vec::new();
        let mut i: usize = 0;
        while i < locals.len()
            invariant
                i <= locals.len(),
                local_name_map@ == Seq::new(i as nat, |j: int| LocalName(j as u64)),
            decreases locals.len() - i,
        {
            local_name_map.push(LocalName(i as u64));
            assert(local_name_map@ =~= Seq::new((i + 1) as nat, |j: int| LocalName(j as u64)));
            i += 1;
        }
        let mut bb_name_map: Vec<BbName> = Vec::new();
        let mut b: u64 = 0;
        while b < n_blocks
            invariant
                b <= n_blocks,
                bb_name_map@ == Seq::new(b as nat, |j: int| BbName(j as u64)),
            decreases n_blocks - b,
        {
            bb_name_map.push(BbName(b));
            assert(bb_name_map@ =~= Seq::new((b + 1) as nat, |j: int| BbName(j as u64)));
            b += 1;
        }
        FnCtxt { cx, locals, local_name_map, bb_name_map, blocks: HashMap::new(), next_bb: n_blocks }
    }

    /// A block name that was not handed out before.
    pub fn fresh_bb_name(&mut self) -> (r: Result<BbName, ErrorKind>)
        ensures
            final(self).cx == old(self).cx,
            final(self).locals == old(self).locals,
            final(self).local_name_map == old(self).local_name_map,
            final(self).bb_name_map == old(self).bb_name_map,
            final(self).blocks == old(self).blocks,
            match r {
                Ok(name) => name == BbName(old(self).next_bb) && old(self).next_bb < u64::MAX
                    && final(self).next_bb == old(self).next_bb + 1,
                Err(e) => e == ErrorKind::NamesExhausted && old(self).next_bb == u64::MAX
                    && final(self).next_bb == old(self).next_bb,
            },
    {
        if self.next_bb == u64::MAX {
            return Err(ErrorKind::NamesExhausted);
        }
        let name = BbName(self.next_bb);
        self.next_bb = self.next_bb + 1;
        Ok(name)
    }
}

} // verus!
