//! The module registry and the dispatch rules.
//!
//! The registry is an arena: insertion order defines each module's
//! handle, a stable dense index. Dispatch matches an incoming frame's
//! addressing against every module and reports the handles that should
//! receive it, in registry order.

use vstd::prelude::*;

use crate::header::Header;
use crate::header::TargetMode;
use crate::mod_type::ModuleType;
use crate::module::Module;
use crate::msg::Message;

verus! {

/// Whether a frame with header `h` is delivered to module `m`:
/// broadcasts reach everyone; id-addressed frames (acknowledged or not)
/// reach the modules with that id, and every sniffer; type-addressed
/// frames reach the modules whose type encoding equals the target; no
/// multicast membership exists yet, so multicasts reach nobody.
pub open spec fn module_matches(m: Module, h: Header) -> bool {
    match h.target_mode {
        TargetMode::Broadcast => true,
        TargetMode::Id => m.id == h.target || m.mod_type == ModuleType::Sniffer,
        TargetMode::IdAck => m.id == h.target || m.mod_type == ModuleType::Sniffer,
        TargetMode::Type => m.mod_type.code_spec() == h.target,
        TargetMode::Multicast => false,
    }
}

/// What a correct dispatch result looks like: every reported handle
/// names a matching module, every matching module's handle is reported,
/// and handles are strictly increasing, so each matching module is
/// reported exactly once, in registry order.
pub open spec fn dispatch_ok(reg: Seq<Module>, h: Header, r: Seq<usize>) -> bool {
    &&& forall|j: int| 0 <= j < r.len() ==> (#[trigger] r[j]) < reg.len() && module_matches(
        reg[r[j] as int],
        h,
    )
    &&& forall|i: int|
        0 <= i < reg.len() && #[trigger] module_matches(reg[i], h) ==> r.contains(i as usize)
    &&& forall|j: int, k: int| 0 <= j < k < r.len() ==> r[j] < r[k]
}

/// The modules local to one node, in creation order.
pub struct Registry {
    modules: Vec<Module>,
}

impl View for Registry {
    type V = Seq<Module>;

    closed spec fn view(&self) -> Seq<Module> {
        self.modules@
    }
}

impl Registry {
    /// A registry with no modules.
    pub fn new() -> (r: Registry)
        ensures
            r@ == Seq::<Module>::empty(),
    {
        Registry { modules: Vec::new() }
    }

    /// Appends a module; its handle is the registry's previous length.
    pub fn add(&mut self, module: Module)
        ensures
            final(self)@ == old(self)@.push(module),
    {
        self.modules.push(module);
    }

    /// Number of registered modules.
    pub fn len(&self) -> (r: usize)
        ensures
            r == self@.len(),
    {
        self.modules.len()
    }

    /// The bus id of the module behind a handle.
    pub fn module_id(&self, handle: usize) -> (r: u16)
        requires
            handle < self@.len(),
        ensures
            r == self@[handle as int].id,
    {
        self.modules[handle].id
    }

    /// Gives the module behind a handle its bus id.
    pub fn set_module_id(&mut self, handle: usize, id: u16)
        requires
            handle < old(self)@.len(),
        ensures
            final(self)@ == old(self)@.update(
                handle as int,
                (Module { id, ..old(self)@[handle as int] }),
            ),
    {
        let m = &mut self.modules[handle];
        m.id = id;
    }

    /// The handles of the modules a frame is delivered to, in registry
    /// order, each matching module exactly once.
    pub fn find_targeted_modules(&self, msg: &Message) -> (r: Vec<usize>)
        ensures
            dispatch_ok(self@, msg.header, r@),
    {
        let mut matched: Vec<usize> = Vec::new();
        let mut i: usize = 0;
        while i < self.modules.len()
            invariant
                0 <= i <= self@.len(),
                forall|j: int| 0 <= j < matched@.len() ==> (#[trigger] matched@[j]) < i
                    && module_matches(self@[matched@[j] as int], msg.header),
                forall|idx: int|
                    0 <= idx < i && #[trigger] module_matches(self@[idx], msg.header)
                        ==> matched@.contains(idx as usize),
                forall|j: int, k: int| 0 <= j < k < matched@.len() ==> matched@[j] < matched@[k],
            decreases self@.len() - i,
        {
            let m = &self.modules[i];
            let hit = match msg.header.target_mode {
                TargetMode::Broadcast => true,
                TargetMode::Id | TargetMode::IdAck => m.id == msg.header.target || m.mod_type
                    == ModuleType::Sniffer,
                TargetMode::Type => m.mod_type.code() == msg.header.target,
                TargetMode::Multicast => false,
            };
            proof {
                assert(hit == module_matches(self@[i as int], msg.header));
            }
            let ghost pre = matched@;
            if hit {
                matched.push(i);
            }
            i = i + 1;
            proof {
                assert forall|idx: int|
                    0 <= idx < i && #[trigger] module_matches(self@[idx], msg.header)
                        implies matched@.contains(idx as usize) by {
                    if idx < i - 1 {
                        let w = choose|w: int| 0 <= w < pre.len() && pre[w] == idx as usize;
                        assert(matched@[w] == idx as usize);
                    } else {
                        assert(matched@[matched@.len() - 1] == idx as usize);
                    }
                }
            }
        }
        matched
    }
}

/// Dispatch hits each matching module exactly once: its handle appears
/// in the result, and at only one position. This holds for every
/// addressing mode, so one frame fires one callback per matched module.
pub proof fn lemma_dispatch_exactly_once(reg: Seq<Module>, h: Header, r: Seq<usize>, i: int)
    requires
        dispatch_ok(reg, h, r),
        reg.len() <= usize::MAX,
        0 <= i < reg.len(),
        module_matches(reg[i], h),
    ensures
        exists|j: int| 0 <= j < r.len() && r[j] == i,
        forall|j: int, k: int|
            0 <= j < r.len() && 0 <= k < r.len() && r[j] == i && r[k] == i ==> j == k,
{
    assert(r.contains(i as usize));
    let w = choose|w: int| 0 <= w < r.len() && r[w] == i as usize;
    assert(r[w] < reg.len());
    assert(r[w] == i);
    assert forall|j: int, k: int|
        0 <= j < r.len() && 0 <= k < r.len() && r[j] == i && r[k] == i implies j == k by {
        if j < k {
            assert(r[j] < r[k]);
        }
        if k < j {
            assert(r[k] < r[j]);
        }
    }
}

/// Dispatch totality for broadcasts: a correct dispatch of a broadcast
/// frame reports every module's handle, once, in order.
pub proof fn lemma_broadcast_dispatch(reg: Seq<Module>, h: Header, r: Seq<usize>)
    requires
        dispatch_ok(reg, h, r),
        reg.len() <= usize::MAX,
        h.target_mode is Broadcast,
    ensures
        r.len() == reg.len(),
        forall|i: int| 0 <= i < r.len() ==> r[i] == i,
{
    if reg.len() > 0 {
        lemma_identity_at(reg, h, r, reg.len() as int - 1);
    }
    assert(r.len() >= reg.len());
    if r.len() > reg.len() {
        let n = reg.len() as int;
        assert(0 <= n < r.len());
        assert(r[n] < reg.len());
        if n == 0 {
            assert(false);
        } else {
            lemma_identity_at(reg, h, r, n - 1);
            assert(r[n - 1] < r[n]);
            assert(false);
        }
    }
    assert forall|i: int| 0 <= i < r.len() implies r[i] == i by {
        lemma_identity_at(reg, h, r, i);
    }
}

/// In a strictly increasing dispatch result, the value at an index is at
/// least the index.
proof fn lemma_sorted_lower_bound(r: Seq<usize>, k: int)
    requires
        forall|j: int, k2: int| 0 <= j < k2 < r.len() ==> r[j] < r[k2],
        0 <= k < r.len(),
    ensures
        r[k] >= k,
    decreases k,
{
    if k > 0 {
        lemma_sorted_lower_bound(r, k - 1);
        assert(r[k - 1] < r[k]);
    }
}

/// For a broadcast, the handle at position `i` of a correct dispatch
/// result is `i` itself.
proof fn lemma_identity_at(reg: Seq<Module>, h: Header, r: Seq<usize>, i: int)
    requires
        dispatch_ok(reg, h, r),
        reg.len() <= usize::MAX,
        h.target_mode is Broadcast,
        0 <= i < reg.len(),
    ensures
        i < r.len(),
        r[i] == i,
    decreases i,
{
    assert(module_matches(reg[i], h));
    assert(r.contains(i as usize));
    let k = choose|k: int| 0 <= k < r.len() && r[k] == i as usize;
    lemma_sorted_lower_bound(r, k);
    assert(r[k] == i);
    assert(k <= i);
    if k < i {
        lemma_identity_at(reg, h, r, k);
        assert(r[k] == k);
        assert(false);
    } else {
        assert(k == i);
    }
}

} // verus!
