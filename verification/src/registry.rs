//! The hook registry's mathematical model.
//!
//! A registry is a sequence of pending hooks in registration order, with at
//! most one hook per function identity.  Registering a hook whose identity
//! is already present replaces that entry in place (last writer wins);
//! otherwise the hook is appended.
use vstd::prelude::*;
use crate::hook::HookFn;
use crate::hook::HookView;

verus! {

/// Well-formed registry contents: at most one hook per function identity.
pub open spec fn wf_hooks(s: Seq<HookView>) -> bool {
    forall|i: int, j: int| 0 <= i < j < s.len() ==> s[i].fun != s[j].fun
}

/// Registering one hook: replace the entry with the same identity in place,
/// or append if the identity is new.
pub open spec fn register_spec(s: Seq<HookView>, h: HookView) -> Seq<HookView>
    decreases s.len(),
{
    if s.len() == 0 {
        seq![h]
    } else if s[0].fun == h.fun {
        seq![h] + s.drop_first()
    } else {
        seq![s[0]] + register_spec(s.drop_first(), h)
    }
}

/// Registering a sequence of hooks in order, later entries overriding
/// earlier ones with the same identity.
pub open spec fn register_all(s: Seq<HookView>, hs: Seq<HookView>) -> Seq<HookView>
    decreases hs.len(),
{
    if hs.len() == 0 {
        s
    } else {
        register_all(register_spec(s, hs[0]), hs.drop_first())
    }
}

/// Whether some hook in `s` intercepts `f`.
pub open spec fn has_fn(s: Seq<HookView>, f: HookFn) -> bool {
    exists|i: int| 0 <= i < s.len() && s[i].fun == f
}

/// The registry read as a map from function identity to override fragment;
/// later entries win.
pub open spec fn hook_map(s: Seq<HookView>) -> Map<HookFn, Seq<char>>
    decreases s.len(),
{
    if s.len() == 0 {
        Map::empty()
    } else {
        hook_map(s.drop_last()).insert(s.last().fun, s.last().body)
    }
}

/// When `h`'s identity is absent, registering appends.
pub proof fn lemma_register_fresh(s: Seq<HookView>, h: HookView)
    requires
        !has_fn(s, h.fun),
    ensures
        register_spec(s, h) =~= s.push(h),
    decreases s.len(),
{
    if s.len() == 0 {
    } else {
        assert(s[0].fun != h.fun);
        assert(forall|i: int|
            0 <= i < s.drop_first().len() ==> s.drop_first()[i] == s[i + 1]);
        lemma_register_fresh(s.drop_first(), h);
    }
}

/// When `k` is the first position holding `h`'s identity, registering
/// replaces that position and leaves everything else as it was.
pub proof fn lemma_register_replaces(s: Seq<HookView>, h: HookView, k: int)
    requires
        0 <= k < s.len(),
        s[k].fun == h.fun,
        forall|j: int| 0 <= j < k ==> s[j].fun != h.fun,
    ensures
        register_spec(s, h) =~= s.update(k, h),
    decreases s.len(),
{
    if k == 0 {
        assert(register_spec(s, h) == seq![h] + s.drop_first());
    } else {
        assert(s[0].fun != h.fun);
        assert(forall|i: int|
            0 <= i < s.drop_first().len() ==> s.drop_first()[i] == s[i + 1]);
        lemma_register_replaces(s.drop_first(), h, k - 1);
    }
}

/// Registering never changes which identities precede a fresh one and never
/// introduces a duplicate: a well-formed registry stays well-formed.
pub proof fn lemma_register_preserves_wf(s: Seq<HookView>, h: HookView)
    requires
        wf_hooks(s),
    ensures
        wf_hooks(register_spec(s, h)),
{
    if has_fn(s, h.fun) {
        let k = first_index_of(s, h.fun);
        lemma_first_index_of(s, h.fun);
        lemma_register_replaces(s, h, k);
    } else {
        lemma_register_fresh(s, h);
    }
}

/// A whole sequence of registrations keeps the registry well-formed.
pub proof fn lemma_register_all_preserves_wf(s: Seq<HookView>, hs: Seq<HookView>)
    requires
        wf_hooks(s),
    ensures
        wf_hooks(register_all(s, hs)),
    decreases hs.len(),
{
    if hs.len() > 0 {
        lemma_register_preserves_wf(s, hs[0]);
        lemma_register_all_preserves_wf(register_spec(s, hs[0]), hs.drop_first());
    }
}

/// Dedup law: registering two hooks for the same function identity in
/// sequence leaves exactly what registering only the second one would have
/// left; the first override's fragment is gone without trace.
pub proof fn lemma_register_dedup(s: Seq<HookView>, h1: HookView, h2: HookView)
    requires
        h1.fun == h2.fun,
    ensures
        register_spec(register_spec(s, h1), h2) == register_spec(s, h2),
    decreases s.len(),
{
    if s.len() == 0 {
        assert(register_spec(register_spec(s, h1), h2) =~= seq![h2]);
        assert(register_spec(s, h2) =~= seq![h2]);
    } else if s[0].fun == h1.fun {
        let d = s.drop_first();
        assert(register_spec(s, h1) == seq![h1] + d);
        assert((seq![h1] + d)[0] == h1);
        assert((seq![h1] + d).drop_first() =~= d);
        assert(register_spec(register_spec(s, h1), h2) == seq![h2] + d);
        assert(register_spec(s, h2) == seq![h2] + d);
    } else {
        let d = s.drop_first();
        let r1 = register_spec(d, h1);
        assert(register_spec(s, h1) == seq![s[0]] + r1);
        assert((seq![s[0]] + r1)[0] == s[0]);
        assert((seq![s[0]] + r1).len() > 0);
        assert((seq![s[0]] + r1).drop_first() =~= r1);
        lemma_register_dedup(d, h1, h2);
        assert(register_spec(register_spec(s, h1), h2) == seq![s[0]] + register_spec(r1, h2));
    }
}

/// Updating the one entry that shares `h`'s identity rewrites exactly that
/// identity's fragment in the registry's map reading.
proof fn lemma_hook_map_update(s: Seq<HookView>, h: HookView, k: int)
    requires
        wf_hooks(s),
        0 <= k < s.len(),
        s[k].fun == h.fun,
    ensures
        hook_map(s.update(k, h)) =~= hook_map(s).insert(h.fun, h.body),
    decreases s.len(),
{
    let u = s.update(k, h);
    if k == s.len() - 1 {
        assert(u.drop_last() =~= s.drop_last());
        assert(u.last() == h);
        assert(hook_map(u) == hook_map(s.drop_last()).insert(h.fun, h.body));
        assert(hook_map(s).insert(h.fun, h.body) =~= hook_map(s.drop_last()).insert(
            h.fun,
            h.body,
        ));
    } else {
        assert(u.drop_last() =~= s.drop_last().update(k, h));
        assert(u.last() == s.last());
        lemma_hook_map_update(s.drop_last(), h, k);
        assert(s.last().fun != h.fun);
        assert(hook_map(u) =~= hook_map(s.drop_last()).insert(h.fun, h.body).insert(
            s.last().fun,
            s.last().body,
        ));
    }
}

/// Appending a hook with a fresh identity adds exactly that identity to the
/// registry's map reading.
proof fn lemma_hook_map_push(s: Seq<HookView>, h: HookView)
    ensures
        hook_map(s.push(h)) =~= hook_map(s).insert(h.fun, h.body),
{
    assert(s.push(h).drop_last() =~= s);
    assert(s.push(h).last() == h);
}

/// Registering a hook, read as a map: the registry afterwards maps `h`'s
/// identity to `h`'s fragment and every other identity to what it mapped to
/// before.
pub proof fn lemma_hook_map_register(s: Seq<HookView>, h: HookView)
    requires
        wf_hooks(s),
    ensures
        hook_map(register_spec(s, h)) == hook_map(s).insert(h.fun, h.body),
{
    if has_fn(s, h.fun) {
        let k = first_index_of(s, h.fun);
        lemma_first_index_of(s, h.fun);
        lemma_register_replaces(s, h, k);
        lemma_hook_map_update(s, h, k);
    } else {
        lemma_register_fresh(s, h);
        lemma_hook_map_push(s, h);
    }
}

/// Order independence across identities: for hooks of two different
/// function identities, the registry's map reading is the same whichever of
/// the two is registered first.
pub proof fn lemma_register_order_independent(s: Seq<HookView>, h1: HookView, h2: HookView)
    requires
        wf_hooks(s),
        h1.fun != h2.fun,
    ensures
        hook_map(register_spec(register_spec(s, h1), h2)) == hook_map(
            register_spec(register_spec(s, h2), h1),
        ),
{
    lemma_register_preserves_wf(s, h1);
    lemma_register_preserves_wf(s, h2);
    lemma_hook_map_register(s, h1);
    lemma_hook_map_register(s, h2);
    lemma_hook_map_register(register_spec(s, h1), h2);
    lemma_hook_map_register(register_spec(s, h2), h1);
    assert(hook_map(s).insert(h1.fun, h1.body).insert(h2.fun, h2.body) =~= hook_map(s).insert(
        h2.fun,
        h2.body,
    ).insert(h1.fun, h1.body));
}

/// The hook just registered is present in the registry afterwards.
pub proof fn lemma_register_present(s: Seq<HookView>, h: HookView)
    ensures
        exists|i: int| 0 <= i < register_spec(s, h).len() && register_spec(s, h)[i] == h,
{
    if has_fn(s, h.fun) {
        let k = first_index_of(s, h.fun);
        lemma_first_index_of(s, h.fun);
        lemma_register_replaces(s, h, k);
        assert(register_spec(s, h)[k] == h);
    } else {
        lemma_register_fresh(s, h);
        assert(register_spec(s, h)[s.len() as int] == h);
    }
}

/// Registering a hook never displaces a pending hook of another identity.
pub proof fn lemma_register_keeps_others(s: Seq<HookView>, h: HookView, g: HookView)
    requires
        exists|i: int| 0 <= i < s.len() && s[i] == g,
        g.fun != h.fun,
    ensures
        exists|i: int| 0 <= i < register_spec(s, h).len() && register_spec(s, h)[i] == g,
{
    let gi = choose|i: int| 0 <= i < s.len() && s[i] == g;
    if has_fn(s, h.fun) {
        let k = first_index_of(s, h.fun);
        lemma_first_index_of(s, h.fun);
        lemma_register_replaces(s, h, k);
        assert(s[k].fun == h.fun);
        assert(gi != k);
        assert(register_spec(s, h)[gi] == g);
    } else {
        lemma_register_fresh(s, h);
        assert(register_spec(s, h)[gi] == g);
    }
}

/// The first position in `s` whose hook intercepts `f`, assuming one exists.
spec fn first_index_of(s: Seq<HookView>, f: HookFn) -> int
    decreases s.len(),
{
    if s.len() == 0 {
        0
    } else if s[0].fun == f {
        0
    } else {
        1 + first_index_of(s.drop_first(), f)
    }
}

/// `first_index_of` finds the first matching position when one exists.
proof fn lemma_first_index_of(s: Seq<HookView>, f: HookFn)
    requires
        has_fn(s, f),
    ensures
        0 <= first_index_of(s, f) < s.len(),
        s[first_index_of(s, f)].fun == f,
        forall|j: int| 0 <= j < first_index_of(s, f) ==> s[j].fun != f,
    decreases s.len(),
{
    if s.len() == 0 {
    } else if s[0].fun == f {
    } else {
        assert(forall|i: int|
            0 <= i < s.drop_first().len() ==> s.drop_first()[i] == s[i + 1]);
        let w = choose|i: int| 0 <= i < s.len() && s[i].fun == f;
        assert(s.drop_first()[w - 1].fun == f);
        lemma_first_index_of(s.drop_first(), f);
        assert forall|j: int| 0 <= j < first_index_of(s, f) implies s[j].fun != f by {
            if j > 0 {
                assert(s[j] == s.drop_first()[j - 1]);
            }
        }
    }
}

} // verus!
