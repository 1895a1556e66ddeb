//! Helpers that number the entries of a GPU bind group.
//!
//! An entry pairs a binding slot with a resource. The resources are carried through
//! untouched, so they are a type parameter here; the renderer instantiates it with its
//! own binding resource type.
use vstd::prelude::*;

verus! {

/// One entry of a bind group: the binding slot and the resource bound there.
#[derive(Clone, Copy, Debug, PartialEq)]
pub struct BindGroupEntry<R> {
    /// The binding slot.
    pub binding: u32,
    /// The resource bound to the slot.
    pub resource: R,
}

/// The entries that bind `resources` to consecutive slots counted from `start`, the slot
/// numbers taken modulo 2^32.
pub open spec fn numbered_from<R>(start: int, resources: Seq<R>) -> Seq<BindGroupEntry<R>> {
    Seq::new(
        resources.len(),
        |i: int| BindGroupEntry { binding: (start + i) as u32, resource: resources[i] },
    )
}

/// The entries that bind each resource to the slot paired with it.
pub open spec fn indexed<R>(pairs: Seq<(u32, R)>) -> Seq<BindGroupEntry<R>> {
    Seq::new(pairs.len(), |i: int| BindGroupEntry { binding: pairs[i].0, resource: pairs[i].1 })
}

/// `resources` numbered consecutively from `start`, with no slot past `u32::MAX`.
fn number_from<R>(start: u32, resources: Vec<R>) -> (r: Vec<BindGroupEntry<R>>)
    requires
        resources@.len() == 0 || start + resources@.len() - 1 <= u32::MAX,
    ensures
        r@ == numbered_from(start as int, resources@),
{
    let ghost input = resources@;
    let n = resources.len();
    let mut out: Vec<BindGroupEntry<R>> = Vec::new();
    let mut binding: u32 = start;
    let mut k: usize = 0;
    for resource in it: resources.into_iter()
        invariant
            it.seq() == input,
            k == it.index(),
            n == input.len(),
            input.len() == 0 || start + input.len() - 1 <= u32::MAX,
            k < input.len() ==> binding == start + k,
            out@ =~= numbered_from(start as int, input.take(k as int)),
    {
        out.push(BindGroupEntry { binding, resource });
        proof {
            assert(out@ =~= numbered_from(start as int, input.take(k + 1)));
        }
        if k + 1 < n {
            binding = binding + 1;
        }
        k = k + 1;
    }
    proof {
        assert(input.take(input.len() as int) =~= input);
    }
    out
}

/// `pairs` as entries, each resource bound to the slot paired with it.
fn from_pairs<R>(pairs: Vec<(u32, R)>) -> (r: Vec<BindGroupEntry<R>>)
    ensures
        r@ == indexed(pairs@),
{
    let ghost input = pairs@;
    let mut out: Vec<BindGroupEntry<R>> = Vec::new();
    for pair in it: pairs.into_iter()
        invariant
            it.seq() == input,
            out@ =~= indexed(input.take(it.index() as int)),
    {
        let (binding, resource) = pair;
        out.push(BindGroupEntry { binding, resource });
        proof {
            assert(out@ =~= indexed(input.take(it.index() + 1)));
        }
    }
    proof {
        assert(input.take(input.len() as int) =~= input);
    }
    out
}

/// `out` with the entries of `more` appended, in order.
fn append_entries<R>(out: &mut Vec<BindGroupEntry<R>>, more: Vec<BindGroupEntry<R>>)
    ensures
        final(out)@ == old(out)@ + more@,
{
    let ghost first = out@;
    let ghost input = more@;
    for entry in it: more.into_iter()
        invariant
            it.seq() == input,
            out@ =~= first + input.take(it.index() as int),
    {
        out.push(entry);
        proof {
            assert(out@ =~= first + input.take(it.index() + 1));
        }
    }
    proof {
        assert(input.take(input.len() as int) =~= input);
    }
}

/// The entries of a bind group with exactly `N` entries.
pub struct BindGroupEntries<R, const N: usize> {
    entries: Vec<BindGroupEntry<R>>,
}

impl<R, const N: usize> View for BindGroupEntries<R, N> {
    type V = Seq<BindGroupEntry<R>>;

    closed spec fn view(&self) -> Seq<BindGroupEntry<R>> {
        self.entries@
    }
}

impl<R, const N: usize> BindGroupEntries<R, N> {
    /// Binds the `N` resources to the slots `0, 1, ..., N - 1`, in order.
    pub fn sequential(resources: Vec<R>) -> (r: Self)
        requires
            resources@.len() == N,
            N <= u32::MAX + 1,
        ensures
            r@ == numbered_from(0, resources@),
    {
        BindGroupEntries { entries: number_from(0, resources) }
    }

    /// Binds each of the `N` resources to the slot paired with it, in the order given.
    pub fn with_indexes(indexed_resources: Vec<(u32, R)>) -> (r: Self)
        requires
            indexed_resources@.len() == N,
        ensures
            r@ == indexed(indexed_resources@),
    {
        BindGroupEntries { entries: from_pairs(indexed_resources) }
    }

    /// The entries as a slice.
    pub fn as_slice(&self) -> (r: &[BindGroupEntry<R>])
        ensures
            r@ == self@,
    {
        self.entries.as_slice()
    }
}

impl<R, const N: usize> core::ops::Deref for BindGroupEntries<R, N> {
    type Target = [BindGroupEntry<R>];

    /// The entries as a slice.
    fn deref(&self) -> (r: &[BindGroupEntry<R>])
        ensures
            r@ == self@,
    {
        self.as_slice()
    }
}

/// The entries of a bind group whose length is known only at run time.
pub struct DynamicBindGroupEntries<R> {
    entries: Vec<BindGroupEntry<R>>,
}

impl<R> View for DynamicBindGroupEntries<R> {
    type V = Seq<BindGroupEntry<R>>;

    closed spec fn view(&self) -> Seq<BindGroupEntry<R>> {
        self.entries@
    }
}

impl<R> DynamicBindGroupEntries<R> {
    /// Binds the resources to the slots `0, 1, 2, ...`, in order.
    pub fn sequential(entries: Vec<R>) -> (r: Self)
        requires
            entries@.len() <= u32::MAX + 1,
        ensures
            r@ == numbered_from(0, entries@),
    {
        DynamicBindGroupEntries { entries: number_from(0, entries) }
    }

    /// Appends the resources bound to the slots that follow the last entry's slot. The
    /// last entry must exist, and no new slot may pass `u32::MAX`.
    pub fn extend_sequential(self, entries: Vec<R>) -> (r: Self)
        requires
            self@.len() > 0,
            self@.last().binding + 1 <= u32::MAX,
            self@.last().binding + entries@.len() <= u32::MAX,
        ensures
            r@ == self@ + numbered_from(self@.last().binding + 1, entries@),
    {
        let mut me = self;
        let last = me.entries.len() - 1;
        let start = me.entries[last].binding + 1;
        let more = number_from(start, entries);
        append_entries(&mut me.entries, more);
        me
    }

    /// Binds each resource to the slot paired with it, in the order given.
    pub fn new_with_indexes(entries: Vec<(u32, R)>) -> (r: Self)
        ensures
            r@ == indexed(entries@),
    {
        DynamicBindGroupEntries { entries: from_pairs(entries) }
    }

    /// Appends each resource bound to the slot paired with it, in the order given.
    pub fn extend_with_indexes(self, entries: Vec<(u32, R)>) -> (r: Self)
        ensures
            r@ == self@ + indexed(entries@),
    {
        let mut me = self;
        let more = from_pairs(entries);
        append_entries(&mut me.entries, more);
        me
    }

    /// The entries as a slice.
    pub fn as_slice(&self) -> (r: &[BindGroupEntry<R>])
        ensures
            r@ == self@,
    {
        self.entries.as_slice()
    }
}

impl<R> core::ops::Deref for DynamicBindGroupEntries<R> {
    type Target = [BindGroupEntry<R>];

    /// The entries as a slice.
    fn deref(&self) -> (r: &[BindGroupEntry<R>])
        ensures
            r@ == self@,
    {
        self.as_slice()
    }
}

/// Numbering one run of resources from slot `s` and then a second run from the slot after
/// the first run's last one numbers the joined run from `s`.
pub proof fn lemma_sequential_runs_join<R>(s: int, a: Seq<R>, b: Seq<R>)
    requires
        a.len() > 0,
        0 <= s,
        s + a.len() + b.len() <= u32::MAX + 1,
    ensures
        numbered_from(s, a).last().binding + 1 == s + a.len(),
        numbered_from(s, a) + numbered_from(numbered_from(s, a).last().binding + 1, b)
            == numbered_from(s, a + b),
{
    let last = numbered_from(s, a).last();
    assert(last.binding == s + a.len() - 1);
    assert(numbered_from(s, a) + numbered_from(s + a.len(), b) =~= numbered_from(s, a + b));
}

/// In entries numbered from `s`, with no slot past `u32::MAX`, the `i`-th entry is bound to
/// slot `s + i`, so no two entries share a slot.
pub proof fn lemma_sequential_slots_distinct<R>(s: int, a: Seq<R>, i: int, j: int)
    requires
        0 <= s,
        s + a.len() <= u32::MAX + 1,
        0 <= i < a.len(),
        0 <= j < a.len(),
        i != j,
    ensures
        numbered_from(s, a)[i].binding == s + i,
        numbered_from(s, a)[i].binding != numbered_from(s, a)[j].binding,
{
}

} // verus!
