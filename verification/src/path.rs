//! Paths held as their bytes, split into components and compared as `std::path::Path` compares
//! them on the platforms whose paths are bytes separated by `/`.

use vstd::prelude::*;

use crate::text::bytes_equal;

verus! {

/// Whether `i` is the position of the first `/` of the path.
pub open spec fn is_first_slash(p: Seq<u8>, i: int) -> bool {
    &&& 0 <= i < p.len()
    &&& p[i] == 47u8
    &&& forall|j: int| 0 <= j < i ==> p[j] != 47u8
}

/// The normal component that a segment between two `/` stands for: none for an empty segment
/// and for `.`, the segment itself otherwise.
pub open spec fn normal_component(segment: Seq<u8>) -> Seq<Seq<u8>> {
    if segment.len() == 0 || segment == seq![46u8] {
        Seq::empty()
    } else {
        seq![segment]
    }
}

/// The normal components of a path: its segments between `/`, in order, leaving out the empty
/// ones (repeated and trailing `/`) and `.`.
pub open spec fn normal_components(p: Seq<u8>) -> Seq<Seq<u8>>
    decreases p.len(),
{
    if exists|i: int| is_first_slash(p, i) {
        let i = choose|i: int| is_first_slash(p, i);
        normal_component(p.subrange(0, i)) + normal_components(p.subrange(i + 1, p.len() as int))
    } else {
        normal_component(p)
    }
}

/// Whether the path starts at the root directory.
pub open spec fn has_root(p: Seq<u8>) -> bool {
    p.len() > 0 && p[0] == 47u8
}

/// Whether the path starts with the current directory: `.` alone or followed by `/`.
pub open spec fn starts_with_cur_dir(p: Seq<u8>) -> bool {
    p == seq![46u8] || (p.len() >= 2 && p[0] == 46u8 && p[1] == 47u8)
}

/// Whether two paths have the same components: both or neither start at the root, both or
/// neither start with `.`, and their normal components are the same. This is the equality of
/// `std::path::Path`.
pub open spec fn same_path(a: Seq<u8>, b: Seq<u8>) -> bool {
    &&& has_root(a) == has_root(b)
    &&& starts_with_cur_dir(a) == starts_with_cur_dir(b)
    &&& normal_components(a) == normal_components(b)
}

/// Having the same components is an equivalence: reflexive, symmetric and transitive.
pub proof fn lemma_same_path_equivalence(a: Seq<u8>, b: Seq<u8>, c: Seq<u8>)
    ensures
        same_path(a, a),
        same_path(a, b) ==> same_path(b, a),
        same_path(a, b) && same_path(b, c) ==> same_path(a, c),
{
}

proof fn lemma_first_slash_exists(p: Seq<u8>, k: int)
    requires
        0 <= k < p.len(),
        p[k] == 47u8,
    ensures
        exists|i: int| is_first_slash(p, i),
    decreases k,
{
    if exists|j: int| 0 <= j < k && p[j] == 47u8 {
        let j = choose|j: int| 0 <= j < k && p[j] == 47u8;
        lemma_first_slash_exists(p, j);
    } else {
        assert(is_first_slash(p, k));
    }
}

proof fn lemma_normal_components_trailing_slash(p: Seq<u8>)
    requires
        p.len() > 0,
    ensures
        normal_components(p.push(47u8)) == normal_components(p),
    decreases p.len(),
{
    let q = p.push(47u8);
    let empty = Seq::<u8>::empty();
    assert(normal_components(empty) == normal_component(empty));
    assert(normal_component(empty) =~= Seq::<Seq<u8>>::empty());
    if exists|i: int| is_first_slash(p, i) {
        let i = choose|i: int| is_first_slash(p, i);
        assert(is_first_slash(q, i));
        lemma_normal_components_at_slash(p, i);
        lemma_normal_components_at_slash(q, i);
        assert(q.subrange(0, i) =~= p.subrange(0, i));
        let rest = p.subrange(i + 1, p.len() as int);
        assert(q.subrange(i + 1, q.len() as int) =~= rest.push(47u8));
        if rest.len() == 0 {
            let slash = rest.push(47u8);
            assert(is_first_slash(slash, 0));
            lemma_normal_components_at_slash(slash, 0);
            assert(slash.subrange(0, 0) =~= empty);
            assert(slash.subrange(1, 1) =~= empty);
            assert(normal_components(slash) =~= Seq::<Seq<u8>>::empty());
            assert(normal_components(rest) =~= Seq::<Seq<u8>>::empty());
        } else {
            lemma_normal_components_trailing_slash(rest);
        }
    } else {
        assert forall|j: int| 0 <= j < p.len() implies p[j] != 47u8 by {
            if p[j] == 47u8 {
                lemma_first_slash_exists(p, j);
            }
        }
        assert(is_first_slash(q, p.len() as int));
        lemma_normal_components_at_slash(q, p.len() as int);
        assert(q.subrange(0, p.len() as int) =~= p);
        assert(q.subrange(p.len() as int + 1, q.len() as int) =~= empty);
        assert(normal_components(p) == normal_component(p));
        assert(normal_component(p) + Seq::<Seq<u8>>::empty() =~= normal_component(p));
    }
}

/// A `/` at the end of a path that is not empty changes none of its components.
pub proof fn lemma_same_path_trailing_slash(p: Seq<u8>)
    requires
        p.len() > 0,
    ensures
        same_path(p.push(47u8), p),
{
    let q = p.push(47u8);
    lemma_normal_components_trailing_slash(p);
    assert(q[0] == p[0]);
    if p.len() >= 2 {
        assert(q[1] == p[1]);
    } else if p[0] == 46u8 {
        assert(p =~= seq![46u8]);
    } else {
        assert(q != seq![46u8]);
    }
}

/// A path that starts at the root and one that does not are different paths, and so are paths
/// whose normal components differ.
pub proof fn lemma_different_paths(a: Seq<u8>, b: Seq<u8>)
    ensures
        has_root(a) != has_root(b) ==> !same_path(a, b),
        normal_components(a) != normal_components(b) ==> !same_path(a, b),
{
}

/// The units of each component.
pub open spec fn component_units(components: Seq<Vec<u8>>) -> Seq<Seq<u8>> {
    components.map_values(|c: Vec<u8>| c@)
}

proof fn lemma_first_slash_unique(p: Seq<u8>, i: int, k: int)
    requires
        is_first_slash(p, i),
        is_first_slash(p, k),
    ensures
        i == k,
{
}

proof fn lemma_normal_components_at_slash(p: Seq<u8>, i: int)
    requires
        is_first_slash(p, i),
    ensures
        normal_components(p) == normal_component(p.subrange(0, i)) + normal_components(
            p.subrange(i + 1, p.len() as int),
        ),
{
    let k = choose|k: int| is_first_slash(p, k);
    lemma_first_slash_unique(p, i, k);
}

proof fn lemma_normal_components_without_slash(p: Seq<u8>)
    requires
        forall|j: int| 0 <= j < p.len() ==> p[j] != 47u8,
    ensures
        normal_components(p) == normal_component(p),
{
}

/// Appends the normal component of `segment`, if it has one.
fn push_component(components: &mut Vec<Vec<u8>>, segment: Vec<u8>)
    ensures
        component_units(final(components)@) == component_units(old(components)@) + normal_component(segment@),
{
    let ghost before = component_units(components@);
    let ghost units = segment@;
    let is_dot = segment.len() == 1 && segment[0] == 46u8;
    if segment.len() > 0 && !is_dot {
        components.push(segment);
        proof {
            assert(component_units(components@) =~= before + seq![units]);
        }
    } else {
        proof {
            if !(units.len() == 0) {
                assert(units =~= seq![46u8]);
            }
            assert(before + normal_component(units) =~= before);
        }
    }
}

/// Splits a path into its normal components, in order.
pub fn normal_path_components(p: &[u8]) -> (r: Vec<Vec<u8>>)
    ensures
        component_units(r@) == normal_components(p@),
{
    let n = p.len();
    let mut components: Vec<Vec<u8>> = Vec::new();
    let mut current: Vec<u8> = Vec::new();
    let mut start: usize = 0;
    let mut i: usize = 0;
    assert(p@.subrange(0, n as int) =~= p@);
    while i < n
        invariant
            n == p@.len(),
            start <= i <= n,
            current@ == p@.subrange(start as int, i as int),
            forall|j: int| start <= j < i ==> p@[j] != 47u8,
            normal_components(p@) == component_units(components@) + normal_components(
                p@.subrange(start as int, n as int),
            ),
        decreases n - i,
    {
        if p[i] == 47u8 {
            let ghost q = p@.subrange(start as int, n as int);
            let ghost k = i - start;
            proof {
                assert(is_first_slash(q, k));
                lemma_normal_components_at_slash(q, k);
                assert(q.subrange(0, k) =~= current@);
                assert(q.subrange(k + 1, q.len() as int) =~= p@.subrange(i + 1, n as int));
            }
            let ghost before = component_units(components@);
            let segment = current;
            current = Vec::new();
            push_component(&mut components, segment);
            proof {
                assert(component_units(components@) + normal_components(p@.subrange(i + 1, n as int))
                    =~= before + normal_components(q));
            }
            start = i + 1;
        } else {
            current.push(p[i]);
            assert(current@ =~= p@.subrange(start as int, i + 1));
        }
        i = i + 1;
    }
    let ghost before = component_units(components@);
    proof {
        lemma_normal_components_without_slash(p@.subrange(start as int, n as int));
    }
    push_component(&mut components, current);
    components
}

/// Whether the path starts at the root directory.
fn path_has_root(p: &[u8]) -> (r: bool)
    ensures
        r == has_root(p@),
{
    p.len() > 0 && p[0] == 47u8
}

/// Whether the path starts with the current directory `.`.
fn path_starts_with_cur_dir(p: &[u8]) -> (r: bool)
    ensures
        r == starts_with_cur_dir(p@),
{
    if p.len() == 1 && p[0] == 46u8 {
        assert(p@ =~= seq![46u8]);
        true
    } else {
        p.len() >= 2 && p[0] == 46u8 && p[1] == 47u8
    }
}

/// Whether two paths are equal as `std::path::Path`s: they have the same components.
pub fn same_path_bytes(a: &[u8], b: &[u8]) -> (r: bool)
    ensures
        r == same_path(a@, b@),
{
    if path_has_root(a) != path_has_root(b) || path_starts_with_cur_dir(a) != path_starts_with_cur_dir(b) {
        return false;
    }
    let ca = normal_path_components(a);
    let cb = normal_path_components(b);
    if ca.len() != cb.len() {
        proof {
            assert(component_units(ca@).len() != component_units(cb@).len());
        }
        return false;
    }
    let mut i: usize = 0;
    while i < ca.len()
        invariant
            ca@.len() == cb@.len(),
            i <= ca@.len(),
            component_units(ca@) == normal_components(a@),
            component_units(cb@) == normal_components(b@),
            forall|j: int| 0 <= j < i ==> ca@[j]@ == cb@[j]@,
        decreases ca.len() - i,
    {
        if !bytes_equal(ca[i].as_slice(), cb[i].as_slice()) {
            proof {
                assert(component_units(ca@)[i as int] == ca@[i as int]@);
                assert(component_units(cb@)[i as int] == cb@[i as int]@);
                assert(component_units(ca@) != component_units(cb@));
            }
            return false;
        }
        i = i + 1;
    }
    proof {
        assert(component_units(ca@) =~= component_units(cb@));
    }
    true
}

} // verus!
