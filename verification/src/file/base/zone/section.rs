//! Sections, which hold element connectivity.
//!
//! Based on: <https://cgns.github.io/CGNS_docs_current/midlevel/grid.html#elements>
use vstd::prelude::*;

use super::Zone;
use crate::errors::{CGNSError, OtherError};
use crate::traits::CGNSNode;
use crate::utils::{bytes2string, is_name_read_error, spec_bytes2string};

verus! {

/// Code of the element type `MIXED` (`ElementType_t`).
pub const MIXED: u32 = 20;
/// Code of the element type `NGON_n` (`ElementType_t`).
pub const NGON_N: u32 = 22;
/// Code of the element type `NFACE_n` (`ElementType_t`).
pub const NFACE_N: u32 = 23;

/// Values written at the start of the offsets buffer before the library
/// fills it: if they are still there after the read, the library did not
/// write offsets.
pub const CONTROL_PATTERN: [i64; 2] = [1337, 420];

/// Whether sections of element type `t` store their connectivity as a
/// connectivity array and an offsets array.
pub open spec fn has_offsets(t: u32) -> bool {
    t == MIXED || t == NGON_N || t == NFACE_N
}

/// `x`, or zero when it is negative.
pub open spec fn nonneg(x: i64) -> int {
    if x > 0 {
        x as int
    } else {
        0
    }
}

/// In a connectivity where each element is written as its number of nodes
/// followed by its nodes (the layout of CGNS before version 4), the position
/// of the `k`-th element.
pub open spec fn counted_start(conn: Seq<i64>, k: nat) -> int
    decreases k,
{
    if k == 0 {
        0
    } else {
        let p = counted_start(conn, (k - 1) as nat);
        p + 1 + nonneg(conn[p])
    }
}

/// In the same layout, the offset of the `k`-th element once the counts are
/// taken out: the sum of the counts of the elements before it.
pub open spec fn counted_offset(conn: Seq<i64>, k: nat) -> int
    decreases k,
{
    if k == 0 {
        0
    } else {
        counted_offset(conn, (k - 1) as nat) + conn[counted_start(conn, (k - 1) as nat)]
    }
}

/// In the same layout, the nodes of the first `k` elements, counts taken out.
pub open spec fn counted_nodes(conn: Seq<i64>, k: nat) -> Seq<i64>
    decreases k,
{
    if k == 0 {
        Seq::empty()
    } else {
        let p = counted_start(conn, (k - 1) as nat);
        counted_nodes(conn, (k - 1) as nat) + conn.subrange(p + 1, counted_start(conn, k))
    }
}

/// The first `n` elements of `conn` lie inside it in the counted layout, and
/// their offsets fit in an `i64`.
pub open spec fn counted_layout_fits(conn: Seq<i64>, n: nat) -> bool {
    &&& counted_start(conn, n) <= conn.len()
    &&& forall|k: nat| k <= n ==> i64::MIN <= #[trigger] counted_offset(conn, k) <= i64::MAX
}

/// In a `MIXED` connectivity, where each element is written as its type
/// followed by its nodes, the position of the `k`-th element; `None` once an
/// element has a type that `npe_by_type` does not size. The type of an
/// element is the value before its nodes taken as a `u32` (its low 32 bits).
pub open spec fn mixed_start(conn: Seq<i64>, npe_by_type: Seq<i64>, k: nat) -> Option<int>
    decreases k,
{
    if k == 0 {
        Some(0)
    } else {
        match mixed_start(conn, npe_by_type, (k - 1) as nat) {
            None => None,
            Some(p) => {
                let t = conn[p] as u32;
                if t < npe_by_type.len() {
                    Some(p + npe_by_type[t as int] + 1)
                } else {
                    None
                }
            },
        }
    }
}

/// The first `n` elements of a `MIXED` connectivity can be walked: each
/// element that is reached starts inside `conn`, and every position reached
/// fits in an `i64` and a `usize`.
pub open spec fn mixed_layout_fits(conn: Seq<i64>, npe_by_type: Seq<i64>, n: nat) -> bool {
    &&& forall|t: int| 0 <= t < npe_by_type.len() ==> npe_by_type[t] >= 0
    &&& forall|k: nat|
        k < n ==> (#[trigger] mixed_start(conn, npe_by_type, k) matches Some(p) ==> p < conn.len())
    &&& forall|k: nat|
        k <= n ==> (#[trigger] mixed_start(conn, npe_by_type, k) matches Some(p) ==> p
            <= i64::MAX && p <= usize::MAX)
}

/// The walk of a `MIXED` connectivity reaches the `k`-th element and stops
/// there, on the type it holds, with the error `e`.
pub open spec fn is_mixed_failure(conn: Seq<i64>, npe_by_type: Seq<i64>, k: nat, e: CGNSError) -> bool {
    &&& mixed_start(conn, npe_by_type, k) is Some
    &&& mixed_start(conn, npe_by_type, k + 1) is None
    &&& e == CGNSError::Other(
        OtherError::InvalidMixedElement { value: conn[mixed_start(conn, npe_by_type, k)->0] },
    )
}

proof fn lemma_counted_start_grows(conn: Seq<i64>, j: nat, k: nat)
    requires
        j <= k,
    ensures
        counted_start(conn, j) + (k - j) <= counted_start(conn, k),
    decreases k,
{
    if j < k {
        lemma_counted_start_grows(conn, j, (k - 1) as nat);
    }
}

proof fn lemma_counted_nodes_len(conn: Seq<i64>, k: nat)
    requires
        counted_start(conn, k) <= conn.len(),
    ensures
        counted_nodes(conn, k).len() == counted_start(conn, k) - k,
    decreases k,
{
    if k > 0 {
        lemma_counted_start_grows(conn, (k - 1) as nat, k);
        lemma_counted_nodes_len(conn, (k - 1) as nat);
    }
}

proof fn lemma_mixed_none_stays(conn: Seq<i64>, npe_by_type: Seq<i64>, j: nat, k: nat)
    requires
        j <= k,
        mixed_start(conn, npe_by_type, j) is None,
    ensures
        mixed_start(conn, npe_by_type, k) is None,
    decreases k,
{
    if j < k {
        lemma_mixed_none_stays(conn, npe_by_type, j, (k - 1) as nat);
    }
}

/// The connectivity `conn` can have the offsets of `offsets_len - 1`
/// elements of type `elem_type` rebuilt.
pub open spec fn offsets_fix_fits(conn: Seq<i64>, offsets_len: int, elem_type: u32, npe_by_type: Seq<i64>) -> bool {
    &&& offsets_len >= 1
    &&& (elem_type == NGON_N || elem_type == NFACE_N) ==> counted_layout_fits(
        conn,
        (offsets_len - 1) as nat,
    )
    &&& elem_type == MIXED ==> mixed_layout_fits(conn, npe_by_type, (offsets_len - 1) as nat)
}

/// What rebuilding the offsets of the connectivity `conn` (becoming
/// `conn_new`) into `offsets` (becoming `offsets_new`) for elements of type
/// `elem_type` gives: see [`fix_missing_elements_offsets`].
pub open spec fn is_offsets_fix(
    conn: Seq<i64>,
    conn_new: Seq<i64>,
    offsets: Seq<i64>,
    offsets_new: Seq<i64>,
    elem_type: u32,
    npe_by_type: Seq<i64>,
    r: Result<usize, CGNSError>,
) -> bool {
    let n = (offsets.len() - 1) as nat;
    &&& offsets_new.len() == offsets.len()
    &&& conn_new.len() == conn.len()
    &&& offsets_new[0] == 0
    &&& if elem_type == NGON_N || elem_type == NFACE_N {
        let nodes = counted_nodes(conn, n);
        &&& r == Ok::<usize, CGNSError>(nodes.len() as usize)
        &&& conn_new == nodes + conn.skip(nodes.len() as int)
        &&& forall|k: nat| k <= n ==> offsets_new[k as int] == counted_offset(conn, k)
    } else if elem_type == MIXED {
        &&& conn_new == conn
        &&& (r is Ok <==> mixed_start(conn, npe_by_type, n) is Some)
        &&& (r matches Ok(len) ==> mixed_start(conn, npe_by_type, n) == Some(len as int))
        &&& (r matches Err(e) ==> exists|k: nat|
            #![trigger mixed_start(conn, npe_by_type, k)]
            k < n && is_mixed_failure(conn, npe_by_type, k, e))
        &&& forall|k: nat|
            1 <= k <= n ==> offsets_new[k as int] == match #[trigger] mixed_start(
                conn,
                npe_by_type,
                k,
            ) {
                Some(p) => p,
                None => offsets[k as int] as int,
            }
    } else {
        &&& conn_new == conn
        &&& offsets_new == offsets.update(0, 0)
        &&& r == Err::<usize, CGNSError>(
            CGNSError::Other(OtherError::InvalidElementTypeForOffsets { elem_type }),
        )
    }
}

/// Whether [`fix_missing_elements_offsets`] can rebuild the offsets of
/// `offsets_len - 1` elements of type `elem_type` from `conn`: whether it
/// stays inside the buffers and its offsets fit in an `i64`.
pub fn can_fix_offsets(conn: &[i64], offsets_len: usize, elem_type: u32, npe_by_type: &[i64]) -> (r:
    bool)
    ensures
        r == offsets_fix_fits(conn@, offsets_len as int, elem_type, npe_by_type@),
{
    if offsets_len < 1 {
        return false;
    }
    let n = offsets_len - 1;
    if elem_type == NGON_N || elem_type == NFACE_N {
        let mut idx: usize = 0;
        let mut offset: i64 = 0;
        let mut k: usize = 0;
        while k < n
            invariant
                n == offsets_len - 1,
                elem_type == NGON_N || elem_type == NFACE_N,
                k <= n,
                idx == counted_start(conn@, k as nat),
                idx <= conn@.len(),
                offset == counted_offset(conn@, k as nat),
                forall|j: nat| j <= k ==> i64::MIN <= #[trigger] counted_offset(conn@, j) <= i64::MAX,
            decreases n - k,
        {
            if idx >= conn.len() {
                proof {
                    lemma_counted_start_grows(conn@, k as nat, n as nat);
                }
                return false;
            }
            let size = conn[idx];
            let next_offset = offset.checked_add(size);
            assert(counted_offset(conn@, (k + 1) as nat) == offset + size);
            match next_offset {
                None => {
                    return false;
                },
                Some(o) => {
                    offset = o;
                },
            }
            let skip: usize = if size > 0 {
                if size as u64 > (conn.len() - idx - 1) as u64 {
                    proof {
                        lemma_counted_start_grows(conn@, (k + 1) as nat, n as nat);
                    }
                    return false;
                }
                size as usize
            } else {
                0
            };
            idx = idx + 1 + skip;
            k = k + 1;
        }
        proof {
            if elem_type == MIXED {
                assert(false);
            }
        }
        true
    } else if elem_type == MIXED {
        let mut t: usize = 0;
        while t < npe_by_type.len()
            invariant
                elem_type == MIXED,
                n == offsets_len - 1,
                t <= npe_by_type@.len(),
                forall|j: int| 0 <= j < t ==> npe_by_type@[j] >= 0,
            decreases npe_by_type@.len() - t,
        {
            if npe_by_type[t] < 0 {
                assert(npe_by_type@[t as int] < 0);
                return false;
            }
            t = t + 1;
        }
        let mut idx: usize = 0;
        let mut k: usize = 0;
        while k < n
            invariant
                n == offsets_len - 1,
                elem_type == MIXED,
                k <= n,
                forall|j: int| 0 <= j < npe_by_type@.len() ==> npe_by_type@[j] >= 0,
                mixed_start(conn@, npe_by_type@, k as nat) == Some(idx as int),
                idx <= i64::MAX,
                forall|j: nat|
                    j < k ==> (#[trigger] mixed_start(conn@, npe_by_type@, j) matches Some(p) ==> p
                        < conn@.len()),
                forall|j: nat|
                    j <= k ==> (#[trigger] mixed_start(conn@, npe_by_type@, j) matches Some(p) ==> p
                        <= i64::MAX && p <= usize::MAX),
            decreases n - k,
        {
            if idx >= conn.len() {
                assert(mixed_start(conn@, npe_by_type@, k as nat) == Some(idx as int));
                return false;
            }
            let code = conn[idx] as u32;
            if code as u64 >= npe_by_type.len() as u64 {
                proof {
                    assert forall|j: nat|
                        k < j <= n implies (#[trigger] mixed_start(conn@, npe_by_type@, j) matches Some(
                        p,
                    ) ==> p <= i64::MAX && p <= usize::MAX) && (j < n ==> (mixed_start(
                        conn@,
                        npe_by_type@,
                        j,
                    ) matches Some(p) ==> p < conn@.len())) by {
                        lemma_mixed_none_stays(conn@, npe_by_type@, (k + 1) as nat, j);
                    }
                }
                return true;
            }
            let size = npe_by_type[code as usize];
            let next: u64 = idx as u64 + size as u64 + 1;
            assert(mixed_start(conn@, npe_by_type@, (k + 1) as nat) == Some(next as int));
            if next > i64::MAX as u64 || next > usize::MAX as u64 {
                return false;
            }
            idx = next as usize;
            k = k + 1;
        }
        true
    } else {
        true
    }
}

/// What rebuilding offsets gives is fixed by its inputs: two outcomes that
/// both meet [`is_offsets_fix`] for the same connectivity, offsets, element
/// type and sizes are the same. So reading a section with
/// [`Section::finish_elements_read`] rebuilds exactly what
/// [`fix_missing_elements_offsets`] does on the same data.
pub proof fn law_offsets_fix_is_determined(
    conn: Seq<i64>,
    offsets: Seq<i64>,
    elem_type: u32,
    npe_by_type: Seq<i64>,
    conn1: Seq<i64>,
    offsets1: Seq<i64>,
    r1: Result<usize, CGNSError>,
    conn2: Seq<i64>,
    offsets2: Seq<i64>,
    r2: Result<usize, CGNSError>,
)
    requires
        offsets.len() >= 1,
        is_offsets_fix(conn, conn1, offsets, offsets1, elem_type, npe_by_type, r1),
        is_offsets_fix(conn, conn2, offsets, offsets2, elem_type, npe_by_type, r2),
    ensures
        conn1 == conn2,
        offsets1 == offsets2,
        r1 == r2,
{
    let n = (offsets.len() - 1) as nat;
    if elem_type == NGON_N || elem_type == NFACE_N {
        assert forall|i: int| 0 <= i < offsets.len() implies offsets1[i] == offsets2[i] by {
            let k = i as nat;
            assert(offsets1[k as int] == counted_offset(conn, k));
            assert(offsets2[k as int] == counted_offset(conn, k));
        }
        assert(offsets1 =~= offsets2);
    } else if elem_type == MIXED {
        assert forall|i: int| 0 <= i < offsets.len() implies offsets1[i] == offsets2[i] by {
            if i >= 1 {
                let k = i as nat;
                assert(1 <= k <= n);
                let m = mixed_start(conn, npe_by_type, k);
                assert(offsets1[k as int] == match m {
                    Some(p) => p,
                    None => offsets[k as int] as int,
                });
                assert(offsets2[k as int] == match m {
                    Some(p) => p,
                    None => offsets[k as int] as int,
                });
            }
        }
        assert(offsets1 =~= offsets2);
        if r1 is Err {
            let e1 = r1->Err_0;
            let e2 = r2->Err_0;
            let k1 = choose|k: nat|
                #![trigger mixed_start(conn, npe_by_type, k)]
                k < n && is_mixed_failure(conn, npe_by_type, k, e1);
            let k2 = choose|k: nat|
                #![trigger mixed_start(conn, npe_by_type, k)]
                k < n && is_mixed_failure(conn, npe_by_type, k, e2);
            if k1 < k2 {
                lemma_mixed_none_stays(conn, npe_by_type, k1 + 1, k2);
            }
            if k2 < k1 {
                lemma_mixed_none_stays(conn, npe_by_type, k2 + 1, k1);
            }
            assert(k1 == k2);
        }
    }
}

/// Rebuilds the offsets of a connectivity written in the layout of CGNS 3.3,
/// converting it to the layout of CGNS 4
/// (<https://cgns.github.io/ProposedExtensions/NGON-CPEX-0041-v0.16.pdf>).
///
/// For `NGON_n` and `NFACE_n`, the counts are taken out of the connectivity,
/// which is compacted in place; for `MIXED`, the element types stay and the
/// size of each element is its type's entry of `npe_by_type`, the number of
/// nodes that `cg_npe` gives for each type code. `offsets` receives the
/// offset of each element and, last, the length of the new connectivity.
///
/// Returns the new length of `connectivity`.
pub fn fix_missing_elements_offsets(
    connectivity: &mut [i64],
    offsets: &mut [i64],
    elem_type: u32,
    npe_by_type: &[i64],
) -> (r: Result<usize, CGNSError>)
    requires
        offsets_fix_fits(old(connectivity)@, old(offsets)@.len() as int, elem_type, npe_by_type@),
    ensures
        is_offsets_fix(
            old(connectivity)@,
            final(connectivity)@,
            old(offsets)@,
            final(offsets)@,
            elem_type,
            npe_by_type@,
            r,
        ),
{
    offsets[0] = 0;
    let n = offsets.len() - 1;
    let ghost conn = old(connectivity)@;
    let ghost old_offsets = old(offsets)@;
    if elem_type == NGON_N || elem_type == NFACE_N {
        let mut idx_connect_new: usize = 0;
        let mut idx_connect_old: usize = 0;
        let mut idx_elem: usize = 0;
        while idx_elem < n
            invariant
                n == offsets@.len() - 1,
                offsets@.len() == old_offsets.len(),
                connectivity@.len() == conn.len(),
                counted_layout_fits(conn, n as nat),
                idx_elem <= n,
                idx_connect_old == counted_start(conn, idx_elem as nat),
                idx_connect_new == counted_nodes(conn, idx_elem as nat).len(),
                idx_connect_new <= idx_connect_old <= conn.len(),
                connectivity@.take(idx_connect_new as int) == counted_nodes(conn, idx_elem as nat),
                forall|j: int|
                    idx_connect_new <= j < conn.len() ==> connectivity@[j] == conn[j],
                offsets@[0] == 0,
                forall|k: nat| k <= idx_elem ==> offsets@[k as int] == counted_offset(conn, k),
            decreases n - idx_elem,
        {
            proof {
                lemma_counted_start_grows(conn, (idx_elem + 1) as nat, n as nat);
                lemma_counted_nodes_len(conn, (idx_elem + 1) as nat);
            }
            let elem_size = connectivity[idx_connect_old];
            assert(elem_size == conn[counted_start(conn, idx_elem as nat)]);
            idx_connect_old = idx_connect_old + 1;
            assert(counted_offset(conn, (idx_elem + 1) as nat) == counted_offset(
                conn,
                idx_elem as nat,
            ) + elem_size);
            offsets[idx_elem + 1] = offsets[idx_elem] + elem_size;
            let ghost nodes_before = counted_nodes(conn, idx_elem as nat);
            let ghost body_start = idx_connect_old as int;
            let mut copied: i64 = 0;
            while copied < elem_size
                invariant
                    connectivity@.len() == conn.len(),
                    0 <= copied,
                    elem_size > 0 ==> copied <= elem_size,
                    elem_size <= 0 ==> copied == 0,
                    idx_connect_old == body_start + copied,
                    idx_connect_new == nodes_before.len() + copied,
                    idx_connect_new < idx_connect_old,
                    body_start + nonneg(elem_size) <= conn.len(),
                    connectivity@.take(idx_connect_new as int) == nodes_before + conn.subrange(
                        body_start,
                        body_start + copied,
                    ),
                    forall|j: int|
                        idx_connect_new <= j < conn.len() ==> connectivity@[j] == conn[j],
                decreases elem_size - copied,
            {
                let ghost before = connectivity@;
                let v = connectivity[idx_connect_old];
                assert(v == conn[body_start + copied]);
                connectivity[idx_connect_new] = v;
                assert(connectivity@.take(idx_connect_new + 1) =~= before.take(
                    idx_connect_new as int,
                ).push(v));
                assert(conn.subrange(body_start, body_start + copied + 1) =~= conn.subrange(
                    body_start,
                    body_start + copied,
                ).push(v));
                idx_connect_new = idx_connect_new + 1;
                idx_connect_old = idx_connect_old + 1;
                copied = copied + 1;
                assert(connectivity@.take(idx_connect_new as int) =~= nodes_before
                    + conn.subrange(body_start, body_start + copied));
            }
            idx_elem = idx_elem + 1;
            assert(counted_nodes(conn, idx_elem as nat) =~= nodes_before + conn.subrange(
                body_start,
                body_start + nonneg(elem_size),
            ));
        }
        proof {
            lemma_counted_nodes_len(conn, n as nat);
            assert(connectivity@ =~= counted_nodes(conn, n as nat) + conn.skip(
                idx_connect_new as int,
            ));
        }
        Ok(idx_connect_new)
    } else if elem_type == MIXED {
        let mut idx_connect: usize = 0;
        let mut idx_elem: usize = 0;
        while idx_elem < n
            invariant
                n == offsets@.len() - 1,
                old_offsets == old(offsets)@,
                conn == old(connectivity)@,
                elem_type == MIXED,
                offsets@.len() == old_offsets.len(),
                connectivity@ == conn,
                mixed_layout_fits(conn, npe_by_type@, n as nat),
                idx_elem <= n,
                mixed_start(conn, npe_by_type@, idx_elem as nat) == Some(idx_connect as int),
                offsets@[0] == 0,
                forall|k: nat|
                    1 <= k <= idx_elem ==> offsets@[k as int] == match #[trigger] mixed_start(
                        conn,
                        npe_by_type@,
                        k,
                    ) {
                        Some(p) => p,
                        None => old_offsets[k as int] as int,
                    },
                forall|k: nat| idx_elem < k <= n ==> offsets@[k as int] == old_offsets[k as int],
            decreases n - idx_elem,
        {
            let t = connectivity[idx_connect];
            if t as u32 as u64 >= npe_by_type.len() as u64 {
                proof {
                    assert(mixed_start(conn, npe_by_type@, (idx_elem + 1) as nat) is None);
                    assert forall|k: nat|
                        1 <= k <= n implies offsets@[k as int] == match #[trigger] mixed_start(
                            conn,
                            npe_by_type@,
                            k,
                        ) {
                            Some(p) => p,
                            None => old_offsets[k as int] as int,
                        } by {
                        if k > idx_elem {
                            lemma_mixed_none_stays(conn, npe_by_type@, (idx_elem + 1) as nat, k);
                        }
                    }
                    lemma_mixed_none_stays(conn, npe_by_type@, (idx_elem + 1) as nat, n as nat);
                }
                return Err(CGNSError::Other(OtherError::InvalidMixedElement { value: t }));
            }
            let elem_size = npe_by_type[t as u32 as usize];
            assert(mixed_start(conn, npe_by_type@, (idx_elem + 1) as nat) == Some(
                idx_connect + elem_size + 1,
            ));
            idx_connect = idx_connect + elem_size as usize + 1;
            offsets[idx_elem + 1] = idx_connect as i64;
            idx_elem = idx_elem + 1;
        }
        Ok(idx_connect)
    } else {
        Err(CGNSError::Other(OtherError::InvalidElementTypeForOffsets { elem_type }))
    }
}

/// Once the counts are taken out of a connectivity in the layout of CGNS 3.3
/// whose counts are not negative, the last offset is the length of the new
/// connectivity, and the offsets never decrease: the connectivity and offsets
/// are in the layout of CGNS 4.
pub proof fn law_rebuilt_offsets_end_at_length(conn: Seq<i64>, n: nat)
    requires
        counted_start(conn, n) <= conn.len(),
        forall|k: nat| k < n ==> conn[#[trigger] counted_start(conn, k)] >= 0,
    ensures
        counted_offset(conn, n) == counted_nodes(conn, n).len(),
        forall|j: nat, k: nat| j <= k <= n ==> counted_offset(conn, j) <= counted_offset(conn, k),
    decreases n,
{
    lemma_counted_nodes_len(conn, n);
    if n > 0 {
        lemma_counted_start_grows(conn, (n - 1) as nat, n);
        law_rebuilt_offsets_end_at_length(conn, (n - 1) as nat);
        lemma_counted_nodes_len(conn, (n - 1) as nat);
        assert(conn[counted_start(conn, (n - 1) as nat)] >= 0);
        assert forall|j: nat, k: nat| j <= k <= n implies counted_offset(conn, j) <= counted_offset(
            conn,
            k,
        ) by {
            if k == n && j < n {
                assert(counted_offset(conn, j) <= counted_offset(conn, (n - 1) as nat));
            }
        }
    }
}

/// Whether the offsets buffer still starts with what
/// [`Section::mark_offsets_buffer`] wrote there, so that the library wrote no
/// offsets.
pub open spec fn offsets_untouched(offsets: Seq<i64>) -> bool {
    &&& offsets.len() >= 1 ==> offsets[0] == CONTROL_PATTERN[0]
    &&& offsets.len() >= 2 ==> offsets[1] == CONTROL_PATTERN[1]
}

/// CGNS node `Elements_t`
pub struct Section<'a> {
    pub name: String,
    /// Type of enclosed elements (its code in `ElementType_t`).
    pub elem_type: u32,
    /// Index of first element in the section.
    pub elem_start: i64,
    /// Index of last element in the section.
    pub elem_end: i64,
    /// "Index of last boundary element in the section. Set to zero if the elements are unsorted."
    pub nbndry: i32,
    /// For boundary or interface elements, the parent_data array contains information on the cell(s) and cell face(s) sharing the element.
    pub has_parent_data: bool,
    id: i32,
    pub zone: &'a Zone<'a>,
}

/// What a [`Section`] holds, the zone aside.
pub struct SectionView {
    pub name: Seq<char>,
    pub elem_type: u32,
    pub elem_start: i64,
    pub elem_end: i64,
    pub nbndry: i32,
    pub has_parent_data: bool,
    pub id: i32,
}

impl<'a> View for Section<'a> {
    type V = SectionView;

    closed spec fn view(&self) -> SectionView {
        SectionView {
            name: self.name@,
            elem_type: self.elem_type,
            elem_start: self.elem_start,
            elem_end: self.elem_end,
            nbndry: self.nbndry,
            has_parent_data: self.has_parent_data,
            id: self.id,
        }
    }
}

/// Number of elements of a section from `start` to `end`: CGNS indices
/// start at one and both ends are included.
pub open spec fn section_size(start: i64, end: i64) -> int {
    end - start + 1
}

/// The number of elements fits in an `i64`, and so does the difference of
/// the ends on the way.
pub open spec fn section_size_in_range(start: i64, end: i64) -> bool {
    &&& i64::MIN <= end - start <= i64::MAX
    &&& i64::MIN <= section_size(start, end) <= i64::MAX
}

/// The number of elements, and one more, fit in an `i64`.
pub open spec fn section_size_fits(start: i64, end: i64) -> bool {
    &&& section_size_in_range(start, end)
    &&& i64::MIN <= section_size(start, end) + 1 <= i64::MAX
}

/// What checking a connectivity buffer of `connectivity_len` values against
/// the connectivity size `data_size` that the library reports gives.
pub open spec fn connectivity_buffer_check(connectivity_len: usize, data_size: i64) -> Result<
    (),
    CGNSError,
> {
    if connectivity_len != data_size as usize {
        Err(
            CGNSError::Other(
                OtherError::ConnectivityBufferLength { len: connectivity_len, expected: data_size },
            ),
        )
    } else {
        Ok(())
    }
}

/// Checks that a connectivity buffer of `connectivity_len` values holds
/// `data_size` values, the size of the connectivity that the library reports.
pub fn check_connectivity_buffer(connectivity_len: usize, data_size: i64) -> (r: Result<
    (),
    CGNSError,
>)
    ensures
        r == connectivity_buffer_check(connectivity_len, data_size),
{
    if connectivity_len != data_size as usize {
        return Err(
            CGNSError::Other(
                OtherError::ConnectivityBufferLength { len: connectivity_len, expected: data_size },
            ),
        );
    }
    Ok(())
}

/// What checking an offsets buffer of `offsets_len` values (`None` for no
/// buffer) gives for a section of elements of type `elem_type` from `start`
/// to `end`: sections with offsets need a buffer of one value more than
/// they have elements.
pub open spec fn section_offsets_check(elem_type: u32, start: i64, end: i64, offsets_len: Option<
    usize,
>) -> Result<(), CGNSError> {
    let size = section_size(start, end);
    if has_offsets(elem_type) && offsets_len is None {
        Err(CGNSError::Other(OtherError::MissingOffsetBuffer))
    } else if has_offsets(elem_type) && offsets_len->0 != ((size + 1) as i64) as usize {
        Err(
            CGNSError::Other(
                OtherError::OffsetBufferLength { len: offsets_len->0, size: size as i64 },
            ),
        )
    } else {
        Ok(())
    }
}

/// Sections carry offsets exactly for the element types `MIXED` (20),
/// `NGON_n` (22) and `NFACE_n` (23), and these are exactly the types whose
/// offsets can be rebuilt without error.
pub proof fn law_types_with_offsets(
    t: u32,
    conn: Seq<i64>,
    conn_new: Seq<i64>,
    offsets: Seq<i64>,
    offsets_new: Seq<i64>,
    npe_by_type: Seq<i64>,
    r: Result<usize, CGNSError>,
)
    ensures
        has_offsets(t) <==> (t == 20 || t == 22 || t == 23),
        is_offsets_fix(conn, conn_new, offsets, offsets_new, t, npe_by_type, r) && r is Ok
            ==> has_offsets(t),
        (t == 22 || t == 23) && offsets.len() >= 1 && is_offsets_fix(
            conn,
            conn_new,
            offsets,
            offsets_new,
            t,
            npe_by_type,
            r,
        ) ==> r is Ok,
{
}

/// The offsets check succeeds exactly when the section has no offsets, or
/// the buffer holds one value more than the section has elements.
pub proof fn law_section_offsets_check_exact_length(
    t: u32,
    start: i64,
    end: i64,
    offsets_len: Option<usize>,
)
    requires
        section_size_fits(start, end),
        0 <= section_size(start, end) + 1 <= usize::MAX,
    ensures
        section_offsets_check(t, start, end, offsets_len) is Ok <==> (!has_offsets(t) || (
        offsets_len matches Some(l) && l == section_size(start, end) + 1)),
{
    let size = section_size(start, end);
    assert(((size + 1) as i64) as usize == size + 1);
}

/// The connectivity check succeeds exactly when the buffer holds as many
/// values as the library's data size.
pub proof fn law_connectivity_check_exact_length(connectivity_len: usize, data_size: i64)
    requires
        0 <= data_size <= usize::MAX,
    ensures
        connectivity_buffer_check(connectivity_len, data_size) is Ok <==> connectivity_len
            == data_size,
{
}

/// The buffers that [`Section::new_elements_buffers`] makes for a section
/// pass the checks of a read: the offsets check, and the connectivity check
/// against the same data size.
pub proof fn law_section_buffers_pass_checks(elem_type: u32, start: i64, end: i64, data_size: i64)
    requires
        0 <= data_size <= usize::MAX,
        has_offsets(elem_type) ==> section_size_fits(start, end) && 0 <= section_size(start, end)
            + 1 <= usize::MAX,
    ensures
        section_offsets_check(
            elem_type,
            start,
            end,
            if has_offsets(elem_type) {
                Some((section_size(start, end) + 1) as usize)
            } else {
                None
            },
        ) == Ok::<(), CGNSError>(()),
        connectivity_buffer_check(data_size as usize, data_size) == Ok::<(), CGNSError>(()),
{
}

/// Whether the offsets buffer still starts with what
/// [`Section::mark_offsets_buffer`] wrote there.
pub fn offsets_are_untouched(offsets: &[i64]) -> (r: bool)
    ensures
        r == offsets_untouched(offsets@),
{
    (offsets.len() < 1 || offsets[0] == CONTROL_PATTERN[0]) && (offsets.len() < 2 || offsets[1]
        == CONTROL_PATTERN[1])
}

/// Element connectivity of a section.
pub struct Elements {
    pub connectivity: Vec<i64>,
    pub offsets: Option<Vec<i64>>,
}

impl Elements {
    /// The connectivity read into `connectivity` (of which the first
    /// `conn_len` values are kept) and, if any, the offsets.
    pub fn from_read(connectivity: Vec<i64>, offsets: Option<Vec<i64>>, conn_len: usize) -> (r: Self)
        ensures
            conn_len <= connectivity@.len() ==> r.connectivity@ == connectivity@.take(conn_len as int),
            conn_len > connectivity@.len() ==> r.connectivity@ == connectivity@,
            r.offsets == offsets,
    {
        let mut connectivity = connectivity;
        connectivity.truncate(conn_len);
        Elements { connectivity, offsets }
    }
}

impl<'a> Section<'a> {
    /// The zone that holds the section.
    pub closed spec fn spec_zone(&self) -> &'a Zone<'a> {
        self.zone
    }

    /// The section number `id` of `zone`, from what the library read of it.
    pub fn from_raw(
        zone: &'a Zone<'a>,
        id: i32,
        name: &[u8],
        elem_type: u32,
        elem_start: i64,
        elem_end: i64,
        nbndry: i32,
        is_parent_defined: i32,
    ) -> (r: Result<Self, CGNSError>)
        requires
            name@.len() > 0,
        ensures
            r is Ok <==> spec_bytes2string(name@) is Ok,
            r matches Ok(sec) ==> {
                &&& spec_bytes2string(name@) == Ok::<Seq<char>, ()>(sec@.name)
                &&& sec@.elem_type == elem_type
                &&& sec@.elem_start == elem_start
                &&& sec@.elem_end == elem_end
                &&& sec@.nbndry == nbndry
                &&& sec@.has_parent_data == (is_parent_defined == 1)
                &&& sec@.id == id
                &&& sec.spec_zone() == zone
            },
            r matches Err(e) ==> is_name_read_error(name@, e),
    {
        match bytes2string(name) {
            Ok(name) => Ok(
                Section {
                    name,
                    elem_type,
                    elem_start,
                    elem_end,
                    has_parent_data: is_parent_defined == 1,
                    nbndry,
                    id,
                    zone,
                },
            ),
            Err(e) => Err(e),
        }
    }

    /// Whether the element connectivity is composed of `connectivity` and `offsets` or not.
    pub fn elements_have_offsets(&self) -> (r: bool)
        ensures
            r == has_offsets(self@.elem_type),
    {
        self.elem_type == MIXED || self.elem_type == NGON_N || self.elem_type == NFACE_N
    }

    /// Number of elements in the section.
    pub fn size(&self) -> (r: i64)
        requires
            section_size_in_range(self@.elem_start, self@.elem_end),
        ensures
            r == section_size(self@.elem_start, self@.elem_end),
    {
        // +1 because CGNS arrays start at one
        self.elem_end - self.elem_start + 1
    }

    /// Elements offsets length ([`Self::size()`] + 1).
    pub fn offsets_len(&self) -> (r: i64)
        requires
            section_size_fits(self@.elem_start, self@.elem_end),
        ensures
            r == section_size(self@.elem_start, self@.elem_end) + 1,
    {
        self.size() + 1
    }

    /// Checks the offsets buffer that the elements are to be read into: it
    /// is needed exactly for sections that have offsets, and must then hold
    /// [`Self::offsets_len()`] values.
    pub fn check_offsets_buffer(&self, offsets_len: Option<usize>) -> (r: Result<(), CGNSError>)
        requires
            has_offsets(self@.elem_type) && offsets_len is Some ==> section_size_fits(
                self@.elem_start,
                self@.elem_end,
            ),
        ensures
            r == section_offsets_check(self@.elem_type, self@.elem_start, self@.elem_end, offsets_len),
    {
        if self.elements_have_offsets() {
            match offsets_len {
                Some(len) => {
                    if len != self.offsets_len() as usize {
                        return Err(
                            CGNSError::Other(
                                OtherError::OffsetBufferLength { len, size: self.size() },
                            ),
                        );
                    }
                },
                None => {
                    return Err(CGNSError::Other(OtherError::MissingOffsetBuffer));
                },
            }
        }
        Ok(())
    }

    /// Writes [`CONTROL_PATTERN`] at the start of the offsets buffer (as much
    /// of it as fits), so that [`Self::finish_elements_read`] can tell
    /// whether the library filled the buffer.
    pub fn mark_offsets_buffer(offsets: &mut [i64])
        ensures
            final(offsets)@.len() == old(offsets)@.len(),
            offsets_untouched(final(offsets)@),
            forall|j: int| 2 <= j < old(offsets)@.len() ==> final(offsets)@[j] == old(offsets)@[j],
    {
        if offsets.len() >= 1 {
            offsets[0] = CONTROL_PATTERN[0];
        }
        if offsets.len() >= 2 {
            offsets[1] = CONTROL_PATTERN[1];
        }
    }

    /// After the library read the elements into `connectivity` and
    /// `offsets` (which [`Self::mark_offsets_buffer`] marked before): if the
    /// library left the offsets untouched, the connectivity is in the layout
    /// of CGNS 3.3 and its offsets are rebuilt (see
    /// [`fix_missing_elements_offsets`]). Returns the length of the
    /// connectivity.
    pub fn finish_elements_read(
        &self,
        connectivity: &mut [i64],
        offsets: &mut [i64],
        npe_by_type: &[i64],
    ) -> (r: Result<usize, CGNSError>)
        requires
            offsets_untouched(old(offsets)@) ==> offsets_fix_fits(
                old(connectivity)@,
                old(offsets)@.len() as int,
                self@.elem_type,
                npe_by_type@,
            ),
        ensures
            offsets_untouched(old(offsets)@) ==> is_offsets_fix(
                old(connectivity)@,
                final(connectivity)@,
                old(offsets)@,
                final(offsets)@,
                self@.elem_type,
                npe_by_type@,
                r,
            ),
            !offsets_untouched(old(offsets)@) ==> {
                &&& r == Ok::<usize, CGNSError>(old(connectivity)@.len() as usize)
                &&& final(connectivity)@ == old(connectivity)@
                &&& final(offsets)@ == old(offsets)@
            },
    {
        if offsets_are_untouched(offsets) {
            fix_missing_elements_offsets(connectivity, offsets, self.elem_type, npe_by_type)
        } else {
            Ok(connectivity.len())
        }
    }

    /// Zeroed buffers to read the elements into: `data_size` connectivity
    /// values and, for sections that have offsets, [`Self::offsets_len()`]
    /// offsets.
    pub fn new_elements_buffers(&self, data_size: i64) -> (r: Elements)
        requires
            0 <= data_size <= usize::MAX,
            has_offsets(self@.elem_type) ==> section_size_fits(self@.elem_start, self@.elem_end)
                && 0 <= section_size(self@.elem_start, self@.elem_end) + 1 <= usize::MAX,
        ensures
            r.connectivity@ == Seq::new(data_size as nat, |i: int| 0i64),
            has_offsets(self@.elem_type) <==> r.offsets is Some,
            r.offsets matches Some(o) ==> o@ == Seq::new(
                (section_size(self@.elem_start, self@.elem_end) + 1) as nat,
                |i: int| 0i64,
            ),
    {
        let connectivity: Vec<i64> = vec![0i64; data_size as usize];
        let offsets = if self.elements_have_offsets() {
            Some(vec![0i64; self.offsets_len() as usize])
        } else {
            None
        };
        proof {
            assert(connectivity@ =~= Seq::new(data_size as nat, |i: int| 0i64));
        }
        Elements { connectivity, offsets }
    }
}

impl<'a> CGNSNode<'a> for Section<'a> {
    type Parent = Zone<'a>;

    fn id(&self) -> (r: i32)
        ensures
            r == self@.id,
    {
        self.id
    }

    fn parent(&self) -> (r: &Self::Parent)
        ensures
            r == self.spec_zone(),
    {
        self.zone
    }
}

} // verus!
