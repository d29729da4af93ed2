//! The data bytes of a union.
//!
//! A byte of a union is a data byte where it is a data byte of one of the
//! union's fields, and padding otherwise. The chunks of a union are the
//! maximal runs of its data bytes.
use crate::error::ErrorKind;
use crate::ir::{
    fields_view, lemma_type_view, Chunk, Fields, Int, Size, Type, TypeView,
};
use crate::make::PTR_SIZE;
use vstd::prelude::*;

verus! {

/// The size of a value of the type, in bytes.
pub open spec fn type_size(ty: TypeView) -> int
    decreases ty,
{
    match ty {
        TypeView::Int(ity) => ity.size.bytes as int,
        TypeView::Bool => 1,
        TypeView::Ptr(_) => PTR_SIZE as int,
        TypeView::Tuple { size, .. } => size.bytes as int,
        TypeView::Array { elem, count } => if count@ >= 0 {
            type_size(*elem) * count@
        } else {
            0
        },
        TypeView::Union { size, .. } => size.bytes as int,
        TypeView::Enum { size, .. } => size.bytes as int,
    }
}

/// Whether the byte at offset `b` of a value of the type holds data.
///
/// Integers, booleans, pointers and enums are data throughout. A byte of a
/// tuple is data where it is data of a field, a byte of an array where it
/// is data of an element, and a byte of a union where a chunk covers it.
pub open spec fn data_byte(ty: TypeView, b: int) -> bool
    decreases ty, 0nat,
{
    match ty {
        TypeView::Int(ity) => 0 <= b < ity.size.bytes,
        TypeView::Bool => b == 0,
        TypeView::Ptr(_) => 0 <= b < PTR_SIZE,
        TypeView::Tuple { fields, .. } => fields_data(fields, fields.len() as int, b),
        TypeView::Array { elem, count } => array_data(*elem, type_size(*elem), count@, b),
        TypeView::Union { chunks, .. } => chunks_cover(chunks, chunks.len() as int, b),
        TypeView::Enum { size, .. } => 0 <= b < size.bytes,
    }
}

/// Whether the byte at offset `b` is a data byte of one of the first `k` fields.
pub open spec fn fields_data(fields: Seq<(Size, TypeView)>, k: int, b: int) -> bool
    decreases fields, k,
{
    if k <= 0 || k > fields.len() {
        false
    } else {
        fields_data(fields, k - 1, b) || data_byte(fields[k - 1].1, b - fields[k - 1].0.bytes)
    }
}

/// Whether the byte at offset `b` is a data byte of one of the first `k`
/// elements of an array with elements of type `elem` and size `esize`.
pub open spec fn array_data(elem: TypeView, esize: int, k: int, b: int) -> bool
    decreases elem, k,
{
    if k <= 0 {
        false
    } else {
        array_data(elem, esize, k - 1, b) || data_byte(elem, b - (k - 1) * esize)
    }
}

/// Whether one of the first `k` chunks covers the byte at offset `b`.
pub open spec fn chunks_cover(chunks: Seq<Chunk>, k: int, b: int) -> bool
    decreases k,
{
    if k <= 0 || k > chunks.len() {
        false
    } else {
        chunks_cover(chunks, k - 1, b) || chunks[k - 1].0.bytes <= b < chunks[k - 1].0.bytes
            + chunks[k - 1].1.bytes
    }
}

/// For each byte of a union of `size` bytes, whether it is a data byte.
pub open spec fn marks_of(fields: Seq<(Size, TypeView)>, size: u64) -> Seq<bool> {
    Seq::new(size as nat, |b: int| fields_data(fields, fields.len() as int, b))
}

/// The runs of marked bytes from index `i` on, where a run that began at
/// `start` is under way.
pub open spec fn scan(marks: Seq<bool>, i: int, start: Option<int>) -> Seq<Chunk>
    decreases marks.len() - i,
{
    if i < 0 || i >= marks.len() {
        match start {
            Some(s) => seq![run(s, marks.len() as int)],
            None => Seq::empty(),
        }
    } else {
        match start {
            None => scan(
                marks,
                i + 1,
                if marks[i] {
                    Some(i)
                } else {
                    None
                },
            ),
            Some(s) => if marks[i] {
                scan(marks, i + 1, start)
            } else {
                seq![run(s, i)] + scan(marks, i + 1, None)
            },
        }
    }
}

/// The chunk from offset `start` up to, not including, offset `end`.
pub open spec fn run(start: int, end: int) -> Chunk {
    (Size { bytes: start as u64 }, Size { bytes: (end - start) as u64 })
}

/// The chunks of a union of `size` bytes with the given fields: the
/// maximal runs of its data bytes, in order.
pub open spec fn chunks_of(fields: Seq<(Size, TypeView)>, size: u64) -> Seq<Chunk> {
    scan(marks_of(fields, size), 0, None)
}

/// A data byte has an offset that is not negative.
pub proof fn lemma_data_byte_nonneg(ty: TypeView, b: int)
    requires
        data_byte(ty, b),
    ensures
        b >= 0,
    decreases ty, 0nat,
{
    match ty {
        TypeView::Tuple { fields, .. } => {
            lemma_fields_data_nonneg(fields, fields.len() as int, b);
        },
        TypeView::Array { elem, count } => {
            lemma_type_size_nonneg(*elem);
            lemma_array_data_bound(*elem, type_size(*elem), count@, b);
        },
        TypeView::Union { chunks, .. } => {
            lemma_chunks_cover_nonneg(chunks, chunks.len() as int, b);
        },
        _ => {},
    }
}

pub proof fn lemma_fields_data_nonneg(fields: Seq<(Size, TypeView)>, k: int, b: int)
    requires
        fields_data(fields, k, b),
    ensures
        b >= 0,
    decreases fields, k,
{
    if k > 0 && k <= fields.len() {
        if fields_data(fields, k - 1, b) {
            lemma_fields_data_nonneg(fields, k - 1, b);
        } else {
            lemma_data_byte_nonneg(fields[k - 1].1, b - fields[k - 1].0.bytes);
        }
    }
}

pub proof fn lemma_chunks_cover_nonneg(chunks: Seq<Chunk>, k: int, b: int)
    requires
        chunks_cover(chunks, k, b),
    ensures
        b >= 0,
    decreases k,
{
    if k > 0 && k <= chunks.len() {
        if chunks_cover(chunks, k - 1, b) {
            lemma_chunks_cover_nonneg(chunks, k - 1, b);
        }
    }
}

/// A data byte of the first `k` elements lies in one of them, at or after its start.
pub proof fn lemma_array_data_bound(elem: TypeView, esize: int, k: int, b: int)
    requires
        array_data(elem, esize, k, b),
        esize >= 0,
    ensures
        b >= 0,
    decreases elem, k,
{
    if k > 0 {
        if array_data(elem, esize, k - 1, b) {
            lemma_array_data_bound(elem, esize, k - 1, b);
        } else {
            lemma_data_byte_nonneg(elem, b - (k - 1) * esize);
            assert((k - 1) * esize >= 0) by (nonlinear_arith)
                requires
                    k - 1 >= 0,
                    esize >= 0,
            ;
        }
    }
}

/// The size of a type is not negative.
pub proof fn lemma_type_size_nonneg(ty: TypeView)
    ensures
        type_size(ty) >= 0,
    decreases ty,
{
    match ty {
        TypeView::Array { elem, count } => {
            lemma_type_size_nonneg(*elem);
            if count@ >= 0 {
                assert(type_size(*elem) * count@ >= 0) by (nonlinear_arith)
                    requires
                        type_size(*elem) >= 0,
                        count@ >= 0,
                ;
            }
        },
        _ => {},
    }
}

/// The elements from index `k` on hold no byte before the start of element `k`.
pub proof fn lemma_array_data_prefix(elem: TypeView, esize: int, k: int, count: int, b: int)
    requires
        0 <= k <= count,
        esize >= 0,
        b < k * esize,
    ensures
        array_data(elem, esize, count, b) == array_data(elem, esize, k, b),
    decreases count - k,
{
    if count > k {
        lemma_array_data_prefix(elem, esize, k, count - 1, b);
        assert((count - 1) * esize >= k * esize) by (nonlinear_arith)
            requires
                count - 1 >= k,
                esize >= 0,
        ;
        if data_byte(elem, b - (count - 1) * esize) {
            lemma_data_byte_nonneg(elem, b - (count - 1) * esize);
        }
    }
}

/// Elements of size zero all lie at the start of the array.
pub proof fn lemma_array_data_zero(elem: TypeView, k: int, b: int)
    ensures
        array_data(elem, 0, k, b) == (k >= 1 && data_byte(elem, b)),
    decreases k,
{
    if k > 0 {
        lemma_array_data_zero(elem, k - 1, b);
        assert((k - 1) * 0 == 0);
    }
}

/// The size of a type, where it can be held in memory.
pub fn size_of_type(ty: &Type) -> (r: Option<usize>)
    ensures
        match r {
            Some(s) => s == type_size(ty@),
            None => type_size(ty@) > usize::MAX,
        },
    decreases ty,
{
    let bytes: u64 = match ty {
        Type::Int(ity) => ity.size.bytes,
        Type::Bool => 1,
        Type::Ptr(_) => PTR_SIZE,
        Type::Tuple { size, .. } => size.bytes,
        Type::Union { size, .. } => size.bytes,
        Type::Enum { size, .. } => size.bytes,
        Type::Array { elem, count } => {
            let esize = size_of_type(elem);
            proof {
                lemma_type_size_nonneg(elem@);
            }
            let m: u128 = match count {
                Int::Neg(_) => {
                    return Some(0);
                },
                Int::NonNeg(m) => *m,
            };
            if m == 0 {
                assert(type_size(elem@) * 0 == 0);
                return Some(0);
            }
            match esize {
                None => {
                    assert(type_size(elem@) * m >= type_size(elem@)) by (nonlinear_arith)
                        requires
                            type_size(elem@) >= 0,
                            m >= 1,
                    ;
                    return None;
                },
                Some(e) => {
                    if e == 0 {
                        assert(0 * m == 0);
                        return Some(0);
                    }
                    if m > usize::MAX as u128 {
                        assert(e * m >= m) by (nonlinear_arith)
                            requires
                                e >= 1,
                                m >= 0,
                        ;
                        return None;
                    }
                    return e.checked_mul(m as usize);
                },
            }
        },
    };
    if bytes > usize::MAX as u64 {
        None
    } else {
        Some(bytes as usize)
    }
}

/// Marks the bytes from `base` up to, not including, `base + len`.
pub fn mark_range(markers: &mut Vec<bool>, base: usize, len: u64)
    ensures
        final(markers)@.len() == old(markers)@.len(),
        forall|j: int|
            0 <= j < old(markers)@.len() ==> final(markers)@[j] == (old(markers)@[j] || base <= j
                < base + len),
{
    let n = markers.len();
    let mut j: usize = base;
    while j < n && ((j - base) as u64) < len
        invariant
            base <= j,
            markers@.len() == n,
            n == old(markers)@.len(),
            forall|i: int|
                0 <= i < n ==> markers@[i] == (old(markers)@[i] || base <= i < j),
            j <= n ==> j - base <= len,
            j == base || j <= n,
        decreases n - j,
    {
        markers.set(j, true);
        j += 1;
    }
}

/// Marks the data bytes of the fields of a value that starts at `base`.
#[verifier::loop_isolation(false)]
pub fn mark_fields(fields: &Fields, markers: &mut Vec<bool>, base: usize)
    ensures
        final(markers)@.len() == old(markers)@.len(),
        forall|j: int|
            0 <= j < old(markers)@.len() ==> final(markers)@[j] == (old(markers)@[j]
                || fields_data(fields_view(fields@), fields@.len() as int, j - base)),
    decreases fields, 0nat,
{
    broadcast use vstd::std_specs::vec::group_vec_axioms;

    let n = markers.len();
    let ghost views = fields_view(fields@);
    let mut k: usize = 0;
    while k < fields.len()
        invariant
            k <= fields.len(),
            markers@.len() == n,
            forall|j: int|
                0 <= j < n ==> markers@[j] == (old(markers)@[j] || fields_data(
                    views,
                    k as int,
                    j - base,
                )),
        decreases fields.len() - k,
    {
        let offset = fields[k].0.bytes;
        let ghost before = markers@;
        let in_range = base <= n && offset <= (n - base) as u64;
        if in_range {
            mark_type(&fields[k].1, markers, base + offset as usize);
        }
        assert forall|j: int| 0 <= j < n implies #[trigger] markers@[j] == (old(markers)@[j]
            || fields_data(views, k + 1, j - base)) by {
            if !in_range && data_byte(views[k as int].1, j - base - offset) {
                // The field starts beyond every byte that is marked.
                lemma_data_byte_nonneg(views[k as int].1, j - base - offset);
            }
            assert(markers@[j] == (before[j] || data_byte(views[k as int].1, j - base - offset)));
        }
        k += 1;
    }
}

/// Marks the bytes that the chunks cover, for a union that starts at `base`.
pub fn mark_chunks(chunks: &Vec<Chunk>, markers: &mut Vec<bool>, base: usize)
    ensures
        final(markers)@.len() == old(markers)@.len(),
        forall|j: int|
            0 <= j < old(markers)@.len() ==> final(markers)@[j] == (old(markers)@[j]
                || chunks_cover(chunks@, chunks@.len() as int, j - base)),
{
    let n = markers.len();
    let mut k: usize = 0;
    while k < chunks.len()
        invariant
            k <= chunks.len(),
            markers@.len() == n,
            n == old(markers)@.len(),
            forall|j: int|
                0 <= j < n ==> markers@[j] == (old(markers)@[j] || chunks_cover(
                    chunks@,
                    k as int,
                    j - base,
                )),
        decreases chunks.len() - k,
    {
        let offset = chunks[k].0.bytes;
        let len = chunks[k].1.bytes;
        let ghost before = markers@;
        if base <= n && offset <= (n - base) as u64 {
            mark_range(markers, base + offset as usize, len);
        }
        assert forall|j: int| 0 <= j < n implies markers@[j] == (old(markers)@[j] || chunks_cover(
            chunks@,
            k + 1,
            j - base,
        )) by {
            assert(markers@[j] == (before[j] || offset <= j - base < offset + len));
        }
        k += 1;
    }
}

/// Marks the data bytes of the elements of an array that starts at `base`.
#[verifier::loop_isolation(false)]
pub fn mark_elements(elem: &Type, count: u128, markers: &mut Vec<bool>, base: usize)
    ensures
        final(markers)@.len() == old(markers)@.len(),
        forall|j: int|
            0 <= j < old(markers)@.len() ==> final(markers)@[j] == (old(markers)@[j]
                || array_data(elem@, type_size(elem@), count as int, j - base)),
    decreases elem, 2nat,
{
    let n = markers.len();
    let ghost esize = type_size(elem@);
    proof {
        lemma_type_size_nonneg(elem@);
    }
    if count == 0 {
        return ;
    }
    let step = match size_of_type(elem) {
        Some(step) => step,
        None => {
            // The second element starts beyond every byte that is marked.
            mark_type(elem, markers, base);
            assert forall|j: int| 0 <= j < n implies markers@[j] == (old(markers)@[j]
                || array_data(elem@, esize, count as int, j - base)) by {
                assert(1 * esize == esize);
                lemma_array_data_prefix(elem@, esize, 1, count as int, j - base);
                assert(0 * esize == 0);
                assert(!array_data(elem@, esize, 0, j - base));
                assert(array_data(elem@, esize, 1, j - base) == data_byte(elem@, j - base));
            }
            return ;
        },
    };
    if step == 0 {
        // All elements lie at the start.
        mark_type(elem, markers, base);
        assert forall|j: int| 0 <= j < n implies markers@[j] == (old(markers)@[j] || array_data(
            elem@,
            esize,
            count as int,
            j - base,
        )) by {
            lemma_array_data_zero(elem@, count as int, j - base);
        }
        return ;
    }
    let mut k: u128 = 0;
    let mut off: usize = base;
    while k < count && off < n
        invariant
            k <= count,
            markers@.len() == n,
            step == esize,
            step > 0,
            off == base + k * esize,
            forall|j: int|
                0 <= j < n ==> markers@[j] == (old(markers)@[j] || array_data(
                    elem@,
                    esize,
                    k as int,
                    j - base,
                )),
        decreases
                if off < n {
                    n - off
                } else {
                    0
                },
    {
        let ghost before = markers@;
        mark_type(elem, markers, off);
        assert forall|j: int| 0 <= j < n implies markers@[j] == (old(markers)@[j] || array_data(
            elem@,
            esize,
            k + 1,
            j - base,
        )) by {
            assert(markers@[j] == (before[j] || data_byte(elem@, j - off)));
            assert(j - off == j - base - k * esize);
        }
        assert((k + 1) * esize == k * esize + esize) by (nonlinear_arith);
        k += 1;
        let ghost prev = off;
        off = match off.checked_add(step) {
            Some(next) => {
                assert(next == prev + step);
                next
            },
            None => {
                // The next element starts beyond every byte that is marked.
                assert forall|j: int| 0 <= j < n implies markers@[j] == (old(markers)@[j]
                    || array_data(elem@, esize, count as int, j - base)) by {
                    lemma_array_data_prefix(elem@, esize, k as int, count as int, j - base);
                }
                return ;
            },
        };
    }
    assert forall|j: int| 0 <= j < n implies markers@[j] == (old(markers)@[j] || array_data(
        elem@,
        esize,
        count as int,
        j - base,
    )) by {
        if k < count {
            lemma_array_data_prefix(elem@, esize, k as int, count as int, j - base);
        }
    }
}

/// Marks the data bytes of a value of type `ty` that starts at `base`.
pub fn mark_type(ty: &Type, markers: &mut Vec<bool>, base: usize)
    ensures
        final(markers)@.len() == old(markers)@.len(),
        forall|j: int|
            0 <= j < old(markers)@.len() ==> final(markers)@[j] == (old(markers)@[j] || data_byte(
                ty@,
                j - base,
            )),
    decreases ty, 1nat,
{
    proof {
        lemma_type_view(*ty);
    }
    match ty {
        Type::Int(ity) => mark_range(markers, base, ity.size.bytes),
        Type::Bool => mark_range(markers, base, 1),
        Type::Ptr(_) => mark_range(markers, base, PTR_SIZE),
        Type::Tuple { fields, .. } => mark_fields(fields, markers, base),
        Type::Union { chunks, .. } => mark_chunks(chunks, markers, base),
        Type::Array { elem, count } => match count {
            Int::NonNeg(m) => mark_elements(elem, *m, markers, base),
            Int::Neg(_) => {},
        },
        Type::Enum { size, .. } => mark_range(markers, base, size.bytes),
    }
}

/// The chunks of a union of `size` bytes with the given fields.
pub fn calc_chunks(fields: &Fields, size: Size) -> (r: Result<Vec<Chunk>, ErrorKind>)
    ensures
        match r {
            Ok(c) => size.bytes <= usize::MAX && c@ == chunks_of(fields_view(fields@), size.bytes),
            Err(e) => size.bytes > usize::MAX && e == ErrorKind::TooLarge,
        },
{
    if size.bytes > usize::MAX as u64 {
        return Err(ErrorKind::TooLarge);
    }
    let n: usize = size.bytes as usize;
    let mut markers: Vec<bool> = Vec::new();
    let mut i: usize = 0;
    while i < n
        invariant
            i <= n,
            markers@.len() == i,
            forall|j: int| 0 <= j < i ==> !markers@[j],
        decreases n - i,
    {
        markers.push(false);
        i += 1;
    }
    mark_fields(fields, &mut markers, 0);
    let ghost marks = marks_of(fields_view(fields@), size.bytes);
    assert(markers@ =~= marks);
    let mut chunks: Vec<Chunk> = Vec::new();
    let mut start: Option<usize> = None;
    let mut i: usize = 0;
    assert(Seq::<Chunk>::empty() + scan(marks, 0, None) =~= scan(marks, 0, None));
    while i < n
        invariant
            i <= n,
            n == size.bytes,
            markers@ == marks,
            marks.len() == n,
            start matches Some(s) ==> s < i,
            scan(marks, 0, None) == chunks@ + scan(
                marks,
                i as int,
                match start {
                    Some(s) => Some(s as int),
                    None => None,
                },
            ),
        decreases n - i,
    {
        let ghost rest = scan(
            marks,
            i + 1,
            match start {
                Some(s) => Some(s as int),
                None => None,
            },
        );
        match start {
            None => {
                if markers[i] {
                    start = Some(i);
                }
            },
            Some(s) => {
                if !markers[i] {
                    let chunk = (Size { bytes: s as u64 }, Size { bytes: (i - s) as u64 });
                    assert(chunk == run(s as int, i as int));
                    assert(chunks@ + (seq![chunk] + scan(marks, i + 1, None)) =~= chunks@.push(
                        chunk,
                    ) + scan(marks, i + 1, None));
                    chunks.push(chunk);
                    start = None;
                }
            },
        }
        i += 1;
    }
    match start {
        Some(s) => {
            let chunk = (Size { bytes: s as u64 }, Size { bytes: (n - s) as u64 });
            assert(chunk == run(s as int, n as int));
            assert(chunks@ + seq![chunk] =~= chunks@.push(chunk));
            chunks.push(chunk);
        },
        None => {
            assert(chunks@ + Seq::<Chunk>::empty() =~= chunks@);
        },
    }
    Ok(chunks)
}

/// The first byte of a chunk.
pub open spec fn chunk_start(c: Chunk) -> int {
    c.0.bytes as int
}

/// The byte after the last byte of a chunk.
pub open spec fn chunk_end(c: Chunk) -> int {
    c.0.bytes + c.1.bytes
}

/// The bytes from `start` up to, not including, `end` are a maximal run of
/// marked bytes: all are marked, and the byte before and the byte after,
/// where there is one, are not.
pub open spec fn is_run(marks: Seq<bool>, start: int, end: int) -> bool {
    &&& 0 <= start < end <= marks.len()
    &&& forall|b: int| start <= b < end ==> marks[b]
    &&& start > 0 ==> !marks[start - 1]
    &&& end < marks.len() ==> !marks[end]
}

/// The chunks are the maximal runs of marked bytes from `lo` on, in order.
pub open spec fn runs_from(marks: Seq<bool>, chunks: Seq<Chunk>, lo: int) -> bool {
    &&& forall|k: int|
        0 <= k < chunks.len() ==> lo <= chunk_start(#[trigger] chunks[k]) && is_run(
            marks,
            chunk_start(chunks[k]),
            chunk_end(chunks[k]),
        )
    &&& forall|k: int|
        0 <= k < chunks.len() - 1 ==> chunk_end(chunks[k]) < chunk_start(#[trigger] chunks[k + 1])
    &&& forall|b: int|
        lo <= b < marks.len() && #[trigger] marks[b] ==> chunks_cover(
            chunks,
            chunks.len() as int,
            b,
        )
}

/// A chunk put before others covers what it covers and what they cover.
pub proof fn lemma_cover_prepend(first: Chunk, rest: Seq<Chunk>, m: int, b: int)
    requires
        0 <= m <= rest.len(),
    ensures
        chunks_cover(seq![first] + rest, m + 1, b) == (chunk_start(first) <= b < chunk_end(first)
            || chunks_cover(rest, m, b)),
    decreases m,
{
    let all = seq![first] + rest;
    if m == 0 {
        assert(all[0] == first);
        assert(!chunks_cover(all, 0, b));
    } else {
        lemma_cover_prepend(first, rest, m - 1, b);
        assert(all[m] == rest[m - 1]);
    }
}

/// What `scan` gives from index `i` on are the maximal runs of marked
/// bytes from there on, where a run that is under way began at a marked
/// byte after an unmarked one and was not interrupted.
pub proof fn lemma_scan_runs(marks: Seq<bool>, i: int, start: Option<int>)
    requires
        marks.len() <= u64::MAX,
        0 <= i <= marks.len(),
        match start {
            Some(s) => 0 <= s < i && (forall|b: int| s <= b < i ==> marks[b]) && (s > 0
                ==> !marks[s - 1]),
            None => i > 0 ==> !marks[i - 1],
        },
    ensures
        runs_from(
            marks,
            scan(marks, i, start),
            match start {
                Some(s) => s,
                None => i,
            },
        ),
        start matches Some(s) ==> scan(marks, i, start).len() > 0 && chunk_start(
            scan(marks, i, start)[0],
        ) == s,
    decreases marks.len() - i,
{
    let n = marks.len() as int;
    let chunks = scan(marks, i, start);
    if i >= n {
        match start {
            Some(s) => {
                assert(chunks[0] == run(s, n));
                assert forall|b: int| s <= b < n && marks[b] implies chunks_cover(
                    chunks,
                    chunks.len() as int,
                    b,
                ) by {
                    assert(!chunks_cover(chunks, 0, b));
                }
            },
            None => {},
        }
    } else {
        match start {
            None => {
                if marks[i] {
                    lemma_scan_runs(marks, i + 1, Some(i));
                } else {
                    lemma_scan_runs(marks, i + 1, None);
                }
            },
            Some(s) => {
                if marks[i] {
                    lemma_scan_runs(marks, i + 1, start);
                } else {
                    let first = run(s, i);
                    let rest = scan(marks, i + 1, None);
                    lemma_scan_runs(marks, i + 1, None);
                    assert(chunks == seq![first] + rest);
                    assert(chunks[0] == first);
                    assert forall|k: int| 0 <= k < chunks.len() implies s <= chunk_start(
                        #[trigger] chunks[k],
                    ) && is_run(marks, chunk_start(chunks[k]), chunk_end(chunks[k])) by {
                        if k > 0 {
                            assert(chunks[k] == rest[k - 1]);
                        }
                    }
                    assert forall|k: int| 0 <= k < chunks.len() - 1 implies chunk_end(chunks[k])
                        < chunk_start(#[trigger] chunks[k + 1]) by {
                        assert(chunks[k + 1] == rest[k]);
                        if k > 0 {
                            assert(chunks[k] == rest[k - 1]);
                            assert(chunk_end(rest[k - 1]) < chunk_start(rest[(k - 1) + 1]));
                        } else {
                            assert(chunk_end(first) == i);
                            assert(i + 1 <= chunk_start(rest[0]));
                        }
                    }
                    assert forall|b: int| s <= b < n && #[trigger] marks[b] implies chunks_cover(
                        chunks,
                        chunks.len() as int,
                        b,
                    ) by {
                        lemma_cover_prepend(first, rest, rest.len() as int, b);
                    }
                }
            },
        }
    }
}

/// The chunks of a union are the maximal runs of its data bytes, in
/// order: every chunk is such a run, a chunk ends before the next begins,
/// and every data byte of the union lies in a chunk.
pub proof fn lemma_chunks_are_maximal_runs(fields: Seq<(Size, TypeView)>, size: u64)
    ensures
        runs_from(marks_of(fields, size), chunks_of(fields, size), 0),
        forall|b: int|
            0 <= b < size ==> (#[trigger] marks_of(fields, size)[b] <==> fields_data(
                fields,
                fields.len() as int,
                b,
            )),
{
    lemma_scan_runs(marks_of(fields, size), 0, None);
}

} // verus!
