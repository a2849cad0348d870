//! The persisted form of proofs and keys: the fields in order, every scalar
//! and point as its canonical encoding, every count as eight little-endian
//! bytes, and every sequence as its count followed by its items.

use crate::algebra::{views, G1, G1_BYTES, G2, G2_BYTES};
use vstd::bytes::{
    lemma_auto_spec_u64_to_from_le_bytes, spec_u64_from_le_bytes, spec_u64_to_le_bytes,
    u64_from_le_bytes, u64_to_le_bytes,
};
use vstd::prelude::*;
use vstd::slice::{slice_subrange, slice_to_vec};

verus! {

/// Length in bytes of an encoded count.
pub const COUNT_BYTES: usize = 8;

/// The `w` bytes of `b` from `at` on.
pub open spec fn piece(b: Seq<u8>, at: int, w: int) -> Seq<u8> {
    b.subrange(at, at + w)
}

/// The encoding of a count.
pub open spec fn enc_count(n: nat) -> Seq<u8> {
    spec_u64_to_le_bytes(n as u64)
}

/// The items of `v` side by side.
pub open spec fn enc_items(v: Seq<Seq<u8>>) -> Seq<u8>
    decreases v.len(),
{
    if v.len() == 0 {
        Seq::empty()
    } else {
        enc_items(v.drop_last()) + v.last()
    }
}

/// The encoding of a sequence: its count, then its items.
pub open spec fn enc_seq(v: Seq<Seq<u8>>) -> Seq<u8> {
    enc_count(v.len()) + enc_items(v)
}

/// Whether `v` is a sequence of points of the first group that can be held.
pub open spec fn valid_g1s(v: Seq<Seq<u8>>) -> bool {
    &&& v.len() <= usize::MAX
    &&& forall|i: int| 0 <= i < v.len() ==> G1::is_encoding(#[trigger] v[i])
}

/// Whether `v` is a sequence of points of the second group that can be held.
pub open spec fn valid_g2s(v: Seq<Seq<u8>>) -> bool {
    &&& v.len() <= usize::MAX
    &&& forall|i: int| 0 <= i < v.len() ==> G2::is_encoding(#[trigger] v[i])
}

/// The point of the first group that stands at `at`, with the place after it.
pub open spec fn parse_g1(b: Seq<u8>, at: int) -> Option<(Seq<u8>, int)> {
    if 0 <= at && at + G1_BYTES <= b.len() && G1::is_encoding(piece(b, at, G1_BYTES as int)) {
        Some((piece(b, at, G1_BYTES as int), at + G1_BYTES))
    } else {
        None
    }
}

/// The point of the second group that stands at `at`, with the place after it.
pub open spec fn parse_g2(b: Seq<u8>, at: int) -> Option<(Seq<u8>, int)> {
    if 0 <= at && at + G2_BYTES <= b.len() && G2::is_encoding(piece(b, at, G2_BYTES as int)) {
        Some((piece(b, at, G2_BYTES as int), at + G2_BYTES))
    } else {
        None
    }
}

/// The count that stands at `at`, where it can be held, with the place after
/// it.
pub open spec fn parse_count(b: Seq<u8>, at: int) -> Option<(nat, int)> {
    if 0 <= at && at + COUNT_BYTES <= b.len() && spec_u64_from_le_bytes(
        piece(b, at, COUNT_BYTES as int),
    ) <= usize::MAX {
        Some((spec_u64_from_le_bytes(piece(b, at, COUNT_BYTES as int)) as nat, at + COUNT_BYTES))
    } else {
        None
    }
}

/// The `n` pieces of width `w` from `at` on.
pub open spec fn items_at(b: Seq<u8>, at: int, n: nat, w: int) -> Seq<Seq<u8>> {
    Seq::new(n, |i: int| piece(b, at + i * w, w))
}

/// The sequence of points of the first group that stands at `at`, with the
/// place after it.
pub open spec fn parse_g1s(b: Seq<u8>, at: int) -> Option<(Seq<Seq<u8>>, int)> {
    match parse_count(b, at) {
        Some((n, from)) => {
            let v = items_at(b, from, n, G1_BYTES as int);
            if from + n * G1_BYTES <= b.len() && valid_g1s(v) {
                Some((v, from + n * G1_BYTES))
            } else {
                None
            }
        },
        None => None,
    }
}

/// The sequence of points of the second group that stands at `at`, with the
/// place after it.
pub open spec fn parse_g2s(b: Seq<u8>, at: int) -> Option<(Seq<Seq<u8>>, int)> {
    match parse_count(b, at) {
        Some((n, from)) => {
            let v = items_at(b, from, n, G2_BYTES as int);
            if from + n * G2_BYTES <= b.len() && valid_g2s(v) {
                Some((v, from + n * G2_BYTES))
            } else {
                None
            }
        },
        None => None,
    }
}

/// Items of one width side by side take the width for each, and each is
/// found at its place.
pub proof fn lemma_enc_items(v: Seq<Seq<u8>>, w: int)
    requires
        forall|i: int| 0 <= i < v.len() ==> (#[trigger] v[i]).len() == w,
        w >= 0,
    ensures
        enc_items(v).len() == v.len() * w,
        forall|i: int| 0 <= i < v.len() ==> piece(enc_items(v), i * w, w) == #[trigger] v[i],
    decreases v.len(),
{
    if v.len() > 0 {
        let head = v.drop_last();
        lemma_enc_items(head, w);
        assert(enc_items(v).len() == v.len() * w) by (nonlinear_arith)
            requires
                enc_items(v).len() == head.len() * w + w,
                head.len() == v.len() - 1,
        ;
        assert forall|i: int| 0 <= i < v.len() implies piece(enc_items(v), i * w, w)
            == #[trigger] v[i] by {
            if i < head.len() {
                assert(i * w + w <= head.len() * w) by (nonlinear_arith)
                    requires
                        0 <= i < head.len(),
                        w >= 0,
                ;
                assert(piece(enc_items(v), i * w, w) =~= piece(enc_items(head), i * w, w));
                assert(head[i] == v[i]);
            } else {
                assert(i * w == head.len() * w);
                assert(piece(enc_items(v), i * w, w) =~= v.last());
            }
        }
    } else {
        assert(enc_items(v).len() == v.len() * w) by (nonlinear_arith)
            requires
                enc_items(v).len() == 0,
                v.len() == 0,
        ;
    }
}

/// A piece of a piece is a piece of the whole.
pub proof fn lemma_piece_of_piece(b: Seq<u8>, at: int, total: int, off: int, w: int)
    requires
        0 <= at,
        0 <= off,
        0 <= w,
        off + w <= total,
        at + total <= b.len(),
    ensures
        piece(piece(b, at, total), off, w) == piece(b, at + off, w),
{
    assert(piece(piece(b, at, total), off, w) =~= piece(b, at + off, w));
}

/// The place of field `i` among fields that stand side by side.
pub open spec fn start(fields: Seq<Seq<u8>>, i: int) -> int {
    enc_items(fields.take(i)).len() as int
}

/// The first field stands at the front, and each field after the one before.
pub proof fn lemma_start_next(fields: Seq<Seq<u8>>, i: int)
    requires
        0 <= i < fields.len(),
    ensures
        start(fields, 0) == 0,
        start(fields, i + 1) == start(fields, i) + fields[i].len(),
        enc_items(fields.take(i + 1)) == enc_items(fields.take(i)) + fields[i],
{
    assert(fields.take(i + 1).drop_last() =~= fields.take(i));
    assert(fields.take(i + 1).last() == fields[i]);
    assert(fields.take(0) =~= Seq::<Seq<u8>>::empty());
}

/// The first fields side by side are the front of all of them side by side.
pub proof fn lemma_items_prefix(fields: Seq<Seq<u8>>, i: int)
    requires
        0 <= i <= fields.len(),
    ensures
        start(fields, i) <= enc_items(fields).len(),
        enc_items(fields).subrange(0, start(fields, i)) == enc_items(fields.take(i)),
    decreases fields.len() - i,
{
    if i < fields.len() {
        lemma_items_prefix(fields, i + 1);
        lemma_start_next(fields, i);
        assert(enc_items(fields).subrange(0, start(fields, i)) =~= enc_items(fields.take(i)));
    } else {
        assert(fields.take(i) =~= fields);
        assert(enc_items(fields).subrange(0, start(fields, i)) =~= enc_items(fields));
    }
}

/// Where fields that stand side by side were written at `at`, each of them is
/// found at its place.
pub proof fn lemma_field_at(b: Seq<u8>, at: int, fields: Seq<Seq<u8>>, i: int)
    requires
        0 <= at,
        at + enc_items(fields).len() <= b.len(),
        piece(b, at, enc_items(fields).len() as int) == enc_items(fields),
        0 <= i < fields.len(),
    ensures
        0 <= start(fields, i),
        start(fields, i + 1) == start(fields, i) + fields[i].len(),
        start(fields, i + 1) <= enc_items(fields).len(),
        piece(b, at + start(fields, i), fields[i].len() as int) == fields[i],
{
    lemma_items_prefix(fields, i + 1);
    lemma_start_next(fields, i);
    let whole = enc_items(fields);
    assert(piece(whole, start(fields, i), fields[i].len() as int) =~= fields[i]) by {
        assert(whole.subrange(0, start(fields, i + 1)) == enc_items(fields.take(i)) + fields[i]);
        assert forall|k: int| 0 <= k < fields[i].len() implies whole[start(fields, i) + k]
            == fields[i][k] by {
            assert(whole.subrange(0, start(fields, i + 1))[start(fields, i) + k] == whole[start(
                fields,
                i,
            ) + k]);
        }
    }
    lemma_piece_of_piece(b, at, whole.len() as int, start(fields, i), fields[i].len() as int);
}

/// A count that was written at `at` is read back from there.
pub proof fn lemma_parse_count(b: Seq<u8>, at: int, n: nat)
    requires
        n <= usize::MAX,
        0 <= at,
        at + COUNT_BYTES <= b.len(),
        piece(b, at, enc_count(n).len() as int) == enc_count(n),
    ensures
        enc_count(n).len() == COUNT_BYTES,
        parse_count(b, at) == Some((n, at + COUNT_BYTES)),
{
    lemma_auto_spec_u64_to_from_le_bytes();
    assert(n as u64 == n);
}

/// Where a sequence of items of width `w` was written at `at`, its count is
/// found there and its items after it, each at its place.
pub proof fn lemma_seq_at(b: Seq<u8>, at: int, v: Seq<Seq<u8>>, w: int)
    requires
        v.len() <= usize::MAX,
        forall|i: int| 0 <= i < v.len() ==> (#[trigger] v[i]).len() == w,
        w >= 0,
        0 <= at,
        at + enc_seq(v).len() <= b.len(),
        piece(b, at, enc_seq(v).len() as int) == enc_seq(v),
    ensures
        enc_seq(v).len() == COUNT_BYTES + v.len() * w,
        parse_count(b, at) == Some((v.len(), at + COUNT_BYTES)),
        items_at(b, at + COUNT_BYTES, v.len(), w) == v,
{
    lemma_auto_spec_u64_to_from_le_bytes();
    lemma_enc_items(v, w);
    let total = enc_seq(v).len() as int;
    lemma_piece_of_piece(b, at, total, 0, COUNT_BYTES as int);
    assert(piece(enc_seq(v), 0, COUNT_BYTES as int) =~= enc_count(v.len()));
    assert(v.len() as u64 == v.len());
    let found = items_at(b, at + COUNT_BYTES, v.len(), w);
    assert forall|i: int| 0 <= i < v.len() implies found[i] == v[i] by {
        assert(0 <= i * w && i * w + w <= v.len() * w) by (nonlinear_arith)
            requires
                0 <= i < v.len(),
                w >= 0,
        ;
        lemma_piece_of_piece(b, at, total, COUNT_BYTES + i * w, w);
        assert(piece(enc_seq(v), COUNT_BYTES + i * w, w) =~= piece(enc_items(v), i * w, w));
    }
    assert(found =~= v);
}

/// A sequence of points of the first group that was written at `at` is read
/// back from there.
pub proof fn lemma_parse_g1s(b: Seq<u8>, at: int, v: Seq<Seq<u8>>)
    requires
        valid_g1s(v),
        0 <= at,
        at + enc_seq(v).len() <= b.len(),
        piece(b, at, enc_seq(v).len() as int) == enc_seq(v),
    ensures
        parse_g1s(b, at) == Some((v, at + enc_seq(v).len())),
        enc_seq(v).len() == COUNT_BYTES + v.len() * G1_BYTES,
{
    lemma_seq_at(b, at, v, G1_BYTES as int);
}

/// A sequence of points of the second group that was written at `at` is read
/// back from there.
pub proof fn lemma_parse_g2s(b: Seq<u8>, at: int, v: Seq<Seq<u8>>)
    requires
        valid_g2s(v),
        0 <= at,
        at + enc_seq(v).len() <= b.len(),
        piece(b, at, enc_seq(v).len() as int) == enc_seq(v),
    ensures
        parse_g2s(b, at) == Some((v, at + enc_seq(v).len())),
        enc_seq(v).len() == COUNT_BYTES + v.len() * G2_BYTES,
{
    lemma_seq_at(b, at, v, G2_BYTES as int);
}

/// Whether `out` is the point and the place that `want` gives.
pub open spec fn is_g1_at(out: Option<(G1, usize)>, want: Option<(Seq<u8>, int)>) -> bool {
    match want {
        Some((v, end)) => out.is_some() && out.unwrap().0@ == v && out.unwrap().1 == end,
        None => out.is_none(),
    }
}

/// Whether `out` is the point and the place that `want` gives.
pub open spec fn is_g2_at(out: Option<(G2, usize)>, want: Option<(Seq<u8>, int)>) -> bool {
    match want {
        Some((v, end)) => out.is_some() && out.unwrap().0@ == v && out.unwrap().1 == end,
        None => out.is_none(),
    }
}

/// Whether `out` is the count and the place that `want` gives.
pub open spec fn is_count_at(out: Option<(usize, usize)>, want: Option<(nat, int)>) -> bool {
    match want {
        Some((n, end)) => out.is_some() && out.unwrap().0 == n && out.unwrap().1 == end,
        None => out.is_none(),
    }
}

/// Whether `out` holds the points and the place that `want` gives.
pub open spec fn is_g1s_at(out: Option<(Vec<G1>, usize)>, want: Option<(Seq<Seq<u8>>, int)>) -> bool {
    match want {
        Some((v, end)) => out.is_some() && views(out.unwrap().0@) == v && out.unwrap().1 == end,
        None => out.is_none(),
    }
}

/// Whether `out` holds the points and the place that `want` gives.
pub open spec fn is_g2s_at(out: Option<(Vec<G2>, usize)>, want: Option<(Seq<Seq<u8>>, int)>) -> bool {
    match want {
        Some((v, end)) => out.is_some() && views(out.unwrap().0@) == v && out.unwrap().1 == end,
        None => out.is_none(),
    }
}

/// Appends a count.
pub fn put_count(out: &mut Vec<u8>, n: usize)
    ensures
        final(out)@ == old(out)@ + enc_count(n as nat),
{
    let mut bytes = u64_to_le_bytes(n as u64);
    out.append(&mut bytes);
}

/// Appends a point of the first group.
pub fn put_g1(out: &mut Vec<u8>, p: &G1)
    ensures
        final(out)@ == old(out)@ + p@,
        G1::is_encoding(p@),
{
    let mut bytes = p.to_bytes();
    out.append(&mut bytes);
}

/// Appends a point of the second group.
pub fn put_g2(out: &mut Vec<u8>, p: &G2)
    ensures
        final(out)@ == old(out)@ + p@,
        G2::is_encoding(p@),
{
    let mut bytes = p.to_bytes();
    out.append(&mut bytes);
}

/// Appends a sequence of points of the first group.
pub fn put_g1s(out: &mut Vec<u8>, v: &Vec<G1>)
    ensures
        final(out)@ == old(out)@ + enc_seq(views(v@)),
        valid_g1s(views(v@)),
{
    let ghost before = out@;
    let ghost all = views(v@);
    put_count(out, v.len());
    let mut i: usize = 0;
    assert(enc_items(all.take(0)) =~= Seq::<u8>::empty());
    assert(out@ =~= before + enc_count(all.len()) + enc_items(all.take(0)));
    while i < v.len()
        invariant
            i <= v@.len(),
            all == views(v@),
            out@ == before + enc_count(all.len()) + enc_items(all.take(i as int)),
            forall|j: int| 0 <= j < i ==> G1::is_encoding(#[trigger] all[j]),
        decreases v@.len() - i,
    {
        put_g1(out, &v[i]);
        proof {
            let next = all.take(i + 1);
            assert(next.drop_last() =~= all.take(i as int));
            assert(next.last() == v@[i as int]@);
            assert(out@ =~= before + enc_count(all.len()) + enc_items(next));
        }
        i += 1;
    }
    assert(all.take(v@.len() as int) =~= all);
    assert(out@ =~= before + enc_seq(all));
}

/// Appends a sequence of points of the second group.
pub fn put_g2s(out: &mut Vec<u8>, v: &Vec<G2>)
    ensures
        final(out)@ == old(out)@ + enc_seq(views(v@)),
        valid_g2s(views(v@)),
{
    let ghost before = out@;
    let ghost all = views(v@);
    put_count(out, v.len());
    let mut i: usize = 0;
    assert(enc_items(all.take(0)) =~= Seq::<u8>::empty());
    assert(out@ =~= before + enc_count(all.len()) + enc_items(all.take(0)));
    while i < v.len()
        invariant
            i <= v@.len(),
            all == views(v@),
            out@ == before + enc_count(all.len()) + enc_items(all.take(i as int)),
            forall|j: int| 0 <= j < i ==> G2::is_encoding(#[trigger] all[j]),
        decreases v@.len() - i,
    {
        put_g2(out, &v[i]);
        proof {
            let next = all.take(i + 1);
            assert(next.drop_last() =~= all.take(i as int));
            assert(next.last() == v@[i as int]@);
            assert(out@ =~= before + enc_count(all.len()) + enc_items(next));
        }
        i += 1;
    }
    assert(all.take(v@.len() as int) =~= all);
    assert(out@ =~= before + enc_seq(all));
}

/// Reads the point of the first group at `at`.
pub fn take_g1(b: &Vec<u8>, at: usize) -> (out: Option<(G1, usize)>)
    ensures
        is_g1_at(out, parse_g1(b@, at as int)),
{
    if at > b.len() || b.len() - at < G1_BYTES {
        return None;
    }
    let bytes = slice_to_vec(slice_subrange(b.as_slice(), at, at + G1_BYTES));
    match G1::from_bytes(bytes) {
        Some(p) => Some((p, at + G1_BYTES)),
        None => None,
    }
}

/// Reads the point of the second group at `at`.
pub fn take_g2(b: &Vec<u8>, at: usize) -> (out: Option<(G2, usize)>)
    ensures
        is_g2_at(out, parse_g2(b@, at as int)),
{
    if at > b.len() || b.len() - at < G2_BYTES {
        return None;
    }
    let bytes = slice_to_vec(slice_subrange(b.as_slice(), at, at + G2_BYTES));
    match G2::from_bytes(bytes) {
        Some(p) => Some((p, at + G2_BYTES)),
        None => None,
    }
}

/// Reads the count at `at`.
pub fn take_count(b: &Vec<u8>, at: usize) -> (out: Option<(usize, usize)>)
    ensures
        is_count_at(out, parse_count(b@, at as int)),
{
    if at > b.len() || b.len() - at < COUNT_BYTES {
        return None;
    }
    let n = u64_from_le_bytes(slice_subrange(b.as_slice(), at, at + COUNT_BYTES));
    if n > usize::MAX as u64 {
        return None;
    }
    Some((n as usize, at + COUNT_BYTES))
}

/// Reads the sequence of points of the first group at `at`.
pub fn take_g1s(b: &Vec<u8>, at: usize) -> (out: Option<(Vec<G1>, usize)>)
    ensures
        is_g1s_at(out, parse_g1s(b@, at as int)),
{
    let (n, from) = match take_count(b, at) {
        Some(found) => found,
        None => { return None; },
    };
    if n > (b.len() - from) / G1_BYTES {
        return None;
    }
    let ghost want = items_at(b@, from as int, n as nat, G1_BYTES as int);
    let mut v: Vec<G1> = Vec::new();
    let mut i: usize = 0;
    while i < n
        invariant
            i <= n,
            from + n * G1_BYTES <= b@.len(),
            b@.len() <= usize::MAX,
            parse_count(b@, at as int) == Some((n as nat, from as int)),
            want == items_at(b@, from as int, n as nat, G1_BYTES as int),
            v@.len() == i,
            forall|j: int| 0 <= j < i ==> (#[trigger] v@[j])@ == want[j],
            forall|j: int| 0 <= j < i ==> G1::is_encoding(#[trigger] want[j]),
        decreases n - i,
    {
        assert(from + i * G1_BYTES + G1_BYTES <= b@.len()) by (nonlinear_arith)
            requires
                i < n,
                from + n * G1_BYTES <= b@.len(),
        ;
        match take_g1(b, from + i * G1_BYTES) {
            Some((p, _)) => { v.push(p); },
            None => {
                assert(!G1::is_encoding(want[i as int]));
                return None;
            },
        }
        i += 1;
    }
    assert(views(v@) =~= want);
    Some((v, from + n * G1_BYTES))
}

/// Reads the sequence of points of the second group at `at`.
pub fn take_g2s(b: &Vec<u8>, at: usize) -> (out: Option<(Vec<G2>, usize)>)
    ensures
        is_g2s_at(out, parse_g2s(b@, at as int)),
{
    let (n, from) = match take_count(b, at) {
        Some(found) => found,
        None => { return None; },
    };
    if n > (b.len() - from) / G2_BYTES {
        return None;
    }
    let ghost want = items_at(b@, from as int, n as nat, G2_BYTES as int);
    let mut v: Vec<G2> = Vec::new();
    let mut i: usize = 0;
    while i < n
        invariant
            i <= n,
            from + n * G2_BYTES <= b@.len(),
            b@.len() <= usize::MAX,
            parse_count(b@, at as int) == Some((n as nat, from as int)),
            want == items_at(b@, from as int, n as nat, G2_BYTES as int),
            v@.len() == i,
            forall|j: int| 0 <= j < i ==> (#[trigger] v@[j])@ == want[j],
            forall|j: int| 0 <= j < i ==> G2::is_encoding(#[trigger] want[j]),
        decreases n - i,
    {
        assert(from + i * G2_BYTES + G2_BYTES <= b@.len()) by (nonlinear_arith)
            requires
                i < n,
                from + n * G2_BYTES <= b@.len(),
        ;
        match take_g2(b, from + i * G2_BYTES) {
            Some((p, _)) => { v.push(p); },
            None => {
                assert(!G2::is_encoding(want[i as int]));
                return None;
            },
        }
        i += 1;
    }
    assert(views(v@) =~= want);
    Some((v, from + n * G2_BYTES))
}

} // verus!
