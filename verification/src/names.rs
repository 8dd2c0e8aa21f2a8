//! Segment file names.
//!
//! A segment's temporary output file is named `aegis_screen_<index>_<timestamp>.mov`
//! and its destination inside the session bundle is
//! `files/screen_<index>_<timestamp>.mov`.  Distinct segments get distinct
//! names — even when their pipelines finish out of order, the bundle holds
//! one file per segment — which this module states and proves.

use crate::digits::{dec_rep, is_digit, lemma_dec_rep_digits, lemma_dec_rep_injective,
    lemma_dec_rep_len, u64_to_dec};
use vstd::prelude::*;
use vstd::string::*;

verus! {

/// Name of the temporary output file for one segment.
pub open spec fn seg_name_spec(index: nat, timestamp: nat) -> Seq<char> {
    "aegis_screen_"@ + dec_rep(index) + "_"@ + dec_rep(timestamp) + ".mov"@
}

/// Path of the segment's copy inside the session bundle, relative to the
/// session directory.
pub open spec fn rel_path_spec(index: nat, timestamp: nat) -> Seq<char> {
    "files/screen_"@ + dec_rep(index) + "_"@ + dec_rep(timestamp) + ".mov"@
}

/// Builds the temporary output file name for one segment.
pub fn segment_file_name(index: u64, timestamp: u64) -> (r: String)
    ensures
        r@ == seg_name_spec(index as nat, timestamp as nat),
{
    let mut s = "aegis_screen_".to_owned();
    let i = u64_to_dec(index);
    s.append(i.as_str());
    s.append("_");
    let t = u64_to_dec(timestamp);
    s.append(t.as_str());
    s.append(".mov");
    proof {
        assert(s@ =~= seg_name_spec(index as nat, timestamp as nat));
    }
    s
}

/// Builds the bundle-relative destination path for one segment.
pub fn segment_rel_path(index: u64, timestamp: u64) -> (r: String)
    ensures
        r@ == rel_path_spec(index as nat, timestamp as nat),
{
    let mut s = "files/screen_".to_owned();
    let i = u64_to_dec(index);
    s.append(i.as_str());
    s.append("_");
    let t = u64_to_dec(timestamp);
    s.append(t.as_str());
    s.append(".mov");
    proof {
        assert(s@ =~= rel_path_spec(index as nat, timestamp as nat));
    }
    s
}

/// If a decimal rendering followed by a non-digit continuation equals
/// another such pair, the renderings and the continuations agree: the
/// first non-digit character marks the boundary on both sides.
proof fn lemma_dec_prefix_cancel(a: nat, b: nat, r1: Seq<char>, r2: Seq<char>)
    requires
        dec_rep(a) + r1 == dec_rep(b) + r2,
        r1.len() > 0,
        r2.len() > 0,
        !is_digit(r1[0]),
        !is_digit(r2[0]),
    ensures
        a == b,
        r1 == r2,
{
    let da = dec_rep(a);
    let db = dec_rep(b);
    let s = da + r1;
    lemma_dec_rep_len(a);
    lemma_dec_rep_len(b);
    lemma_dec_rep_digits(a);
    lemma_dec_rep_digits(b);
    assert((da + r1).len() == da.len() + r1.len());
    assert((db + r2).len() == db.len() + r2.len());
    assert(da.len() + r1.len() == db.len() + r2.len());
    if da.len() < db.len() {
        assert(s[da.len() as int] == r1[0]);
        assert(s[da.len() as int] == db[da.len() as int]);
        assert(is_digit(db[da.len() as int]));
        assert(false);
    } else if db.len() < da.len() {
        assert(s[db.len() as int] == r2[0]);
        assert(s[db.len() as int] == da[db.len() as int]);
        assert(is_digit(da[db.len() as int]));
        assert(false);
    }
    assert(da.len() == db.len());
    assert(da =~= db) by {
        assert(forall|i: int| 0 <= i < da.len() ==> #[trigger] da[i] == s[i] && db[i] == s[i]);
    }
    lemma_dec_rep_injective(a, b);
    assert(r1 =~= r2) by {
        assert(forall|i: int|
            0 <= i < r1.len() ==> #[trigger] r1[i] == s[da.len() + i] && r2[i] == s[da.len() + i]);
    }
}

/// A common prefix cancels: the remainders of two equal concatenations
/// with the same first part are equal.
proof fn lemma_prefix_cancel(p: Seq<char>, x: Seq<char>, y: Seq<char>)
    requires
        p + x == p + y,
    ensures
        x == y,
{
    let s = p + x;
    assert((p + x).len() == p.len() + x.len());
    assert((p + y).len() == p.len() + y.len());
    assert(x.len() == y.len());
    assert(x =~= y) by {
        assert(forall|i: int|
            0 <= i < x.len() ==> #[trigger] x[i] == s[p.len() + i] && y[i] == s[p.len() + i]);
    }
}

/// Two framed names `p + dec(i) + "_" + dec(t) + ".mov"` are equal only
/// when the indices and timestamps are equal.
proof fn lemma_framed_name_injective(p: Seq<char>, i1: nat, t1: nat, i2: nat, t2: nat)
    requires
        p + dec_rep(i1) + "_"@ + dec_rep(t1) + ".mov"@ == p + dec_rep(i2) + "_"@ + dec_rep(t2)
            + ".mov"@,
    ensures
        i1 == i2,
        t1 == t2,
{
    reveal_strlit("_");
    reveal_strlit(".mov");
    let u = "_"@;
    let s = ".mov"@;
    assert(u =~= seq!['_']);
    assert(s.len() == 4 && s[0] == '.');
    assert(!is_digit('_'));
    assert(!is_digit('.'));
    let x1 = dec_rep(i1) + (u + (dec_rep(t1) + s));
    let x2 = dec_rep(i2) + (u + (dec_rep(t2) + s));
    assert(p + x1 =~= p + dec_rep(i1) + u + dec_rep(t1) + s);
    assert(p + x2 =~= p + dec_rep(i2) + u + dec_rep(t2) + s);
    lemma_prefix_cancel(p, x1, x2);
    let y1 = u + (dec_rep(t1) + s);
    let y2 = u + (dec_rep(t2) + s);
    assert(y1[0] == '_');
    assert(y2[0] == '_');
    lemma_dec_prefix_cancel(i1, i2, y1, y2);
    lemma_prefix_cancel(u, dec_rep(t1) + s, dec_rep(t2) + s);
    lemma_dec_rep_len(t1);
    lemma_dec_rep_len(t2);
    assert((dec_rep(t1) + s)[dec_rep(t1).len() as int] == s[0]);
    assert((dec_rep(t2) + s)[dec_rep(t2).len() as int] == s[0]);
    lemma_dec_prefix_cancel(t1, t2, s, s);
}

/// Segments with distinct indices or timestamps land at distinct
/// bundle-relative paths: out-of-order pipeline completion can never make
/// two segments collide in the bundle.
pub proof fn lemma_rel_paths_injective(i1: nat, t1: nat, i2: nat, t2: nat)
    requires
        rel_path_spec(i1, t1) == rel_path_spec(i2, t2),
    ensures
        i1 == i2,
        t1 == t2,
{
    let p = "files/screen_"@;
    assert(p + dec_rep(i1) + "_"@ + dec_rep(t1) + ".mov"@ == p + dec_rep(i2) + "_"@ + dec_rep(t2)
        + ".mov"@);
    lemma_framed_name_injective(p, i1, t1, i2, t2);
}

/// Distinct segments get distinct temporary output file names as well.
pub proof fn lemma_seg_names_injective(i1: nat, t1: nat, i2: nat, t2: nat)
    requires
        seg_name_spec(i1, t1) == seg_name_spec(i2, t2),
    ensures
        i1 == i2,
        t1 == t2,
{
    let p = "aegis_screen_"@;
    assert(p + dec_rep(i1) + "_"@ + dec_rep(t1) + ".mov"@ == p + dec_rep(i2) + "_"@ + dec_rep(t2)
        + ".mov"@);
    lemma_framed_name_injective(p, i1, t1, i2, t2);
}

} // verus!
