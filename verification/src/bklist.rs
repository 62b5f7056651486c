//! Reading a backup listing into the panel: the reference name is the fifth
//! field of the first line, which must have six fields; the program then
//! checks each further line against that reference name and counts the
//! lines.
//!
//! The program reads the listing into one growing buffer and splits the
//! whole buffer at each line, so the field it compares is always the fifth
//! field of the first line: the reference check cannot fail
//! (`lemma_reference_check_passes`). `scan_bklist` counts without
//! re-splitting and is proved equal to the buffer-based reading.
use vstd::prelude::*;
use crate::reconcile::texts;
use crate::text::{chars_of, split_bars, split_fields, string_of};

verus! {

/// The outcome of reading a listing.
pub enum BkScan {
    /// Every line read; the reference name is `reference`.
    Counted { reference: String },
    /// The first line has fewer than five fields (the program stops).
    Short,
    /// The first line does not have six fields; its fifth is `reference`.
    NotSix { reference: String },
    /// Reading stopped on an error; the reference name is `reference`.
    ReadError { reference: String },
}

/// The buffer after `k` lines have been read into it.
pub open spec fn buffer(lines: Seq<Seq<char>>, k: int) -> Seq<char> {
    lines.take(k).flatten()
}

/// The program's reading, from line `k` (0-based) on, with reference name
/// `refv`: `(kind, reference, other)` with kind 0 all counted, 1 first line
/// too short, 2 first line without six fields, 3 line `k` names the other
/// reference `other`, 4 read error.
pub open spec fn scan_from(lines: Seq<Seq<char>>, failed: bool, k: int, refv: Seq<char>) -> (u8, Seq<char>, Seq<char>)
    decreases lines.len() - k,
{
    if k < 0 || k >= lines.len() {
        if failed {
            (4, refv, Seq::empty())
        } else {
            (0, refv, Seq::empty())
        }
    } else {
        let f = split_fields(buffer(lines, k + 1));
        if f.len() < 5 {
            (1, refv, Seq::empty())
        } else if k == 0 {
            if f.len() != 6 {
                (2, f[4], Seq::empty())
            } else {
                scan_from(lines, failed, 1, f[4])
            }
        } else if f[4] != refv {
            (3, refv, f[4])
        } else {
            scan_from(lines, failed, k + 1, refv)
        }
    }
}

pub open spec fn scan_view(r: BkScan) -> (u8, Seq<char>, Seq<char>) {
    match r {
        BkScan::Counted { reference } => (0, reference@, Seq::empty()),
        BkScan::Short => (1, Seq::empty(), Seq::empty()),
        BkScan::NotSix { reference } => (2, reference@, Seq::empty()),
        BkScan::ReadError { reference } => (4, reference@, Seq::empty()),
    }
}

/// The program's reading as `scan_view` shows it: as `scan_from` but with
/// no reference for the short first line (the program stops there).
pub open spec fn bk_scan(lines: Seq<Seq<char>>, failed: bool, refv: Seq<char>) -> (u8, Seq<char>, Seq<char>) {
    let r = scan_from(lines, failed, 0, refv);
    if r.0 == 1 {
        (1, Seq::empty(), Seq::empty())
    } else {
        r
    }
}

/// Appending text to a line keeps every field but its last.
pub proof fn lemma_split_prefix(a: Seq<char>, b: Seq<char>)
    ensures
        split_fields(a + b).len() >= split_fields(a).len(),
        forall|i: int|
            0 <= i < split_fields(a).len() - 1 ==> #[trigger] split_fields(a + b)[i]
                == split_fields(a)[i],
    decreases b.len(),
{
    if b.len() == 0 {
        assert(a + b == a);
    } else {
        let b1 = b.drop_last();
        lemma_split_prefix(a, b1);
        assert((a + b).drop_last() == a + b1);
        assert((a + b).last() == b.last());
    }
}

/// Once the first line has six fields, the fifth field of the buffer stays
/// the fifth field of the first line, whatever lines follow.
pub proof fn lemma_buffer_reference(lines: Seq<Seq<char>>, k: int)
    requires
        0 < k <= lines.len(),
        split_fields(lines[0]).len() == 6,
    ensures
        split_fields(buffer(lines, k)).len() >= 6,
        split_fields(buffer(lines, k))[4] == split_fields(lines[0])[4],
{
    let t = lines.take(k);
    assert(t.first() == lines[0]);
    assert(t.flatten() == lines[0] + t.drop_first().flatten());
    lemma_split_prefix(lines[0], t.drop_first().flatten());
}

proof fn lemma_scan_rest(lines: Seq<Seq<char>>, failed: bool, k: int)
    requires
        0 < k,
        lines.len() > 0,
        split_fields(lines[0]).len() == 6,
    ensures
        scan_from(lines, failed, k, split_fields(lines[0])[4]) == (if failed {
            4u8
        } else {
            0u8
        }, split_fields(lines[0])[4], Seq::<char>::empty()),
    decreases lines.len() - k,
{
    if k < lines.len() {
        lemma_buffer_reference(lines, k + 1);
        lemma_scan_rest(lines, failed, k + 1);
    }
}

/// The program's check that every line of a listing names the reference
/// name of the first line never fails: once the first line has six fields,
/// reading the listing ends with every line counted, or with the read
/// error, and the reference name of the first line.
pub proof fn lemma_reference_check_passes(lines: Seq<Seq<char>>, failed: bool, refv: Seq<char>)
    requires
        lines.len() > 0,
        split_fields(lines[0]).len() == 6,
    ensures
        bk_scan(lines, failed, refv) == (if failed {
            4u8
        } else {
            0u8
        }, split_fields(lines[0])[4], Seq::<char>::empty()),
{
    let t = lines.take(1);
    assert(t.drop_first().flatten() == Seq::<char>::empty());
    assert(t.flatten() == lines[0] + Seq::<char>::empty());
    assert(buffer(lines, 1) == lines[0]);
    lemma_scan_rest(lines, failed, 1);
}

/// Reads the listing `lines` (those read before `failed` stopped the
/// reading, if it did); `refv` is the reference name held so far.
pub fn scan_bklist(lines: &Vec<String>, failed: bool, refv: &String) -> (r: BkScan)
    ensures
        scan_view(r) == bk_scan(texts(lines@), failed, refv@),
{
    let ghost ls = texts(lines@);
    if lines.len() == 0 {
        let reference = string_of(chars_of(refv.as_str()));
        if failed {
            return BkScan::ReadError { reference };
        } else {
            return BkScan::Counted { reference };
        }
    }
    let fields = split_bars(&chars_of(lines[0].as_str()));
    proof {
        assert(ls[0] == lines@[0]@);
        assert(ls.take(1).drop_first().flatten() == Seq::<char>::empty());
        assert(buffer(ls, 1) == ls[0]);
    }
    if fields.len() < 5 {
        return BkScan::Short;
    }
    let reference = string_of(fields[4].clone());
    if fields.len() != 6 {
        return BkScan::NotSix { reference };
    }
    proof {
        lemma_reference_check_passes(ls, failed, refv@);
    }
    if failed {
        BkScan::ReadError { reference }
    } else {
        BkScan::Counted { reference }
    }
}

} // verus!
