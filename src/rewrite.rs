use vstd::prelude::*;
use crate::model::VideoMedia;
use crate::text::text_eq;

verus! {

/// The records that parsed, in order; the lines that did not parse are left out.
pub open spec fn parsed_records(s: Seq<Option<VideoMedia>>) -> Seq<VideoMedia>
    decreases s.len(),
{
    if s.len() == 0 {
        Seq::empty()
    } else {
        match s[0] {
            Some(v) => seq![v] + parsed_records(s.drop_first()),
            None => parsed_records(s.drop_first()),
        }
    }
}

/// How many records of `s` are named `name`.
pub open spec fn count_titled(s: Seq<VideoMedia>, name: Seq<char>) -> nat
    decreases s.len(),
{
    if s.len() == 0 {
        0
    } else {
        (if s[0].titled(name) { 1nat } else { 0nat }) + count_titled(s.drop_first(), name)
    }
}

/// The records of `s` that are named `name`, in order.
pub open spec fn named(s: Seq<VideoMedia>, name: Seq<char>) -> Seq<VideoMedia>
    decreases s.len(),
{
    if s.len() == 0 {
        Seq::empty()
    } else if s[0].titled(name) {
        seq![s[0]] + named(s.drop_first(), name)
    } else {
        named(s.drop_first(), name)
    }
}

/// The records of `s` that are not named `name`, in order.
pub open spec fn survivors(s: Seq<VideoMedia>, name: Seq<char>) -> Seq<VideoMedia>
    decreases s.len(),
{
    if s.len() == 0 {
        Seq::empty()
    } else if s[0].titled(name) {
        survivors(s.drop_first(), name)
    } else {
        seq![s[0]] + survivors(s.drop_first(), name)
    }
}

/// `s` with its records named `name` replaced, in order, by those of `edits`.
pub open spec fn with_edits(s: Seq<VideoMedia>, name: Seq<char>, edits: Seq<VideoMedia>) -> Seq<
    VideoMedia,
>
    decreases s.len(),
{
    if s.len() == 0 {
        Seq::empty()
    } else if s[0].titled(name) && edits.len() > 0 {
        seq![edits[0]] + with_edits(s.drop_first(), name, edits.drop_first())
    } else {
        seq![s[0]] + with_edits(s.drop_first(), name, edits)
    }
}

/// Whether `item` is named `name`.
pub fn has_title(item: &VideoMedia, name: &str) -> (r: bool)
    ensures
        r == item.titled(name@),
{
    text_eq(item.work.title.as_str(), name)
}

/// The records that parsed, in file order: a line that did not parse is
/// skipped and those after it are still read.
pub fn collect_parsed(parsed: Vec<Option<VideoMedia>>) -> (r: Vec<VideoMedia>)
    ensures
        r@ == parsed_records(parsed@),
{
    let ghost all = parsed@;
    let mut rest = parsed;
    let mut out: Vec<VideoMedia> = Vec::new();
    assert(out@ + parsed_records(rest@) =~= parsed_records(all));
    while rest.len() > 0
        invariant
            out@ + parsed_records(rest@) == parsed_records(all),
        decreases rest@.len(),
    {
        let ghost before = rest@;
        let x = rest.remove(0);
        assert(rest@ =~= before.drop_first());
        match x {
            Some(v) => {
                let ghost o = out@;
                out.push(v);
                assert(o + (seq![v] + parsed_records(rest@)) =~= out@ + parsed_records(rest@));
            },
            None => {},
        }
    }
    assert(out@ + parsed_records(rest@) =~= out@);
    out
}

/// The records that remain after those named `name` are removed, in their
/// order.
pub fn remove_by_name(items: Vec<VideoMedia>, name: &str) -> (r: Vec<VideoMedia>)
    ensures
        r@ == survivors(items@, name@),
{
    let ghost all = items@;
    let mut rest = items;
    let mut out: Vec<VideoMedia> = Vec::new();
    assert(out@ + survivors(rest@, name@) =~= survivors(all, name@));
    while rest.len() > 0
        invariant
            out@ + survivors(rest@, name@) == survivors(all, name@),
        decreases rest@.len(),
    {
        let ghost before = rest@;
        let x = rest.remove(0);
        assert(rest@ =~= before.drop_first());
        if !has_title(&x, name) {
            let ghost o = out@;
            out.push(x);
            assert(o + (seq![x] + survivors(rest@, name@)) =~= out@ + survivors(rest@, name@));
        }
    }
    assert(out@ + survivors(rest@, name@) =~= out@);
    out
}

/// The records named `name`, in their order.
pub fn select_by_name(items: Vec<VideoMedia>, name: &str) -> (r: Vec<VideoMedia>)
    ensures
        r@ == named(items@, name@),
{
    let ghost all = items@;
    let mut rest = items;
    let mut out: Vec<VideoMedia> = Vec::new();
    assert(out@ + named(rest@, name@) =~= named(all, name@));
    while rest.len() > 0
        invariant
            out@ + named(rest@, name@) == named(all, name@),
        decreases rest@.len(),
    {
        let ghost before = rest@;
        let x = rest.remove(0);
        assert(rest@ =~= before.drop_first());
        if has_title(&x, name) {
            let ghost o = out@;
            out.push(x);
            assert(o + (seq![x] + named(rest@, name@)) =~= out@ + named(rest@, name@));
        }
    }
    assert(out@ + named(rest@, name@) =~= out@);
    out
}

/// The records with those named `name` replaced, in order, by `edits`: `None`
/// when `edits` does not hold one record for each of them.
pub fn apply_edits(items: Vec<VideoMedia>, name: &str, edits: Vec<VideoMedia>) -> (r: Option<
    Vec<VideoMedia>,
>)
    ensures
        r.is_some() == (edits@.len() == count_titled(items@, name@)),
        r.is_some() ==> r.unwrap()@ == with_edits(items@, name@, edits@),
{
    let ghost all = items@;
    let ghost all_edits = edits@;
    let mut rest = items;
    let mut pending = edits;
    let mut out: Vec<VideoMedia> = Vec::new();
    assert(out@ + with_edits(rest@, name@, pending@) =~= with_edits(all, name@, all_edits));
    while rest.len() > 0
        invariant
            out@ + with_edits(rest@, name@, pending@) == with_edits(all, name@, all_edits),
            all == items@,
            all_edits == edits@,
            pending@.len() - count_titled(rest@, name@) == all_edits.len() - count_titled(
                all,
                name@,
            ),
        decreases rest@.len(),
    {
        let ghost before = rest@;
        let ghost before_pending = pending@;
        let x = rest.remove(0);
        assert(rest@ =~= before.drop_first());
        let ghost o = out@;
        if has_title(&x, name) {
            assert(count_titled(before, name@) == 1 + count_titled(rest@, name@));
            if pending.len() == 0 {
                return None;
            }
            let e = pending.remove(0);
            assert(pending@ =~= before_pending.drop_first());
            out.push(e);
            assert(o + (seq![e] + with_edits(rest@, name@, pending@)) =~= out@ + with_edits(
                rest@,
                name@,
                pending@,
            ));
        } else {
            out.push(x);
            assert(o + (seq![x] + with_edits(rest@, name@, pending@)) =~= out@ + with_edits(
                rest@,
                name@,
                pending@,
            ));
        }
    }
    assert(count_titled(rest@, name@) == 0);
    if pending.len() > 0 {
        return None;
    }
    assert(out@ + with_edits(rest@, name@, pending@) =~= out@);
    Some(out)
}

/// A file with one line that does not parse between two records that do
/// reads as exactly those two records.
pub proof fn lemma_tolerant_read(a: VideoMedia, b: VideoMedia)
    ensures
        parsed_records(seq![Some(a), None, Some(b)]) == seq![a, b],
{
    let s = seq![Some(a), None, Some(b)];
    assert(s.drop_first() =~= seq![None, Some(b)]);
    assert(s.drop_first().drop_first() =~= seq![Some(b)]);
    assert(s.drop_first().drop_first().drop_first() =~= Seq::<Option<VideoMedia>>::empty());
    assert(parsed_records(s.drop_first().drop_first().drop_first()) =~= Seq::<VideoMedia>::empty());
    assert(parsed_records(s.drop_first().drop_first()) == seq![b] + Seq::<VideoMedia>::empty());
    assert(seq![b] + Seq::<VideoMedia>::empty() =~= seq![b]);
    assert(parsed_records(s.drop_first()) == parsed_records(s.drop_first().drop_first()));
    assert(parsed_records(s) == seq![a] + parsed_records(s.drop_first()));
    assert(seq![a] + seq![b] =~= seq![a, b]);
}

/// Removing by a name that no record has, or editing by it, leaves the
/// records as they were.
pub proof fn lemma_no_match_unchanged(s: Seq<VideoMedia>, name: Seq<char>)
    requires
        count_titled(s, name) == 0,
    ensures
        survivors(s, name) == s,
        with_edits(s, name, Seq::empty()) == s,
    decreases s.len(),
{
    if s.len() > 0 {
        lemma_no_match_unchanged(s.drop_first(), name);
        assert(seq![s[0]] + s.drop_first() =~= s);
    }
}

/// After removing by `name` no record named `name` is left, every other
/// record is, and as many were removed as were named `name`.
pub proof fn lemma_remove_complete(s: Seq<VideoMedia>, name: Seq<char>)
    ensures
        forall|i: int| 0 <= i < survivors(s, name).len() ==> !(#[trigger] survivors(s, name)[i]).titled(name),
        s.len() - survivors(s, name).len() == count_titled(s, name),
        forall|i: int| 0 <= i < s.len() && !(#[trigger] s[i]).titled(name) ==> survivors(s, name).contains(s[i]),
    decreases s.len(),
{
    if s.len() > 0 {
        let t = s.drop_first();
        lemma_remove_complete(t, name);
        let r = survivors(s, name);
        let rt = survivors(t, name);
        assert forall|i: int| 0 <= i < s.len() && !(#[trigger] s[i]).titled(name) implies r.contains(s[i]) by {
            if i == 0 {
                assert(r[0] == s[0]);
            } else {
                assert(s[i] == t[i - 1]);
                let j = choose|j: int| 0 <= j < rt.len() && rt[j] == t[i - 1];
                if s[0].titled(name) {
                    assert(r[j] == s[i]);
                } else {
                    assert(r[j + 1] == s[i]);
                }
            }
        }
        if !s[0].titled(name) {
            assert forall|i: int| 0 <= i < r.len() implies !(#[trigger] r[i]).titled(name) by {
                if i > 0 {
                    assert(r[i] == rt[i - 1]);
                }
            }
        }
    }
}

/// Editing by `name`, with one edited record for each record named `name`,
/// changes only those records: the others stay as they were, where they were.
pub proof fn lemma_edit_scope(s: Seq<VideoMedia>, name: Seq<char>, edits: Seq<VideoMedia>)
    requires
        edits.len() == count_titled(s, name),
    ensures
        with_edits(s, name, edits).len() == s.len(),
        forall|i: int| 0 <= i < s.len() && !(#[trigger] s[i]).titled(name) ==> with_edits(s, name, edits)[i] == s[i],
    decreases s.len(),
{
    if s.len() > 0 {
        let t = s.drop_first();
        let rest_edits = if s[0].titled(name) { edits.drop_first() } else { edits };
        lemma_edit_scope(t, name, rest_edits);
        let r = with_edits(s, name, edits);
        assert forall|i: int| 0 <= i < s.len() && !(#[trigger] s[i]).titled(name) implies r[i] == s[i] by {
            if i > 0 {
                assert(s[i] == t[i - 1]);
                assert(r[i] == with_edits(t, name, rest_edits)[i - 1]);
            }
        }
    }
}

} // verus!
