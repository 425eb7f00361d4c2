use vstd::prelude::*;

verus! {

/// The byte that ends a record's line.
pub const NEWLINE: u8 = 10;

/// The line built so far, as a record if it holds anything.
pub open spec fn emit(cur: Seq<u8>) -> Seq<Seq<u8>> {
    if cur.len() == 0 {
        Seq::empty()
    } else {
        seq![cur]
    }
}

/// The non-empty lines of `s`, in order, after a line begun with `cur`.
pub open spec fn lines_after(s: Seq<u8>, cur: Seq<u8>) -> Seq<Seq<u8>>
    decreases s.len(),
{
    if s.len() == 0 {
        emit(cur)
    } else if s[0] == NEWLINE {
        emit(cur) + lines_after(s.drop_first(), Seq::empty())
    } else {
        lines_after(s.drop_first(), cur.push(s[0]))
    }
}

/// The records of a data file: its non-empty lines, in file order, without
/// their line ends.
pub open spec fn record_lines(s: Seq<u8>) -> Seq<Seq<u8>> {
    lines_after(s, Seq::empty())
}

/// A record's line as written to a file: the line and its end.
pub open spec fn framed(line: Seq<u8>) -> Seq<u8> {
    line.push(NEWLINE)
}

/// A line that can stand as one record: not empty, and with no line end in it.
pub open spec fn is_record_line(line: Seq<u8>) -> bool {
    line.len() > 0 && !line.contains(NEWLINE)
}

/// Text that ends where a line ends, so that what follows starts a new line.
pub open spec fn at_line_start(s: Seq<u8>) -> bool {
    s.len() == 0 || s.last() == NEWLINE
}

/// All lines of `lines`, each framed, one after another.
pub open spec fn joined(lines: Seq<Seq<u8>>) -> Seq<u8>
    decreases lines.len(),
{
    if lines.len() == 0 {
        Seq::empty()
    } else {
        joined(lines.drop_last()) + framed(lines.last())
    }
}

/// What a sequence of byte vectors holds, as byte sequences.
pub open spec fn views(v: Seq<Vec<u8>>) -> Seq<Seq<u8>> {
    v.map_values(|x: Vec<u8>| x@)
}

/// Splits the contents of a data file into its records' lines; empty lines
/// are skipped.
pub fn split_records(content: &[u8]) -> (r: Vec<Vec<u8>>)
    ensures
        views(r@) == record_lines(content@),
{
    let mut out: Vec<Vec<u8>> = Vec::new();
    let mut cur: Vec<u8> = Vec::new();
    let mut i: usize = 0;
    let n = content.len();
    assert(content@.subrange(0, n as int) =~= content@);
    assert(views(out@) =~= Seq::<Seq<u8>>::empty());
    while i < n
        invariant
            n == content@.len(),
            i <= n,
            views(out@) + lines_after(content@.subrange(i as int, n as int), cur@)
                == record_lines(content@),
        decreases n - i,
    {
        let b = content[i];
        let ghost rest = content@.subrange(i as int, n as int);
        assert(rest.drop_first() == content@.subrange(i + 1, n as int));
        assert(rest[0] == b);
        if b == NEWLINE {
            let ghost before = views(out@);
            if cur.len() > 0 {
                let ghost c = cur@;
                out.push(cur);
                assert(views(out@) =~= before + emit(c));
            } else {
                assert(before + emit(cur@) =~= before);
            }
            assert(views(out@) + lines_after(rest.drop_first(), Seq::empty()) =~= before
                + lines_after(rest, cur@));
            cur = Vec::new();
        } else {
            cur.push(b);
        }
        i = i + 1;
    }
    let ghost before = views(out@);
    assert(content@.subrange(n as int, n as int) =~= Seq::<u8>::empty());
    if cur.len() > 0 {
        let ghost c = cur@;
        out.push(cur);
        assert(views(out@) =~= before + emit(c));
    } else {
        assert(before + emit(cur@) =~= before);
    }
    out
}

/// A record's line with its line end, ready to be added to a data file.
pub fn frame_record(line: &[u8]) -> (r: Vec<u8>)
    ensures
        r@ == framed(line@),
{
    let mut out: Vec<u8> = Vec::new();
    let mut i: usize = 0;
    while i < line.len()
        invariant
            i <= line@.len(),
            out@ == line@.subrange(0, i as int),
        decreases line@.len() - i,
    {
        out.push(line[i]);
        assert(out@ =~= line@.subrange(0, i + 1));
        i = i + 1;
    }
    assert(line@.subrange(0, line@.len() as int) =~= line@);
    out.push(NEWLINE);
    out
}

/// The contents of a data file that holds `lines`, one record per line.
pub fn join_records(lines: &Vec<Vec<u8>>) -> (r: Vec<u8>)
    ensures
        r@ == joined(views(lines@)),
{
    let mut out: Vec<u8> = Vec::new();
    let mut k: usize = 0;
    while k < lines.len()
        invariant
            k <= lines@.len(),
            out@ == joined(views(lines@).subrange(0, k as int)),
        decreases lines@.len() - k,
    {
        let framed_line = frame_record(lines[k].as_slice());
        let ghost prefix = views(lines@).subrange(0, k + 1);
        assert(prefix.drop_last() =~= views(lines@).subrange(0, k as int));
        assert(prefix.last() == lines[k as int]@);
        let mut j: usize = 0;
        let ghost start = out@;
        while j < framed_line.len()
            invariant
                j <= framed_line@.len(),
                out@ == start + framed_line@.subrange(0, j as int),
            decreases framed_line@.len() - j,
        {
            out.push(framed_line[j]);
            assert(out@ =~= start + framed_line@.subrange(0, j + 1));
            j = j + 1;
        }
        assert(framed_line@.subrange(0, framed_line@.len() as int) =~= framed_line@);
        k = k + 1;
    }
    assert(views(lines@).subrange(0, lines@.len() as int) =~= views(lines@));
    out
}

proof fn lemma_lines_after_concat(a: Seq<u8>, b: Seq<u8>, cur: Seq<u8>)
    requires
        a.len() > 0,
        a.last() == NEWLINE,
    ensures
        lines_after(a + b, cur) == lines_after(a, cur) + record_lines(b),
    decreases a.len(),
{
    assert((a + b).drop_first() =~= a.drop_first() + b);
    if a.len() == 1 {
        assert(a.drop_first() =~= Seq::<u8>::empty());
        assert(a.drop_first() + b =~= b);
        assert(lines_after(a.drop_first(), Seq::empty()) =~= Seq::<Seq<u8>>::empty());
        assert(lines_after(a, cur) =~= emit(cur));
    } else {
        let next = if a[0] == NEWLINE {
            Seq::<u8>::empty()
        } else {
            cur.push(a[0])
        };
        lemma_lines_after_concat(a.drop_first(), b, next);
        if a[0] == NEWLINE {
            assert(emit(cur) + (lines_after(a.drop_first(), next) + record_lines(b)) =~= (emit(cur)
                + lines_after(a.drop_first(), next)) + record_lines(b));
        }
    }
}

proof fn lemma_lines_after_line(r: Seq<u8>, cur: Seq<u8>)
    requires
        !r.contains(NEWLINE),
        cur.len() + r.len() > 0,
    ensures
        lines_after(framed(r), cur) == seq![cur + r],
    decreases r.len(),
{
    if r.len() == 0 {
        assert(framed(r).drop_first() =~= Seq::<u8>::empty());
        assert(framed(r)[0] == NEWLINE);
        assert(lines_after(Seq::<u8>::empty(), Seq::<u8>::empty()) =~= Seq::<Seq<u8>>::empty());
        assert(lines_after(framed(r), cur) == emit(cur) + lines_after(
            framed(r).drop_first(),
            Seq::empty(),
        ));
        assert(cur + r =~= cur);
        assert(emit(cur) + Seq::<Seq<u8>>::empty() =~= seq![cur]);
    } else {
        assert(framed(r).drop_first() =~= framed(r.drop_first()));
        assert(framed(r)[0] == r[0]);
        assert(!r.drop_first().contains(NEWLINE)) by {
            if r.drop_first().contains(NEWLINE) {
                let j = choose|j: int| 0 <= j < r.drop_first().len() && r.drop_first()[j] == NEWLINE;
                assert(r[j + 1] == NEWLINE);
            }
        }
        assert(r[0] != NEWLINE) by {
            if r[0] == NEWLINE {
                assert(r.contains(NEWLINE));
            }
        }
        lemma_lines_after_line(r.drop_first(), cur.push(r[0]));
        assert(lines_after(framed(r), cur) == lines_after(framed(r).drop_first(), cur.push(r[0])));
        assert(cur.push(r[0]) + r.drop_first() =~= cur + r);
    }
}

/// Adding a record's line to a data file that ends at a line's end, and then
/// reading the file's records, gives the records read before with that line
/// after them.
pub proof fn lemma_append_then_read(content: Seq<u8>, line: Seq<u8>)
    requires
        at_line_start(content),
        is_record_line(line),
    ensures
        record_lines(content + framed(line)) == record_lines(content).push(line),
{
    lemma_lines_after_line(line, Seq::empty());
    assert(Seq::<u8>::empty() + line =~= line);
    if content.len() == 0 {
        assert(content + framed(line) =~= framed(line));
        assert(record_lines(content) =~= Seq::<Seq<u8>>::empty());
        assert(Seq::<Seq<u8>>::empty().push(line) =~= seq![line]);
    } else {
        lemma_lines_after_concat(content, framed(line), Seq::empty());
        assert(record_lines(content) + seq![line] =~= record_lines(content).push(line));
    }
}

/// Writing records' lines one per line and reading the file back gives the
/// same lines in the same order.
pub proof fn lemma_join_then_read(lines: Seq<Seq<u8>>)
    requires
        forall|i: int| 0 <= i < lines.len() ==> is_record_line(#[trigger] lines[i]),
    ensures
        record_lines(joined(lines)) == lines,
        at_line_start(joined(lines)),
    decreases lines.len(),
{
    if lines.len() == 0 {
        assert(record_lines(Seq::empty()) =~= Seq::<Seq<u8>>::empty());
    } else {
        let init = lines.drop_last();
        assert forall|i: int| 0 <= i < init.len() implies is_record_line(#[trigger] init[i]) by {
            assert(init[i] == lines[i]);
        }
        lemma_join_then_read(init);
        assert(is_record_line(lines[lines.len() - 1]));
        lemma_append_then_read(joined(init), lines.last());
        assert(init.push(lines.last()) =~= lines);
        assert(joined(lines) == joined(init) + framed(lines.last()));
        assert(framed(lines.last()).last() == NEWLINE);
        assert((joined(init) + framed(lines.last())).last() == NEWLINE);
    }
}

} // verus!
