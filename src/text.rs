use vstd::prelude::*;

verus! {

/// The line terminator.
pub const NL: u8 = 10;

/// Scanning bytes left to right: the lines completed so far, and the
/// unterminated tail.
pub open spec fn split_acc(b: Seq<u8>) -> (Seq<Seq<u8>>, Seq<u8>)
    decreases b.len(),
{
    if b.len() == 0 {
        (Seq::empty(), Seq::empty())
    } else {
        let (done, tail) = split_acc(b.drop_last());
        if b.last() == NL {
            (done.push(tail), Seq::empty())
        } else {
            (done, tail.push(b.last()))
        }
    }
}

/// The lines of a file: each newline ends one line, and a non-empty
/// unterminated tail is one more line.
pub open spec fn lines_of(b: Seq<u8>) -> Seq<Seq<u8>> {
    let (done, tail) = split_acc(b);
    if tail.len() == 0 {
        done
    } else {
        done.push(tail)
    }
}

/// The bytes written for a sequence of lines: each line followed by a newline.
pub open spec fn bytes_of(lines: Seq<Seq<u8>>) -> Seq<u8>
    decreases lines.len(),
{
    if lines.len() == 0 {
        Seq::empty()
    } else {
        bytes_of(lines.drop_last()) + lines.last() + seq![NL]
    }
}

/// A line holds no terminator.
pub open spec fn no_newline(s: Seq<u8>) -> bool {
    forall|k: int| 0 <= k < s.len() ==> s[k] != NL
}

pub open spec fn all_no_newline(lines: Seq<Seq<u8>>) -> bool {
    forall|i: int| 0 <= i < lines.len() ==> no_newline(#[trigger] lines[i])
}

proof fn lemma_split_acc(b: Seq<u8>)
    ensures
        bytes_of(split_acc(b).0) + split_acc(b).1 == b,
        b.len() > 0 && b.last() == NL ==> split_acc(b).1.len() == 0,
        all_no_newline(split_acc(b).0),
        no_newline(split_acc(b).1),
        split_acc(b).1.len() <= b.len(),
        forall|i: int| 0 <= i < split_acc(b).0.len() ==> #[trigger] split_acc(b).0[i].len() <= b.len(),
    decreases b.len(),
{
    if b.len() > 0 {
        let p = b.drop_last();
        lemma_split_acc(p);
        let (done, tail) = split_acc(p);
        if b.last() == NL {
            let d2 = done.push(tail);
            assert(d2.drop_last() =~= done);
            assert(bytes_of(d2) + Seq::<u8>::empty() =~= b);
            assert forall|i: int| 0 <= i < d2.len() implies no_newline(#[trigger] d2[i]) by {
                if i < done.len() {
                    assert(d2[i] == done[i]);
                }
            }
        } else {
            assert(b =~= p.push(b.last()));
            assert(bytes_of(done) + tail.push(b.last()) =~= (bytes_of(done) + tail).push(b.last()));
        }
    }
}

/// Writing the lines read from a file gives back the file, when the file is
/// empty or ends with a newline.
pub proof fn lemma_load_save_round_trip(b: Seq<u8>)
    requires
        b.len() == 0 || b.last() == NL,
    ensures
        bytes_of(lines_of(b)) == b,
{
    lemma_split_acc(b);
    if b.len() > 0 {
        assert(bytes_of(split_acc(b).0) + split_acc(b).1 =~= bytes_of(split_acc(b).0));
    }
}

/// Every line read from a file is free of terminators and no longer than the file.
pub proof fn lemma_lines_of_bounds(b: Seq<u8>)
    ensures
        all_no_newline(lines_of(b)),
        forall|i: int| 0 <= i < lines_of(b).len() ==> #[trigger] lines_of(b)[i].len() <= b.len(),
{
    lemma_split_acc(b);
    let (done, tail) = split_acc(b);
    if tail.len() > 0 {
        let l = done.push(tail);
        assert forall|i: int| 0 <= i < l.len() implies no_newline(#[trigger] l[i]) by {
            if i < done.len() {
                assert(l[i] == done[i]);
            }
        }
        assert forall|i: int| 0 <= i < l.len() implies #[trigger] l[i].len() <= b.len() by {
            if i < done.len() {
                assert(l[i] == done[i]);
            }
        }
    }
}

pub open spec fn deep(lines: Seq<Vec<u8>>) -> Seq<Seq<u8>> {
    Seq::new(lines.len(), |i: int| lines[i]@)
}

/// Splits file contents into lines.
pub fn split_lines(b: &[u8]) -> (lines: Vec<Vec<u8>>)
    ensures
        deep(lines@) == lines_of(b@),
{
    let mut done: Vec<Vec<u8>> = Vec::new();
    let mut tail: Vec<u8> = Vec::new();
    let n = b.len();
    let mut i: usize = 0;
    while i < n
        invariant
            n == b@.len(),
            0 <= i <= n,
            (deep(done@), tail@) == split_acc(b@.subrange(0, i as int)),
        decreases n - i,
    {
        let c = b[i];
        proof {
            let s = b@.subrange(0, i as int + 1);
            assert(s.drop_last() =~= b@.subrange(0, i as int));
            assert(s.last() == c);
        }
        if c == NL {
            let ghost before = done@;
            done.push(tail);
            assert(deep(done@) =~= deep(before).push(tail@));
            tail = Vec::new();
        } else {
            tail.push(c);
        }
        i = i + 1;
    }
    assert(b@.subrange(0, n as int) =~= b@);
    if tail.len() > 0 {
        let ghost before = done@;
        done.push(tail);
        assert(deep(done@) =~= deep(before).push(tail@));
    }
    done
}

/// The bytes of a file holding the given lines.
pub fn join_lines(lines: &Vec<Vec<u8>>) -> (b: Vec<u8>)
    ensures
        b@ == bytes_of(deep(lines@)),
{
    let mut out: Vec<u8> = Vec::new();
    let mut i: usize = 0;
    while i < lines.len()
        invariant
            0 <= i <= lines@.len(),
            out@ == bytes_of(deep(lines@).subrange(0, i as int)),
        decreases lines@.len() - i,
    {
        let line = &lines[i];
        let ghost start = out@;
        let mut k: usize = 0;
        while k < line.len()
            invariant
                0 <= k <= line@.len(),
                line == lines@[i as int],
                out@ == start + line@.subrange(0, k as int),
            decreases line@.len() - k,
        {
            out.push(line[k]);
            assert(out@ =~= start + line@.subrange(0, k as int + 1));
            k = k + 1;
        }
        out.push(NL);
        proof {
            let d = deep(lines@).subrange(0, i as int + 1);
            assert(d.drop_last() =~= deep(lines@).subrange(0, i as int));
            assert(line@.subrange(0, k as int) =~= line@);
            assert(out@ =~= bytes_of(d));
        }
        i = i + 1;
    }
    assert(deep(lines@).subrange(0, i as int) =~= deep(lines@));
    out
}

} // verus!
