use vstd::prelude::*;
use crate::text::{bytes_of, deep, join_lines, lemma_lines_of_bounds, lines_of, no_newline, split_lines};

verus! {

/// A line or a range of lines outside `[1, line_count]`.
#[derive(PartialEq, Eq, Structural, Debug, Clone, Copy)]
pub struct IndexError;

/// Why a file could not become a buffer.
#[derive(PartialEq, Eq, Structural, Debug, Clone, Copy)]
pub enum LoadError {
    /// The path exists but cannot be read.
    Unreadable,
    /// Every buffer identifier has been handed out.
    OutOfIds,
}

/// Why a buffer could not be written.
#[derive(PartialEq, Eq, Structural, Debug, Clone, Copy)]
pub enum SaveError {
    /// The buffer has no associated file.
    NoPath,
}

/// What the host found when it read a path on the engine's behalf.
#[derive(PartialEq, Eq, Debug)]
pub enum FileRead {
    /// The path does not exist: the buffer starts empty and a save creates it.
    Missing,
    /// The path exists but could not be read.
    Unreadable,
    /// The file's bytes.
    Contents(Vec<u8>),
}

/// A line the engine can hold: no terminator, and room for a cursor one past its end.
pub open spec fn line_ok(s: Seq<u8>) -> bool {
    no_newline(s) && s.len() < usize::MAX
}

pub open spec fn lines_ok(lines: Seq<Seq<u8>>) -> bool {
    forall|i: int| 0 <= i < lines.len() ==> line_ok(#[trigger] lines[i])
}

/// The lines a buffer shows: an empty buffer shows one empty line.
pub open spec fn shown(lines: Seq<Seq<u8>>) -> Seq<Seq<u8>> {
    if lines.len() == 0 {
        seq![Seq::<u8>::empty()]
    } else {
        lines
    }
}

/// The shown lines with lines `first..=last` (1-indexed) taken out.
pub open spec fn without_lines(lines: Seq<Seq<u8>>, first: int, last: int) -> Seq<Seq<u8>> {
    shown(lines).subrange(0, first - 1) + shown(lines).subrange(last, shown(lines).len() as int)
}

/// One open text: an identifier, its lines, the file it belongs to, and
/// whether it differs from that file as last loaded or saved.
///
/// An empty `lines` is an empty buffer, which shows one empty line and is
/// written as an empty file.
pub struct Buffer {
    pub id: libc::c_int,
    pub lines: Vec<Vec<u8>>,
    pub path: Option<Vec<u8>>,
    pub dirty: bool,
}

/// A copy of the bytes of a slice.
pub(crate) fn copy_bytes(s: &[u8]) -> (r: Vec<u8>)
    ensures
        r@ == s@,
{
    let mut r: Vec<u8> = Vec::new();
    let mut i: usize = 0;
    while i < s.len()
        invariant
            0 <= i <= s@.len(),
            r@ == s@.subrange(0, i as int),
        decreases s@.len() - i,
    {
        r.push(s[i]);
        assert(r@ =~= s@.subrange(0, i as int + 1));
        i = i + 1;
    }
    assert(r@ =~= s@);
    r
}

impl Buffer {
    /// The stored lines.
    pub open spec fn stored(&self) -> Seq<Seq<u8>> {
        deep(self.lines@)
    }

    /// The lines as a reader sees them, numbered from 1.
    pub open spec fn content(&self) -> Seq<Seq<u8>> {
        shown(self.stored())
    }

    pub open spec fn spec_id(&self) -> int {
        self.id as int
    }

    pub open spec fn spec_path(&self) -> Option<Seq<u8>> {
        match self.path {
            Some(p) => Some(p@),
            None => None,
        }
    }

    pub open spec fn spec_dirty(&self) -> bool {
        self.dirty
    }

    pub open spec fn wf(&self) -> bool {
        &&& lines_ok(self.stored())
        &&& self.stored().len() == self.lines.len()
    }

    /// An empty buffer.
    pub fn new(id: libc::c_int, path: Option<Vec<u8>>) -> (b: Buffer)
        ensures
            b.wf(),
            b.spec_id() == id,
            b.path == path,
            b.stored() == Seq::<Seq<u8>>::empty(),
            !b.spec_dirty(),
    {
        let b = Buffer { id, lines: Vec::new(), path, dirty: false };
        assert(b.stored() =~= Seq::<Seq<u8>>::empty());
        b
    }

    /// A buffer holding the lines of a file's bytes.
    pub fn from_bytes(id: libc::c_int, path: Option<Vec<u8>>, bytes: &[u8]) -> (b: Buffer)
        requires
            bytes@.len() < usize::MAX,
        ensures
            b.wf(),
            b.spec_id() == id,
            b.path == path,
            b.stored() == lines_of(bytes@),
            !b.spec_dirty(),
    {
        let lines = split_lines(bytes);
        proof {
            lemma_lines_of_bounds(bytes@);
        }
        Buffer { id, lines, path, dirty: false }
    }

    /// The buffer's identifier.
    pub fn id(&self) -> (r: libc::c_int)
        ensures
            r as int == self.spec_id(),
    {
        self.id
    }

    /// Whether the buffer differs from its file as last loaded or saved.
    pub fn is_dirty(&self) -> (r: bool)
        ensures
            r == self.spec_dirty(),
    {
        self.dirty
    }

    /// The number of lines shown; at least 1.
    pub fn line_count(&self) -> (n: usize)
        ensures
            n == self.content().len(),
            n >= 1,
    {
        if self.lines.len() == 0 {
            1
        } else {
            self.lines.len()
        }
    }

    /// The length of line `i + 1`.
    pub(crate) fn line_len(&self, i: usize) -> (n: usize)
        requires
            i < self.content().len(),
        ensures
            n == self.content()[i as int].len(),
    {
        if self.lines.len() == 0 {
            0
        } else {
            self.lines[i].len()
        }
    }

    /// A copy of line `i + 1`.
    pub(crate) fn line_at(&self, i: usize) -> (r: Vec<u8>)
        requires
            i < self.content().len(),
        ensures
            r@ == self.content()[i as int],
    {
        if self.lines.len() == 0 {
            Vec::new()
        } else {
            copy_bytes(self.lines[i].as_slice())
        }
    }

    /// Line `n` (from 1), or `None` outside `[1, line_count]`.
    pub fn get_line(&self, n: libc::c_long) -> (r: Option<Vec<u8>>)
        ensures
            r is Some <==> 1 <= n <= self.content().len(),
            r is Some ==> r->Some_0@ == self.content()[n - 1],
    {
        if n < 1 {
            return None;
        }
        if self.lines.len() == 0 {
            if n == 1 {
                Some(Vec::new())
            } else {
                None
            }
        } else if (n as u64) <= (self.lines.len() as u64) {
            let i = (n - 1) as usize;
            Some(copy_bytes(self.lines[i].as_slice()))
        } else {
            None
        }
    }

    /// Replaces line `n` with `text`.
    pub fn set_line(&mut self, n: usize, text: Vec<u8>) -> (r: Result<(), IndexError>)
        requires
            old(self).wf(),
            line_ok(text@),
        ensures
            final(self).wf(),
            final(self).id == old(self).id,
            final(self).path == old(self).path,
            r is Ok <==> 1 <= n <= old(self).content().len(),
            r is Ok ==> final(self).stored() == old(self).content().update(n - 1, text@),
            r is Ok ==> final(self).spec_dirty(),
            r is Err ==> *final(self) == *old(self),
    {
        if n < 1 || n > self.line_count() {
            return Err(IndexError);
        }
        let ghost before = self.content();
        if self.lines.len() == 0 {
            self.lines.push(text);
            assert(self.stored() =~= before.update(0, text@));
        } else {
            let ghost old_lines = self.lines@;
            self.lines.set(n - 1, text);
            assert(self.stored() =~= before.update(n - 1, text@));
        }
        self.dirty = true;
        Ok(())
    }

    /// Inserts `text` so that it becomes line `n`, for `n` in `[1, line_count + 1]`.
    pub fn insert_line(&mut self, n: usize, text: Vec<u8>) -> (r: Result<(), IndexError>)
        requires
            old(self).wf(),
            line_ok(text@),
        ensures
            final(self).wf(),
            final(self).id == old(self).id,
            final(self).path == old(self).path,
            r is Ok <==> 1 <= n <= old(self).content().len() + 1,
            r is Ok ==> final(self).stored() == old(self).content().insert(n - 1, text@),
            r is Ok ==> final(self).spec_dirty(),
            r is Err ==> *final(self) == *old(self),
    {
        if n < 1 || n - 1 > self.line_count() {
            return Err(IndexError);
        }
        let ghost before = self.content();
        if self.lines.len() == 0 {
            self.lines.push(Vec::new());
            assert(self.stored() =~= before);
        }
        self.lines.insert(n - 1, text);
        assert(self.stored() =~= before.insert(n - 1, text@));
        self.dirty = true;
        Ok(())
    }

    /// Deletes lines `first..=last`; deleting every line leaves the buffer empty.
    pub fn delete_range(&mut self, first: usize, last: usize) -> (r: Result<(), IndexError>)
        requires
            old(self).wf(),
        ensures
            final(self).wf(),
            final(self).id == old(self).id,
            final(self).path == old(self).path,
            r is Ok <==> 1 <= first <= last <= old(self).content().len(),
            r is Ok ==> final(self).stored() == without_lines(old(self).stored(), first as int, last as int),
            r is Ok ==> final(self).spec_dirty(),
            r is Err ==> *final(self) == *old(self),
    {
        if first < 1 || first > last || last > self.line_count() {
            return Err(IndexError);
        }
        let ghost before = self.content();
        if self.lines.len() == 0 {
            self.lines.push(Vec::new());
            assert(self.stored() =~= before);
        }
        assert(lines_ok(before));
        let ghost id0 = self.id;
        let ghost path0 = self.path;
        let mut k: usize = first - 1;
        while k < last
            invariant
                1 <= first <= last,
                first - 1 <= k <= last,
                last <= before.len(),
                lines_ok(before),
                self.id == id0,
                self.path == path0,
                self.lines@.len() == first - 1 + before.len() - k,
                self.stored() =~= before.subrange(0, first - 1) + before.subrange(k as int, before.len() as int),
            decreases last - k,
        {
            let ghost s = self.stored();
            self.lines.remove(first - 1);
            assert(self.stored() =~= s.remove(first - 1));
            assert(self.stored() =~= before.subrange(0, first - 1) + before.subrange(k + 1, before.len() as int));
            k = k + 1;
        }
        assert forall|i: int| 0 <= i < self.stored().len() implies line_ok(#[trigger] self.stored()[i]) by {
            if i < first - 1 {
                assert(self.stored()[i] == before[i]);
            } else {
                assert(self.stored()[i] == before[i + last - first + 1]);
            }
        }
        self.dirty = true;
        Ok(())
    }

    /// Deletes line `n`.
    pub fn delete_line(&mut self, n: usize) -> (r: Result<(), IndexError>)
        requires
            old(self).wf(),
        ensures
            final(self).wf(),
            final(self).id == old(self).id,
            final(self).path == old(self).path,
            r is Ok <==> 1 <= n <= old(self).content().len(),
            r is Ok ==> final(self).stored() == without_lines(old(self).stored(), n as int, n as int),
            r is Ok ==> final(self).spec_dirty(),
            r is Err ==> *final(self) == *old(self),
    {
        self.delete_range(n, n)
    }

    /// The bytes to write to the buffer's file: every line followed by a newline.
    pub fn save(&self) -> (r: Result<Vec<u8>, SaveError>)
        ensures
            r is Err <==> self.path is None,
            r is Ok ==> r->Ok_0@ == bytes_of(self.stored()),
    {
        match &self.path {
            None => Err(SaveError::NoPath),
            Some(_) => Ok(join_lines(&self.lines)),
        }
    }

    /// Records that the buffer now matches its file.
    pub fn mark_saved(&mut self)
        ensures
            *final(self) == (Buffer { dirty: false, ..*old(self) }),
    {
        self.dirty = false;
    }
}

} // verus!
