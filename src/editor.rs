use vstd::prelude::*;
use vstd::string::StringSliceAdditionalSpecFns;
use crate::buffer::{copy_bytes, Buffer, FileRead, LoadError, SaveError};
use crate::command::{cmd_arg, is_edit_cmd, is_quit_cmd, is_reload_cmd, is_write_cmd, parse_command, CommandError, ExCommand};
use crate::editing::{apply_key, count, ctx_ok, initial_ctx, run, step, to_first_line, to_last_line, to_line_end, EditContext, Pending};
use crate::keys::{key_code, key_of, same_bytes};
use crate::mode::VimMode;
use crate::text::{bytes_of, lines_of};

verus! {

/// The lines a read gives a new buffer, or `None` when it gives no buffer.
pub open spec fn read_lines(read: FileRead) -> Option<Seq<Seq<u8>>> {
    match read {
        FileRead::Missing => Some(Seq::empty()),
        FileRead::Unreadable => None,
        FileRead::Contents(b) => if b@.len() < usize::MAX { Some(lines_of(b@)) } else { None },
    }
}

/// What the host has to do outside the engine after an ex-command.
#[derive(PartialEq, Eq, Debug)]
pub enum Effect {
    /// Nothing.
    Done,
    /// Read the file at `path` and hand the outcome to `Editor::vim_edit`.
    Read { path: Vec<u8> },
    /// Read the current buffer's file at `path` again and hand the outcome to `Editor::vim_reload`.
    Reload { path: Vec<u8> },
    /// Write `bytes` to `path`, then report success with `Editor::buffer_written(id)`.
    Write { id: libc::c_int, path: Vec<u8>, bytes: Vec<u8> },
    /// The session was asked to end.
    Quit,
}

/// A cursor position: line and column, both counted from 1.
#[derive(PartialEq, Eq, Structural, Debug, Clone, Copy)]
pub struct CursorPosition {
    pub lnum: usize,
    pub col: usize,
}

/// One editing session: the open buffers, the current one, the editing
/// context (mode and cursor) on it, the window size, and whether a quit was
/// asked for. Buffer identifiers are handed out in increasing order and never
/// reused.
pub struct Editor {
    buffers: Vec<Buffer>,
    current: usize,
    next_id: libc::c_int,
    ctx: EditContext,
    width: libc::c_int,
    height: libc::c_int,
    quit: bool,
}

impl Editor {
    pub closed spec fn buffers(&self) -> Seq<Buffer> {
        self.buffers@
    }

    pub closed spec fn current(&self) -> int {
        self.current as int
    }

    pub closed spec fn ctx(&self) -> EditContext {
        self.ctx
    }

    pub closed spec fn next_id(&self) -> int {
        self.next_id as int
    }

    pub closed spec fn window(&self) -> (int, int) {
        (self.width as int, self.height as int)
    }

    pub closed spec fn quit_requested(&self) -> bool {
        self.quit
    }

    /// The current buffer.
    pub open spec fn cur(&self) -> Buffer {
        self.buffers()[self.current()]
    }

    /// The session's invariant: a current buffer exists, every buffer is well
    /// formed, the context fits the current buffer, and identifiers increase
    /// along the buffer list and stay below the next one to hand out.
    pub closed spec fn wf(&self) -> bool {
        &&& self.current < self.buffers@.len()
        &&& forall|i: int| 0 <= i < self.buffers@.len() ==> (#[trigger] self.buffers@[i]).wf()
        &&& ctx_ok(self.buffers@[self.current as int].stored(), self.ctx)
        &&& forall|i: int, j: int| 0 <= i < j < self.buffers@.len() ==>
            (#[trigger] self.buffers@[i]).id < (#[trigger] self.buffers@[j]).id
        &&& forall|i: int| 0 <= i < self.buffers@.len() ==> 1 <= (#[trigger] self.buffers@[i]).id < self.next_id
    }

    /// Starts a session with one empty scratch buffer (identifier 1), in
    /// Normal mode at line 1, column 1, with an 80 by 24 window.
    pub fn vim_init() -> (e: Editor)
        ensures
            e.wf(),
            e.buffers().len() == 1,
            e.current() == 0,
            e.cur().id == 1,
            e.cur().path is None,
            e.cur().stored() == Seq::<Seq<u8>>::empty(),
            !e.cur().dirty,
            e.ctx() == initial_ctx(),
            e.next_id() == 2,
            e.window() == (80int, 24int),
            !e.quit_requested(),
    {
        let mut buffers: Vec<Buffer> = Vec::new();
        buffers.push(Buffer::new(1, None));
        let e = Editor {
            buffers,
            current: 0,
            next_id: 2,
            ctx: EditContext {
                mode: VimMode::Normal,
                line: 1,
                col: 1,
                pending: Pending::Nothing,
                visual: crate::editing::VisualKind::Char,
                anchor_line: 1,
                anchor_col: 1,
            },
            width: 80,
            height: 24,
            quit: false,
        };
        e
    }


    /// Only the current buffer changed, keeping its identifier and file; the
    /// buffer list, the current index and the other fields stayed.
    pub open spec fn same_but_current(&self, other: &Editor) -> bool {
        &&& other.buffers().len() == self.buffers().len()
        &&& other.current() == self.current()
        &&& forall|i: int| 0 <= i < self.buffers().len() && i != self.current() ==>
            other.buffers()[i] == #[trigger] self.buffers()[i]
        &&& other.cur().id == self.cur().id
        &&& other.cur().path == self.cur().path
        &&& other.next_id() == self.next_id()
        &&& other.window() == self.window()
        &&& other.quit_requested() == self.quit_requested()
    }

    /// After input `bs` the current buffer and the context are what `run` gives.
    pub open spec fn typed(&self, other: &Editor, bs: Seq<u8>) -> bool {
        let r = run(self.cur().stored(), self.ctx(), bs);
        &&& self.same_but_current(other)
        &&& other.cur().stored() == r.0
        &&& other.cur().dirty == (self.cur().dirty || r.1)
        &&& other.ctx() == r.2
    }

    /// After one unit of input `b` the current buffer and the context are what `step` gives.
    pub open spec fn stepped(&self, other: &Editor, b: u8) -> bool {
        let r = step(self.cur().stored(), self.ctx(), b);
        &&& self.same_but_current(other)
        &&& other.cur().stored() == r.0
        &&& other.cur().dirty == (self.cur().dirty || r.1)
        &&& other.ctx() == r.2
    }

    /// Applies one unit of input to the current buffer.
    fn apply_byte(&mut self, b: u8)
        requires
            old(self).wf(),
        ensures
            final(self).wf(),
            old(self).stepped(final(self), b),
    {
        let cur = self.current;
        let ghost b0 = self.buffers@[cur as int];
        let mut buf = self.buffers.remove(cur);
        apply_key(&mut buf, &mut self.ctx, b);
        self.buffers.insert(cur, buf);
        proof {
            assert forall|i: int| 0 <= i < self.buffers@.len() && i != cur implies
                self.buffers@[i] == #[trigger] old(self).buffers@[i] by {}
            assert forall|i: int, j: int| 0 <= i < j < self.buffers@.len() implies
                (#[trigger] self.buffers@[i]).id < (#[trigger] self.buffers@[j]).id by {
                assert(self.buffers@[i].id == old(self).buffers@[i].id);
                assert(self.buffers@[j].id == old(self).buffers@[j].id);
            }
            assert forall|i: int| 0 <= i < self.buffers@.len() implies
                1 <= (#[trigger] self.buffers@[i]).id < self.next_id by {
                assert(self.buffers@[i].id == old(self).buffers@[i].id);
            }
            assert forall|i: int| 0 <= i < self.buffers@.len() implies (#[trigger] self.buffers@[i]).wf() by {
                if i != cur {
                    assert(self.buffers@[i] == old(self).buffers@[i]);
                }
            }
        }
    }

    /// Types `text` under the current mode, one byte after another: text in
    /// Insert mode, motion and operator keys in the others.
    pub fn vim_input(&mut self, text: &str)
        requires
            old(self).wf(),
        ensures
            final(self).wf(),
            old(self).typed(final(self), text.spec_bytes()),
    {
        let t = text.as_bytes();
        let n = t.len();
        let mut i: usize = 0;
        assert(t@.subrange(0, n as int) =~= t@);
        while i < n
            invariant
                n == t@.len(),
                t@ == text.spec_bytes(),
                0 <= i <= n,
                self.wf(),
                ({
                    let whole = run(old(self).cur().stored(), old(self).ctx(), t@);
                    let rest = run(self.cur().stored(), self.ctx(), t@.subrange(i as int, n as int));
                    &&& old(self).same_but_current(self)
                    &&& rest.0 == whole.0
                    &&& rest.2 == whole.2
                    &&& (self.cur().dirty || rest.1) == (old(self).cur().dirty || whole.1)
                }),
            decreases n - i,
        {
            let ghost before = *self;
            self.apply_byte(t[i]);
            proof {
                let bs = t@.subrange(i as int, n as int);
                assert(bs[0] == t@[i as int]);
                assert(bs.drop_first() =~= t@.subrange(i as int + 1, n as int));
                assert forall|k: int| 0 <= k < old(self).buffers().len() && k != old(self).current() implies
                    self.buffers()[k] == #[trigger] old(self).buffers()[k] by {
                    assert(self.buffers()[k] == before.buffers()[k]);
                }
            }
            i = i + 1;
        }
        proof {
            assert(t@.subrange(n as int, n as int) =~= Seq::<u8>::empty());
        }
    }

    /// Presses a named special key (`<esc>`, `<cr>`, `<bs>`, `<tab>`, in
    /// any case); an unknown name changes nothing.
    pub fn vim_key(&mut self, name: &str)
        requires
            old(self).wf(),
        ensures
            final(self).wf(),
            key_of(name.spec_bytes()) matches Some(b) ==> old(self).stepped(final(self), b),
            key_of(name.spec_bytes()) is None ==> *final(self) == *old(self),
    {
        match key_code(name) {
            Some(b) => self.apply_byte(b),
            None => {},
        }
    }


    /// Whether a buffer with identifier `id` is open.
    pub open spec fn has_id(&self, id: int) -> bool {
        exists|i: int| 0 <= i < self.buffers().len() && (#[trigger] self.buffers()[i]).id == id
    }

    /// The buffer with identifier `id`.
    pub open spec fn by_id(&self, id: int) -> Buffer {
        self.buffers()[choose|i: int| 0 <= i < self.buffers().len() && (#[trigger] self.buffers()[i]).id == id]
    }

    /// Whether a buffer belongs to the file at `p`.
    pub open spec fn has_path(&self, p: Seq<u8>) -> bool {
        exists|i: int| 0 <= i < self.buffers().len() && (#[trigger] self.buffers()[i]).spec_path() == Some(p)
    }

    /// `other` is this session with one more buffer, clean, holding `lines`,
    /// under the next identifier; nothing else changed but what `switched` says.
    pub open spec fn appended(&self, other: &Editor, path: Seq<u8>, lines: Seq<Seq<u8>>) -> bool {
        let n = self.buffers().len();
        &&& other.buffers().len() == n + 1
        &&& other.buffers().subrange(0, n as int) == self.buffers()
        &&& other.buffers()[n as int].id == self.next_id()
        &&& other.buffers()[n as int].spec_path() == Some(path)
        &&& other.buffers()[n as int].stored() == lines
        &&& !other.buffers()[n as int].dirty
        &&& other.next_id() == self.next_id() + 1
        &&& other.window() == self.window()
        &&& other.quit_requested() == self.quit_requested()
    }

    /// `other` shows buffer `i` from its start: Normal mode, line 1, column 1.
    pub open spec fn switched(&self, other: &Editor, i: int) -> bool {
        &&& other.current() == i
        &&& other.ctx() == initial_ctx()
    }

    /// `other` kept the current buffer and the context.
    pub open spec fn kept_view(&self, other: &Editor) -> bool {
        &&& other.current() == self.current()
        &&& other.ctx() == self.ctx()
    }

    proof fn lemma_ids_unique(&self, i: int, j: int)
        requires
            self.wf(),
            0 <= i < self.buffers().len(),
            0 <= j < self.buffers().len(),
            self.buffers()[i].id == self.buffers()[j].id,
        ensures
            i == j,
    {
        if i < j {
            assert(self.buffers@[i].id < self.buffers@[j].id);
        } else if j < i {
            assert(self.buffers@[j].id < self.buffers@[i].id);
        }
    }

    /// The index of the buffer with identifier `id`.
    fn find_id(&self, id: libc::c_int) -> (r: Option<usize>)
        requires
            self.wf(),
        ensures
            r is None <==> !self.has_id(id as int),
            r matches Some(i) ==> i < self.buffers().len() && self.by_id(id as int) == self.buffers()[i as int]
                && self.buffers()[i as int].id == id,
    {
        let mut i: usize = 0;
        while i < self.buffers.len()
            invariant
                0 <= i <= self.buffers@.len(),
                self.wf(),
                forall|k: int| 0 <= k < i ==> (#[trigger] self.buffers@[k]).id != id,
            decreases self.buffers@.len() - i,
        {
            if self.buffers[i].id == id {
                proof {
                    let j = choose|j: int| 0 <= j < self.buffers().len() && (#[trigger] self.buffers()[j]).id == id;
                    self.lemma_ids_unique(i as int, j);
                }
                return Some(i);
            }
            i = i + 1;
        }
        None
    }

    /// The index of the first buffer that belongs to the file at `p`.
    fn find_path(&self, p: &[u8]) -> (r: Option<usize>)
        ensures
            r is None <==> !self.has_path(p@),
            r matches Some(i) ==> i < self.buffers().len() && self.buffers()[i as int].spec_path() == Some(p@),
    {
        let mut i: usize = 0;
        while i < self.buffers.len()
            invariant
                0 <= i <= self.buffers@.len(),
                forall|k: int| 0 <= k < i ==> (#[trigger] self.buffers@[k]).spec_path() != Some(p@),
            decreases self.buffers@.len() - i,
        {
            match &self.buffers[i].path {
                Some(q) => {
                    if same_bytes(q.as_slice(), p) {
                        return Some(i);
                    }
                },
                None => {},
            }
            i = i + 1;
        }
        None
    }

    /// Line `line_number` (from 1) of the buffer with identifier `id`; `None`
    /// for an unknown buffer or a line outside `[1, line_count]`.
    pub fn vim_buffer_get_line(&self, id: libc::c_int, line_number: libc::c_long) -> (r: Option<Vec<u8>>)
        requires
            self.wf(),
        ensures
            r is Some <==> self.has_id(id as int) && 1 <= line_number <= self.by_id(id as int).content().len(),
            r matches Some(l) ==> l@ == self.by_id(id as int).content()[line_number - 1],
    {
        match self.find_id(id) {
            Some(i) => self.buffers[i].get_line(line_number),
            None => None,
        }
    }

    /// The number of lines of the buffer with identifier `id`, or 0 for an unknown buffer.
    pub fn vim_buffer_line_count(&self, id: libc::c_int) -> (n: libc::c_ulong)
        requires
            self.wf(),
        ensures
            self.has_id(id as int) ==> n as int == self.by_id(id as int).content().len(),
            !self.has_id(id as int) ==> n == 0,
    {
        match self.find_id(id) {
            Some(i) => self.buffers[i].line_count() as libc::c_ulong,
            None => 0,
        }
    }

    /// Adds a buffer under the next identifier.
    fn push_buffer(&mut self, b: Buffer)
        requires
            old(self).wf(),
            b.wf(),
            b.id == old(self).next_id(),
            old(self).next_id() < libc::c_int::MAX,
        ensures
            final(self).wf(),
            final(self).buffers() == old(self).buffers().push(b),
            final(self).next_id() == old(self).next_id() + 1,
            old(self).kept_view(final(self)),
            final(self).window() == old(self).window(),
            final(self).quit_requested() == old(self).quit_requested(),
    {
        self.buffers.push(b);
        self.next_id = self.next_id + 1;
        proof {
            let n = old(self).buffers@.len() as int;
            assert(self.buffers@[self.current as int] == old(self).buffers@[self.current as int]);
            assert forall|i: int| 0 <= i < self.buffers@.len() implies (#[trigger] self.buffers@[i]).wf() by {
                if i < n {
                    assert(self.buffers@[i] == old(self).buffers@[i]);
                }
            }
            assert forall|i: int, j: int| 0 <= i < j < self.buffers@.len() implies
                (#[trigger] self.buffers@[i]).id < (#[trigger] self.buffers@[j]).id by {
                assert(self.buffers@[i] == old(self).buffers@[i]);
                if j < n {
                    assert(self.buffers@[j] == old(self).buffers@[j]);
                }
            }
            assert forall|i: int| 0 <= i < self.buffers@.len() implies
                1 <= (#[trigger] self.buffers@[i]).id < self.next_id by {
                if i < n {
                    assert(self.buffers@[i] == old(self).buffers@[i]);
                }
            }
        }
    }

    /// Allocates an empty buffer with no file and returns its identifier;
    /// `None` once identifiers run out.
    pub fn vim_new_buffer(&mut self) -> (r: Option<libc::c_int>)
        requires
            old(self).wf(),
        ensures
            final(self).wf(),
            r is None <==> old(self).next_id() == libc::c_int::MAX,
            r is None ==> *final(self) == *old(self),
            r matches Some(id) ==> {
                &&& id == old(self).next_id()
                &&& final(self).buffers() == old(self).buffers().push(final(self).buffers().last())
                &&& final(self).buffers().last().id == id
                &&& final(self).buffers().last().path is None
                &&& final(self).buffers().last().stored() == Seq::<Seq<u8>>::empty()
                &&& !final(self).buffers().last().dirty
                &&& final(self).next_id() == old(self).next_id() + 1
                &&& old(self).kept_view(final(self))
            },
    {
        if self.next_id == libc::c_int::MAX {
            return None;
        }
        let id = self.next_id;
        self.push_buffer(Buffer::new(id, None));
        Some(id)
    }

    /// A new buffer for the file at `p` from what reading it gave.
    fn add_from_read(&mut self, p: &[u8], read: FileRead) -> (r: Result<usize, LoadError>)
        requires
            old(self).wf(),
        ensures
            final(self).wf(),
            old(self).next_id() == libc::c_int::MAX ==> r == Err::<usize, LoadError>(LoadError::OutOfIds),
            old(self).next_id() < libc::c_int::MAX && read_lines(read) is None ==> r == Err::<usize, LoadError>(LoadError::Unreadable),
            r is Err ==> *final(self) == *old(self),
            r is Ok <==> old(self).next_id() < libc::c_int::MAX && read_lines(read) is Some,
            r matches Ok(i) ==> i == old(self).buffers().len() && old(self).appended(final(self), p@, read_lines(read)->0)
                && old(self).kept_view(final(self)),
    {
        if self.next_id == libc::c_int::MAX {
            return Err(LoadError::OutOfIds);
        }
        let path = Some(copy_bytes(p));
        let b = match read {
            FileRead::Missing => Buffer::new(self.next_id, path),
            FileRead::Unreadable => {
                return Err(LoadError::Unreadable);
            },
            FileRead::Contents(bytes) => {
                if bytes.len() == usize::MAX {
                    return Err(LoadError::Unreadable);
                }
                Buffer::from_bytes(self.next_id, path, bytes.as_slice())
            },
        };
        let i = self.buffers.len();
        self.push_buffer(b);
        assert(self.buffers().subrange(0, i as int) =~= old(self).buffers());
        Ok(i)
    }


    /// Makes buffer `i` current, shown from its start.
    fn switch_to(&mut self, i: usize)
        requires
            old(self).wf(),
            i < old(self).buffers().len(),
        ensures
            final(self).wf(),
            final(self).buffers() == old(self).buffers(),
            old(self).switched(final(self), i as int),
            final(self).next_id() == old(self).next_id(),
            final(self).window() == old(self).window(),
            final(self).quit_requested() == old(self).quit_requested(),
    {
        self.current = i;
        self.ctx = EditContext {
            mode: VimMode::Normal,
            line: 1,
            col: 1,
            pending: Pending::Nothing,
            visual: crate::editing::VisualKind::Char,
            anchor_line: 1,
            anchor_col: 1,
        };
        assert(self.buffers@[i as int].wf());
    }

    /// Loads the file at `path` into a buffer, given what the host found
    /// there, and returns the buffer's identifier. A buffer that already
    /// belongs to the path is returned as it is; otherwise a missing file
    /// gives an empty buffer that a save will create. The current buffer
    /// does not change.
    pub fn vim_load_buffer(&mut self, path: &str, read: FileRead) -> (r: Result<libc::c_int, LoadError>)
        requires
            old(self).wf(),
        ensures
            final(self).wf(),
            old(self).has_path(path.spec_bytes()) ==> *final(self) == *old(self) && (r matches Ok(id)
                && exists|i: int| 0 <= i < old(self).buffers().len()
                    && (#[trigger] old(self).buffers()[i]).spec_path() == Some(path.spec_bytes())
                    && old(self).buffers()[i].id == id),
            !old(self).has_path(path.spec_bytes()) ==> {
                &&& (r is Ok <==> old(self).next_id() < libc::c_int::MAX && read_lines(read) is Some)
                &&& (r is Err ==> *final(self) == *old(self))
                &&& (old(self).next_id() == libc::c_int::MAX ==> r == Err::<libc::c_int, LoadError>(LoadError::OutOfIds))
                &&& (old(self).next_id() < libc::c_int::MAX && read_lines(read) is None
                    ==> r == Err::<libc::c_int, LoadError>(LoadError::Unreadable))
                &&& (r matches Ok(id) ==> id == old(self).next_id()
                    && old(self).appended(final(self), path.spec_bytes(), read_lines(read)->0)
                    && old(self).kept_view(final(self)))
            },
    {
        let p = path.as_bytes();
        match self.find_path(p) {
            Some(i) => Ok(self.buffers[i].id),
            None => {
                let id = self.next_id;
                match self.add_from_read(p, read) {
                    Ok(_) => Ok(id),
                    Err(e) => Err(e),
                }
            },
        }
    }

    /// Opens the file at `path` in a fresh buffer, given what the host found
    /// there, even if another buffer already shows it, and makes it current.
    pub fn vim_buffer_open(&mut self, path: &str, read: FileRead) -> (r: Result<libc::c_int, LoadError>)
        requires
            old(self).wf(),
        ensures
            final(self).wf(),
            r is Ok <==> old(self).next_id() < libc::c_int::MAX && read_lines(read) is Some,
            r is Err ==> *final(self) == *old(self),
            old(self).next_id() == libc::c_int::MAX ==> r == Err::<libc::c_int, LoadError>(LoadError::OutOfIds),
            old(self).next_id() < libc::c_int::MAX && read_lines(read) is None
                ==> r == Err::<libc::c_int, LoadError>(LoadError::Unreadable),
            r matches Ok(id) ==> id == old(self).next_id()
                && old(self).appended(final(self), path.spec_bytes(), read_lines(read)->0)
                && old(self).switched(final(self), old(self).buffers().len() as int),
    {
        let id = self.next_id;
        match self.add_from_read(path.as_bytes(), read) {
            Ok(i) => {
                self.switch_to(i);
                Ok(id)
            },
            Err(e) => Err(e),
        }
    }

    /// Completes `e <path>`: makes the buffer of the file at `path` current,
    /// loading it from what the host read when no buffer has it yet.
    pub fn vim_edit(&mut self, path: &[u8], read: FileRead) -> (r: Result<libc::c_int, LoadError>)
        requires
            old(self).wf(),
        ensures
            final(self).wf(),
            old(self).has_path(path@) ==> r is Ok && final(self).buffers() == old(self).buffers()
                && final(self).cur().spec_path() == Some(path@) && final(self).cur().id == r->Ok_0
                && final(self).ctx() == initial_ctx(),
            !old(self).has_path(path@) ==> {
                &&& (r is Ok <==> old(self).next_id() < libc::c_int::MAX && read_lines(read) is Some)
                &&& (r is Err ==> *final(self) == *old(self))
                &&& (old(self).next_id() == libc::c_int::MAX ==> r == Err::<libc::c_int, LoadError>(LoadError::OutOfIds))
                &&& (old(self).next_id() < libc::c_int::MAX && read_lines(read) is None
                    ==> r == Err::<libc::c_int, LoadError>(LoadError::Unreadable))
                &&& (r matches Ok(id) ==> id == old(self).next_id()
                    && old(self).appended(final(self), path@, read_lines(read)->0)
                    && old(self).switched(final(self), old(self).buffers().len() as int))
            },
    {
        match self.find_path(path) {
            Some(i) => {
                self.switch_to(i);
                Ok(self.buffers[i].id)
            },
            None => {
                let id = self.next_id;
                match self.add_from_read(path, read) {
                    Ok(i) => {
                        self.switch_to(i);
                        Ok(id)
                    },
                    Err(e) => Err(e),
                }
            },
        }
    }


    /// Completes `e!`: the current buffer takes the lines of what the host
    /// read from its file again, and is clean; the cursor stays on its line
    /// where that line still exists, at column 1, in Normal mode.
    pub fn vim_reload(&mut self, read: FileRead) -> (r: Result<(), LoadError>)
        requires
            old(self).wf(),
        ensures
            final(self).wf(),
            r is Ok <==> read_lines(read) is Some,
            r is Err ==> *final(self) == *old(self) && r == Err::<(), LoadError>(LoadError::Unreadable),
            r is Ok ==> {
                let lines = read_lines(read)->0;
                let t = if old(self).ctx().line <= count(lines) { old(self).ctx().line as int } else { count(lines) };
                &&& old(self).same_but_current(final(self))
                &&& final(self).cur().stored() == lines
                &&& !final(self).cur().dirty
                &&& final(self).ctx() == (EditContext {
                    mode: VimMode::Normal,
                    pending: Pending::Nothing,
                    line: t as usize,
                    col: 1,
                    ..old(self).ctx()
                })
            },
    {
        let cur = self.current;
        let id = self.buffers[cur].id;
        let fresh = match read {
            FileRead::Missing => Buffer::new(id, None),
            FileRead::Unreadable => {
                return Err(LoadError::Unreadable);
            },
            FileRead::Contents(bytes) => {
                if bytes.len() == usize::MAX {
                    return Err(LoadError::Unreadable);
                }
                Buffer::from_bytes(id, None, bytes.as_slice())
            },
        };
        let old_buf = self.buffers.remove(cur);
        let b = Buffer { path: old_buf.path, ..fresh };
        let n = b.line_count();
        let t = if self.ctx.line <= n { self.ctx.line } else { n };
        self.buffers.insert(cur, b);
        self.ctx = EditContext { mode: VimMode::Normal, pending: Pending::Nothing, line: t, col: 1, ..self.ctx };
        proof {
            assert forall|i: int| 0 <= i < self.buffers@.len() && i != cur implies
                self.buffers@[i] == #[trigger] old(self).buffers@[i] by {}
            assert forall|i: int, j: int| 0 <= i < j < self.buffers@.len() implies
                (#[trigger] self.buffers@[i]).id < (#[trigger] self.buffers@[j]).id by {
                assert(self.buffers@[i].id == old(self).buffers@[i].id);
                assert(self.buffers@[j].id == old(self).buffers@[j].id);
            }
            assert forall|i: int| 0 <= i < self.buffers@.len() implies
                1 <= (#[trigger] self.buffers@[i]).id < self.next_id by {
                assert(self.buffers@[i].id == old(self).buffers@[i].id);
            }
            assert forall|i: int| 0 <= i < self.buffers@.len() implies (#[trigger] self.buffers@[i]).wf() by {
                if i != cur {
                    assert(self.buffers@[i] == old(self).buffers@[i]);
                }
            }
        }
        Ok(())
    }

    /// Records that the host wrote the buffer with identifier `id` to its
    /// file: the buffer is clean. Returns whether such a buffer exists.
    pub fn buffer_written(&mut self, id: libc::c_int) -> (r: bool)
        requires
            old(self).wf(),
        ensures
            final(self).wf(),
            r == old(self).has_id(id as int),
            final(self).buffers().len() == old(self).buffers().len(),
            forall|i: int| 0 <= i < old(self).buffers().len() ==> {
                let (a, b) = (#[trigger] old(self).buffers()[i], final(self).buffers()[i]);
                &&& b.id == a.id
                &&& b.path == a.path
                &&& b.stored() == a.stored()
                &&& b.dirty == (a.dirty && a.id != id)
            },
            old(self).kept_view(final(self)),
            final(self).next_id() == old(self).next_id(),
            final(self).window() == old(self).window(),
            final(self).quit_requested() == old(self).quit_requested(),
    {
        match self.find_id(id) {
            Some(i) => {
                let mut b = self.buffers.remove(i);
                b.mark_saved();
                self.buffers.insert(i, b);
                proof {
                    assert forall|k: int| 0 <= k < self.buffers@.len() && k != i implies
                        self.buffers@[k] == #[trigger] old(self).buffers@[k] by {}
                    assert forall|k: int| 0 <= k < self.buffers@.len() && k != i implies
                        (#[trigger] old(self).buffers@[k]).id != id by {
                        if old(self).buffers@[k].id == id {
                            old(self).lemma_ids_unique(k, i as int);
                        }
                    }
                    assert forall|k: int, j: int| 0 <= k < j < self.buffers@.len() implies
                        (#[trigger] self.buffers@[k]).id < (#[trigger] self.buffers@[j]).id by {
                        assert(self.buffers@[k].id == old(self).buffers@[k].id);
                        assert(self.buffers@[j].id == old(self).buffers@[j].id);
                    }
                    assert forall|k: int| 0 <= k < self.buffers@.len() implies
                        1 <= (#[trigger] self.buffers@[k]).id < self.next_id by {
                        assert(self.buffers@[k].id == old(self).buffers@[k].id);
                    }
                    assert forall|k: int| 0 <= k < self.buffers@.len() implies (#[trigger] self.buffers@[k]).wf() by {
                        if k != i {
                            assert(self.buffers@[k] == old(self).buffers@[k]);
                        }
                    }
                    assert(self.buffers@[self.current as int].stored() == old(self).buffers@[self.current as int].stored());
                }
                true
            },
            None => false,
        }
    }

    /// Executes an ex-command (without the leading colon). Reading and
    /// writing files is left to the host, which the returned effect asks
    /// for; the session itself changes only for `q` (a quit is recorded)
    /// and for `e <path>` on a path that a buffer already holds (that
    /// buffer becomes current).
    pub fn vim_execute(&mut self, cmd: &str) -> (r: Result<Effect, CommandError>)
        requires
            old(self).wf(),
        ensures
            final(self).wf(),
            ({
                let t = cmd.spec_bytes();
                let cur = old(self).cur();
                &&& is_write_cmd(t) ==> *final(self) == *old(self)
                    && (cur.path is None ==> r == Err::<Effect, CommandError>(CommandError::Save(SaveError::NoPath)))
                    && (cur.path is Some ==> (r matches Ok(Effect::Write { id, path, bytes })
                        && id == cur.id && Some(path@) == cur.spec_path() && bytes@ == bytes_of(cur.stored())))
                &&& is_reload_cmd(t) ==> *final(self) == *old(self)
                    && (cur.path is None ==> r == Err::<Effect, CommandError>(CommandError::Save(SaveError::NoPath)))
                    && (cur.path is Some ==> (r matches Ok(Effect::Reload { path }) && Some(path@) == cur.spec_path()))
                &&& is_quit_cmd(t) ==> r == Ok::<Effect, CommandError>(Effect::Quit)
                    && final(self).quit_requested()
                    && final(self).buffers() == old(self).buffers()
                    && old(self).kept_view(final(self))
                    && final(self).next_id() == old(self).next_id()
                    && final(self).window() == old(self).window()
                &&& (is_edit_cmd(t) && old(self).has_path(cmd_arg(t))) ==> r == Ok::<Effect, CommandError>(Effect::Done)
                    && final(self).buffers() == old(self).buffers()
                    && final(self).cur().spec_path() == Some(cmd_arg(t))
                    && final(self).ctx() == initial_ctx()
                    && final(self).next_id() == old(self).next_id()
                    && final(self).window() == old(self).window()
                    && final(self).quit_requested() == old(self).quit_requested()
                &&& (is_edit_cmd(t) && !old(self).has_path(cmd_arg(t))) ==> *final(self) == *old(self)
                    && (r matches Ok(Effect::Read { path }) && path@ == cmd_arg(t))
                &&& !(is_write_cmd(t) || is_reload_cmd(t) || is_quit_cmd(t) || is_edit_cmd(t)) ==>
                    *final(self) == *old(self) && r == Err::<Effect, CommandError>(CommandError::Malformed)
            }),
    {
        match parse_command(cmd) {
            Ok(ExCommand::Write) => {
                let b = &self.buffers[self.current];
                match b.save() {
                    Ok(bytes) => {
                        let path = match &b.path {
                            Some(p) => copy_bytes(p.as_slice()),
                            None => Vec::new(),
                        };
                        Ok(Effect::Write { id: b.id, path, bytes })
                    },
                    Err(e) => Err(CommandError::Save(e)),
                }
            },
            Ok(ExCommand::Reload) => {
                match &self.buffers[self.current].path {
                    Some(p) => Ok(Effect::Reload { path: copy_bytes(p.as_slice()) }),
                    None => Err(CommandError::Save(SaveError::NoPath)),
                }
            },
            Ok(ExCommand::Quit) => {
                self.quit = true;
                Ok(Effect::Quit)
            },
            Ok(ExCommand::Edit(p)) => {
                match self.find_path(p.as_slice()) {
                    Some(i) => {
                        self.switch_to(i);
                        Ok(Effect::Done)
                    },
                    None => Ok(Effect::Read { path: p }),
                }
            },
            Err(e) => Err(e),
        }
    }


    /// `other` differs from this session in the context alone, which is `c`.
    pub open spec fn moved_to(&self, other: &Editor, c: EditContext) -> bool {
        &&& other.buffers() == self.buffers()
        &&& other.current() == self.current()
        &&& other.ctx() == c
        &&& other.next_id() == self.next_id()
        &&& other.window() == self.window()
        &&& other.quit_requested() == self.quit_requested()
    }

    /// Moves the cursor to the first line, column 1; a no-op when already there.
    pub fn move_to_first_line(&mut self)
        requires
            old(self).wf(),
        ensures
            final(self).wf(),
            old(self).moved_to(final(self), to_first_line(old(self).ctx())),
    {
        self.ctx = EditContext { line: 1, col: 1, ..self.ctx };
    }

    /// Moves the cursor to the last line, column 1; a no-op when already there.
    pub fn move_to_last_line(&mut self)
        requires
            old(self).wf(),
        ensures
            final(self).wf(),
            old(self).moved_to(final(self), to_last_line(old(self).cur().stored(), old(self).ctx())),
    {
        let n = self.buffers[self.current].line_count();
        self.ctx = EditContext { line: n, col: 1, ..self.ctx };
    }

    /// Moves the cursor to the end of its line: the last character, or one
    /// past it in Insert mode.
    pub fn move_to_line_end(&mut self)
        requires
            old(self).wf(),
        ensures
            final(self).wf(),
            old(self).moved_to(final(self), to_line_end(old(self).cur().stored(), old(self).ctx())),
    {
        let len = self.buffers[self.current].line_len(self.ctx.line - 1);
        let c = if self.ctx.mode == VimMode::Insert {
            len + 1
        } else if len == 0 {
            1
        } else {
            len
        };
        self.ctx = EditContext { col: c, ..self.ctx };
    }

    /// The current mode.
    pub fn vim_get_mode(&self) -> (m: VimMode)
        requires
            self.wf(),
        ensures
            m == self.ctx().mode,
            m != VimMode::Unknown,
    {
        self.ctx.mode
    }

    /// The identifier of the current buffer.
    pub fn vim_buffer_get_id(&self) -> (id: libc::c_int)
        requires
            self.wf(),
        ensures
            id == self.cur().id,
    {
        self.buffers[self.current].id
    }

    /// The cursor's line.
    pub fn vim_cursor_get_line(&self) -> (n: usize)
        requires
            self.wf(),
        ensures
            n == self.ctx().line,
            1 <= n <= count(self.cur().stored()),
    {
        self.ctx.line
    }

    /// The cursor's line and column.
    pub fn vim_cursor_get_position(&self) -> (p: CursorPosition)
        requires
            self.wf(),
        ensures
            p.lnum == self.ctx().line,
            p.col == self.ctx().col,
    {
        CursorPosition { lnum: self.ctx.line, col: self.ctx.col }
    }

    /// Sets the window's width and height.
    pub fn vim_set_window_size(&mut self, size: (libc::c_int, libc::c_int))
        requires
            old(self).wf(),
        ensures
            final(self).wf(),
            final(self).window() == (size.0 as int, size.1 as int),
            final(self).buffers() == old(self).buffers(),
            final(self).current() == old(self).current(),
            final(self).ctx() == old(self).ctx(),
            final(self).next_id() == old(self).next_id(),
            final(self).quit_requested() == old(self).quit_requested(),
    {
        let (width, height) = size;
        self.height = height;
        self.width = width;
    }

    /// The window's width and height.
    pub fn vim_window_size(&self) -> (r: (libc::c_int, libc::c_int))
        ensures
            (r.0 as int, r.1 as int) == self.window(),
    {
        (self.width, self.height)
    }

    /// Whether a quit command was given.
    pub fn has_quit(&self) -> (r: bool)
        ensures
            r == self.quit_requested(),
    {
        self.quit
    }
}

} // verus!
