use vstd::prelude::*;
use crate::buffer::{lines_ok, shown, without_lines, Buffer};
use crate::mode::VimMode;

verus! {

/// The Escape key as a byte of input.
pub const ESC: u8 = 27;

/// The `h` key.
pub const LEFT: u8 = 104;
/// The `l` key.
pub const RIGHT: u8 = 108;
/// The `0` key.
pub const LINE_START: u8 = 48;
/// The `$` key.
pub const LINE_END: u8 = 36;
/// The `j` key.
pub const DOWN: u8 = 106;
/// The `k` key.
pub const UP: u8 = 107;
/// The `G` key.
pub const LAST_LINE: u8 = 71;
/// The `g` key.
pub const G_PREFIX: u8 = 103;
/// The `i` key.
pub const INSERT: u8 = 105;
/// The `a` key.
pub const APPEND: u8 = 97;
/// The `o` key.
pub const OPEN_BELOW: u8 = 111;
/// The `v` key.
pub const VISUAL: u8 = 118;
/// The `V` key.
pub const VISUAL_LINE: u8 = 86;
/// The `d` key.
pub const DELETE: u8 = 100;
/// The `c` key.
pub const CHANGE: u8 = 99;
/// The `x` key.
pub const DELETE_CHAR: u8 = 120;

/// What a prefix key left waiting for the next one.
#[derive(PartialEq, Eq, Structural, Debug, Clone, Copy)]
pub enum Pending {
    Nothing,
    /// `g` was typed; a second `g` goes to the first line.
    G,
    /// The delete operator waits for its motion.
    Delete,
    /// The change operator waits for its motion.
    Change,
}

/// Whether Visual mode selects characters or whole lines.
#[derive(PartialEq, Eq, Structural, Debug, Clone, Copy)]
pub enum VisualKind {
    Char,
    Line,
}

/// The editing state that input acts on besides the buffer: the mode, the
/// cursor (line and column, both from 1), what a prefix key left pending, and
/// where a Visual selection started.
#[derive(PartialEq, Eq, Structural, Debug, Clone, Copy)]
pub struct EditContext {
    pub mode: VimMode,
    pub line: usize,
    pub col: usize,
    pub pending: Pending,
    pub visual: VisualKind,
    pub anchor_line: usize,
    pub anchor_col: usize,
}

/// The number of lines shown.
pub open spec fn count(lines: Seq<Seq<u8>>) -> int {
    shown(lines).len() as int
}

/// Line `n`, from 1.
pub open spec fn text_at(lines: Seq<Seq<u8>>, n: int) -> Seq<u8> {
    shown(lines)[n - 1]
}

/// The last column the cursor may take outside Insert mode.
pub open spec fn last_col(s: Seq<u8>) -> int {
    if s.len() == 0 {
        1
    } else {
        s.len() as int
    }
}

pub open spec fn clamp_col(s: Seq<u8>, c: int) -> int {
    if c > last_col(s) {
        last_col(s)
    } else {
        c
    }
}

/// The largest column in a mode: Insert mode may stand one past the end.
pub open spec fn max_col(mode: VimMode, s: Seq<u8>) -> int {
    if mode == VimMode::Insert {
        (s.len() + 1) as int
    } else {
        last_col(s)
    }
}

/// The context fits the lines: the cursor and the Visual anchor lie inside
/// them, and the pending prefix agrees with the mode.
pub open spec fn ctx_ok(lines: Seq<Seq<u8>>, ctx: EditContext) -> bool {
    &&& lines_ok(lines)
    &&& count(lines) <= usize::MAX
    &&& 1 <= ctx.line <= count(lines)
    &&& 1 <= ctx.col <= max_col(ctx.mode, text_at(lines, ctx.line as int))
    &&& ctx.mode != VimMode::Unknown
    &&& (ctx.mode == VimMode::OpPending <==> ctx.pending == Pending::Delete || ctx.pending == Pending::Change)
    &&& (ctx.pending == Pending::G ==> ctx.mode == VimMode::Normal || ctx.mode == VimMode::Visual)
    &&& (ctx.mode == VimMode::Visual ==> {
        &&& 1 <= ctx.anchor_line <= count(lines)
        &&& 1 <= ctx.anchor_col <= last_col(text_at(lines, ctx.anchor_line as int))
    })
}

/// The context at the start of an editing session: Normal mode, first line, first column.
pub open spec fn initial_ctx() -> EditContext {
    EditContext {
        mode: VimMode::Normal,
        line: 1,
        col: 1,
        pending: Pending::Nothing,
        visual: VisualKind::Char,
        anchor_line: 1,
        anchor_col: 1,
    }
}

/// The cursor moved to the first line, column 1.
pub open spec fn to_first_line(ctx: EditContext) -> EditContext {
    EditContext { line: 1, col: 1, ..ctx }
}

/// The cursor moved to the last line, column 1.
pub open spec fn to_last_line(lines: Seq<Seq<u8>>, ctx: EditContext) -> EditContext {
    EditContext { line: count(lines) as usize, col: 1, ..ctx }
}

/// The cursor moved to the end of its line: the last character, or one past
/// it in Insert mode.
pub open spec fn to_line_end(lines: Seq<Seq<u8>>, ctx: EditContext) -> EditContext {
    EditContext { col: max_col(ctx.mode, text_at(lines, ctx.line as int)) as usize, ..ctx }
}

/// Where a motion key takes the cursor, or `None` if the key is no motion.
pub open spec fn motion(lines: Seq<Seq<u8>>, line: int, col: int, b: u8) -> Option<(int, int)> {
    let s = text_at(lines, line);
    let n = count(lines);
    if b == LEFT {
        Some((line, if col > 1 { col - 1 } else { 1 }))
    } else if b == RIGHT {
        Some((line, if col < last_col(s) { col + 1 } else { last_col(s) }))
    } else if b == LINE_START {
        Some((line, 1))
    } else if b == LINE_END {
        Some((line, last_col(s)))
    } else if b == DOWN {
        let t = if line < n { line + 1 } else { n };
        Some((t, clamp_col(text_at(lines, t), col)))
    } else if b == UP {
        let t = if line > 1 { line - 1 } else { 1 };
        Some((t, clamp_col(text_at(lines, t), col)))
    } else if b == LAST_LINE {
        Some((n, 1))
    } else {
        None
    }
}

pub open spec fn moved(ctx: EditContext, p: (int, int)) -> EditContext {
    EditContext { line: p.0 as usize, col: p.1 as usize, pending: Pending::Nothing, ..ctx }
}

/// The result of one unit of input: the new lines, whether they were
/// changed, and the new context.
pub type StepResult = (Seq<Seq<u8>>, bool, EditContext);

/// Deleting lines `a..=z` ends in Normal mode on the first line after them.
pub open spec fn delete_lines(lines: Seq<Seq<u8>>, ctx: EditContext, a: int, z: int) -> StepResult {
    let rest = without_lines(lines, a, z);
    let t = if a <= count(rest) { a } else { count(rest) };
    (rest, true, EditContext { mode: VimMode::Normal, pending: Pending::Nothing, line: t as usize, col: 1, ..ctx })
}

pub open spec fn unchanged(lines: Seq<Seq<u8>>, ctx: EditContext) -> StepResult {
    (lines, false, ctx)
}

/// A `g` prefix: a second `g` goes to the first line; any other key drops it.
pub open spec fn g_step(lines: Seq<Seq<u8>>, ctx: EditContext, b: u8) -> StepResult {
    if b == G_PREFIX {
        unchanged(lines, moved(ctx, (1, 1)))
    } else {
        unchanged(lines, EditContext { pending: Pending::Nothing, ..ctx })
    }
}

pub open spec fn normal_step(lines: Seq<Seq<u8>>, ctx: EditContext, b: u8) -> StepResult {
    let line = ctx.line as int;
    let col = ctx.col as int;
    let s = text_at(lines, line);
    if ctx.pending == Pending::G {
        g_step(lines, ctx, b)
    } else if b == INSERT {
        unchanged(lines, EditContext { mode: VimMode::Insert, ..ctx })
    } else if b == APPEND {
        unchanged(lines, EditContext { mode: VimMode::Insert, col: (if s.len() == 0 { 1 } else { col + 1 }) as usize, ..ctx })
    } else if b == OPEN_BELOW {
        if line + 1 < usize::MAX {
            (shown(lines).insert(line, Seq::empty()), true,
             EditContext { mode: VimMode::Insert, line: (line + 1) as usize, col: 1, ..ctx })
        } else {
            unchanged(lines, ctx)
        }
    } else if b == VISUAL || b == VISUAL_LINE {
        unchanged(lines, EditContext {
            mode: VimMode::Visual,
            visual: if b == VISUAL { VisualKind::Char } else { VisualKind::Line },
            anchor_line: ctx.line,
            anchor_col: ctx.col,
            ..ctx
        })
    } else if b == DELETE {
        unchanged(lines, EditContext { mode: VimMode::OpPending, pending: Pending::Delete, ..ctx })
    } else if b == CHANGE {
        unchanged(lines, EditContext { mode: VimMode::OpPending, pending: Pending::Change, ..ctx })
    } else if b == G_PREFIX {
        unchanged(lines, EditContext { pending: Pending::G, ..ctx })
    } else if b == DELETE_CHAR {
        if s.len() == 0 {
            unchanged(lines, ctx)
        } else {
            let s2 = s.remove(col - 1);
            (shown(lines).update(line - 1, s2), true, EditContext { col: clamp_col(s2, col) as usize, ..ctx })
        }
    } else {
        match motion(lines, line, col, b) {
            Some(p) => unchanged(lines, moved(ctx, p)),
            None => unchanged(lines, ctx),
        }
    }
}

/// The start and the end of a Visual selection, in text order.
pub open spec fn sel_start(ctx: EditContext) -> (int, int) {
    if ctx.anchor_line < ctx.line || (ctx.anchor_line == ctx.line && ctx.anchor_col <= ctx.col) {
        (ctx.anchor_line as int, ctx.anchor_col as int)
    } else {
        (ctx.line as int, ctx.col as int)
    }
}

pub open spec fn sel_end(ctx: EditContext) -> (int, int) {
    if ctx.anchor_line < ctx.line || (ctx.anchor_line == ctx.line && ctx.anchor_col <= ctx.col) {
        (ctx.line as int, ctx.col as int)
    } else {
        (ctx.anchor_line as int, ctx.anchor_col as int)
    }
}

/// What is left of the first and last lines of a characterwise selection.
pub open spec fn joined(lines: Seq<Seq<u8>>, st: (int, int), en: (int, int)) -> Seq<u8> {
    let first = text_at(lines, st.0);
    let last = text_at(lines, en.0);
    let cut = if en.1 < last.len() { en.1 } else { last.len() as int };
    first.subrange(0, st.1 - 1) + last.subrange(cut, last.len() as int)
}

/// Deleting the Visual selection.
pub open spec fn visual_delete(lines: Seq<Seq<u8>>, ctx: EditContext) -> StepResult {
    let st = sel_start(ctx);
    let en = sel_end(ctx);
    let normal = EditContext { mode: VimMode::Normal, pending: Pending::Nothing, ..ctx };
    if ctx.visual == VisualKind::Line {
        delete_lines(lines, ctx, st.0, en.0)
    } else if st.0 == en.0 && text_at(lines, st.0).len() == 0 {
        unchanged(lines, normal)
    } else {
        let m = joined(lines, st, en);
        if m.len() < usize::MAX {
            let one = shown(lines).update(st.0 - 1, m);
            let rest = if en.0 > st.0 { without_lines(one, st.0 + 1, en.0) } else { one };
            (rest, true, EditContext { line: st.0 as usize, col: clamp_col(m, st.1) as usize, ..normal })
        } else {
            unchanged(lines, normal)
        }
    }
}

pub open spec fn visual_step(lines: Seq<Seq<u8>>, ctx: EditContext, b: u8) -> StepResult {
    if ctx.pending == Pending::G {
        g_step(lines, ctx, b)
    } else if b == ESC {
        unchanged(lines, EditContext { mode: VimMode::Normal, ..ctx })
    } else if b == DELETE || b == DELETE_CHAR {
        visual_delete(lines, ctx)
    } else if b == G_PREFIX {
        unchanged(lines, EditContext { pending: Pending::G, ..ctx })
    } else {
        match motion(lines, ctx.line as int, ctx.col as int, b) {
            Some(p) => unchanged(lines, moved(ctx, p)),
            None => unchanged(lines, ctx),
        }
    }
}

/// The delete operator applied to the motion `b`.
pub open spec fn operator_step(lines: Seq<Seq<u8>>, ctx: EditContext, b: u8) -> StepResult {
    let line = ctx.line as int;
    let col = ctx.col as int;
    let n = count(lines);
    let s = text_at(lines, line);
    let normal = EditContext { mode: VimMode::Normal, pending: Pending::Nothing, ..ctx };
    if b == ESC {
        unchanged(lines, normal)
    } else if b == DELETE {
        delete_lines(lines, ctx, line, line)
    } else if b == DOWN {
        if line < n { delete_lines(lines, ctx, line, line + 1) } else { unchanged(lines, normal) }
    } else if b == UP {
        if line > 1 { delete_lines(lines, ctx, line - 1, line) } else { unchanged(lines, normal) }
    } else if b == LAST_LINE {
        delete_lines(lines, ctx, line, n)
    } else if b == LINE_END {
        if s.len() == 0 {
            unchanged(lines, normal)
        } else {
            let s2 = s.subrange(0, col - 1);
            (shown(lines).update(line - 1, s2), true, EditContext { col: clamp_col(s2, col) as usize, ..normal })
        }
    } else if b == LINE_START {
        if col == 1 {
            unchanged(lines, normal)
        } else {
            (shown(lines).update(line - 1, s.subrange(col - 1, s.len() as int)), true,
             EditContext { col: 1, ..normal })
        }
    } else {
        unchanged(lines, ctx)
    }
}

/// Changing lines `a..=z`: they give way to one empty line, where Insert mode starts.
pub open spec fn change_lines(lines: Seq<Seq<u8>>, ctx: EditContext, a: int, z: int) -> StepResult {
    let one = shown(lines).update(a - 1, Seq::empty());
    let rest = if z > a { without_lines(one, a + 1, z) } else { one };
    (rest, true, EditContext { mode: VimMode::Insert, pending: Pending::Nothing, line: a as usize, col: 1, ..ctx })
}

/// The change operator applied to the motion `b`: the text goes as for the
/// delete operator, and Insert mode starts where it was.
pub open spec fn change_step(lines: Seq<Seq<u8>>, ctx: EditContext, b: u8) -> StepResult {
    let line = ctx.line as int;
    let col = ctx.col as int;
    let n = count(lines);
    let s = text_at(lines, line);
    let normal = EditContext { mode: VimMode::Normal, pending: Pending::Nothing, ..ctx };
    let insert = EditContext { mode: VimMode::Insert, pending: Pending::Nothing, ..ctx };
    if b == ESC {
        unchanged(lines, normal)
    } else if b == CHANGE {
        change_lines(lines, ctx, line, line)
    } else if b == DOWN {
        if line < n { change_lines(lines, ctx, line, line + 1) } else { unchanged(lines, normal) }
    } else if b == UP {
        if line > 1 { change_lines(lines, ctx, line - 1, line) } else { unchanged(lines, normal) }
    } else if b == LAST_LINE {
        change_lines(lines, ctx, line, n)
    } else if b == LINE_END {
        (shown(lines).update(line - 1, s.subrange(0, col - 1)), true, insert)
    } else if b == LINE_START {
        (shown(lines).update(line - 1, s.subrange(col - 1, s.len() as int)), true, EditContext { col: 1, ..insert })
    } else {
        unchanged(lines, ctx)
    }
}

/// A byte typed in Insert mode that goes into the text as it is.
pub open spec fn is_plain(b: u8) -> bool {
    b != ESC && b != 10 && b != 13 && b != 8 && b != 127
}

pub open spec fn insert_step(lines: Seq<Seq<u8>>, ctx: EditContext, b: u8) -> StepResult {
    let line = ctx.line as int;
    let col = ctx.col as int;
    let s = text_at(lines, line);
    if b == ESC {
        unchanged(lines, EditContext { mode: VimMode::Normal, col: (if col > 1 { col - 1 } else { 1 }) as usize, ..ctx })
    } else if b == 10 || b == 13 {
        if line + 1 < usize::MAX {
            (shown(lines).update(line - 1, s.subrange(0, col - 1)).insert(line, s.subrange(col - 1, s.len() as int)),
             true, EditContext { line: (line + 1) as usize, col: 1, ..ctx })
        } else {
            unchanged(lines, ctx)
        }
    } else if b == 8 || b == 127 {
        if col > 1 {
            (shown(lines).update(line - 1, s.remove(col - 2)), true, EditContext { col: (col - 1) as usize, ..ctx })
        } else {
            unchanged(lines, ctx)
        }
    } else if s.len() + 1 < usize::MAX {
        (shown(lines).update(line - 1, s.insert(col - 1, b)), true, EditContext { col: (col + 1) as usize, ..ctx })
    } else {
        unchanged(lines, ctx)
    }
}

/// One unit of input, interpreted under the current mode.
pub open spec fn step(lines: Seq<Seq<u8>>, ctx: EditContext, b: u8) -> StepResult {
    match ctx.mode {
        VimMode::Normal => normal_step(lines, ctx, b),
        VimMode::Visual => visual_step(lines, ctx, b),
        VimMode::OpPending => if ctx.pending == Pending::Change {
            change_step(lines, ctx, b)
        } else {
            operator_step(lines, ctx, b)
        },
        VimMode::Insert => insert_step(lines, ctx, b),
        VimMode::Unknown => unchanged(lines, ctx),
    }
}

/// A sequence of input units, one after another; the flag tells whether any changed the lines.
pub open spec fn run(lines: Seq<Seq<u8>>, ctx: EditContext, bs: Seq<u8>) -> StepResult
    decreases bs.len(),
{
    if bs.len() == 0 {
        (lines, false, ctx)
    } else {
        let r = step(lines, ctx, bs[0]);
        let rest = run(r.0, r.2, bs.drop_first());
        (rest.0, r.1 || rest.1, rest.2)
    }
}


/// The buffer and context after a unit of input agree with `r`, and still fit together.
pub open spec fn applied(b0: Buffer, b1: Buffer, c1: EditContext, r: StepResult) -> bool {
    &&& b1.wf()
    &&& b1.id == b0.id
    &&& b1.path == b0.path
    &&& b1.stored() == r.0
    &&& b1.dirty == (b0.dirty || r.1)
    &&& c1 == r.2
    &&& ctx_ok(b1.stored(), c1)
}

/// Where a motion key takes the cursor.
fn motion_exec(buf: &Buffer, line: usize, col: usize, b: u8) -> (r: Option<(usize, usize)>)
    requires
        buf.wf(),
        1 <= line <= count(buf.stored()),
        1 <= col <= last_col(text_at(buf.stored(), line as int)),
    ensures
        r is Some <==> motion(buf.stored(), line as int, col as int, b) is Some,
        r matches Some(p) ==> (p.0 as int, p.1 as int) == motion(buf.stored(), line as int, col as int, b)->0,
        r matches Some(p) ==> 1 <= p.0 <= count(buf.stored()),
        r matches Some(p) ==> 1 <= p.1 <= last_col(text_at(buf.stored(), p.0 as int)),
{
    let n = buf.line_count();
    let len = buf.line_len(line - 1);
    let last = if len == 0 { 1 } else { len };
    if b == LEFT {
        Some((line, if col > 1 { col - 1 } else { 1 }))
    } else if b == RIGHT {
        Some((line, if col < last { col + 1 } else { last }))
    } else if b == LINE_START {
        Some((line, 1))
    } else if b == LINE_END {
        Some((line, last))
    } else if b == DOWN || b == UP {
        let t = if b == DOWN {
            if line < n { line + 1 } else { n }
        } else {
            if line > 1 { line - 1 } else { 1 }
        };
        let tl = buf.line_len(t - 1);
        let tlast = if tl == 0 { 1 } else { tl };
        Some((t, if col > tlast { tlast } else { col }))
    } else if b == LAST_LINE {
        Some((n, 1))
    } else {
        None
    }
}


/// Deletes lines `a..=z` and leaves the cursor on the first line after them, in Normal mode.
fn delete_lines_exec(buf: &mut Buffer, ctx: &mut EditContext, a: usize, z: usize)
    requires
        old(buf).wf(),
        1 <= a <= z <= count(old(buf).stored()),
    ensures
        applied(*old(buf), *final(buf), *final(ctx), delete_lines(old(buf).stored(), *old(ctx), a as int, z as int)),
{
    let _ = buf.delete_range(a, z);
    let n = buf.line_count();
    let t = if a <= n { a } else { n };
    *ctx = EditContext { mode: VimMode::Normal, pending: Pending::Nothing, line: t, col: 1, ..*ctx };
}

/// A key typed after `g`.
fn g_key(buf: &Buffer, ctx: &mut EditContext, b: u8)
    requires
        buf.wf(),
        ctx_ok(buf.stored(), *old(ctx)),
        old(ctx).pending == Pending::G,
    ensures
        applied(*buf, *buf, *final(ctx), g_step(buf.stored(), *old(ctx), b)),
{
    if b == G_PREFIX {
        *ctx = EditContext { line: 1, col: 1, pending: Pending::Nothing, ..*ctx };
    } else {
        *ctx = EditContext { pending: Pending::Nothing, ..*ctx };
    }
}

fn normal_key(buf: &mut Buffer, ctx: &mut EditContext, b: u8)
    requires
        old(buf).wf(),
        ctx_ok(old(buf).stored(), *old(ctx)),
        old(ctx).mode == VimMode::Normal,
    ensures
        applied(*old(buf), *final(buf), *final(ctx), normal_step(old(buf).stored(), *old(ctx), b)),
{
    let line = ctx.line;
    let col = ctx.col;
    if ctx.pending == Pending::G {
        g_key(buf, ctx, b);
    } else if b == INSERT {
        *ctx = EditContext { mode: VimMode::Insert, ..*ctx };
    } else if b == APPEND {
        let len = buf.line_len(line - 1);
        *ctx = EditContext { mode: VimMode::Insert, col: if len == 0 { 1 } else { col + 1 }, ..*ctx };
    } else if b == OPEN_BELOW {
        if line < usize::MAX - 1 {
            let _ = buf.insert_line(line + 1, Vec::new());
            *ctx = EditContext { mode: VimMode::Insert, line: line + 1, col: 1, ..*ctx };
        }
    } else if b == VISUAL || b == VISUAL_LINE {
        *ctx = EditContext {
            mode: VimMode::Visual,
            visual: if b == VISUAL { VisualKind::Char } else { VisualKind::Line },
            anchor_line: line,
            anchor_col: col,
            ..*ctx
        };
    } else if b == DELETE {
        *ctx = EditContext { mode: VimMode::OpPending, pending: Pending::Delete, ..*ctx };
    } else if b == CHANGE {
        *ctx = EditContext { mode: VimMode::OpPending, pending: Pending::Change, ..*ctx };
    } else if b == G_PREFIX {
        *ctx = EditContext { pending: Pending::G, ..*ctx };
    } else if b == DELETE_CHAR {
        let mut s = buf.line_at(line - 1);
        if s.len() > 0 {
            s.remove(col - 1);
            let last = if s.len() == 0 { 1 } else { s.len() };
            let _ = buf.set_line(line, s);
            *ctx = EditContext { col: if col > last { last } else { col }, ..*ctx };
        }
    } else {
        match motion_exec(buf, line, col, b) {
            Some(p) => {
                *ctx = EditContext { line: p.0, col: p.1, pending: Pending::Nothing, ..*ctx };
            },
            None => {},
        }
    }
}


fn visual_delete_exec(buf: &mut Buffer, ctx: &mut EditContext)
    requires
        old(buf).wf(),
        ctx_ok(old(buf).stored(), *old(ctx)),
        old(ctx).mode == VimMode::Visual,
    ensures
        applied(*old(buf), *final(buf), *final(ctx), visual_delete(old(buf).stored(), *old(ctx))),
{
    let forward = ctx.anchor_line < ctx.line || (ctx.anchor_line == ctx.line && ctx.anchor_col <= ctx.col);
    let (sl, sc, el, ec) = if forward {
        (ctx.anchor_line, ctx.anchor_col, ctx.line, ctx.col)
    } else {
        (ctx.line, ctx.col, ctx.anchor_line, ctx.anchor_col)
    };
    if ctx.visual == VisualKind::Line {
        delete_lines_exec(buf, ctx, sl, el);
        return;
    }
    let normal = EditContext { mode: VimMode::Normal, pending: Pending::Nothing, ..*ctx };
    let mut head = buf.line_at(sl - 1);
    if sl == el && head.len() == 0 {
        *ctx = normal;
        return;
    }
    let mut last = buf.line_at(el - 1);
    let cut = if ec < last.len() { ec } else { last.len() };
    head.truncate(sc - 1);
    let mut tail = last.split_off(cut);
    if tail.len() >= usize::MAX - head.len() {
        *ctx = normal;
        return;
    }
    head.append(&mut tail);
    assert(head@ == joined(old(buf).stored(), sel_start(*old(ctx)), sel_end(*old(ctx))));
    let mlast = if head.len() == 0 { 1 } else { head.len() };
    let _ = buf.set_line(sl, head);
    if el > sl {
        let _ = buf.delete_range(sl + 1, el);
    }
    *ctx = EditContext { line: sl, col: if sc > mlast { mlast } else { sc }, ..normal };
}

fn visual_key(buf: &mut Buffer, ctx: &mut EditContext, b: u8)
    requires
        old(buf).wf(),
        ctx_ok(old(buf).stored(), *old(ctx)),
        old(ctx).mode == VimMode::Visual,
    ensures
        applied(*old(buf), *final(buf), *final(ctx), visual_step(old(buf).stored(), *old(ctx), b)),
{
    if ctx.pending == Pending::G {
        g_key(buf, ctx, b);
    } else if b == ESC {
        *ctx = EditContext { mode: VimMode::Normal, ..*ctx };
    } else if b == DELETE || b == DELETE_CHAR {
        visual_delete_exec(buf, ctx);
    } else if b == G_PREFIX {
        *ctx = EditContext { pending: Pending::G, ..*ctx };
    } else {
        match motion_exec(buf, ctx.line, ctx.col, b) {
            Some(p) => {
                *ctx = EditContext { line: p.0, col: p.1, pending: Pending::Nothing, ..*ctx };
            },
            None => {},
        }
    }
}

fn operator_key(buf: &mut Buffer, ctx: &mut EditContext, b: u8)
    requires
        old(buf).wf(),
        ctx_ok(old(buf).stored(), *old(ctx)),
        old(ctx).mode == VimMode::OpPending,
    ensures
        applied(*old(buf), *final(buf), *final(ctx), operator_step(old(buf).stored(), *old(ctx), b)),
{
    let line = ctx.line;
    let col = ctx.col;
    let n = buf.line_count();
    let normal = EditContext { mode: VimMode::Normal, pending: Pending::Nothing, ..*ctx };
    if b == ESC {
        *ctx = normal;
    } else if b == DELETE {
        delete_lines_exec(buf, ctx, line, line);
    } else if b == DOWN {
        if line < n {
            delete_lines_exec(buf, ctx, line, line + 1);
        } else {
            *ctx = normal;
        }
    } else if b == UP {
        if line > 1 {
            delete_lines_exec(buf, ctx, line - 1, line);
        } else {
            *ctx = normal;
        }
    } else if b == LAST_LINE {
        delete_lines_exec(buf, ctx, line, n);
    } else if b == LINE_END {
        let mut s = buf.line_at(line - 1);
        if s.len() == 0 {
            *ctx = normal;
        } else {
            s.truncate(col - 1);
            let last = if s.len() == 0 { 1 } else { s.len() };
            let _ = buf.set_line(line, s);
            *ctx = EditContext { col: if col > last { last } else { col }, ..normal };
        }
    } else if b == LINE_START {
        if col == 1 {
            *ctx = normal;
        } else {
            let mut s = buf.line_at(line - 1);
            let rest = s.split_off(col - 1);
            let _ = buf.set_line(line, rest);
            *ctx = EditContext { col: 1, ..normal };
        }
    }
}

/// Replaces lines `a..=z` with one empty line and starts Insert mode there.
fn change_lines_exec(buf: &mut Buffer, ctx: &mut EditContext, a: usize, z: usize)
    requires
        old(buf).wf(),
        1 <= a <= z <= count(old(buf).stored()),
    ensures
        applied(*old(buf), *final(buf), *final(ctx), change_lines(old(buf).stored(), *old(ctx), a as int, z as int)),
{
    let _ = buf.set_line(a, Vec::new());
    if z > a {
        let _ = buf.delete_range(a + 1, z);
    }
    *ctx = EditContext { mode: VimMode::Insert, pending: Pending::Nothing, line: a, col: 1, ..*ctx };
}

fn change_key(buf: &mut Buffer, ctx: &mut EditContext, b: u8)
    requires
        old(buf).wf(),
        ctx_ok(old(buf).stored(), *old(ctx)),
        old(ctx).mode == VimMode::OpPending,
        old(ctx).pending == Pending::Change,
    ensures
        applied(*old(buf), *final(buf), *final(ctx), change_step(old(buf).stored(), *old(ctx), b)),
{
    let line = ctx.line;
    let col = ctx.col;
    let n = buf.line_count();
    let normal = EditContext { mode: VimMode::Normal, pending: Pending::Nothing, ..*ctx };
    let insert = EditContext { mode: VimMode::Insert, pending: Pending::Nothing, ..*ctx };
    if b == ESC {
        *ctx = normal;
    } else if b == CHANGE {
        change_lines_exec(buf, ctx, line, line);
    } else if b == DOWN {
        if line < n {
            change_lines_exec(buf, ctx, line, line + 1);
        } else {
            *ctx = normal;
        }
    } else if b == UP {
        if line > 1 {
            change_lines_exec(buf, ctx, line - 1, line);
        } else {
            *ctx = normal;
        }
    } else if b == LAST_LINE {
        change_lines_exec(buf, ctx, line, n);
    } else if b == LINE_END {
        let mut s = buf.line_at(line - 1);
        s.truncate(col - 1);
        let _ = buf.set_line(line, s);
        *ctx = insert;
    } else if b == LINE_START {
        let mut s = buf.line_at(line - 1);
        let rest = s.split_off(col - 1);
        let _ = buf.set_line(line, rest);
        *ctx = EditContext { col: 1, ..insert };
    }
}

fn insert_key(buf: &mut Buffer, ctx: &mut EditContext, b: u8)
    requires
        old(buf).wf(),
        ctx_ok(old(buf).stored(), *old(ctx)),
        old(ctx).mode == VimMode::Insert,
    ensures
        applied(*old(buf), *final(buf), *final(ctx), insert_step(old(buf).stored(), *old(ctx), b)),
{
    let line = ctx.line;
    let col = ctx.col;
    if b == ESC {
        *ctx = EditContext { mode: VimMode::Normal, col: if col > 1 { col - 1 } else { 1 }, ..*ctx };
    } else if b == 10 || b == 13 {
        if line < usize::MAX - 1 {
            let mut s = buf.line_at(line - 1);
            let rest = s.split_off(col - 1);
            let _ = buf.set_line(line, s);
            let _ = buf.insert_line(line + 1, rest);
            *ctx = EditContext { line: line + 1, col: 1, ..*ctx };
        }
    } else if b == 8 || b == 127 {
        if col > 1 {
            let mut s = buf.line_at(line - 1);
            s.remove(col - 2);
            let _ = buf.set_line(line, s);
            *ctx = EditContext { col: col - 1, ..*ctx };
        }
    } else {
        let mut s = buf.line_at(line - 1);
        if s.len() < usize::MAX - 1 {
            s.insert(col - 1, b);
            let _ = buf.set_line(line, s);
            *ctx = EditContext { col: col + 1, ..*ctx };
        }
    }
}

/// Applies one unit of input to a buffer under the context's mode.
pub fn apply_key(buf: &mut Buffer, ctx: &mut EditContext, b: u8)
    requires
        old(buf).wf(),
        ctx_ok(old(buf).stored(), *old(ctx)),
    ensures
        applied(*old(buf), *final(buf), *final(ctx), step(old(buf).stored(), *old(ctx), b)),
{
    match ctx.mode {
        VimMode::Normal => normal_key(buf, ctx, b),
        VimMode::Visual => visual_key(buf, ctx, b),
        VimMode::OpPending => if ctx.pending == Pending::Change {
            change_key(buf, ctx, b)
        } else {
            operator_key(buf, ctx, b)
        },
        VimMode::Insert => insert_key(buf, ctx, b),
        VimMode::Unknown => {},
    }
}

} // verus!
