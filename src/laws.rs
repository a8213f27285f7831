//! Properties that relate several operations of the engine.
use vstd::prelude::*;
use crate::buffer::{line_ok, shown, without_lines};
use crate::editing::{count, ctx_ok, is_plain, run, step, text_at, to_first_line, to_last_line, EditContext, Pending, DELETE, ESC, G_PREFIX, INSERT, LAST_LINE, VISUAL_LINE};
use crate::mode::VimMode;

verus! {

/// Typing `a` and then `b` is typing `a + b`.
pub proof fn lemma_run_concat(lines: Seq<Seq<u8>>, ctx: EditContext, a: Seq<u8>, b: Seq<u8>)
    ensures
        ({
            let ra = run(lines, ctx, a);
            let rb = run(ra.0, ra.2, b);
            run(lines, ctx, a + b) == (rb.0, ra.1 || rb.1, rb.2)
        }),
    decreases a.len(),
{
    if a.len() > 0 {
        let r = step(lines, ctx, a[0]);
        assert((a + b)[0] == a[0]);
        assert((a + b).drop_first() =~= a.drop_first() + b);
        lemma_run_concat(r.0, r.2, a.drop_first(), b);
    } else {
        assert(a + b =~= b);
    }
}

/// Typing one byte is one step.
pub proof fn lemma_run_one(lines: Seq<Seq<u8>>, ctx: EditContext, b: u8)
    ensures
        run(lines, ctx, seq![b]) == step(lines, ctx, b),
{
    let r = step(lines, ctx, b);
    assert(seq![b].drop_first() =~= Seq::<u8>::empty());
    assert(run(r.0, r.2, Seq::<u8>::empty()) == (r.0, false, r.2));
}

/// Plain bytes typed in Insert mode go into the current line at the cursor,
/// which moves past them.
pub proof fn lemma_insert_plain(lines: Seq<Seq<u8>>, ctx: EditContext, t: Seq<u8>)
    requires
        ctx_ok(lines, ctx),
        ctx.mode == VimMode::Insert,
        forall|k: int| 0 <= k < t.len() ==> is_plain(#[trigger] t[k]),
        text_at(lines, ctx.line as int).len() + t.len() + 1 < usize::MAX,
    ensures
        ({
            let r = run(lines, ctx, t);
            let s = text_at(lines, ctx.line as int);
            let c = ctx.col - 1;
            &&& shown(r.0) == shown(lines).update(ctx.line - 1, s.subrange(0, c) + t + s.subrange(c, s.len() as int))
            &&& r.2 == EditContext { col: (ctx.col + t.len()) as usize, ..ctx }
            &&& ctx_ok(r.0, r.2)
        }),
    decreases t.len(),
{
    let s = text_at(lines, ctx.line as int);
    let c = ctx.col - 1;
    if t.len() == 0 {
        assert(s.subrange(0, c) + t + s.subrange(c, s.len() as int) =~= s);
        assert(shown(lines).update(ctx.line - 1, s) =~= shown(lines));
    } else {
        let b = t[0];
        assert(is_plain(b));
        let r1 = step(lines, ctx, b);
        let s1 = s.insert(c, b);
        assert(r1.0 == shown(lines).update(ctx.line - 1, s1));
        assert(line_ok(s1)) by {
            assert forall|k: int| 0 <= k < s1.len() implies s1[k] != crate::text::NL by {
                if k < c {
                    assert(s1[k] == s[k]);
                } else if k > c {
                    assert(s1[k] == s[k - 1]);
                }
            }
        }
        assert(text_at(r1.0, ctx.line as int) == s1);
        let rest = t.drop_first();
        assert forall|k: int| 0 <= k < rest.len() implies is_plain(#[trigger] rest[k]) by {
            assert(rest[k] == t[k + 1]);
        }
        lemma_insert_plain(r1.0, r1.2, rest);
        assert(shown(r1.0) == r1.0);
        assert(s1.subrange(0, c + 1) + rest + s1.subrange(c + 1, s1.len() as int)
            =~= s.subrange(0, c) + t + s.subrange(c, s.len() as int));
        assert(shown(r1.0).update(ctx.line - 1, s.subrange(0, c) + t + s.subrange(c, s.len() as int))
            =~= shown(lines).update(ctx.line - 1, s.subrange(0, c) + t + s.subrange(c, s.len() as int)));
    }
}

/// Typing `i`, then plain text `t`, then Escape goes from Normal mode to
/// Insert mode and back, and leaves `t` in the current line at the column
/// where the cursor stood; no other line changes.
pub proof fn lemma_insert_then_escape(lines: Seq<Seq<u8>>, ctx: EditContext, t: Seq<u8>)
    requires
        ctx_ok(lines, ctx),
        ctx.mode == VimMode::Normal,
        ctx.pending == Pending::Nothing,
        forall|k: int| 0 <= k < t.len() ==> is_plain(#[trigger] t[k]),
        text_at(lines, ctx.line as int).len() + t.len() + 1 < usize::MAX,
    ensures
        run(lines, ctx, seq![INSERT]).2.mode == VimMode::Insert,
        run(lines, ctx, seq![INSERT] + t).2.mode == VimMode::Insert,
        ({
            let r = run(lines, ctx, seq![INSERT] + t + seq![ESC]);
            let s = text_at(lines, ctx.line as int);
            let c = ctx.col - 1;
            &&& r.2.mode == VimMode::Normal
            &&& r.2.line == ctx.line
            &&& shown(r.0) == shown(lines).update(ctx.line - 1, s.subrange(0, c) + t + s.subrange(c, s.len() as int))
        }),
{
    let one = seq![INSERT];
    lemma_run_one(lines, ctx, INSERT);
    let c1 = EditContext { mode: VimMode::Insert, ..ctx };
    lemma_insert_plain(lines, c1, t);
    lemma_run_concat(lines, ctx, one, t);
    let r2 = run(lines, c1, t);
    let esc = seq![ESC];
    lemma_run_one(r2.0, r2.2, ESC);
    lemma_run_concat(lines, ctx, one + t, esc);
}

/// Typing `G` and then `gg` in Normal mode leaves the cursor on line 1 and
/// the lines as they were.
pub proof fn lemma_last_then_first_keys(lines: Seq<Seq<u8>>, ctx: EditContext)
    requires
        ctx_ok(lines, ctx),
        ctx.mode == VimMode::Normal,
        ctx.pending == Pending::Nothing,
    ensures
        run(lines, ctx, seq![LAST_LINE, G_PREFIX, G_PREFIX]).2.line == 1,
        run(lines, ctx, seq![LAST_LINE, G_PREFIX, G_PREFIX]).0 == lines,
        run(lines, ctx, seq![LAST_LINE]).2.line == count(lines),
{
    let r1 = step(lines, ctx, LAST_LINE);
    let r2 = step(r1.0, r1.2, G_PREFIX);
    let r3 = step(r2.0, r2.2, G_PREFIX);
    lemma_run_one(lines, ctx, LAST_LINE);
    lemma_run_one(r1.0, r1.2, G_PREFIX);
    lemma_run_one(r2.0, r2.2, G_PREFIX);
    lemma_run_concat(r1.0, r1.2, seq![G_PREFIX], seq![G_PREFIX]);
    assert(seq![G_PREFIX] + seq![G_PREFIX] =~= seq![G_PREFIX, G_PREFIX]);
    lemma_run_concat(lines, ctx, seq![LAST_LINE], seq![G_PREFIX, G_PREFIX]);
    assert(seq![LAST_LINE] + seq![G_PREFIX, G_PREFIX] =~= seq![LAST_LINE, G_PREFIX, G_PREFIX]);
}

/// Moving to the last line and then to the first leaves the cursor on line 1.
pub proof fn lemma_last_then_first_line(lines: Seq<Seq<u8>>, ctx: EditContext)
    requires
        ctx_ok(lines, ctx),
    ensures
        to_last_line(lines, ctx).line == count(lines),
        to_first_line(to_last_line(lines, ctx)).line == 1,
{
}

/// Typing `V` and then `d` in Normal mode deletes the cursor's line and
/// returns to Normal mode.
pub proof fn lemma_visual_line_delete(lines: Seq<Seq<u8>>, ctx: EditContext)
    requires
        ctx_ok(lines, ctx),
        ctx.mode == VimMode::Normal,
        ctx.pending == Pending::Nothing,
    ensures
        run(lines, ctx, seq![VISUAL_LINE]).2.mode == VimMode::Visual,
        ({
            let r = run(lines, ctx, seq![VISUAL_LINE, DELETE]);
            &&& r.0 == without_lines(lines, ctx.line as int, ctx.line as int)
            &&& r.1
            &&& r.2.mode == VimMode::Normal
        }),
{
    let r1 = step(lines, ctx, VISUAL_LINE);
    lemma_run_one(lines, ctx, VISUAL_LINE);
    lemma_run_one(r1.0, r1.2, DELETE);
    lemma_run_concat(lines, ctx, seq![VISUAL_LINE], seq![DELETE]);
    assert(seq![VISUAL_LINE] + seq![DELETE] =~= seq![VISUAL_LINE, DELETE]);
}

} // verus!
