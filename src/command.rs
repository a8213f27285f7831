use vstd::prelude::*;
use crate::buffer::SaveError;
use crate::keys::same_bytes;
use vstd::string::StringSliceAdditionalSpecFns;

verus! {

/// A recognised ex-command.
#[derive(PartialEq, Eq, Debug)]
pub enum ExCommand {
    /// `e <path>`: edit the file at the path.
    Edit(Vec<u8>),
    /// `e!`: read the current buffer's file again, dropping changes.
    Reload,
    /// `w`: write the current buffer to its file.
    Write,
    /// `q`, `qa`, `qall` and their `!` forms: end the session.
    Quit,
}

/// Why an ex-command was not carried out.
#[derive(PartialEq, Eq, Structural, Debug, Clone, Copy)]
pub enum CommandError {
    /// The command could not be parsed.
    Malformed,
    /// The buffer to write has no file.
    Save(SaveError),
}

pub const SPACE: u8 = 32;

/// The first space at or after `k`, or the end.
pub open spec fn space_from(t: Seq<u8>, k: int) -> int
    decreases t.len() - k,
{
    if k >= t.len() {
        t.len() as int
    } else if t[k] == SPACE {
        k
    } else {
        space_from(t, k + 1)
    }
}

/// The first byte at or after `k` that is not a space, or the end.
pub open spec fn skip_spaces(t: Seq<u8>, k: int) -> int
    decreases t.len() - k,
{
    if k >= t.len() {
        t.len() as int
    } else if t[k] != SPACE {
        k
    } else {
        skip_spaces(t, k + 1)
    }
}

/// The command's name: everything before the first space.
pub open spec fn cmd_name(t: Seq<u8>) -> Seq<u8> {
    t.subrange(0, space_from(t, 0))
}

/// The command's argument: what follows the name and the spaces after it.
pub open spec fn cmd_arg(t: Seq<u8>) -> Seq<u8> {
    t.subrange(skip_spaces(t, space_from(t, 0)), t.len() as int)
}

/// The names of the write command, as bytes: `w`, `write`.
pub open spec fn is_write_name(h: Seq<u8>) -> bool {
    h == seq![119u8] || h == seq![119u8, 114u8, 105u8, 116u8, 101u8]
}

fn write_name(h: &[u8]) -> (r: bool)
    ensures
        r == is_write_name(h@),
{
    let n0 = [119u8];
    assert(n0@ =~= seq![119u8]);
    let n1 = [119u8, 114u8, 105u8, 116u8, 101u8];
    assert(n1@ =~= seq![119u8, 114u8, 105u8, 116u8, 101u8]);
    same_bytes(h, n0.as_slice())
        || same_bytes(h, n1.as_slice())
}

/// The names of the edit command, as bytes: `e`, `edit`.
pub open spec fn is_edit_name(h: Seq<u8>) -> bool {
    h == seq![101u8] || h == seq![101u8, 100u8, 105u8, 116u8]
}

fn edit_name(h: &[u8]) -> (r: bool)
    ensures
        r == is_edit_name(h@),
{
    let n0 = [101u8];
    assert(n0@ =~= seq![101u8]);
    let n1 = [101u8, 100u8, 105u8, 116u8];
    assert(n1@ =~= seq![101u8, 100u8, 105u8, 116u8]);
    same_bytes(h, n0.as_slice())
        || same_bytes(h, n1.as_slice())
}

/// The names of the reload command, as bytes: `e!`, `edit!`.
pub open spec fn is_reload_name(h: Seq<u8>) -> bool {
    h == seq![101u8, 33u8] || h == seq![101u8, 100u8, 105u8, 116u8, 33u8]
}

fn reload_name(h: &[u8]) -> (r: bool)
    ensures
        r == is_reload_name(h@),
{
    let n0 = [101u8, 33u8];
    assert(n0@ =~= seq![101u8, 33u8]);
    let n1 = [101u8, 100u8, 105u8, 116u8, 33u8];
    assert(n1@ =~= seq![101u8, 100u8, 105u8, 116u8, 33u8]);
    same_bytes(h, n0.as_slice())
        || same_bytes(h, n1.as_slice())
}

/// The names of the quit command, as bytes: `q`, `q!`, `qa`, `qa!`, `qall`, `qall!`, `quit`, `quit!`, `quitall`, `quitall!`.
pub open spec fn is_quit_name(h: Seq<u8>) -> bool {
    h == seq![113u8] || h == seq![113u8, 33u8] || h == seq![113u8, 97u8] || h == seq![113u8, 97u8, 33u8] || h == seq![113u8, 97u8, 108u8, 108u8] || h == seq![113u8, 97u8, 108u8, 108u8, 33u8] || h == seq![113u8, 117u8, 105u8, 116u8] || h == seq![113u8, 117u8, 105u8, 116u8, 33u8] || h == seq![113u8, 117u8, 105u8, 116u8, 97u8, 108u8, 108u8] || h == seq![113u8, 117u8, 105u8, 116u8, 97u8, 108u8, 108u8, 33u8]
}

fn quit_name(h: &[u8]) -> (r: bool)
    ensures
        r == is_quit_name(h@),
{
    let n0 = [113u8];
    assert(n0@ =~= seq![113u8]);
    let n1 = [113u8, 33u8];
    assert(n1@ =~= seq![113u8, 33u8]);
    let n2 = [113u8, 97u8];
    assert(n2@ =~= seq![113u8, 97u8]);
    let n3 = [113u8, 97u8, 33u8];
    assert(n3@ =~= seq![113u8, 97u8, 33u8]);
    let n4 = [113u8, 97u8, 108u8, 108u8];
    assert(n4@ =~= seq![113u8, 97u8, 108u8, 108u8]);
    let n5 = [113u8, 97u8, 108u8, 108u8, 33u8];
    assert(n5@ =~= seq![113u8, 97u8, 108u8, 108u8, 33u8]);
    let n6 = [113u8, 117u8, 105u8, 116u8];
    assert(n6@ =~= seq![113u8, 117u8, 105u8, 116u8]);
    let n7 = [113u8, 117u8, 105u8, 116u8, 33u8];
    assert(n7@ =~= seq![113u8, 117u8, 105u8, 116u8, 33u8]);
    let n8 = [113u8, 117u8, 105u8, 116u8, 97u8, 108u8, 108u8];
    assert(n8@ =~= seq![113u8, 117u8, 105u8, 116u8, 97u8, 108u8, 108u8]);
    let n9 = [113u8, 117u8, 105u8, 116u8, 97u8, 108u8, 108u8, 33u8];
    assert(n9@ =~= seq![113u8, 117u8, 105u8, 116u8, 97u8, 108u8, 108u8, 33u8]);
    same_bytes(h, n0.as_slice())
        || same_bytes(h, n1.as_slice())
        || same_bytes(h, n2.as_slice())
        || same_bytes(h, n3.as_slice())
        || same_bytes(h, n4.as_slice())
        || same_bytes(h, n5.as_slice())
        || same_bytes(h, n6.as_slice())
        || same_bytes(h, n7.as_slice())
        || same_bytes(h, n8.as_slice())
        || same_bytes(h, n9.as_slice())
}

/// `w` or `write`, alone.
pub open spec fn is_write_cmd(t: Seq<u8>) -> bool {
    is_write_name(cmd_name(t)) && cmd_arg(t).len() == 0
}

/// `e!` or `edit!`, alone.
pub open spec fn is_reload_cmd(t: Seq<u8>) -> bool {
    is_reload_name(cmd_name(t)) && cmd_arg(t).len() == 0
}

/// One of the quit names, alone.
pub open spec fn is_quit_cmd(t: Seq<u8>) -> bool {
    is_quit_name(cmd_name(t)) && cmd_arg(t).len() == 0
}

/// `e` or `edit` followed by a path.
pub open spec fn is_edit_cmd(t: Seq<u8>) -> bool {
    is_edit_name(cmd_name(t)) && cmd_arg(t).len() > 0
}

/// No text is the name of two commands.
proof fn lemma_names_distinct(h: Seq<u8>)
    ensures
        is_write_name(h) ==> h.len() > 0 && h[0] == 119,
        is_quit_name(h) ==> h.len() > 0 && h[0] == 113,
        is_edit_name(h) ==> h.len() > 0 && h[0] == 101 && h.last() != 33,
        is_reload_name(h) ==> h.len() > 0 && h[0] == 101 && h.last() == 33,
{
}

fn sub_bytes(t: &[u8], a: usize, b: usize) -> (r: Vec<u8>)
    requires
        a <= b <= t@.len(),
    ensures
        r@ == t@.subrange(a as int, b as int),
{
    let mut r: Vec<u8> = Vec::new();
    let mut i: usize = a;
    while i < b
        invariant
            a <= i <= b <= t@.len(),
            r@ == t@.subrange(a as int, i as int),
        decreases b - i,
    {
        r.push(t[i]);
        assert(r@ =~= t@.subrange(a as int, i as int + 1));
        i = i + 1;
    }
    r
}

fn find_space(t: &[u8], k: usize) -> (r: usize)
    requires
        k <= t@.len(),
    ensures
        r as int == space_from(t@, k as int),
        k <= r <= t@.len(),
{
    let mut i: usize = k;
    while i < t.len() && t[i] != SPACE
        invariant
            k <= i <= t@.len(),
            space_from(t@, i as int) == space_from(t@, k as int),
        decreases t@.len() - i,
    {
        i = i + 1;
    }
    i
}

fn find_non_space(t: &[u8], k: usize) -> (r: usize)
    requires
        k <= t@.len(),
    ensures
        r as int == skip_spaces(t@, k as int),
        k <= r <= t@.len(),
{
    let mut i: usize = k;
    while i < t.len() && t[i] == SPACE
        invariant
            k <= i <= t@.len(),
            skip_spaces(t@, i as int) == skip_spaces(t@, k as int),
        decreases t@.len() - i,
    {
        i = i + 1;
    }
    i
}

/// Parses an ex-command (written without the leading colon).
pub fn parse_command(cmd: &str) -> (r: Result<ExCommand, CommandError>)
    ensures
        r matches Ok(ExCommand::Write) <==> is_write_cmd(cmd.spec_bytes()),
        r matches Ok(ExCommand::Reload) <==> is_reload_cmd(cmd.spec_bytes()),
        r matches Ok(ExCommand::Quit) <==> is_quit_cmd(cmd.spec_bytes()),
        r matches Ok(ExCommand::Edit(_)) <==> is_edit_cmd(cmd.spec_bytes()),
        r matches Ok(ExCommand::Edit(p)) ==> p@ == cmd_arg(cmd.spec_bytes()),
        r is Err ==> r == Err::<ExCommand, CommandError>(CommandError::Malformed),
{
    let t = cmd.as_bytes();
    let he = find_space(t, 0);
    let ast = find_non_space(t, he);
    let name = sub_bytes(t, 0, he);
    let n = name.as_slice();
    proof {
        lemma_names_distinct(n@);
    }
    if ast == t.len() {
        if write_name(n) {
            Ok(ExCommand::Write)
        } else if reload_name(n) {
            Ok(ExCommand::Reload)
        } else if quit_name(n) {
            Ok(ExCommand::Quit)
        } else {
            Err(CommandError::Malformed)
        }
    } else if edit_name(n) {
        Ok(ExCommand::Edit(sub_bytes(t, ast, t.len())))
    } else {
        Err(CommandError::Malformed)
    }
}

} // verus!
