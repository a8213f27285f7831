use vstd::prelude::*;

verus! {

/// The closed set of editing modes. `Unknown` stands for a native mode code
/// that none of the others covers; the engine itself never enters it.
#[derive(PartialEq, Eq, Structural, Debug, Clone, Copy)]
pub enum VimMode {
    Normal,
    Visual,
    Insert,
    OpPending,
    Unknown,
}

/// A mode code that does not name a known mode.
#[derive(PartialEq, Eq, Structural, Debug, Clone, Copy)]
pub enum ModeError {
    Unrecognized,
}

/// How a native mode code folds into a mode: the language-mapping flag (256)
/// is only recognised together with Normal.
pub open spec fn mode_of_code(code: int) -> VimMode {
    if code == 1 || code == 257 {
        VimMode::Normal
    } else if code == 16 {
        VimMode::Insert
    } else if code == 2 {
        VimMode::Visual
    } else if code == 4 {
        VimMode::OpPending
    } else {
        VimMode::Unknown
    }
}

/// The native code of each known mode; `Unknown` has none and gets 0.
pub open spec fn code_of_mode(m: VimMode) -> int {
    match m {
        VimMode::Normal => 1,
        VimMode::Visual => 2,
        VimMode::OpPending => 4,
        VimMode::Insert => 16,
        VimMode::Unknown => 0,
    }
}

/// Normalises a native mode code.
pub fn mode_from_code(code: libc::c_int) -> (m: VimMode)
    ensures
        m == mode_of_code(code as int),
{
    match code {
        1 | 257 => VimMode::Normal,
        16 => VimMode::Insert,
        2 => VimMode::Visual,
        4 => VimMode::OpPending,
        _ => VimMode::Unknown,
    }
}

/// The native code of a mode.
pub fn mode_code(m: VimMode) -> (code: libc::c_int)
    ensures
        code as int == code_of_mode(m),
{
    match m {
        VimMode::Normal => 1,
        VimMode::Visual => 2,
        VimMode::OpPending => 4,
        VimMode::Insert => 16,
        VimMode::Unknown => 0,
    }
}

/// Normalises a native mode code, reporting an unrecognised one as an error
/// instead of a mode.
pub fn checked_mode(code: libc::c_int) -> (r: Result<VimMode, ModeError>)
    ensures
        r is Err <==> mode_of_code(code as int) == VimMode::Unknown,
        r is Ok ==> r->Ok_0 == mode_of_code(code as int),
{
    let m = mode_from_code(code);
    if m == VimMode::Unknown {
        Err(ModeError::Unrecognized)
    } else {
        Ok(m)
    }
}

/// Every known mode survives the trip to its native code and back.
pub proof fn lemma_mode_code_round_trip(m: VimMode)
    requires
        m != VimMode::Unknown,
    ensures
        mode_of_code(code_of_mode(m)) == m,
{
}

} // verus!
