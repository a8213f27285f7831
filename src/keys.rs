use vstd::prelude::*;
use vstd::string::StringSliceAdditionalSpecFns;
use crate::editing::ESC;

verus! {

/// A byte with ASCII capitals made small.
pub open spec fn lower(b: u8) -> u8 {
    if 65 <= b <= 90 {
        (b + 32) as u8
    } else {
        b
    }
}

/// A key name with ASCII capitals made small.
pub open spec fn lowered(t: Seq<u8>) -> Seq<u8> {
    t.map_values(|b: u8| lower(b))
}

/// The byte that a named special key stands for: `<esc>`, `<cr>` (also
/// `<enter>` and `<return>`), `<bs>` and `<tab>`, in any case.
pub open spec fn key_of(t: Seq<u8>) -> Option<u8> {
    let l = lowered(t);
    if l == seq![60u8, 101u8, 115u8, 99u8, 62u8] {
        Some(ESC)
    } else if l == seq![60u8, 99u8, 114u8, 62u8] || l == seq![60u8, 101u8, 110u8, 116u8, 101u8, 114u8, 62u8] || l == seq![60u8, 114u8, 101u8, 116u8, 117u8, 114u8, 110u8, 62u8] {
        Some(13u8)
    } else if l == seq![60u8, 98u8, 115u8, 62u8] {
        Some(8u8)
    } else if l == seq![60u8, 116u8, 97u8, 98u8, 62u8] {
        Some(9u8)
    } else {
        None
    }
}

fn lower_all(t: &[u8]) -> (r: Vec<u8>)
    ensures
        r@ == lowered(t@),
{
    let mut r: Vec<u8> = Vec::new();
    let mut i: usize = 0;
    while i < t.len()
        invariant
            0 <= i <= t@.len(),
            r@ == lowered(t@.subrange(0, i as int)),
        decreases t@.len() - i,
    {
        let b = t[i];
        r.push(if 65 <= b && b <= 90 { b + 32 } else { b });
        assert(lowered(t@.subrange(0, i as int + 1)) =~= lowered(t@.subrange(0, i as int)).push(lower(b)));
        i = i + 1;
    }
    assert(t@.subrange(0, i as int) =~= t@);
    r
}

/// Whether two byte strings are equal.
pub fn same_bytes(a: &[u8], b: &[u8]) -> (r: bool)
    ensures
        r == (a@ == b@),
{
    if a.len() != b.len() {
        return false;
    }
    let mut i: usize = 0;
    while i < a.len()
        invariant
            a@.len() == b@.len(),
            0 <= i <= a@.len(),
            a@.subrange(0, i as int) == b@.subrange(0, i as int),
        decreases a@.len() - i,
    {
        if a[i] != b[i] {
            assert(a@[i as int] != b@[i as int]);
            return false;
        }
        assert(a@.subrange(0, i as int + 1) =~= a@.subrange(0, i as int).push(a@[i as int]));
        assert(b@.subrange(0, i as int + 1) =~= b@.subrange(0, i as int).push(b@[i as int]));
        i = i + 1;
    }
    assert(a@ =~= a@.subrange(0, i as int));
    assert(b@ =~= b@.subrange(0, i as int));
    true
}

/// The byte that a named special key stands for, or `None` for a name that
/// is not known.
pub fn key_code(name: &str) -> (r: Option<u8>)
    ensures
        r == key_of(name.spec_bytes()),
{
    let l = lower_all(name.as_bytes());
    let l = l.as_slice();
    let esc = [60u8, 101u8, 115u8, 99u8, 62u8];
    let cr = [60u8, 99u8, 114u8, 62u8];
    let enter = [60u8, 101u8, 110u8, 116u8, 101u8, 114u8, 62u8];
    let ret = [60u8, 114u8, 101u8, 116u8, 117u8, 114u8, 110u8, 62u8];
    let bs = [60u8, 98u8, 115u8, 62u8];
    let tab = [60u8, 116u8, 97u8, 98u8, 62u8];
    assert(esc@ =~= seq![60u8, 101u8, 115u8, 99u8, 62u8]);
    assert(cr@ =~= seq![60u8, 99u8, 114u8, 62u8]);
    assert(enter@ =~= seq![60u8, 101u8, 110u8, 116u8, 101u8, 114u8, 62u8]);
    assert(ret@ =~= seq![60u8, 114u8, 101u8, 116u8, 117u8, 114u8, 110u8, 62u8]);
    assert(bs@ =~= seq![60u8, 98u8, 115u8, 62u8]);
    assert(tab@ =~= seq![60u8, 116u8, 97u8, 98u8, 62u8]);
    if same_bytes(l, esc.as_slice()) {
        Some(ESC)
    } else if same_bytes(l, cr.as_slice()) || same_bytes(l, enter.as_slice()) || same_bytes(l, ret.as_slice()) {
        Some(13)
    } else if same_bytes(l, bs.as_slice()) {
        Some(8)
    } else if same_bytes(l, tab.as_slice()) {
        Some(9)
    } else {
        None
    }
}

} // verus!
