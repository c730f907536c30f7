//! Case-insensitive matching of process names and window titles.
//!
//! The scanner recognises the host emulator by its executable name and the
//! game by keywords in a window title. Both checks fold upper-case ASCII
//! letters to lower case, so matching is stated over folded code points.

use vstd::prelude::*;
use vstd::string::*;

verus! {

/// Code point of `c`, with an upper-case ASCII letter folded to lower case.
pub open spec fn lower_code(c: char) -> int {
    if 65 <= c as int && c as int <= 90 {
        c as int + 32
    } else {
        c as int
    }
}

/// `a` and `b` are equal up to ASCII case.
pub open spec fn eq_ci(a: Seq<char>, b: Seq<char>) -> bool {
    &&& a.len() == b.len()
    &&& forall|i: int| 0 <= i < a.len() ==> lower_code(a[i]) == lower_code(b[i])
}

/// `kw` occurs in `t` at position `i`, up to ASCII case.
pub open spec fn matches_at(t: Seq<char>, kw: Seq<char>, i: int) -> bool {
    &&& 0 <= i
    &&& i + kw.len() <= t.len()
    &&& forall|j: int| 0 <= j < kw.len() ==> lower_code(t[i + j]) == lower_code(kw[j])
}

/// `kw` occurs somewhere in `t`, up to ASCII case.
pub open spec fn contains_ci(t: Seq<char>, kw: Seq<char>) -> bool {
    exists|i: int| matches_at(t, kw, i)
}

/// `name` is one of the executable names of the host emulator.
pub open spec fn host_name_matches(name: Seq<char>) -> bool {
    eq_ci(name, "rpcs3"@) || eq_ci(name, "rpcs3.exe"@)
}

/// `t` contains one of the window-title keywords of the game.
pub open spec fn title_matches(t: Seq<char>) -> bool {
    ||| contains_ci(t, "motorstorm"@)
    ||| contains_ci(t, "pacific rift"@)
    ||| contains_ci(t, "bces00129"@)
    ||| contains_ci(t, "bcus98155"@)
    ||| contains_ci(t, "pacific"@)
    ||| contains_ci(t, "rift"@)
    ||| contains_ci(t, "motor"@)
    ||| contains_ci(t, "storm"@)
}

fn fold_char(c: char) -> (r: u32)
    ensures
        r as int == lower_code(c),
{
    let u = c as u32;
    if 65 <= u && u <= 90 {
        u + 32
    } else {
        u
    }
}

/// Whether two strings are equal up to ASCII case.
pub fn eq_ignore_case(a: &str, b: &str) -> (r: bool)
    ensures
        r == eq_ci(a@, b@),
{
    let alen = a.unicode_len();
    let blen = b.unicode_len();
    if alen != blen {
        return false;
    }
    let mut i: usize = 0;
    while i < alen
        invariant
            i <= alen,
            alen == a@.len(),
            alen == b@.len(),
            forall|j: int| 0 <= j < i ==> lower_code(a@[j]) == lower_code(b@[j]),
        decreases alen - i,
    {
        let ca = a.get_char(i);
        let cb = b.get_char(i);
        if fold_char(ca) != fold_char(cb) {
            return false;
        }
        i = i + 1;
    }
    true
}

fn match_at(t: &str, kw: &str, i: usize) -> (r: bool)
    requires
        i + kw@.len() <= t@.len(),
        t@.len() <= usize::MAX,
    ensures
        r == matches_at(t@, kw@, i as int),
{
    let klen = kw.unicode_len();
    let mut j: usize = 0;
    while j < klen
        invariant
            j <= klen,
            klen == kw@.len(),
            i + klen <= t@.len() <= usize::MAX,
            forall|m: int| 0 <= m < j ==> lower_code(t@[i + m]) == lower_code(kw@[m]),
        decreases klen - j,
    {
        let ct = t.get_char(i + j);
        let ck = kw.get_char(j);
        if fold_char(ct) != fold_char(ck) {
            return false;
        }
        j = j + 1;
    }
    true
}

/// Whether `kw` occurs in `t`, up to ASCII case.
pub fn contains_ignore_case(t: &str, kw: &str) -> (r: bool)
    ensures
        r == contains_ci(t@, kw@),
{
    let tlen = t.unicode_len();
    let klen = kw.unicode_len();
    if klen > tlen {
        return false;
    }
    let last = tlen - klen;
    let mut i: usize = 0;
    while i <= last
        invariant
            tlen == t@.len(),
            klen == kw@.len(),
            klen <= tlen,
            last == tlen - klen,
            i <= last + 1,
            forall|m: int| 0 <= m < i ==> !matches_at(t@, kw@, m),
        decreases last + 1 - i,
    {
        if match_at(t, kw, i) {
            return true;
        }
        i = i + 1;
    }
    assert(forall|m: int| m > last ==> !matches_at(t@, kw@, m));
    false
}

/// Whether `name` is one of the executable names of the host emulator.
pub fn is_host_process_name(name: &str) -> (r: bool)
    ensures
        r == host_name_matches(name@),
{
    eq_ignore_case(name, "rpcs3") || eq_ignore_case(name, "rpcs3.exe")
}

/// Whether `t` contains one of the window-title keywords of the game.
pub fn is_game_window_title(t: &str) -> (r: bool)
    ensures
        r == title_matches(t@),
{
    contains_ignore_case(t, "motorstorm") || contains_ignore_case(t, "pacific rift")
        || contains_ignore_case(t, "bces00129") || contains_ignore_case(t, "bcus98155")
        || contains_ignore_case(t, "pacific") || contains_ignore_case(t, "rift")
        || contains_ignore_case(t, "motor") || contains_ignore_case(t, "storm")
}

} // verus!
