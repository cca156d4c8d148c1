//! What unpacking with dropped path components does to the name of an
//! archive's entry. It is what [`crate::step::Step::Extract`] asks of
//! whoever unpacks.

use crate::text::{find, find_char, find_in_the_rest, find_is_first, Text};
use vstd::prelude::*;

verus! {

/// The name of an entry without its first `n` components, the slashes
/// behind them included; `None` where nothing is left, and such an entry is
/// not unpacked.
pub open spec fn strip_components(entry: Text, n: nat) -> Option<Text>
    decreases n,
{
    if n == 0 {
        if entry.len() == 0 {
            None
        } else {
            Some(entry)
        }
    } else {
        let cut = find(entry, '/', 0);
        if cut >= entry.len() {
            None
        } else {
            strip_components(entry.skip(cut + 1), (n - 1) as nat)
        }
    }
}

/// Dropping one component takes the top directory off every entry below it
/// and leaves nothing of the top directory itself.
pub proof fn one_component_is_the_top_directory(top: Text, rest: Text)
    requires
        forall|i: int| 0 <= i < top.len() ==> top[i] != '/',
    ensures
        strip_components(top, 1) == None::<Text>,
        strip_components(top + seq!['/'], 1) == None::<Text>,
        rest.len() > 0 ==> strip_components(top + seq!['/'] + rest, 1) == Some(rest),
{
    reveal_with_fuel(strip_components, 2);
    find_is_first(top, '/', 0);
    let dir = top + seq!['/'];
    find_is_first(dir, '/', 0);
    assert(dir[top.len() as int] == '/');
    assert(forall|i: int| 0 <= i < top.len() ==> dir[i] == top[i]);
    assert(find(dir, '/', 0) == top.len());
    assert(dir.skip(top.len() as int + 1) =~= Seq::<char>::empty());
    if rest.len() > 0 {
        let entry = top + seq!['/'] + rest;
        find_is_first(entry, '/', 0);
        assert(entry[top.len() as int] == '/');
        assert(forall|i: int| 0 <= i < top.len() ==> entry[i] == top[i]);
        assert(find(entry, '/', 0) == top.len());
        assert(entry.skip(top.len() as int + 1) =~= rest);
    }
}

/// Dropping nothing leaves every name as it is.
pub proof fn no_component_is_no_change(entry: Text)
    requires
        entry.len() > 0,
    ensures
        strip_components(entry, 0) == Some(entry),
{
}

/// The name under which an entry is unpacked when `n` components are
/// dropped.
pub fn stripped_name(entry: &str, n: usize) -> (name: Option<String>)
    ensures
        name.deep_view() == strip_components(entry@, n as nat),
{
    let len: usize = entry.unicode_len();
    let mut start: usize = 0;
    let mut left: usize = n;
    assert(entry@.skip(0) =~= entry@);
    while left > 0
        invariant
            start <= len,
            len == entry@.len(),
            strip_components(entry@, n as nat) == strip_components(
                entry@.skip(start as int),
                left as nat,
            ),
        decreases left,
    {
        let cut = find_char(entry, '/', start);
        proof {
            find_in_the_rest(entry@, '/', start as int, 0);
        }
        if cut >= len {
            return None;
        }
        proof {
            assert(entry@.skip(start as int).skip(cut - start + 1) =~= entry@.skip(cut + 1));
        }
        start = cut + 1;
        left = left - 1;
    }
    if start == len {
        None
    } else {
        let rest = entry.substring_char(start, len);
        assert(rest@ =~= entry@.skip(start as int));
        Some(String::from_str(rest))
    }
}

} // verus!
