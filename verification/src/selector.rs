//! Resolving the operator's input to one listed device.

use vstd::prelude::*;
use crate::command::join;
use crate::decimal::{decimal, decimal_string, is_digit, lemma_decimal};
use crate::inventory::{BlockDevice, Inventory};
use crate::text::{same_text, trim, trimmed};

verus! {

/// The label under which the device of ordinal `n` is listed.
pub open spec fn label(n: nat) -> Seq<char> {
    "drive"@ + decimal(n)
}

/// The selector token of the device of ordinal `n`.
pub open spec fn selector_token(n: nat) -> Seq<char> {
    "select_"@ + decimal(n)
}

/// Whether `input` names the ordinal `n`: by its label, by its selector
/// token or by its bare number, each character for character.
pub open spec fn names_ordinal(input: Seq<char>, n: nat) -> bool {
    ||| input == label(n)
    ||| input == selector_token(n)
    ||| input == decimal(n)
}

/// The ordinal below `count` that `input` names, if it names one.
pub open spec fn resolution(input: Seq<char>, count: nat) -> Option<nat> {
    if exists|n: nat| n < count && names_ordinal(input, n) {
        Some(choose|n: nat| n < count && names_ordinal(input, n))
    } else {
        None
    }
}

/// An input names at most one ordinal.
pub proof fn lemma_names_one_ordinal(input: Seq<char>, a: nat, b: nat)
    requires
        names_ordinal(input, a),
        names_ordinal(input, b),
    ensures
        a == b,
{
    reveal_strlit("drive");
    reveal_strlit("select_");
    lemma_decimal(a);
    lemma_decimal(b);
    let da = decimal(a);
    let db = decimal(b);
    assert(is_digit(da[0]) && is_digit(db[0]));
    assert(label(a)[0] == 'd' && label(b)[0] == 'd');
    assert(selector_token(a)[0] == 's' && selector_token(b)[0] == 's');
    assert(label(a).skip(5) =~= da && label(b).skip(5) =~= db);
    assert(selector_token(a).skip(7) =~= da && selector_token(b).skip(7) =~= db);
    assert(da == db);
}

/// Selection is exact. Each of the three forms of a listed ordinal resolves
/// to that ordinal, and an input resolves to an ordinal only by being one of
/// its three forms; every other input resolves to nothing.
pub proof fn lemma_selection_is_exact(input: Seq<char>, count: nat, n: nat)
    ensures
        n < count ==> resolution(label(n), count) == Some(n),
        n < count ==> resolution(selector_token(n), count) == Some(n),
        n < count ==> resolution(decimal(n), count) == Some(n),
        resolution(input, count) == Some(n) <==> n < count && names_ordinal(input, n),
        resolution(input, count).is_none() <==> forall|k: nat|
            k < count ==> !names_ordinal(input, k),
{
    if n < count {
        lemma_resolves(label(n), count, n);
        lemma_resolves(selector_token(n), count, n);
        lemma_resolves(decimal(n), count, n);
        if names_ordinal(input, n) {
            lemma_resolves(input, count, n);
        }
    }
    if resolution(input, count) == Some(n) {
        assert(n < count && names_ordinal(input, n));
    }
}

/// An input that names a listed ordinal resolves to it.
proof fn lemma_resolves(input: Seq<char>, count: nat, n: nat)
    requires
        n < count,
        names_ordinal(input, n),
    ensures
        resolution(input, count) == Some(n),
{
    let m = choose|m: nat| m < count && names_ordinal(input, m);
    lemma_names_one_ordinal(input, m, n);
}

/// The label under which the device of `ordinal` is listed.
pub fn drive_label(ordinal: usize) -> (r: String)
    ensures
        r@ == label(ordinal as nat),
{
    join("drive", decimal_string(ordinal as u64).as_str())
}

/// The selector token of the device of `ordinal`.
pub fn select_token(ordinal: usize) -> (r: String)
    ensures
        r@ == selector_token(ordinal as nat),
{
    join("select_", decimal_string(ordinal as u64).as_str())
}

/// Whether `input` names `ordinal`.
pub fn names(input: &str, ordinal: usize) -> (r: bool)
    ensures
        r == names_ordinal(input@, ordinal as nat),
{
    same_text(input, drive_label(ordinal).as_str()) || same_text(
        input,
        select_token(ordinal).as_str(),
    ) || same_text(input, decimal_string(ordinal as u64).as_str())
}

/// The ordinal below `count` that `targ` names, if any.
pub fn resolve(targ: &str, count: usize) -> (r: Option<usize>)
    ensures
        match resolution(targ@, count as nat) {
            Some(n) => r == Some(n as usize),
            None => r.is_none(),
        },
{
    let mut i: usize = 0;
    while i < count
        invariant
            i <= count,
            forall|k: nat| k < i ==> !names_ordinal(targ@, k),
        decreases count - i,
    {
        if names(targ, i) {
            proof {
                lemma_resolves(targ@, count as nat, i as nat);
            }
            return Some(i);
        }
        i = i + 1;
    }
    None
}

/// The listed device that `targ` names, if it names one. Matching is exact:
/// no trimming, no other spelling of the number, no partial match.
pub fn get_device<'a>(inventory: &'a Inventory, targ: &str) -> (r: Option<&'a BlockDevice>)
    ensures
        match resolution(targ@, inventory@.len()) {
            Some(n) => r.is_some() && r.unwrap()@ == inventory@[n as int],
            None => r.is_none(),
        },
        r.is_some() ==> r.unwrap()@.eligible(),
{
    match resolve(targ, inventory.len()) {
        Some(n) => {
            proof {
                lemma_selection_is_exact(targ@, inventory@.len(), n as nat);
            }
            inventory.get(n)
        },
        None => None,
    }
}

/// The listed device that one line of operator input selects, if any: the
/// line is trimmed, then matched exactly. Where it selects none, the
/// operator is to be asked again.
pub fn select_device<'a>(inventory: &'a Inventory, line: &str) -> (r: Option<&'a BlockDevice>)
    ensures
        match resolution(trimmed(line@), inventory@.len()) {
            Some(n) => r.is_some() && r.unwrap()@ == inventory@[n as int],
            None => r.is_none(),
        },
        r.is_some() ==> r.unwrap()@.eligible(),
{
    get_device(inventory, trim(line))
}

} // verus!
