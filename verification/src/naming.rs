//! Names that are made up for the variables of generated code: a base, a
//! number, and a few suffixes.

use crate::text::{decimal, decimal_string};
use vstd::prelude::*;
use vstd::string::*;

verus! {

/// The suffixes of a constructed name: an `ArrayVec` of the crate
/// `arrayvec` with room for four string slices. Verus is told nothing of
/// what is inside; `suffix_items` names what it holds.
#[verifier::external_body]
pub struct SuffixList {
    items: arrayvec::ArrayVec<[&'static str; 4]>,
}

/// The suffixes that a list holds, in the order in which they were pushed.
pub uninterp spec fn suffix_items(list: SuffixList) -> Seq<Seq<char>>;

/// How many suffixes a list has room for.
pub open spec fn suffix_capacity() -> nat {
    4
}

/// `ArrayVec::new`: the new vector holds nothing.
#[verifier::external_body]
fn suffixes_new() -> (list: SuffixList)
    ensures
        suffix_items(list) == Seq::<Seq<char>>::empty(),
{
    SuffixList { items: arrayvec::ArrayVec::new() }
}

/// `ArrayVec::push`: the element is added at the end. It panics where the
/// vector is full, so a full one is not handed to it.
#[verifier::external_body]
fn suffixes_push(list: &mut SuffixList, suffix: &'static str)
    requires
        suffix_items(*old(list)).len() < suffix_capacity(),
    ensures
        suffix_items(*final(list)) == suffix_items(*old(list)).push(suffix@),
{
    list.items.push(suffix)
}

/// `ArrayVec::len`: the number of elements that the vector holds.
#[verifier::external_body]
fn suffixes_len(list: &SuffixList) -> (n: usize)
    ensures
        n == suffix_items(*list).len(),
{
    list.items.len()
}

/// Indexing an `ArrayVec` through the slice that it dereferences to: the
/// element at `i`. It panics where `i` is not below the length.
#[verifier::external_body]
fn suffixes_get(list: &SuffixList, i: usize) -> (suffix: &'static str)
    requires
        i < suffix_items(*list).len(),
    ensures
        suffix@ == suffix_items(*list)[i as int],
{
    list.items[i]
}

/// `ArrayVec::clone`: a vector of the same capacity with clones of the
/// elements, in their order.
#[verifier::external_body]
fn suffixes_clone(list: &SuffixList) -> (copy: SuffixList)
    ensures
        suffix_items(copy) == suffix_items(*list),
{
    SuffixList { items: list.items.clone() }
}

/// A name made of a base, a number, and up to four suffixes.
pub struct ConstructedArgIdent {
    base: &'static str,
    number_suffix: u32,
    suffixes: SuffixList,
}

/// The parts of a constructed name.
pub struct IdentParts {
    pub base: Seq<char>,
    pub number: nat,
    pub suffixes: Seq<Seq<char>>,
}

/// The texts of a list, one after the other.
pub open spec fn joined(parts: Seq<Seq<char>>) -> Seq<char>
    decreases parts.len(),
{
    if parts.len() == 0 {
        Seq::empty()
    } else {
        joined(parts.drop_last()) + parts.last()
    }
}

impl IdentParts {
    /// The name written out: the base, the number in decimal, then the
    /// suffixes in the order in which they were added.
    pub open spec fn text(self) -> Seq<char> {
        self.base + decimal(self.number) + joined(self.suffixes)
    }

    /// The same name with one more suffix at its end.
    pub open spec fn with_suffix(self, suffix: Seq<char>) -> IdentParts {
        IdentParts { base: self.base, number: self.number, suffixes: self.suffixes.push(suffix) }
    }
}

impl View for ConstructedArgIdent {
    type V = IdentParts;

    closed spec fn view(&self) -> IdentParts {
        IdentParts {
            base: self.base@,
            number: self.number_suffix as nat,
            suffixes: suffix_items(self.suffixes),
        }
    }
}

impl ConstructedArgIdent {
    /// The name `base` with `number_suffix` behind it.
    pub fn new(base: &'static str, number_suffix: u32) -> (ident: Self)
        ensures
            ident@ == (IdentParts {
                base: base@,
                number: number_suffix as nat,
                suffixes: Seq::empty(),
            }),
    {
        ConstructedArgIdent { base, number_suffix, suffixes: suffixes_new() }
    }

    /// The same name with `suffix` at its end. A name has room for four
    /// suffixes.
    pub fn with_suffix(&self, suffix: &'static str) -> (ident: Self)
        requires
            self@.suffixes.len() < suffix_capacity(),
        ensures
            ident@ == self@.with_suffix(suffix@),
    {
        let mut suffixes = suffixes_clone(&self.suffixes);
        suffixes_push(&mut suffixes, suffix);
        ConstructedArgIdent { base: self.base, number_suffix: self.number_suffix, suffixes }
    }

    /// The same name with `suffix` at its end, or nothing where the name
    /// has four suffixes already.
    pub fn try_with_suffix(&self, suffix: &'static str) -> (ident: Option<Self>)
        ensures
            match ident {
                Some(longer) => self@.suffixes.len() < suffix_capacity() && longer@
                    == self@.with_suffix(suffix@),
                None => self@.suffixes.len() >= suffix_capacity(),
            },
    {
        if suffixes_len(&self.suffixes) < 4 {
            Some(self.with_suffix(suffix))
        } else {
            None
        }
    }

    /// A copy of the name.
    pub fn duplicate(&self) -> (ident: Self)
        ensures
            ident@ == self@,
    {
        ConstructedArgIdent {
            base: self.base,
            number_suffix: self.number_suffix,
            suffixes: suffixes_clone(&self.suffixes),
        }
    }

    /// The name written out.
    pub fn to_text(&self) -> (text: String)
        ensures
            text@ == self@.text(),
    {
        let mut text = String::from_str(self.base);
        let number = decimal_string(self.number_suffix as u64);
        text.append(number.as_str());
        let n = suffixes_len(&self.suffixes);
        let ghost items = suffix_items(self.suffixes);
        let ghost front = self.base@ + decimal(self.number_suffix as nat);
        proof {
            assert(items.take(0) =~= Seq::<Seq<char>>::empty());
            assert(front + joined(items.take(0)) =~= front);
        }
        for i in 0..n
            invariant
                n == items.len(),
                items == suffix_items(self.suffixes),
                text@ == front + joined(items.take(i as int)),
        {
            let suffix = suffixes_get(&self.suffixes, i);
            text.append(suffix);
            proof {
                assert(items.take(i + 1).drop_last() =~= items.take(i as int));
                assert((front + joined(items.take(i as int))) + suffix@ =~= front + (joined(
                    items.take(i as int),
                ) + suffix@));
            }
        }
        proof {
            assert(items.take(n as int) =~= items);
        }
        text
    }
}

} // verus!
