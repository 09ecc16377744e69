//! From declared items to the source of the host-side class.

use crate::error::MacroError;
use crate::generation::{generate_javascript, is_generated};
use crate::processing::{signatures, JsFnInfo, Signature};
use crate::style::Config;
use crate::syntax::Item;
use vstd::prelude::*;

verus! {

/// The signatures of declared items, in order, or the refusal of the first
/// item that is refused.
pub open spec fn items_signatures(items: Seq<Item>) -> Result<Seq<Signature>, MacroError>
    decreases items.len(),
{
    if items.len() == 0 {
        Ok(Seq::empty())
    } else {
        match items_signatures(items.drop_last()) {
            Err(e) => Err(e),
            Ok(sigs) => match JsFnInfo::of(items.last()) {
                Ok(sig) => Ok(sigs.push(sig)),
                Err(e) => Err(e),
            },
        }
    }
}

/// What translation yields for declared items: the refusal of the first
/// item that is no function whose types can cross the boundary, else what
/// generation yields for their signatures.
pub open spec fn is_translated(
    out: Result<String, MacroError>,
    items: Seq<Item>,
    config: Config,
) -> bool {
    match items_signatures(items) {
        Err(e) => out == Err::<String, MacroError>(e),
        Ok(sigs) => is_generated(out, config, sigs),
    }
}

/// Once an item has been refused, the list stays refused however many
/// items follow.
proof fn lemma_item_refusal_stays(items: Seq<Item>, n: int)
    requires
        0 <= n <= items.len(),
        items_signatures(items.take(n)) is Err,
    ensures
        items_signatures(items) == items_signatures(items.take(n)),
    decreases items.len() - n,
{
    if n == items.len() {
        assert(items.take(n) =~= items);
    } else {
        assert(items.drop_last().take(n) =~= items.take(n));
        lemma_item_refusal_stays(items.drop_last(), n);
    }
}

/// The signatures of declared items, in order.
pub fn collect_signatures(items: Vec<Item>) -> (found: Result<Vec<JsFnInfo>, MacroError>)
    ensures
        match found {
            Ok(infos) => items_signatures(items@) == Ok::<Seq<Signature>, MacroError>(
                signatures(infos@),
            ),
            Err(e) => items_signatures(items@) == Err::<Seq<Signature>, MacroError>(e),
        },
{
    let mut infos: Vec<JsFnInfo> = Vec::new();
    let ghost all = items@;
    proof {
        assert(all.take(0) =~= Seq::<Item>::empty());
        assert(signatures(infos@) =~= Seq::<Signature>::empty());
    }
    for item in it: items
        invariant
            it.seq() == all,
            items_signatures(all.take(it.index() as int)) == Ok::<Seq<Signature>, MacroError>(
                signatures(infos@),
            ),
    {
        let ghost upto = all.take(it.index() + 1);
        let ghost before = signatures(infos@);
        assert(upto.drop_last() =~= all.take(it.index() as int));
        assert(upto.last() == item);
        match JsFnInfo::try_from(item) {
            Ok(info) => {
                infos.push(info);
                assert(signatures(infos@) =~= before.push(info@));
            },
            Err(e) => {
                proof {
                    lemma_item_refusal_stays(all, it.index() + 1);
                }
                return Err(e);
            },
        }
    }
    assert(all.take(all.len() as int) =~= all);
    Ok(infos)
}

/// Translates declared items into the source of the host-side class.
pub fn translate_source(items: Vec<Item>, config: &Config) -> (out: Result<String, MacroError>)
    ensures
        is_translated(out, items@, *config),
{
    let js_fn_infos = match collect_signatures(items) {
        Ok(infos) => infos,
        Err(e) => {
            return Err(e);
        },
    };
    generate_javascript(config, &js_fn_infos)
}

impl Config {
    /// Translates declared items into the source of the host-side class,
    /// under these choices.
    pub fn translate(&self, items: Vec<Item>) -> (out: Result<String, MacroError>)
        ensures
            is_translated(out, items@, *self),
    {
        translate_source(items, self)
    }
}

} // verus!
