use crate::definition::ServerConfig;
use crate::text::{decimal, push_decimal};
use vstd::prelude::*;
use vstd::string::*;

verus! {

/// Whether a listing for `scope` shows `config`: a listing for a guild
/// shows the servers that the guild owns, and a listing for no guild shows
/// all.
pub open spec fn visible(config: ServerConfig, scope: Option<u64>) -> bool {
    match scope {
        Some(guild) => config.owner() == guild,
        None => true,
    }
}

/// The servers of `catalog` that a listing for `scope` shows, in the order
/// of the catalog, each with its index in the catalog and its name.
pub open spec fn listing(catalog: Seq<ServerConfig>, scope: Option<u64>) -> Seq<
    (usize, Seq<char>),
>
    decreases catalog.len(),
{
    if catalog.len() == 0 {
        Seq::empty()
    } else {
        let before = listing(catalog.drop_last(), scope);
        let last = catalog.last();
        if visible(last, scope) {
            before.push(((catalog.len() - 1) as usize, last.label()))
        } else {
            before
        }
    }
}

/// A listing shows the servers that `scope` may see and no others, each
/// once, under its own name and index, in the order of the catalog.
pub proof fn lemma_listing_shows_visible(catalog: Seq<ServerConfig>, scope: Option<u64>)
    requires
        catalog.len() <= usize::MAX,
    ensures
        listing(catalog, scope).len() <= catalog.len(),
        forall|k: int|
            0 <= k < listing(catalog, scope).len() ==> {
                let entry = #[trigger] listing(catalog, scope)[k];
                &&& entry.0 < catalog.len()
                &&& visible(catalog[entry.0 as int], scope)
                &&& entry.1 == catalog[entry.0 as int].label()
            },
        forall|j: int, k: int|
            0 <= j < k < listing(catalog, scope).len() ==> (#[trigger] listing(catalog, scope)[j]).0
                < (#[trigger] listing(catalog, scope)[k]).0,
        forall|i: int|
            0 <= i < catalog.len() && visible(#[trigger] catalog[i], scope) ==> exists|k: int|
                0 <= k < listing(catalog, scope).len() && (#[trigger] listing(catalog, scope)[k]).0
                    == i,
    decreases catalog.len(),
{
    if catalog.len() > 0 {
        let front = catalog.drop_last();
        let before = listing(front, scope);
        let all = listing(catalog, scope);
        let last = (catalog.len() - 1) as usize;
        lemma_listing_shows_visible(front, scope);
        assert forall|k: int| 0 <= k < all.len() implies {
            let entry = #[trigger] all[k];
            &&& entry.0 < catalog.len()
            &&& visible(catalog[entry.0 as int], scope)
            &&& entry.1 == catalog[entry.0 as int].label()
        } by {
            if k < before.len() {
                assert(all[k] == before[k]);
                assert(front[before[k].0 as int] == catalog[before[k].0 as int]);
            }
        }
        assert forall|j: int, k: int| 0 <= j < k < all.len() implies (#[trigger] all[j]).0 < (
        #[trigger] all[k]).0 by {
            assert(all[j] == before[j]);
            if k < before.len() {
                assert(all[k] == before[k]);
            }
        }
        assert forall|i: int| 0 <= i < catalog.len() && visible(#[trigger] catalog[i], scope)
            implies exists|k: int| 0 <= k < all.len() && (#[trigger] all[k]).0 == i by {
            if i < front.len() {
                assert(front[i] == catalog[i]);
                let k = choose|k: int| 0 <= k < before.len() && (#[trigger] before[k]).0 == i;
                assert(all[k] == before[k]);
            } else {
                assert(all[all.len() - 1].0 == last);
            }
        }
    }
}

/// Lists the servers of `catalog` for `scope`.
pub fn list(catalog: &Vec<ServerConfig>, scope: Option<u64>) -> (entries: Vec<(usize, String)>)
    ensures
        entries.deep_view() == listing(catalog@, scope),
{
    let mut entries: Vec<(usize, String)> = Vec::new();
    let mut i: usize = 0;
    assert(catalog@.take(0) =~= Seq::empty());
    while i < catalog.len()
        invariant
            i <= catalog@.len(),
            entries.deep_view() == listing(catalog@.take(i as int), scope),
        decreases catalog@.len() - i,
    {
        let config = &catalog[i];
        let shown = match scope {
            Some(guild) => config.guild_id() == guild,
            None => true,
        };
        proof {
            let next = catalog@.take(i + 1);
            assert(next.drop_last() =~= catalog@.take(i as int));
            assert(next.last() == catalog@[i as int]);
        }
        if shown {
            let ghost before = entries.deep_view();
            let name = config.name().clone();
            entries.push((i, name));
            assert(entries.deep_view() =~= before.push((i, config.label())));
        }
        i = i + 1;
    }
    assert(catalog@.take(i as int) =~= catalog@);
    entries
}

/// A listing as text: a line for each entry, in order. A line holds the
/// index of the server in the catalog, which is what starts and stops it,
/// then a full stop, a space, and the name of the server.
pub open spec fn listing_text(entries: Seq<(usize, Seq<char>)>) -> Seq<char>
    decreases entries.len(),
{
    if entries.len() == 0 {
        Seq::empty()
    } else {
        listing_text(entries.drop_last()) + decimal(entries.last().0 as nat) + ". "@
            + entries.last().1 + "\n"@
    }
}

/// Writes `entries` out as text.
pub fn render_listing(entries: &Vec<(usize, String)>) -> (text: String)
    ensures
        text@ == listing_text(entries.deep_view()),
{
    let mut text = String::new();
    let mut i: usize = 0;
    assert(entries.deep_view().take(0) =~= Seq::empty());
    while i < entries.len()
        invariant
            i <= entries@.len(),
            text@ == listing_text(entries.deep_view().take(i as int)),
        decreases entries@.len() - i,
    {
        proof {
            let next = entries.deep_view().take(i + 1);
            assert(next.drop_last() =~= entries.deep_view().take(i as int));
            assert(next.last() == entries.deep_view()[i as int]);
        }
        let entry = &entries[i];
        push_decimal(&mut text, entry.0 as u64);
        text.append(". ");
        text.append(entry.1.as_str());
        text.append("\n");
        i = i + 1;
    }
    assert(entries.deep_view().take(i as int) =~= entries.deep_view());
    text
}

} // verus!
