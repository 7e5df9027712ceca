//! The palette: a menu of actions, ranked against what the user typed.

use crate::ranking::{
    arranged, key_views, lemma_ranked, outranks, positions, rank, ranked, ranks_before, RankKey,
    RankKeyView,
};
use crate::text::{chars_of, is_blank, lemma_lex_asymmetric, lex_less, trim};
use nucleo_matcher::pattern::{CaseMatching, Normalization, Pattern};
use nucleo_matcher::{Config, Matcher, Utf32Str};
use vstd::prelude::*;
use vstd::utf8::{encode_utf8, is_ascii_chars};

verus! {

/// One entry of the palette: what it shows and the action it stands for.
#[derive(Debug, PartialEq, Eq)]
pub struct PaletteItem {
    pub label: String,
    pub action: String,
}

/// What a [`PaletteItem`] says.
pub struct PaletteItemView {
    pub label: Seq<char>,
    pub action: Seq<char>,
}

impl View for PaletteItem {
    type V = PaletteItemView;

    open spec fn view(&self) -> PaletteItemView {
        PaletteItemView { label: self.label@, action: self.action@ }
    }
}

impl Clone for PaletteItem {
    fn clone(&self) -> (r: Self)
        ensures
            r@ == self@,
    {
        PaletteItem { label: self.label.clone(), action: self.action.clone() }
    }
}

/// What a list of palette items says.
pub open spec fn item_views(v: Seq<PaletteItem>) -> Seq<PaletteItemView> {
    v.map_values(|it: PaletteItem| it@)
}

/// The longest query, in characters, that is handed to the matcher: its scores are 16-bit
/// sums over the characters of a query word, and stay in range up to this length.
pub const MAX_QUERY_CHARS: usize = 2048;

/// The longest label, in bytes of its UTF-8 form, that the matcher takes.
pub const MAX_LABEL_BYTES: usize = 0xFFFF_FFFF;

/// The score that the fuzzy matcher gives a label for a query, or `None` where the label does
/// not match: what `nucleo_matcher::pattern::Pattern::score` returns for the pattern that
/// `Pattern::parse` makes of the query, with case ignored and smart normalization, on a
/// matcher with the default configuration.
pub uninterp spec fn fuzzy_score(label: Seq<char>, query: Seq<char>) -> Option<u32>;

/// Scores one label with `nucleo_matcher`: `Pattern::parse` reads the query, `Utf32Str::new`
/// holds the label, `Pattern::score` on a fresh `Matcher::new(Config::DEFAULT)` gives the
/// score. The score depends on the two texts alone. Three kinds of input are left out, on
/// which the matcher panics, at least where its debug assertions are compiled in:
/// - a label of more than 2^32 - 1 units, where `Utf32Str::new` may hand over the bytes of
///   the label in place of its characters, so the bytes are bounded;
/// - a long query: the matcher adds 16-bit scores per character of a query word;
/// - a query with a character outside ASCII: such a word can switch normalization off, and
///   the matcher's two passes over the label then fold the case of some characters
///   differently and disagree on where a match starts.
#[verifier::external_body]
fn score_label(label: &str, query: &str) -> (r: Option<u32>)
    requires
        encode_utf8(label@).len() <= MAX_LABEL_BYTES,
        query@.len() <= MAX_QUERY_CHARS,
        is_ascii_chars(query@),
    ensures
        r == fuzzy_score(label@, query@),
{
    let mut matcher = Matcher::new(Config::DEFAULT);
    let pattern = Pattern::parse(query, CaseMatching::Ignore, Normalization::Smart);
    let mut buf = Vec::new();
    pattern.score(Utf32Str::new(label, &mut buf), &mut matcher)
}

/// Whether the matcher takes the query and every label: the query is ASCII and no longer
/// than [`MAX_QUERY_CHARS`], and no label is longer than [`MAX_LABEL_BYTES`] in UTF-8.
pub open spec fn within_limits(items: Seq<PaletteItemView>, query: Seq<char>) -> bool {
    &&& query.len() <= MAX_QUERY_CHARS
    &&& is_ascii_chars(query)
    &&& forall|i: int|
        0 <= i < items.len() ==> encode_utf8((#[trigger] items[i]).label).len() <= MAX_LABEL_BYTES
}

/// The test by which an item stays in the list: the matcher gives its label a score.
pub open spec fn is_hit(query: Seq<char>) -> spec_fn(PaletteItemView) -> bool {
    |it: PaletteItemView| fuzzy_score(it.label, query) is Some
}

/// The key by which a matching item is ranked: its score, then its label.
pub open spec fn hit_key(it: PaletteItemView, query: Seq<char>) -> RankKeyView {
    RankKeyView { weight: fuzzy_score(it.label, query).unwrap() as nat, label: it.label }
}

/// The keys of a list of matching items.
pub open spec fn hit_keys(hits: Seq<PaletteItemView>, query: Seq<char>) -> Seq<RankKeyView> {
    Seq::new(hits.len(), |i: int| hit_key(hits[i], query))
}

/// The palette as it is shown for a query: for a blank query all items as they stand, else the
/// items whose label matches, the higher score first, equal scores by label, equal keys in
/// their original order.
pub open spec fn fuzzy_ranked(items: Seq<PaletteItemView>, query: Seq<char>) -> Seq<
    PaletteItemView,
> {
    if is_blank(query) {
        items
    } else {
        let hits = items.filter(is_hit(query));
        arranged(hits, ranked(hit_keys(hits, query)))
    }
}

/// Whether the item `a` may stand before the item `b` in the palette for a query: its score
/// is the higher one, or the scores are equal and its label is not the greater one.
pub open spec fn in_palette_order(query: Seq<char>, a: PaletteItemView, b: PaletteItemView) -> bool {
    let x = fuzzy_score(a.label, query).unwrap();
    let y = fuzzy_score(b.label, query).unwrap();
    x > y || (x == y && !lex_less(b.label, a.label))
}

/// A blank query leaves the palette as it is. Any other query keeps items of the palette that
/// match, and puts each before every item behind which it may not stand.
pub proof fn lemma_fuzzy_ranked(items: Seq<PaletteItemView>, query: Seq<char>)
    ensures
        is_blank(query) ==> fuzzy_ranked(items, query) == items,
        fuzzy_ranked(items, query).len() <= items.len(),
        forall|i: int|
            0 <= i < fuzzy_ranked(items, query).len() ==> items.contains(
                #[trigger] fuzzy_ranked(items, query)[i],
            ),
        !is_blank(query) ==> forall|i: int|
            0 <= i < fuzzy_ranked(items, query).len() ==> fuzzy_score(
                (#[trigger] fuzzy_ranked(items, query)[i]).label,
                query,
            ) is Some,
        !is_blank(query) ==> forall|i: int, j: int|
            0 <= i < j < fuzzy_ranked(items, query).len() ==> in_palette_order(
                query,
                #[trigger] fuzzy_ranked(items, query)[i],
                #[trigger] fuzzy_ranked(items, query)[j],
            ),
{
    let shown = fuzzy_ranked(items, query);
    if is_blank(query) {
        assert forall|i: int| 0 <= i < shown.len() implies items.contains(#[trigger] shown[i]) by {
            assert(items[i] == shown[i]);
        }
    } else {
        let hits = items.filter(is_hit(query));
        let keys = hit_keys(hits, query);
        let order = ranked(keys);
        items.lemma_filter_len(is_hit(query));
        lemma_ranked(keys);
        assert forall|i: int| 0 <= i < shown.len() implies items.contains(#[trigger] shown[i])
            && fuzzy_score(shown[i].label, query) is Some by {
            assert(shown[i] == hits[order[i]]);
            items.lemma_filter_pred(is_hit(query), order[i]);
            assert(hits.contains(hits[order[i]]));
            items.lemma_filter_contains_rev(is_hit(query), hits[order[i]]);
        }
        assert forall|i: int, j: int| 0 <= i < j < shown.len() implies in_palette_order(
            query,
            #[trigger] shown[i],
            #[trigger] shown[j],
        ) by {
            let a = hits[order[i]];
            let b = hits[order[j]];
            assert(shown[i] == a && shown[j] == b);
            assert(ranks_before(keys, order[i], order[j]));
            assert(keys[order[i]] == hit_key(a, query));
            assert(keys[order[j]] == hit_key(b, query));
            items.lemma_filter_pred(is_hit(query), order[i]);
            items.lemma_filter_pred(is_hit(query), order[j]);
            if outranks(hit_key(a, query), hit_key(b, query)) {
                if hit_key(a, query).weight == hit_key(b, query).weight {
                    lemma_lex_asymmetric(a.label, b.label);
                }
            }
        }
    }
}

fn clone_items(items: &[PaletteItem]) -> (r: Vec<PaletteItem>)
    ensures
        item_views(r@) == item_views(items@),
{
    let mut r: Vec<PaletteItem> = Vec::new();
    let mut i: usize = 0;
    while i < items.len()
        invariant
            i <= items.len(),
            item_views(r@) == item_views(items@.take(i as int)),
        decreases items.len() - i,
    {
        r.push(items[i].clone());
        i += 1;
        assert(item_views(items@.take(i as int)) =~= item_views(items@.take(i - 1)).push(
            items@[i - 1]@,
        ));
        assert(item_views(r@) =~= item_views(r@.drop_last()).push(r@.last()@));
    }
    assert(items@.take(items.len() as int) =~= items@);
    r
}

/// Whether the query is blank.
pub fn query_is_blank(query: &str) -> (r: bool)
    ensures
        r == is_blank(query@),
{
    trim(&chars_of(query)).len() == 0
}

/// Whether the matcher takes the query and every label.
pub fn check_limits(items: &[PaletteItem], query: &str) -> (r: bool)
    ensures
        r == within_limits(item_views(items@), query@),
{
    if chars_of(query).len() > MAX_QUERY_CHARS || !query.is_ascii() {
        return false;
    }
    let mut i: usize = 0;
    while i < items.len()
        invariant
            i <= items.len(),
            forall|j: int|
                0 <= j < i ==> encode_utf8((#[trigger] item_views(items@)[j]).label).len()
                    <= MAX_LABEL_BYTES,
        decreases items.len() - i,
    {
        let bytes = items[i].label.as_str().as_bytes();
        assert(bytes@ == encode_utf8(item_views(items@)[i as int].label));
        if bytes.len() > MAX_LABEL_BYTES {
            return false;
        }
        i += 1;
    }
    true
}

/// Ranks the palette against a query.
pub fn fuzzy_filter(items: &[PaletteItem], query: &str) -> (r: Vec<PaletteItem>)
    requires
        !is_blank(query@) ==> within_limits(item_views(items@), query@),
    ensures
        item_views(r@) == fuzzy_ranked(item_views(items@), query@),
{
    if query_is_blank(query) {
        return clone_items(items);
    }
    let ghost all = item_views(items@);
    let mut hits: Vec<PaletteItem> = Vec::new();
    let mut keys: Vec<RankKey> = Vec::new();
    let mut i: usize = 0;
    proof {
        reveal(Seq::filter);
        assert(all.take(0).filter(is_hit(query@)) =~= Seq::<PaletteItemView>::empty());
        assert(key_views(keys@) =~= hit_keys(item_views(hits@), query@));
    }
    while i < items.len()
        invariant
            i <= items.len(),
            all == item_views(items@),
            within_limits(all, query@),
            item_views(hits@) == all.take(i as int).filter(is_hit(query@)),
            key_views(keys@) == hit_keys(item_views(hits@), query@),
        decreases items.len() - i,
    {
        let item = &items[i];
        assert(all[i as int] == item@);
        let score = score_label(item.label.as_str(), query);
        proof {
            reveal(Seq::filter);
            assert(all.take(i + 1).drop_last() =~= all.take(i as int));
            assert(all.take(i + 1).last() == item@);
        }
        if let Some(s) = score {
            let ghost old_hits = item_views(hits@);
            let ghost old_keys = key_views(keys@);
            hits.push(item.clone());
            keys.push(RankKey { weight: s as u64, label: chars_of(item.label.as_str()) });
            proof {
                assert(item_views(hits@) =~= old_hits.push(item@));
                assert(key_views(keys@) =~= old_keys.push(hit_key(item@, query@)));
                assert(key_views(keys@) =~= hit_keys(item_views(hits@), query@));
            }
        }
        i += 1;
    }
    assert(all.take(items.len() as int) =~= all);
    let order = rank(&keys);
    let mut out: Vec<PaletteItem> = Vec::new();
    let mut j: usize = 0;
    let ghost wanted = arranged(item_views(hits@), positions(order@));
    while j < order.len()
        invariant
            j <= order.len(),
            order.len() == keys.len(),
            keys.len() == hits.len(),
            forall|k: int| 0 <= k < order.len() ==> order@[k] < keys.len(),
            wanted == arranged(item_views(hits@), positions(order@)),
            item_views(out@) == wanted.take(j as int),
        decreases order.len() - j,
    {
        let ghost old_out = item_views(out@);
        out.push(hits[order[j]].clone());
        proof {
            assert(item_views(out@) =~= old_out.push(hits@[order@[j as int] as int]@));
            assert(positions(order@)[j as int] == order@[j as int]);
            assert(wanted[j as int] == hits@[order@[j as int] as int]@);
            assert(wanted.take(j + 1) =~= wanted.take(j as int).push(wanted[j as int]));
        }
        j += 1;
    }
    assert(wanted.take(order.len() as int) =~= wanted);
    out
}

/// Ranks the palette against a query where the matcher takes it, and returns `None` where the
/// query is not blank and it, or a label, is longer than the matcher takes.
pub fn try_fuzzy_filter(items: &[PaletteItem], query: &str) -> (r: Option<Vec<PaletteItem>>)
    ensures
        match r {
            Some(v) => (is_blank(query@) || within_limits(item_views(items@), query@))
                && item_views(v@) == fuzzy_ranked(item_views(items@), query@),
            None => !is_blank(query@) && !within_limits(item_views(items@), query@),
        },
{
    if query_is_blank(query) || check_limits(items, query) {
        Some(fuzzy_filter(items, query))
    } else {
        None
    }
}

} // verus!
