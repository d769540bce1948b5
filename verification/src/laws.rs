//! Properties of the extraction, stated and proved once and for all inputs.

use vstd::prelude::*;
use crate::extract::{qualifies, spec_extract, spec_extract_one, spec_translation};
use crate::model::{ExtractError, ItemView, ProverbView, SibView};
use crate::text::{inner_spec, trim_spec};

verus! {

/// When an Arabic-text element is immediately followed by a text sibling whose
/// trimmed content is parenthesized, the extracted transcription is that
/// trimmed content with its outer parentheses removed, and the fallback
/// cursor does not move.
pub proof fn lemma_direct_parenthesized(item: ItemView, ltrs: Seq<Seq<char>>, cur: int, t: Seq<char>)
    requires
        item.siblings.len() > 0,
        item.siblings[0] == SibView::Text(t),
        trim_spec(t).len() >= 2,
        trim_spec(t)[0] == '(',
        trim_spec(t)[trim_spec(t).len() - 1] == ')',
    ensures
        spec_extract_one(item, ltrs, cur) == Ok::<(ProverbView, int), ExtractError>(
            ((ProverbView {
                arabic_text: item.arabic,
                phonetic_transcription: inner_spec(trim_spec(t)),
                english_translation: spec_translation(item.siblings),
            }), cur),
        ),
{
}

/// When the immediate text sibling is empty after trimming, the transcription
/// falls back to the next unconsumed direction-marked element's text, stripped
/// of its outer characters, and the cursor advances by one.
pub proof fn lemma_fallback_transcription(
    item: ItemView,
    ltrs: Seq<Seq<char>>,
    cur: int,
    t: Seq<char>,
)
    requires
        item.siblings.len() > 0,
        item.siblings[0] == SibView::Text(t),
        trim_spec(t).len() == 0,
        0 <= cur < ltrs.len(),
        ltrs[cur].len() >= 2,
    ensures
        spec_extract_one(item, ltrs, cur) == Ok::<(ProverbView, int), ExtractError>(
            ((ProverbView {
                arabic_text: item.arabic,
                phonetic_transcription: inner_spec(ltrs[cur]),
                english_translation: spec_translation(item.siblings),
            }), cur + 1),
        ),
{
}

/// An Arabic-text element whose transcription comes through the fallback
/// cursor: its immediate next sibling is a text node that is empty once
/// trimmed.
pub open spec fn uses_fallback(item: ItemView) -> bool {
    &&& item.siblings.len() > 0
    &&& item.siblings[0] is Text
    &&& trim_spec(item.siblings[0].text()).len() == 0
}

/// The proverbs of a run in which every element takes its transcription from
/// the fallback cursor starting at `cur`: element `k` gets the text of
/// direction-marked element `cur + k`.
pub open spec fn fallback_proverbs(items: Seq<ItemView>, ltrs: Seq<Seq<char>>, cur: int) -> Seq<
    ProverbView,
> {
    Seq::new(
        items.len(),
        |k: int|
            ProverbView {
                arabic_text: items[k].arabic,
                phonetic_transcription: inner_spec(ltrs[cur + k]),
                english_translation: spec_translation(items[k].siblings),
            },
    )
}

/// The fallback cursor assigns the direction-marked elements to the
/// Arabic-text elements in document order, one each, never swapped: when every
/// element of `items` uses the fallback, element `k` gets the text of
/// direction-marked element `cur + k`, with its outer characters stripped.
pub proof fn lemma_fallback_order(items: Seq<ItemView>, ltrs: Seq<Seq<char>>, cur: int)
    requires
        0 <= cur,
        cur + items.len() <= ltrs.len(),
        forall|k: int| 0 <= k < items.len() ==> uses_fallback(#[trigger] items[k]),
        forall|k: int| cur <= k < cur + items.len() ==> (#[trigger] ltrs[k]).len() >= 2,
    ensures
        spec_extract(items, ltrs, cur) == Ok::<Seq<ProverbView>, ExtractError>(
            fallback_proverbs(items, ltrs, cur),
        ),
    decreases items.len(),
{
    if items.len() == 0 {
        assert(fallback_proverbs(items, ltrs, cur) =~= Seq::<ProverbView>::empty());
    } else {
        let s0 = items[0].siblings[0];
        assert(s0 == SibView::Text(s0.text()));
        lemma_fallback_transcription(items[0], ltrs, cur, s0.text());
        let rest = items.drop_first();
        assert forall|k: int| 0 <= k < rest.len() implies uses_fallback(#[trigger] rest[k]) by {
            assert(rest[k] == items[k + 1]);
        }
        lemma_fallback_order(rest, ltrs, cur + 1);
        let pv0 = ProverbView {
            arabic_text: items[0].arabic,
            phonetic_transcription: inner_spec(ltrs[cur]),
            english_translation: spec_translation(items[0].siblings),
        };
        assert(seq![pv0] + fallback_proverbs(rest, ltrs, cur + 1) =~= fallback_proverbs(
            items,
            ltrs,
            cur,
        ));
    }
}

/// The translation is the first qualifying text sibling, trimmed: markup
/// siblings and text siblings that are empty or parenthetical once trimmed are
/// walked past, never taken.
pub proof fn lemma_translation_first_qualifying(sibs: Seq<SibView>, j: int)
    requires
        0 <= j < sibs.len(),
        sibs[j] is Text,
        qualifies(sibs[j].text()),
        forall|k: int|
            0 <= k < j ==> !((#[trigger] sibs[k]) is Text && qualifies(sibs[k].text())),
    ensures
        spec_translation(sibs) == trim_spec(sibs[j].text()),
    decreases j,
{
    if j > 0 {
        let rest = sibs.drop_first();
        assert forall|k: int|
            0 <= k < j - 1 implies !((#[trigger] rest[k]) is Text && qualifies(
            rest[k].text(),
        )) by {
            assert(rest[k] == sibs[k + 1]);
        }
        assert(rest[j - 1] == sibs[j]);
        lemma_translation_first_qualifying(rest, j - 1);
    }
}

/// When no text sibling qualifies, the translation is the empty string.
pub proof fn lemma_translation_none(sibs: Seq<SibView>)
    requires
        forall|k: int|
            0 <= k < sibs.len() ==> !((#[trigger] sibs[k]) is Text && qualifies(sibs[k].text())),
    ensures
        spec_translation(sibs) == Seq::<char>::empty(),
    decreases sibs.len(),
{
    if sibs.len() > 0 {
        let rest = sibs.drop_first();
        assert forall|k: int|
            0 <= k < rest.len() implies !((#[trigger] rest[k]) is Text && qualifies(
            rest[k].text(),
        )) by {
            assert(rest[k] == sibs[k + 1]);
        }
        lemma_translation_none(rest);
    }
}

} // verus!
