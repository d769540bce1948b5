//! The sibling-walk heuristic that aligns the three text fields of each
//! proverb, specified over the document model and verified exactly.
//!
//! For each Arabic-text element, in document order:
//! - the transcription is the trimmed text of the immediate next sibling; if
//!   that is empty, the next unconsumed direction-marked element's text is
//!   taken instead, through a cursor shared across the whole pass; either way
//!   its first and last characters (the enclosing parentheses) are stripped;
//! - the translation is the first following text sibling whose trimmed text is
//!   non-empty and does not begin with an opening parenthesis, or the empty
//!   string if none exists;
//! - any deviation from that shape aborts the whole pass with an error.

use vstd::prelude::*;
use vstd::string::StrSliceExecFns;
use crate::model::{ArabicItem, DocModel, ExtractError, ItemView, Proverb, ProverbView, SibNode,
    SibView};
use crate::text::{inner_spec, strip_outer, trim_spec, trim_str};

verus! {

/// The trimmed text of the immediate next sibling of an Arabic-text element,
/// or the error when that sibling is missing or is not a text node.
pub open spec fn spec_direct(item: ItemView) -> Result<Seq<char>, ExtractError> {
    if item.siblings.len() == 0 {
        Err(ExtractError::MissingSibling)
    } else {
        match item.siblings[0] {
            SibView::Markup => Err(ExtractError::SiblingNotText),
            SibView::Text(t) => Ok(trim_spec(t)),
        }
    }
}

/// The stripped transcription and the new cursor, given the trimmed direct
/// sibling text `direct`, the direction-marked texts `ltrs` and the cursor
/// `cur`. A non-empty direct text is used in place; an empty one falls back
/// to `ltrs[cur]`, advancing the cursor.
pub open spec fn spec_phonetic(direct: Seq<char>, ltrs: Seq<Seq<char>>, cur: int) -> Result<
    (Seq<char>, int),
    ExtractError,
> {
    if direct.len() > 0 {
        if direct.len() < 2 {
            Err(ExtractError::TranscriptionTooShort)
        } else {
            Ok((inner_spec(direct), cur))
        }
    } else if cur >= ltrs.len() {
        Err(ExtractError::FallbackExhausted)
    } else if ltrs[cur].len() < 2 {
        Err(ExtractError::TranscriptionTooShort)
    } else {
        Ok((inner_spec(ltrs[cur]), cur + 1))
    }
}

/// Whether a text sibling's content is taken as the translation: trimmed, it
/// is non-empty and does not begin with an opening parenthesis.
pub open spec fn qualifies(t: Seq<char>) -> bool {
    trim_spec(t).len() > 0 && trim_spec(t)[0] != '('
}

/// The translation: the trimmed content of the first qualifying text sibling,
/// walking the chain in document order past markup siblings and past empty or
/// parenthetical text siblings; the empty sequence when none qualifies.
pub open spec fn spec_translation(sibs: Seq<SibView>) -> Seq<char>
    decreases sibs.len(),
{
    if sibs.len() == 0 {
        Seq::empty()
    } else {
        match sibs[0] {
            SibView::Text(t) => if qualifies(t) {
                trim_spec(t)
            } else {
                spec_translation(sibs.drop_first())
            },
            SibView::Markup => spec_translation(sibs.drop_first()),
        }
    }
}

/// One proverb extracted from one Arabic-text element, with the cursor after
/// it, or the error that aborts the pass.
pub open spec fn spec_extract_one(item: ItemView, ltrs: Seq<Seq<char>>, cur: int) -> Result<
    (ProverbView, int),
    ExtractError,
> {
    match spec_direct(item) {
        Err(e) => Err(e),
        Ok(direct) => match spec_phonetic(direct, ltrs, cur) {
            Err(e) => Err(e),
            Ok((ph, cur2)) => Ok(
                ((ProverbView {
                    arabic_text: item.arabic,
                    phonetic_transcription: ph,
                    english_translation: spec_translation(item.siblings),
                }), cur2),
            ),
        },
    }
}

/// The whole pass over `items` starting with cursor `cur`: the proverbs in
/// document order, or the first error.
pub open spec fn spec_extract(items: Seq<ItemView>, ltrs: Seq<Seq<char>>, cur: int) -> Result<
    Seq<ProverbView>,
    ExtractError,
>
    decreases items.len(),
{
    if items.len() == 0 {
        Ok(Seq::empty())
    } else {
        match spec_extract_one(items[0], ltrs, cur) {
            Err(e) => Err(e),
            Ok((p, cur2)) => match spec_extract(items.drop_first(), ltrs, cur2) {
                Err(e) => Err(e),
                Ok(rest) => Ok(seq![p] + rest),
            },
        }
    }
}

/// `r` with a sequence prefixed to its success value; an error passes through.
pub open spec fn prepend(pre: Seq<ProverbView>, r: Result<Seq<ProverbView>, ExtractError>) -> Result<
    Seq<ProverbView>,
    ExtractError,
> {
    match r {
        Ok(s) => Ok(pre + s),
        Err(e) => Err(e),
    }
}

/// An extraction result, seen at the spec level.
pub open spec fn res_view(r: Result<Vec<Proverb>, ExtractError>) -> Result<
    Seq<ProverbView>,
    ExtractError,
> {
    match r {
        Ok(v) => Ok(v.deep_view()),
        Err(e) => Err(e),
    }
}

/// The trimmed text of the immediate next sibling, or why there is none.
pub fn direct_transcription(item: &ArabicItem) -> (r: Result<String, ExtractError>)
    ensures
        match r {
            Ok(s) => spec_direct(item.deep_view()) == Ok::<Seq<char>, ExtractError>(s@),
            Err(e) => spec_direct(item.deep_view()) == Err::<Seq<char>, ExtractError>(e),
        },
{
    if item.siblings.len() == 0 {
        return Err(ExtractError::MissingSibling);
    }
    match &item.siblings[0] {
        SibNode::Markup => Err(ExtractError::SiblingNotText),
        SibNode::Text(t) => Ok(trim_str(t.as_str())),
    }
}

/// The translation field for one Arabic-text element: the first qualifying
/// text sibling, trimmed, or the empty string.
pub fn translation(item: &ArabicItem) -> (r: String)
    ensures
        r@ == spec_translation(item.deep_view().siblings),
{
    let ghost sibs = item.deep_view().siblings;
    let n = item.siblings.len();
    let mut j: usize = 0;
    proof {
        assert(sibs.skip(0) =~= sibs);
    }
    while j < n
        invariant
            j <= n,
            spec_translation(sibs) == spec_translation(sibs.skip(j as int)),
        decreases n - j,
    {
        proof {
            assert(sibs.skip(j as int)[0] == sibs[j as int]);
        }
        match &item.siblings[j] {
            SibNode::Markup => {},
            SibNode::Text(t) => {
                let tt = trim_str(t.as_str());
                if tt.as_str().unicode_len() > 0 && tt.as_str().get_char(0) != '(' {
                    return tt;
                }
            },
        }
        proof {
            assert(sibs.skip(j as int).drop_first() =~= sibs.skip(j as int + 1));
        }
        j = j + 1;
    }
    proof {
        assert(sibs.skip(n as int) =~= Seq::<SibView>::empty());
    }
    String::new()
}

/// One step of the pass: the proverb for `item` and the cursor after it, or
/// the error that aborts the pass.
pub fn extract_one(item: &ArabicItem, ltr_texts: &Vec<String>, cursor: usize) -> (r: Result<
    (Proverb, usize),
    ExtractError,
>)
    requires
        cursor <= ltr_texts.len(),
    ensures
        match r {
            Ok(pc) => spec_extract_one(item.deep_view(), ltr_texts.deep_view(), cursor as int)
                == Ok::<(ProverbView, int), ExtractError>((pc.0.deep_view(), pc.1 as int))
                && pc.1 <= ltr_texts.len(),
            Err(e) => spec_extract_one(item.deep_view(), ltr_texts.deep_view(), cursor as int)
                == Err::<(ProverbView, int), ExtractError>(e),
        },
{
    let direct = match direct_transcription(item) {
        Err(e) => {
            return Err(e);
        },
        Ok(s) => s,
    };
    let mut cur = cursor;
    let phonetic: String;
    if direct.as_str().unicode_len() > 0 {
        if direct.as_str().unicode_len() < 2 {
            return Err(ExtractError::TranscriptionTooShort);
        }
        phonetic = strip_outer(direct.as_str());
    } else {
        if cur == ltr_texts.len() {
            return Err(ExtractError::FallbackExhausted);
        }
        let f = &ltr_texts[cur];
        if f.as_str().unicode_len() < 2 {
            return Err(ExtractError::TranscriptionTooShort);
        }
        phonetic = strip_outer(f.as_str());
        cur = cur + 1;
    }
    let english = translation(item);
    Ok(
        (
            Proverb {
                arabic_text: item.arabic.clone(),
                phonetic_transcription: phonetic,
                english_translation: english,
            },
            cur,
        ),
    )
}

/// The whole pass over a document model: one proverb per Arabic-text element,
/// in document order, with the fallback cursor starting at the first
/// direction-marked element; or the first error, which aborts the pass.
pub fn extract_proverbs(doc: &DocModel) -> (r: Result<Vec<Proverb>, ExtractError>)
    ensures
        res_view(r) == spec_extract(doc.deep_view().items, doc.deep_view().ltr_texts, 0),
{
    let ghost items_v = doc.deep_view().items;
    let ghost ltrs_v = doc.deep_view().ltr_texts;
    let mut out: Vec<Proverb> = Vec::new();
    let mut cursor: usize = 0;
    let mut i: usize = 0;
    let n = doc.items.len();
    proof {
        assert(items_v.skip(0) =~= items_v);
        match spec_extract(items_v, ltrs_v, 0) {
            Ok(s) => {
                assert(Seq::<ProverbView>::empty() + s =~= s);
            },
            Err(_) => {},
        }
    }
    while i < n
        invariant
            i <= n,
            cursor <= doc.ltr_texts.len(),
            spec_extract(items_v, ltrs_v, 0) == prepend(
                out.deep_view(),
                spec_extract(items_v.skip(i as int), ltrs_v, cursor as int),
            ),
        decreases n - i,
    {
        proof {
            assert(items_v.skip(i as int)[0] == items_v[i as int]);
            assert(items_v.skip(i as int).drop_first() =~= items_v.skip(i as int + 1));
        }
        match extract_one(&doc.items[i], &doc.ltr_texts, cursor) {
            Err(e) => {
                return Err(e);
            },
            Ok((p, c2)) => {
                let ghost old_out = out.deep_view();
                let ghost pv = p.deep_view();
                out.push(p);
                proof {
                    assert(out.deep_view() =~= old_out.push(pv));
                    match spec_extract(items_v.skip(i as int + 1), ltrs_v, c2 as int) {
                        Ok(rest) => {
                            assert(old_out + (seq![pv] + rest) =~= old_out.push(pv) + rest);
                        },
                        Err(_) => {},
                    }
                }
                cursor = c2;
                i = i + 1;
            },
        }
    }
    proof {
        assert(items_v.skip(n as int) =~= Seq::<ItemView>::empty());
        assert(out.deep_view() + Seq::<ProverbView>::empty() =~= out.deep_view());
    }
    Ok(out)
}

} // verus!
