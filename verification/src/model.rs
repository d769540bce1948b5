//! Plain data model of the parts of a proverb page that the extraction reads.
//!
//! The DOM itself stays inside the HTML parser; what the sibling walk needs is
//! only, per Arabic-text element, the element's own text and the chain of its
//! following siblings, each sibling being either a text node or some other
//! markup node. The direction-marked (`dir="ltr"`) elements that hold
//! wrapped transcriptions form a separate ordered list, consumed by a cursor.

use vstd::prelude::*;
use vstd::string::StringExecFns;

verus! {

/// One sibling node following an Arabic-text element: either a text node with
/// its raw (untrimmed) content, or any non-text markup node such as `<br>`.
pub enum SibNode {
    Text(String),
    Markup,
}

/// Ghost view of a sibling node.
pub ghost enum SibView {
    Text(Seq<char>),
    Markup,
}

impl SibView {
    /// The text content of a text node; the empty sequence for markup.
    pub open spec fn text(self) -> Seq<char> {
        match self {
            SibView::Text(t) => t,
            SibView::Markup => Seq::empty(),
        }
    }
}

impl DeepView for SibNode {
    type V = SibView;

    open spec fn deep_view(&self) -> SibView {
        match self {
            SibNode::Text(t) => SibView::Text(t@),
            SibNode::Markup => SibView::Markup,
        }
    }
}

/// One Arabic-text element: its own concatenated text content, and its
/// following siblings in document order.
pub struct ArabicItem {
    pub arabic: String,
    pub siblings: Vec<SibNode>,
}

/// Ghost view of an Arabic-text element.
pub ghost struct ItemView {
    pub arabic: Seq<char>,
    pub siblings: Seq<SibView>,
}

impl DeepView for ArabicItem {
    type V = ItemView;

    open spec fn deep_view(&self) -> ItemView {
        ItemView { arabic: self.arabic@, siblings: self.siblings.deep_view() }
    }
}

/// Everything the extraction reads from one document: the Arabic-text
/// elements in document order, and the text contents of the direction-marked
/// elements in document order.
pub struct DocModel {
    pub items: Vec<ArabicItem>,
    pub ltr_texts: Vec<String>,
}

/// Ghost view of a document model.
pub ghost struct DocView {
    pub items: Seq<ItemView>,
    pub ltr_texts: Seq<Seq<char>>,
}

impl DeepView for DocModel {
    type V = DocView;

    open spec fn deep_view(&self) -> DocView {
        DocView { items: self.items.deep_view(), ltr_texts: self.ltr_texts.deep_view() }
    }
}

/// One extracted proverb: three aligned text fields.
#[derive(Debug)]
pub struct Proverb {
    pub arabic_text: String,
    pub phonetic_transcription: String,
    pub english_translation: String,
}

/// Ghost view of a proverb.
pub ghost struct ProverbView {
    pub arabic_text: Seq<char>,
    pub phonetic_transcription: Seq<char>,
    pub english_translation: Seq<char>,
}

impl Proverb {
    /// The three fields on three labelled lines, as the proverb is shown to a
    /// reader.
    pub fn display_string(&self) -> (r: String)
        ensures
            r@ == "Arabic proverb: "@ + self.arabic_text@ + "\nPhonetic Transcription: "@
                + self.phonetic_transcription@ + "\nEnglish Translation: "@
                + self.english_translation@,
    {
        let mut s = String::from_str("Arabic proverb: ");
        s.append(self.arabic_text.as_str());
        s.append("\nPhonetic Transcription: ");
        s.append(self.phonetic_transcription.as_str());
        s.append("\nEnglish Translation: ");
        s.append(self.english_translation.as_str());
        proof {
            assert(s@ =~= "Arabic proverb: "@ + self.arabic_text@
                + "\nPhonetic Transcription: "@ + self.phonetic_transcription@
                + "\nEnglish Translation: "@ + self.english_translation@);
        }
        s
    }
}

impl DeepView for Proverb {
    type V = ProverbView;

    open spec fn deep_view(&self) -> ProverbView {
        ProverbView {
            arabic_text: self.arabic_text@,
            phonetic_transcription: self.phonetic_transcription@,
            english_translation: self.english_translation@,
        }
    }
}

/// Why a whole extraction run fails. Any deviation from the expected page
/// shape aborts the batch; there is no per-record recovery.
#[derive(Debug, Clone, Copy, PartialEq, Eq, Structural)]
pub enum ExtractError {
    /// An Arabic-text element has no following sibling at all.
    MissingSibling,
    /// The immediate next sibling of an Arabic-text element is not a text node.
    SiblingNotText,
    /// A transcription was empty where found, so its enclosing parentheses
    /// cannot be stripped.
    TranscriptionTooShort,
    /// A wrapped transcription was needed but every direction-marked element
    /// was already consumed.
    FallbackExhausted,
}

} // verus!
