use egyptian_scraper::dom::{extract_from_fragment, fragment_model};
use egyptian_scraper::extract::{direct_transcription, extract_proverbs, translation};
use egyptian_scraper::model::{ExtractError, Proverb};

#[test]
fn general_case() {
    let html = r#"
<br /><br /><span class="arabic" dir="rtl">القرد في عين أمه غزال.</span> (il-'ird fi 3ein ummu ġazaal.)
<br />In his mother’s eye, the monkey is (as beautiful as) a gazelle.  (Comment about mothers' bias or partiality to their children.)
        "#;

    let model = fragment_model(html);
    let arabic_text = model.items[0].arabic.clone();
    let phonetic_transcription = direct_transcription(&model.items[0]).unwrap();
    let english_translation = translation(&model.items[0]);
    let english_translation_with_skip = translation(&model.items[0]);

    assert_eq!(arabic_text, "القرد في عين أمه غزال.");
    assert_eq!(phonetic_transcription, "(il-'ird fi 3ein ummu ġazaal.)");
    assert_eq!(
        english_translation,
        "In his mother’s eye, the monkey is (as beautiful as) a gazelle.  (Comment about mothers' bias or partiality to their children.)"
    );
    assert_eq!(
        english_translation_with_skip,
        "In his mother’s eye, the monkey is (as beautiful as) a gazelle.  (Comment about mothers' bias or partiality to their children.)"
    );
}

#[test]
fn phonetice_transcription_span_edge_case_that_affects_also_english_translation() {
    let html = r#"
<br /><br /><span class="arabic" dir="rtl">لا يلدغ المؤمن من جحر مرتين.</span> <span dir="ltr">(la yuldaġ il-mo'men min goHr marratein.)</span>
<br />The believer is not bitten from the same hole twice.  (Fool me once, shame on you; fool me twice, shame on me.)
        "#;

    let model = fragment_model(html);
    let arabic_text = model.items[0].arabic.clone();
    let phonetic_transcription = model.ltr_texts[0].clone();
    let english_translation = translation(&model.items[0]);

    assert_eq!(arabic_text, "لا يلدغ المؤمن من جحر مرتين.");
    assert_eq!(
        phonetic_transcription,
        "(la yuldaġ il-mo'men min goHr marratein.)"
    );
    assert_eq!(
        english_translation,
        "The believer is not bitten from the same hole twice.  (Fool me once, shame on you; fool me twice, shame on me.)"
    );
}

#[test]
fn plain_layout_one_proverb() {
    let html = r#"<span class="arabic">X</span> (ph.) <br />Translation text."#;
    let proverbs = extract_from_fragment(html).unwrap();
    assert_eq!(proverbs.len(), 1);
    assert_eq!(proverbs[0].arabic_text, "X");
    assert_eq!(proverbs[0].phonetic_transcription, "ph.");
    assert_eq!(proverbs[0].english_translation, "Translation text.");
}

#[test]
fn wrapped_transcription_fallback() {
    let html =
        r#"<span class="arabic">A</span> <span dir="ltr">(ph2.)</span><br />English line."#;
    let proverbs = extract_from_fragment(html).unwrap();
    assert_eq!(proverbs.len(), 1);
    assert_eq!(proverbs[0].phonetic_transcription, "ph2.");
    assert_eq!(proverbs[0].english_translation, "English line.");
}

#[test]
fn translation_walks_past_parenthetical_text() {
    let html = r#"<span class="arabic">A</span> (ph.)<br /><br />(Comment x)<br />Actual translation."#;
    let proverbs = extract_from_fragment(html).unwrap();
    assert_eq!(proverbs.len(), 1);
    assert_eq!(proverbs[0].phonetic_transcription, "ph.");
    assert_eq!(proverbs[0].english_translation, "Actual translation.");
}

#[test]
fn translation_empty_when_nothing_qualifies() {
    let html = r#"<span class="arabic">A</span> (ph.)<br /><br />(Comment x)"#;
    let proverbs = extract_from_fragment(html).unwrap();
    assert_eq!(proverbs.len(), 1);
    assert_eq!(proverbs[0].english_translation, "");
}

#[test]
fn fallback_cursor_in_document_order() {
    let html = r#"<span class="arabic">A1</span> <span dir="ltr">(p1.)</span><br />E1.<br /><span class="arabic">A2</span> <span dir="ltr">(p2.)</span><br />E2."#;
    let proverbs = extract_from_fragment(html).unwrap();
    assert_eq!(proverbs.len(), 2);
    assert_eq!(proverbs[0].arabic_text, "A1");
    assert_eq!(proverbs[0].phonetic_transcription, "p1.");
    assert_eq!(proverbs[0].english_translation, "E1.");
    assert_eq!(proverbs[1].arabic_text, "A2");
    assert_eq!(proverbs[1].phonetic_transcription, "p2.");
    assert_eq!(proverbs[1].english_translation, "E2.");
}

#[test]
fn extraction_is_idempotent() {
    let html = r#"<span class="arabic">A1</span> <span dir="ltr">(p1.)</span><br />E1.<br /><span class="arabic">A2</span> (p2.)<br />E2."#;
    let first = extract_from_fragment(html).unwrap();
    let second = extract_from_fragment(html).unwrap();
    assert_eq!(first.len(), second.len());
    for (a, b) in first.iter().zip(second.iter()) {
        assert_eq!(a.arabic_text, b.arabic_text);
        assert_eq!(a.phonetic_transcription, b.phonetic_transcription);
        assert_eq!(a.english_translation, b.english_translation);
    }
}

#[test]
fn error_when_no_sibling() {
    let html = r#"<span class="arabic">A</span>"#;
    let r = extract_from_fragment(html);
    assert_eq!(r.unwrap_err(), ExtractError::MissingSibling);
}

#[test]
fn error_when_sibling_is_markup() {
    let html = r#"<span class="arabic">A</span><br />x"#;
    let r = extract_from_fragment(html);
    assert_eq!(r.unwrap_err(), ExtractError::SiblingNotText);
}

#[test]
fn error_when_fallbacks_run_out() {
    let html = r#"<span class="arabic">A</span> "#;
    let r = extract_from_fragment(html);
    assert_eq!(r.unwrap_err(), ExtractError::FallbackExhausted);
}

#[test]
fn error_when_transcription_too_short() {
    let html = r#"<span class="arabic">A</span> x<br />E."#;
    let r = extract_from_fragment(html);
    assert_eq!(r.unwrap_err(), ExtractError::TranscriptionTooShort);
}

#[test]
fn error_aborts_whole_batch() {
    let html = r#"<span class="arabic">A1</span> (p1.)<br />E1.<br /><span class="arabic">A2</span>"#;
    let r = extract_from_fragment(html);
    assert_eq!(r.unwrap_err(), ExtractError::MissingSibling);
}

#[test]
fn extract_proverbs_matches_fragment_entry_point() {
    let html = r#"<span class="arabic">X</span> (ph.) <br />Translation text."#;
    let model = fragment_model(html);
    let from_model = extract_proverbs(&model).unwrap();
    let from_html = extract_from_fragment(html).unwrap();
    assert_eq!(from_model.len(), from_html.len());
    assert_eq!(from_model[0].phonetic_transcription, from_html[0].phonetic_transcription);
}

#[test]
fn display_string_layout() {
    let p = Proverb {
        arabic_text: String::from("a"),
        phonetic_transcription: String::from("b"),
        english_translation: String::from("c"),
    };
    assert_eq!(
        p.display_string(),
        "Arabic proverb: a\nPhonetic Transcription: b\nEnglish Translation: c"
    );
}
