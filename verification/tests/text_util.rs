use rakukan::engine::text_util::{
    cycle_full_latin, cycle_half_latin, half_kata_to_full, has_kana, kata_to_half,
    romaji_to_fullwidth_latin, romaji_to_halfwidth_latin, to_full_latin, to_half_katakana,
    to_half_latin, to_hiragana, to_katakana,
};

#[test]
fn test_to_katakana_hiragana() {
    assert_eq!(to_katakana("あいう"), "アイウ");
}

#[test]
fn test_to_katakana_ascii_to_fullwidth() {
    assert_eq!(to_katakana("abc123"), "ａｂｃ１２３");
}

#[test]
fn test_to_katakana_half_kata_to_full() {
    assert_eq!(to_katakana("ｶｲｷﾞ"), "カイギ");
}

#[test]
fn test_to_hiragana_katakana() {
    assert_eq!(to_hiragana("アイウ"), "あいう");
}

#[test]
fn test_to_hiragana_ascii_to_fullwidth() {
    assert_eq!(to_hiragana("abc123"), "ａｂｃ１２３");
}

#[test]
fn test_to_hiragana_half_kata() {
    assert_eq!(to_hiragana("ｶｲｷﾞ"), "かいぎ");
}

#[test]
fn test_to_full_latin() {
    assert_eq!(to_full_latin("abc"), "ａｂｃ");
}

#[test]
fn test_to_half_katakana_hiragana() {
    assert_eq!(to_half_katakana("あいう"), "ｱｲｳ");
}

#[test]
fn test_to_half_katakana_dakuten() {
    assert_eq!(to_half_katakana("がぎぐげご"), "ｶﾞｷﾞｸﾞｹﾞｺﾞ");
}

#[test]
fn test_to_half_katakana_handakuten() {
    assert_eq!(to_half_katakana("ぱぴぷぺぽ"), "ﾊﾟﾋﾟﾌﾟﾍﾟﾎﾟ");
}

#[test]
fn test_to_half_katakana_small() {
    assert_eq!(to_half_katakana("ぁっゃゅょ"), "ｧｯｬｭｮ");
}

#[test]
fn test_to_half_katakana_from_kata() {
    assert_eq!(to_half_katakana("カイギ"), "ｶｲｷﾞ");
}

#[test]
fn test_to_half_katakana_choon() {
    assert_eq!(to_half_katakana("ラーメン"), "ﾗｰﾒﾝ");
}

#[test]
fn test_to_half_katakana_fullwidth_latin() {
    // 全角英数記号も半角に変換される
    assert_eq!(to_half_katakana("ＭＳーＩＭＥ"), "MSｰIME"); // ーは半角長音符ｰ(U+FF70)
    assert_eq!(to_half_katakana("ａｂｃ１２３"), "abc123");
}

#[test]
fn hiragana_and_katakana_keys_undo_each_other() {
    for text in ["あいう", "がぎぐ", "ぱぴぷ", "らーめん", "っゃゅょ"] {
        assert_eq!(to_hiragana(&to_katakana(text)), text);
    }
    for text in ["アイウ", "ガギグ", "パピプ"] {
        assert_eq!(to_katakana(&to_hiragana(text)), text);
    }
}

#[test]
fn kana_keys_change_nothing_the_second_time() {
    for text in ["漢字とかな", "ABC ｶﾞ", "゛゜", ""] {
        let once = to_katakana(text);
        assert_eq!(to_katakana(&once), once);
        let once = to_hiragana(text);
        assert_eq!(to_hiragana(&once), once);
    }
}

#[test]
fn widths_of_latin_letters_undo_each_other() {
    for text in ["abc XYZ", "0~9!?", "~"] {
        assert_eq!(to_half_latin(&to_full_latin(text)), text);
    }
    assert_eq!(to_full_latin(" "), " ");
    assert_eq!(to_half_latin("Ａ\u{3000}ｂ"), "A\u{3000}b");
}

#[test]
fn half_width_katakana_comes_back() {
    for text in ["カイギ", "ラーメン", "パピプペポ", "ヴ", "ァィゥェォッャュョ"] {
        assert_eq!(to_katakana(&to_half_katakana(text)), text);
    }
}

#[test]
fn marks_are_joined_only_where_a_letter_takes_them() {
    assert_eq!(half_kata_to_full('ｶ', Some('\u{FF9E}')), Some(('ガ', true)));
    assert_eq!(half_kata_to_full('ﾊ', Some('\u{FF9F}')), Some(('パ', true)));
    assert_eq!(half_kata_to_full('ｱ', Some('\u{FF9E}')), Some(('ア', false)));
    assert_eq!(half_kata_to_full('ｶ', None), Some(('カ', false)));
    assert_eq!(half_kata_to_full('あ', None), None);
    assert_eq!(kata_to_half('ガ'), ('ｶ', Some('\u{FF9E}')));
    assert_eq!(kata_to_half('ポ'), ('ﾎ', Some('\u{FF9F}')));
    assert_eq!(kata_to_half('漢'), ('漢', None));
}

#[test]
fn letter_keys_go_round() {
    assert!(has_kana("abcあ"));
    assert!(!has_kana("abc漢字"));
    let small = "ｗｏｒｄ";
    let first = cycle_full_latin(small);
    let second = cycle_full_latin(&first);
    let third = cycle_full_latin(&second);
    assert_eq!(first, "ＷＯＲＤ");
    assert_eq!(second, "Ｗｏｒｄ");
    assert_eq!(third, small);
    let first = cycle_half_latin("word");
    let second = cycle_half_latin(&first);
    let third = cycle_half_latin(&second);
    assert_eq!(first, "WORD");
    assert_eq!(second, "Word");
    assert_eq!(third, "word");
}

#[test]
fn letters_keep_their_case_from_width_to_width() {
    assert_eq!(cycle_full_latin("ABC"), "ＡＢＣ");
    assert_eq!(cycle_half_latin("ＡＢＣ"), "ABC");
    assert_eq!(cycle_half_latin("Ａｂｃ"), "Abc");
    assert_eq!(cycle_full_latin("ＡbＣ"), "ＡｂＣ");
}

#[test]
fn letters_that_were_typed_take_a_width() {
    assert_eq!(romaji_to_fullwidth_latin("kaigi"), "ｋａｉｇｉ");
    assert_eq!(romaji_to_halfwidth_latin("kaigi"), "kaigi");
}
