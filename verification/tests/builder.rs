use rakukan::builder::char_def::{check_char_def, CharDefOutcome};
use rakukan::builder::csv::is_cut_off;
use rakukan::builder::dictionary::{
    accept_euc_jp, build_system_dictionary, decode_text_file, dictionary_file,
};
use rakukan::builder::lexicon::{
    build_lexicon_csv, built_message, is_lexicon_csv, lexicon_csv_paths, BuildError,
};
use vibrato::{Dictionary, SystemDictionaryBuilder, Tokenizer};

const LEXICON: &str = "京都,4,4,5,京都,名詞\n東京,6,6,8,東京,名詞\n";
const MATRIX: &str = "10 10\n0 4 -5\n";
const CHAR_DEF: &str = "DEFAULT 0 1 0\n";
const UNK_DEF: &str = "DEFAULT,5,5,-1000,記号\n";

#[test]
fn lexicons_are_told_from_other_files() {
    assert!(is_lexicon_csv("Noun.csv"));
    assert!(is_lexicon_csv("a.b.csv"));
    assert!(!is_lexicon_csv("noun.CSV"));
    assert!(!is_lexicon_csv(".csv"));
    assert!(!is_lexicon_csv("matrix.def"));
    assert!(!is_lexicon_csv("csv"));
}

#[test]
fn lexicons_are_taken_in_order() {
    let names: Vec<String> = ["b.csv", "matrix.def", "a.csv", "B.csv"]
        .iter()
        .map(|s| s.to_string())
        .collect();
    let order: Vec<&str> =
        lexicon_csv_paths(&names).into_iter().map(|i| names[i].as_str()).collect();
    assert_eq!(order, vec!["B.csv", "a.csv", "b.csv"]);
}

#[test]
fn lexicons_are_put_together_line_by_line() {
    let texts = vec!["a\r\nb".to_string(), "c\n\n".to_string()];
    let merged = build_lexicon_csv(&texts).expect("there are lexicons");
    assert!(merged.ends_with('\n'));
    assert_eq!(build_lexicon_csv(&Vec::new()), Err(BuildError::NoLexicon));
    assert_eq!(
        build_lexicon_csv(&vec![LEXICON.to_string()]).expect("there is one"),
        LEXICON
    );
}

#[test]
fn files_are_read_as_utf8_or_euc_jp() {
    assert_eq!(decode_text_file(&"漢字".as_bytes().to_vec()), Ok("漢字".to_string()));
    let euc_jp = vec![0xb4, 0xc1, 0xbb, 0xfa];
    assert_eq!(decode_text_file(&euc_jp), Ok("漢字".to_string()));
    assert_eq!(decode_text_file(&vec![0xff, 0xff]), Err(BuildError::Undecodable));
    assert_eq!(accept_euc_jp("a".into(), false), Ok("a".to_string()));
    assert_eq!(accept_euc_jp("a".into(), true), Err(BuildError::Undecodable));
}

#[test]
fn a_dictionary_is_built_and_can_be_used() {
    let (len, data) =
        build_system_dictionary(LEXICON, MATRIX, CHAR_DEF, UNK_DEF).expect("it is built");
    assert_eq!(len, data.len());
    let dictionary = Dictionary::read(data.as_slice()).expect("it can be read");
    let tokenizer = Tokenizer::new(dictionary);
    let mut worker = tokenizer.new_worker();
    worker.reset_sentence("東京");
    worker.tokenize();
    assert_eq!(worker.num_tokens(), 1);
    assert_eq!(worker.token(0).surface(), "東京");
}

#[test]
fn what_the_tokenizer_makes_is_written() {
    let make = |char_def: &str| {
        SystemDictionaryBuilder::from_readers(
            LEXICON.as_bytes(),
            MATRIX.as_bytes(),
            char_def.as_bytes(),
            UNK_DEF.as_bytes(),
        )
    };
    let whole = build_system_dictionary(LEXICON, MATRIX, CHAR_DEF, UNK_DEF);
    assert_eq!(dictionary_file(make(CHAR_DEF)), whole);
    let why = make("SPACE 0 1 0\n").err().expect("it is refused").to_string();
    assert!(!why.is_empty());
    let refused = dictionary_file(make("SPACE 0 1 0\n"));
    assert_eq!(refused, Err(BuildError::Rejected { message: why }));
}

#[test]
fn what_cannot_be_built_is_refused() {
    let refused = build_system_dictionary("京都,x,4,5\n", MATRIX, CHAR_DEF, UNK_DEF);
    assert!(matches!(refused, Err(BuildError::Rejected { .. })));
    assert_eq!(check_char_def("SPACE 0 1 0\n"), CharDefOutcome::Refused);
    let refused = build_system_dictionary(LEXICON, MATRIX, "SPACE 0 1 0\n", UNK_DEF);
    assert!(matches!(refused, Err(BuildError::Rejected { .. })));
}

#[test]
fn kinds_of_characters_are_looked_at_first() {
    assert_eq!(check_char_def(CHAR_DEF), CharDefOutcome::Taken);
    assert_eq!(
        check_char_def("DEFAULT 0 1 0\nKANJI 0 0 2\n0x4E00..0x9FFF KANJI\n"),
        CharDefOutcome::Taken
    );
    assert_eq!(check_char_def("DEFAULT 0 1\n"), CharDefOutcome::Refused);
}

#[test]
fn the_result_is_reported() {
    let text = built_message("in", "out", 12, 3);
    assert!(text.contains("in"));
    assert!(text.contains("out"));
    assert!(text.contains("12"));
    assert!(text.contains('3'));
}

#[test]
fn lists_that_are_cut_off_are_told() {
    assert!(is_cut_off("a,0,0,0,"));
    assert!(is_cut_off("DEFAULT,0,0,0,"));
    assert!(is_cut_off("\u{feff}京都,4,+4,-32768,"));
    assert!(is_cut_off("a,0,0,0,x\r\n\nb,1,65535,\"-5\","));
    assert!(is_cut_off("\"a,\"\"\n\",0,0,0,"));
    assert!(is_cut_off(&format!("{},0,0,0,", "a".repeat(4095))));
    assert!(!is_cut_off(""));
    assert!(!is_cut_off(LEXICON));
    assert!(!is_cut_off(UNK_DEF));
}

#[test]
fn lists_that_are_not_cut_off_are_read() {
    let taken = ["a,0,0,0", "a,0,0,0,\n", "a,0,0,0,x", "a,0,0,0,,", "a,0,0,0,\"", "a,0,0,-32768\r\n"];
    for list in taken {
        assert!(!is_cut_off(list), "{list:?}");
        assert!(build_system_dictionary(list, MATRIX, CHAR_DEF, UNK_DEF).is_ok(), "{list:?}");
    }
    let long = format!("{},0,0,0,", "a".repeat(4096));
    let refused = [
        "a,",
        "a,0,",
        "a,0,0,",
        "a,x,0,0,",
        "a,0,65536,0,",
        "a,0,-1,0,",
        "a,0,0,32768,",
        "a,0,0,-+5,",
        "a,0,0,-,",
        "a,0\nb,0,0,0,",
        long.as_str(),
    ];
    for list in refused {
        assert!(!is_cut_off(list), "{list:?}");
        let built = build_system_dictionary(list, MATRIX, CHAR_DEF, UNK_DEF);
        assert!(matches!(built, Err(BuildError::Rejected { .. })), "{list:?}");
    }
}
