//! From the texts of IPADIC to the file of the tokenizer.

use crate::builder::char_def::char_def_outcome;
use crate::builder::csv::cut_off;
use crate::builder::lexicon::BuildError;
use crate::text::utf8_text;
use encoding_rs::EUC_JP;
use vibrato::errors::VibratoError;
use vibrato::{Dictionary, SystemDictionaryBuilder};
use vstd::prelude::*;

verus! {

/// The dictionary of the tokenizer.
#[verifier::external_type_specification]
#[verifier::external_body]
pub struct ExDictionary(Dictionary);

/// Why the tokenizer does not take a dictionary.
#[verifier::external_type_specification]
#[verifier::external_body]
pub struct ExVibratoError(VibratoError);

/// What `encoding_rs` makes of bytes as EUC-JP: the text, with a mark in place of each fault,
/// and whether there are faults.
pub uninterp spec fn euc_jp_decoded(bytes: Seq<u8>) -> (Seq<char>, bool);

/// Calls `decode` of `encoding_rs::EUC_JP`, whose text and flag depend on the bytes alone. A
/// mark of another encoding at the beginning is obeyed. It panics only where the size of its
/// buffer, at most three times that of the bytes, does not fit.
#[verifier::external_body]
fn euc_jp_text(bytes: &[u8]) -> (r: (String, bool))
    requires
        bytes@.len() <= usize::MAX / 8,
    ensures
        (r.0@, r.1) == euc_jp_decoded(bytes@),
{
    let (decoded, _, had_errors) = EUC_JP.decode(bytes);
    (decoded.into_owned(), had_errors)
}

/// What a dictionary holds, as it is written.
pub uninterp spec fn dictionary_data(dictionary: Dictionary) -> Seq<u8>;

/// What the tokenizer makes of a word list, a matrix of connections, a character definition
/// and the unknown words.
pub uninterp spec fn tokenizer_data(
    lexicon: Seq<char>,
    matrix: Seq<char>,
    char_def: Seq<char>,
    unk_def: Seq<char>,
) -> Seq<u8>;

/// Calls `vibrato::SystemDictionaryBuilder::from_readers`. What it makes of texts that it
/// takes depends on them alone. Which it takes is not said here: it refuses faulty ones, and
/// a matrix for which there is no memory. It panics on an empty matrix, on character
/// definitions that `char_def_outcome` tells, on a word list or unknown words that are over
/// right behind the comma after a cost, which `cut_off` tells, and where characters cannot be
/// counted.
#[verifier::external_body]
fn from_readers(lexicon: &str, matrix: &str, char_def: &str, unk_def: &str) -> (r: Result<
    Dictionary,
    VibratoError,
>)
    requires
        matrix@.len() > 0,
        lexicon@.len() <= u32::MAX,
        !(char_def_outcome(char_def@) is Panics),
        !cut_off(lexicon@),
        !cut_off(unk_def@),
    ensures
        r is Ok ==> dictionary_data(r->Ok_0) == tokenizer_data(
            lexicon@,
            matrix@,
            char_def@,
            unk_def@,
        ),
{
    SystemDictionaryBuilder::from_readers(
        lexicon.as_bytes(),
        matrix.as_bytes(),
        char_def.as_bytes(),
        unk_def.as_bytes(),
    )
}

/// The letters by which the tokenizer knows its files.
pub open spec fn file_magic() -> Seq<u8> {
    seq![
        86u8, 105, 98, 114, 97, 116, 111, 84, 111, 107, 101, 110, 105, 122, 101, 114, 32, 48, 46,
        53, 10,
    ]
}

/// Calls `vibrato::Dictionary::write` with a vector to write to: the file begins with the
/// letters by which the tokenizer knows it, what the dictionary holds follows, and the number
/// that is returned is how many bytes were written. Only writing can fail, and a vector takes
/// what is written.
#[verifier::external_body]
fn write_dictionary(dictionary: &Dictionary) -> (r: Result<(usize, Vec<u8>), VibratoError>)
    ensures
        r is Ok,
        (r->Ok_0).1@ == file_magic() + dictionary_data(*dictionary),
        (r->Ok_0).0 == (r->Ok_0).1@.len(),
{
    let mut out = Vec::new();
    let written = dictionary.write(&mut out)?;
    Ok((written, out))
}

/// What an error of the tokenizer says.
pub uninterp spec fn vibrato_error_text(error: VibratoError) -> Seq<char>;

/// Calls `to_string` of `vibrato::errors::VibratoError`, which says what was wrong. The text
/// depends on the error alone.
#[verifier::external_body]
fn error_text(error: &VibratoError) -> (r: String)
    ensures
        r@ == vibrato_error_text(*error),
{
    error.to_string()
}

/// The text of a file that is not UTF-8: what it says as EUC-JP, where that has no faults.
pub fn accept_euc_jp(decoded: String, had_errors: bool) -> (r: Result<String, BuildError>)
    ensures
        had_errors ==> r == Err::<String, BuildError>(BuildError::Undecodable),
        !had_errors ==> r == Ok::<String, BuildError>(decoded),
{
    if had_errors {
        Err(BuildError::Undecodable)
    } else {
        Ok(decoded)
    }
}

/// The text of a file: as UTF-8, or else as EUC-JP.
pub fn decode_text_file(bytes: &Vec<u8>) -> (r: Result<String, BuildError>)
    requires
        bytes@.len() <= usize::MAX / 8,
    ensures
        vstd::utf8::valid_utf8(bytes@) ==> r is Ok && r->Ok_0@ == vstd::utf8::decode_utf8(bytes@),
        !vstd::utf8::valid_utf8(bytes@) ==> match r {
            Ok(text) => !euc_jp_decoded(bytes@).1 && text@ == euc_jp_decoded(bytes@).0,
            Err(e) => euc_jp_decoded(bytes@).1 && e is Undecodable,
        },
{
    match utf8_text(bytes.as_slice()) {
        Ok(text) => Ok(text),
        Err(_) => {
            let (decoded, had_errors) = euc_jp_text(bytes.as_slice());
            accept_euc_jp(decoded, had_errors)
        },
    }
}

/// The file of a dictionary that the tokenizer has made, and how many bytes it has, or why it
/// has made none.
pub fn dictionary_file(made: Result<Dictionary, VibratoError>) -> (r: Result<
    (usize, Vec<u8>),
    BuildError,
>)
    ensures
        match made {
            Ok(dictionary) => r is Ok && (r->Ok_0).1@ == file_magic() + dictionary_data(dictionary)
                && (r->Ok_0).0 == (r->Ok_0).1@.len(),
            Err(e) => r matches Err(BuildError::Rejected { message }) && message@
                == vibrato_error_text(e),
        },
{
    match made {
        Err(e) => Err(BuildError::Rejected { message: error_text(&e) }),
        Ok(dictionary) => match write_dictionary(&dictionary) {
            Err(e) => Err(BuildError::Rejected { message: error_text(&e) }),
            Ok(done) => Ok(done),
        },
    }
}

/// The file of the tokenizer, and how many bytes it has. The texts must be ones on which the
/// tokenizer returns; whether it takes them is up to it, and it says why where it does not.
pub fn build_system_dictionary(
    lexicon: &str,
    matrix: &str,
    char_def: &str,
    unk_def: &str,
) -> (r: Result<(usize, Vec<u8>), BuildError>)
    requires
        matrix@.len() > 0,
        lexicon@.len() <= u32::MAX,
        !(char_def_outcome(char_def@) is Panics),
        !cut_off(lexicon@),
        !cut_off(unk_def@),
    ensures
        match r {
            Ok((written, file)) => file@ == file_magic() + tokenizer_data(
                lexicon@,
                matrix@,
                char_def@,
                unk_def@,
            ) && written == file@.len(),
            Err(e) => e matches BuildError::Rejected { message } && exists|why: VibratoError|
                message@ == #[trigger] vibrato_error_text(why),
        },
{
    dictionary_file(from_readers(lexicon, matrix, char_def, unk_def))
}

} // verus!
