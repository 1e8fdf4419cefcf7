//! Building the dictionary of the tokenizer out of the files of IPADIC.

pub mod char_def;
pub mod csv;
pub mod dictionary;
pub mod lexicon;
