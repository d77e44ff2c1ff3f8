//! Verified core of a binding to HDiffPatch with zstd compression: the
//! diff options, the status words of the engine and the errors they stand
//! for, and the decisions taken around each call into the engine.

mod message;
mod options;
mod paths;
mod single;
mod status;

pub use message::{
    decimal, decimal_digits, decimal_string, digit_char, digit_value, digits_value,
    lemma_decimal_digits_read_back, lemma_decimal_reads_back, message_of,
};
pub use options::{default_options, lemma_last_setting_wins, lemma_setters_commute, DiffOptions};
pub use paths::{
    all_utf8, diff_dir, lemma_all_utf8_is_each_valid, lemma_path_text_refuses_only_bad_utf8,
    lemma_path_text_round_trip, patch_dir, path_str, path_text, DirDiffJob,
    DirPatchJob,
};
pub use single::{
    byte_count, diff_info_result, diff_output, lemma_byte_count_is_the_word,
    lemma_recorded_len_is_new_size, lemma_written_prefix_holds_the_count, lemma_written_prefix_len,
    lemma_zeros, patch, recorded_len,
    written_len, written_prefix, zeroed, zeros, DiffInfo, PatchEvent, PatchStep,
};
pub use status::{
    code_value, error_of, lemma_codes_distinct, lemma_codes_name_errors, lemma_low_word_is_low_32_bits,
    lemma_negative_words, lemma_unit_words,
    lemma_status_succeeds_iff_not_negative, lemma_unknown_codes_kept, low_word, named_error,
    status, status_of, unit, unit_of, Error, HdpResult,
};
