use std::io::Write;

use lnx_document::stop_words::{parse_stop_words, split_lines};
use lnx_document::{load_stop_words, StopWords, StopWordsError};

fn gzip(text: &[u8]) -> Vec<u8> {
    let mut encoder = flate2::write::GzEncoder::new(Vec::new(), flate2::Compression::default());
    encoder.write_all(text).unwrap();
    encoder.finish().unwrap()
}

fn words(list: &[&str]) -> Vec<String> {
    list.iter().map(|word| word.to_string()).collect()
}

#[test]
fn the_packaged_corpus_is_read_in_order() {
    let payload = gzip(b"the\na\nan\nof");
    assert_eq!(load_stop_words(&payload), Ok(words(&["the", "a", "an", "of"])));
}

#[test]
fn repeated_words_are_kept() {
    let payload = gzip(b"a\nb\na");
    assert_eq!(load_stop_words(&payload), Ok(words(&["a", "b", "a"])));
}

#[test]
fn a_payload_that_is_no_gzip_stream_is_refused() {
    assert_eq!(load_stop_words(b"the\na\nan\nof"), Err(StopWordsError::Decompress));
    assert_eq!(load_stop_words(&[]), Err(StopWordsError::Decompress));
}

#[test]
fn a_truncated_payload_is_refused() {
    let payload = gzip(b"the\na\nan\nof, and many more words to make the stream long enough");
    assert_eq!(load_stop_words(&payload[..payload.len() / 2]), Err(StopWordsError::Decompress));
}

#[test]
fn a_corpus_that_is_not_text_is_refused() {
    let payload = gzip(&[b'a', b'\n', 0xff, 0xfe]);
    assert_eq!(load_stop_words(&payload), Err(StopWordsError::InvalidUtf8));
}

#[test]
fn an_empty_corpus_holds_one_empty_word() {
    assert_eq!(load_stop_words(&gzip(b"")), Ok(words(&[""])));
}

#[test]
fn unpacked_bytes_are_split_into_lines() {
    assert_eq!(parse_stop_words(b"the\na".to_vec()), Ok(words(&["the", "a"])));
    assert_eq!(parse_stop_words("d\u{e9}j\u{e0}\nvu".as_bytes().to_vec()), Ok(words(&["d\u{e9}j\u{e0}", "vu"])));
}

#[test]
fn unpacked_bytes_that_are_not_text_are_refused() {
    assert_eq!(parse_stop_words(vec![0xc3]), Err(StopWordsError::InvalidUtf8));
    assert_eq!(parse_stop_words(vec![b'a', 0x80]), Err(StopWordsError::InvalidUtf8));
}

#[test]
fn a_text_splits_on_its_line_breaks() {
    assert_eq!(split_lines("the\na\nan\nof"), words(&["the", "a", "an", "of"]));
    assert_eq!(split_lines("one"), words(&["one"]));
    assert_eq!(split_lines(""), words(&[""]));
    assert_eq!(split_lines("\n"), words(&["", ""]));
    assert_eq!(split_lines("a\n"), words(&["a", ""]));
    assert_eq!(split_lines("\na"), words(&["", "a"]));
    assert_eq!(split_lines("a\n\nb"), words(&["a", "", "b"]));
    assert_eq!(split_lines("a b\r\nc"), words(&["a b\r", "c"]));
}

#[test]
fn splitting_agrees_with_the_standard_split() {
    for text in ["", "\n\n", "x\ny\n", "na\u{ef}ve\n\u{1f600}\nz"] {
        let expected: Vec<String> = text.split('\n').map(|word| word.to_string()).collect();
        assert_eq!(split_lines(text), expected);
    }
}

#[test]
fn a_read_before_the_initialisation_fails() {
    let corpus = StopWords::new();
    assert!(!corpus.is_initialised());
    assert_eq!(corpus.get_stop_words(), Err(StopWordsError::NotInitialised));
}

#[test]
fn reads_after_the_initialisation_return_the_same_words() {
    let mut corpus = StopWords::new();
    assert_eq!(corpus.init_stop_words(&gzip(b"the\na\nan\nof")), Ok(()));
    assert!(corpus.is_initialised());
    let first = corpus.get_stop_words().unwrap();
    let second = corpus.get_stop_words().unwrap();
    assert_eq!(first, words(&["the", "a", "an", "of"]));
    assert_eq!(first, second);
}

#[test]
fn a_copy_of_the_words_can_be_changed_without_harm() {
    let mut corpus = StopWords::new();
    corpus.init_stop_words(&gzip(b"the\na")).unwrap();
    let mut copy = corpus.get_stop_words().unwrap();
    copy.push("extra".to_string());
    copy[0].push('!');
    assert_eq!(corpus.get_stop_words(), Ok(words(&["the", "a"])));
}

#[test]
fn a_second_initialisation_changes_nothing() {
    let mut corpus = StopWords::new();
    corpus.init_stop_words(&gzip(b"the\na")).unwrap();
    assert_eq!(corpus.init_stop_words(&gzip(b"other\nwords")), Ok(()));
    assert_eq!(corpus.get_stop_words(), Ok(words(&["the", "a"])));
}

#[test]
fn a_second_initialisation_with_a_broken_payload_is_discarded() {
    let mut corpus = StopWords::new();
    corpus.init_stop_words(&gzip(b"the\na")).unwrap();
    assert_eq!(corpus.init_stop_words(b"not gzip"), Ok(()));
    assert_eq!(corpus.init_stop_words(&gzip(&[0xff])), Ok(()));
    assert_eq!(corpus.get_stop_words(), Ok(words(&["the", "a"])));
}

#[test]
fn a_failed_initialisation_leaves_the_corpus_uninitialised() {
    let mut corpus = StopWords::new();
    assert_eq!(corpus.init_stop_words(b"not gzip"), Err(StopWordsError::Decompress));
    assert_eq!(corpus.get_stop_words(), Err(StopWordsError::NotInitialised));
    assert_eq!(corpus.init_stop_words(&gzip(&[0xff])), Err(StopWordsError::InvalidUtf8));
    assert!(!corpus.is_initialised());
    assert_eq!(corpus.init_stop_words(&gzip(b"a")), Ok(()));
    assert_eq!(corpus.get_stop_words(), Ok(words(&["a"])));
}

#[test]
fn the_stop_word_errors_read_as_sentences() {
    assert_eq!(
        StopWordsError::Decompress.message(),
        "failed to decompress stop words from linked data."
    );
    assert_eq!(
        StopWordsError::InvalidUtf8.message(),
        "failed to parse stop words from linked data."
    );
    assert_eq!(
        StopWordsError::NotInitialised.message(),
        "stop words was not initialised at time of calling."
    );
}
