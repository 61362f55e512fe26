//! The stop-word corpus: how it is read out of its packaged form, and the
//! handle through which the tokenizer reads it.

use vstd::prelude::*;
use vstd::std_specs::iter::IteratorSpec;
use vstd::string::StringExecFns;
use vstd::utf8::{decode_utf8, valid_utf8};

use crate::bindings::{gzip_decode, gzip_decoded};

verus! {

/// Why the stop words could not be had.
#[derive(Debug, Clone, Copy, PartialEq, Eq, Structural)]
pub enum StopWordsError {
    /// The packaged corpus is not a sound gzip stream.
    Decompress,
    /// The unpacked corpus is not UTF-8 text.
    InvalidUtf8,
    /// The corpus was asked for before it was initialised.
    NotInitialised,
}

impl StopWordsError {
    /// What `message` returns.
    pub open spec fn spec_message(&self) -> Seq<char> {
        match self {
            StopWordsError::Decompress => "failed to decompress stop words from linked data."@,
            StopWordsError::InvalidUtf8 => "failed to parse stop words from linked data."@,
            StopWordsError::NotInitialised =>
                "stop words was not initialised at time of calling."@,
        }
    }

    /// The error as a sentence for the user.
    pub fn message(&self) -> (r: String)
        ensures
            r@ == self.spec_message(),
    {
        match self {
            StopWordsError::Decompress => String::from_str(
                "failed to decompress stop words from linked data.",
            ),
            StopWordsError::InvalidUtf8 => String::from_str(
                "failed to parse stop words from linked data.",
            ),
            StopWordsError::NotInitialised => String::from_str(
                "stop words was not initialised at time of calling.",
            ),
        }
    }
}

/// The lines of a text: the pieces between its line breaks, in order.
///
/// A text with `n` line breaks has `n + 1` lines, some of which may be
/// empty; the empty text has one empty line.
pub open spec fn lines_of(text: Seq<char>) -> Seq<Seq<char>>
    decreases text.len(),
{
    if text.len() == 0 {
        seq![Seq::empty()]
    } else {
        let before = lines_of(text.drop_last());
        if text.last() == '\n' {
            before.push(Seq::empty())
        } else {
            before.drop_last().push(before.last().push(text.last()))
        }
    }
}

/// The text that the lines make when a line break is put between each two
/// of them.
pub open spec fn joined(lines: Seq<Seq<char>>) -> Seq<char>
    decreases lines.len(),
{
    if lines.len() == 0 {
        Seq::empty()
    } else if lines.len() == 1 {
        lines[0]
    } else {
        joined(lines.drop_last()).push('\n') + lines.last()
    }
}

/// True when `lines` is a reading of `text` as lines: there is at least
/// one line, none holds a line break, and joined by line breaks they give
/// the text.
pub open spec fn reads_as_lines(text: Seq<char>, lines: Seq<Seq<char>>) -> bool {
    &&& lines.len() >= 1
    &&& forall|i: int, j: int|
        0 <= i < lines.len() && 0 <= j < lines[i].len() ==> lines[i][j] != '\n'
    &&& joined(lines) == text
}

/// A text has one reading as lines and no other: `lines_of` gives it.
pub proof fn lemma_lines_unique(text: Seq<char>, lines: Seq<Seq<char>>)
    requires
        reads_as_lines(text, lines),
    ensures
        lines == lines_of(text),
    decreases text.len(),
{
    let last = lines.last();
    if text.len() == 0 {
        if lines.len() >= 2 {
            assert(joined(lines).len() == joined(lines.drop_last()).len() + 1 + last.len());
        }
        assert(lines.len() == 1);
        assert(lines[0] =~= Seq::<char>::empty());
        assert(lines =~= seq![Seq::<char>::empty()]);
    } else {
        let shorter = text.drop_last();
        let c = text.last();
        if lines.len() == 1 {
            assert(lines[0][lines[0].len() - 1] == c);
            let fewer = seq![lines[0].drop_last()];
            assert(reads_as_lines(shorter, fewer));
            lemma_lines_unique(shorter, fewer);
            assert(lines[0] =~= lines[0].drop_last().push(c));
            assert(lines =~= lines_of(text));
        } else if last.len() == 0 {
            let fewer = lines.drop_last();
            assert(joined(lines) =~= joined(fewer).push('\n'));
            assert(shorter =~= joined(fewer));
            assert(reads_as_lines(shorter, fewer));
            lemma_lines_unique(shorter, fewer);
            assert(lines =~= fewer.push(last));
            assert(last =~= Seq::<char>::empty());
        } else {
            let front = lines.drop_last();
            let fewer = front.push(last.drop_last());
            assert(last[last.len() - 1] == c);
            assert(fewer.drop_last() =~= front);
            assert(joined(fewer) =~= joined(front).push('\n') + last.drop_last());
            assert(shorter =~= joined(fewer));
            assert(reads_as_lines(shorter, fewer)) by {
                assert forall|i: int, j: int|
                    0 <= i < fewer.len() && 0 <= j < fewer[i].len() implies fewer[i][j]
                    != '\n' by {
                    if i < front.len() {
                        assert(fewer[i] == lines[i]);
                    } else {
                        assert(fewer[i][j] == last[j]);
                    }
                }
            }
            lemma_lines_unique(shorter, fewer);
            assert(last =~= last.drop_last().push(c));
            assert(lines =~= front.push(last));
        }
    }
}

/// The lines that `lines_of` gives are a reading of the text as lines.
pub proof fn lemma_lines_of(text: Seq<char>)
    ensures
        reads_as_lines(text, lines_of(text)),
    decreases text.len(),
{
    let lines = lines_of(text);
    if text.len() == 0 {
        assert(joined(lines) =~= text);
    } else {
        let shorter = text.drop_last();
        let before = lines_of(shorter);
        lemma_lines_of(shorter);
        assert(text =~= shorter.push(text.last()));
        if text.last() == '\n' {
            assert(lines.drop_last() =~= before);
            assert(joined(lines) =~= text);
        } else {
            let grown = before.last().push(text.last());
            assert(lines.last() == grown);
            if before.len() == 1 {
                assert(joined(lines) =~= text);
            } else {
                assert(lines.drop_last() =~= before.drop_last());
                assert(joined(lines) =~= joined(before).push(text.last()));
            }
        }
    }
}

/// The corpus that unpacked bytes hold: the lines of their text, or the
/// error of bytes that are not UTF-8.
pub open spec fn corpus_of_bytes(bytes: Seq<u8>) -> Result<Seq<Seq<char>>, StopWordsError> {
    if valid_utf8(bytes) {
        Ok(lines_of(decode_utf8(bytes)))
    } else {
        Err(StopWordsError::InvalidUtf8)
    }
}

/// The corpus that a packaged payload holds.
pub open spec fn corpus_of(payload: Seq<u8>) -> Result<Seq<Seq<char>>, StopWordsError> {
    match gzip_decoded(payload) {
        Some(bytes) => corpus_of_bytes(bytes),
        None => Err(StopWordsError::Decompress),
    }
}

/// True when `outcome` is what `expected` asks for: the same error, or
/// words that read as the expected lines.
pub open spec fn is_corpus(
    outcome: Result<Vec<String>, StopWordsError>,
    expected: Result<Seq<Seq<char>>, StopWordsError>,
) -> bool {
    match outcome {
        Ok(words) => expected == Ok::<Seq<Seq<char>>, StopWordsError>(words.deep_view()),
        Err(error) => expected == Err::<Seq<Seq<char>>, StopWordsError>(error),
    }
}

/// Splits a text on its line breaks.
pub fn split_lines(text: &str) -> (words: Vec<String>)
    ensures
        words.deep_view() == lines_of(text@),
        reads_as_lines(text@, words.deep_view()),
{
    let mut words: Vec<String> = Vec::new();
    let mut current = String::new();
    assert(words.deep_view().push(current@) =~= lines_of(text@.take(0)));
    for c in it: text.chars()
        invariant
            it.seq() == text@,
            words.deep_view().push(current@) == lines_of(text@.take(it.index())),
    {
        let ghost done = words.deep_view();
        let ghost piece = current@;
        proof {
            let longer = text@.take(it.index() + 1);
            assert(longer.drop_last() =~= text@.take(it.index()));
            assert(longer.last() == c);
        }
        if c == '\n' {
            words.push(current);
            current = String::new();
            assert(words.deep_view() =~= done.push(piece));
        } else {
            current.push(c);
            assert(done.push(piece).drop_last() =~= done);
        }
    }
    let ghost done = words.deep_view();
    words.push(current);
    assert(words.deep_view() =~= done.push(current@));
    assert(text@.take(text@.len() as int) =~= text@);
    proof {
        lemma_lines_of(text@);
    }
    words
}

/// Reads the corpus out of its unpacked bytes: the bytes are taken as
/// UTF-8 text, and each line of the text is one stop word.
pub fn parse_stop_words(bytes: Vec<u8>) -> (r: Result<Vec<String>, StopWordsError>)
    ensures
        is_corpus(r, corpus_of_bytes(bytes@)),
        r is Ok <==> valid_utf8(bytes@),
{
    match String::from_utf8(bytes) {
        Ok(text) => Ok(split_lines(text.as_str())),
        Err(_) => Err(StopWordsError::InvalidUtf8),
    }
}

/// Reads the corpus out of its packaged form: a gzip stream of UTF-8 text
/// with one stop word on each line.
pub fn load_stop_words(payload: &[u8]) -> (r: Result<Vec<String>, StopWordsError>)
    ensures
        is_corpus(r, corpus_of(payload@)),
{
    match gzip_decode(payload) {
        Some(bytes) => parse_stop_words(bytes),
        None => Err(StopWordsError::Decompress),
    }
}

/// The stop-word corpus of a process: empty until it is initialised, and
/// from then on the same words for every reader.
///
/// The view is `None` before the initialisation and the words after it.
#[derive(Debug)]
pub struct StopWords {
    words: Option<Vec<String>>,
}

impl View for StopWords {
    type V = Option<Seq<Seq<char>>>;

    closed spec fn view(&self) -> Option<Seq<Seq<char>>> {
        match self.words {
            Some(words) => Some(words.deep_view()),
            None => None,
        }
    }
}

impl StopWords {
    /// The state that an initialisation with `corpus` leads to from `state`:
    /// a corpus that is there stays, and an error leaves the state as it was.
    pub open spec fn spec_init(
        state: Option<Seq<Seq<char>>>,
        corpus: Result<Seq<Seq<char>>, StopWordsError>,
    ) -> Option<Seq<Seq<char>>> {
        match (state, corpus) {
            (Some(words), _) => Some(words),
            (None, Ok(words)) => Some(words),
            (None, Err(_)) => None,
        }
    }

    /// What an initialisation with `corpus` reports in `state`: nothing
    /// where a corpus is there already, else whether the corpus was read.
    pub open spec fn spec_init_result(
        state: Option<Seq<Seq<char>>>,
        corpus: Result<Seq<Seq<char>>, StopWordsError>,
    ) -> Result<(), StopWordsError> {
        match (state, corpus) {
            (None, Err(error)) => Err(error),
            _ => Ok(()),
        }
    }

    /// What a read returns in `state`.
    pub open spec fn spec_get(state: Option<Seq<Seq<char>>>) -> Result<
        Seq<Seq<char>>,
        StopWordsError,
    > {
        match state {
            Some(words) => Ok(words),
            None => Err(StopWordsError::NotInitialised),
        }
    }

    /// A read before any initialisation fails.
    pub proof fn lemma_read_before_init()
        ensures
            Self::spec_get(None) == Err::<Seq<Seq<char>>, StopWordsError>(
                StopWordsError::NotInitialised,
            ),
    {
    }

    /// Once an initialisation has succeeded, the corpus is settled: reads
    /// return its words, and a further initialisation, whatever it is given,
    /// reports success and changes nothing.
    pub proof fn lemma_first_init_settles(
        words: Seq<Seq<char>>,
        later: Result<Seq<Seq<char>>, StopWordsError>,
    )
        ensures
            Self::spec_init(None, Ok(words)) == Some(words),
            Self::spec_get(Self::spec_init(None, Ok(words))) == Ok::<
                Seq<Seq<char>>,
                StopWordsError,
            >(words),
            Self::spec_init(Some(words), later) == Some(words),
            Self::spec_init_result(Some(words), later) == Ok::<(), StopWordsError>(()),
            Self::spec_get(Self::spec_init(Some(words), later)) == Self::spec_get(Some(words)),
    {
    }

    /// An initialisation that fails leaves the corpus uninitialised.
    pub proof fn lemma_failed_init(error: StopWordsError)
        ensures
            Self::spec_init(None, Err(error)) is None,
            Self::spec_init_result(None, Err(error)) == Err::<(), StopWordsError>(error),
    {
    }

    /// The corpus before its initialisation.
    pub fn new() -> (r: Self)
        ensures
            r@ is None,
    {
        Self { words: None }
    }

    /// True once the corpus has been initialised.
    pub fn is_initialised(&self) -> (r: bool)
        ensures
            r == (self@ is Some),
    {
        self.words.is_some()
    }

    /// Initialises the corpus from its packaged form.
    ///
    /// The first initialisation that succeeds settles the corpus: every
    /// later one changes nothing and reports success. One that fails leaves
    /// the corpus uninitialised.
    pub fn init_stop_words(&mut self, payload: &[u8]) -> (r: Result<(), StopWordsError>)
        ensures
            final(self)@ == Self::spec_init(old(self)@, corpus_of(payload@)),
            r == Self::spec_init_result(old(self)@, corpus_of(payload@)),
    {
        if self.words.is_some() {
            return Ok(());
        }
        match load_stop_words(payload) {
            Ok(words) => {
                self.words = Some(words);
                Ok(())
            },
            Err(error) => Err(error),
        }
    }

    /// A copy of the stop words, in the order of the corpus.
    ///
    /// Fails when the corpus has not been initialised.
    pub fn get_stop_words(&self) -> (r: Result<Vec<String>, StopWordsError>)
        ensures
            is_corpus(r, Self::spec_get(self@)),
    {
        match &self.words {
            Some(words) => {
                let copy = words.clone();
                assert(copy.deep_view() =~= words.deep_view());
                Ok(copy)
            },
            None => Err(StopWordsError::NotInitialised),
        }
    }
}

} // verus!
