//! The pluggable content-transform strategies and the processor that binds
//! one of them to the pipeline.
//!
//! A strategy is a pure function from a file name and its bytes to report
//! text, or to a domain failure for content it rejects. Exactly one strategy
//! is bound to a pipeline instance at construction; any conforming
//! implementation can be bound without changing the pipeline.

use vstd::prelude::*;
use vstd::string::StringExecFns;

use crate::config::ProcessingConfig;
use crate::error::AppError;
use crate::logging::spec_log_line;
use crate::text::spec_dec;
use crate::text::u64_to_dec_string;
use crate::text::usize_to_dec_string;
use crate::utils::hash_file_content;
use crate::utils::spec_hex_lower;
use crate::utils::spec_sha256;

verus! {

/// Whether a character counts as whitespace, as the Unicode property the
/// standard library implements defines it.
pub uninterp spec fn is_unicode_space(c: char) -> bool;

/// Relies on char::is_whitespace: the Unicode whitespace property of the
/// character, a function of the character alone.
pub assume_specification[ char::is_whitespace ](c: char) -> (r: bool)
    ensures
        r == is_unicode_space(c),
;

/// The characters that a byte sequence decodes to under lossy UTF-8
/// decoding.
pub uninterp spec fn spec_utf8_lossy(bytes: Seq<u8>) -> Seq<char>;

/// Relies on String::from_utf8_lossy: the decoded characters, a function of
/// the input bytes alone (invalid sequences become replacement characters).
#[verifier::external_body]
fn utf8_lossy_chars(content: &[u8]) -> (decoded: Vec<char>)
    ensures
        decoded@ == spec_utf8_lossy(content@),
{
    String::from_utf8_lossy(content).chars().collect()
}

/// The number of whitespace-separated words in the characters after `s`,
/// given whether the character just before them was whitespace (or there
/// was none): a word begins at each non-space character that follows a
/// space or the start.
pub open spec fn spec_count_words_from(s: Seq<char>, prev_space: bool) -> nat
    decreases s.len(),
{
    if s.len() == 0 {
        0
    } else {
        (if prev_space && !is_unicode_space(s.first()) {
            1nat
        } else {
            0nat
        }) + spec_count_words_from(s.drop_first(), is_unicode_space(s.first()))
    }
}

/// The number of whitespace-separated words in a character sequence.
pub open spec fn spec_count_words(s: Seq<char>) -> nat {
    spec_count_words_from(s, true)
}

/// How often a character occurs in a sequence.
pub open spec fn spec_count_char(s: Seq<char>, c: char) -> nat
    decreases s.len(),
{
    if s.len() == 0 {
        0
    } else {
        (if s.first() == c {
            1nat
        } else {
            0nat
        }) + spec_count_char(s.drop_first(), c)
    }
}

/// The number of lines in a character sequence: one per line break, plus an
/// unterminated final line.
pub open spec fn spec_count_lines(s: Seq<char>) -> nat {
    spec_count_char(s, '\n') + (if s.len() > 0 && s.last() != '\n' {
        1nat
    } else {
        0nat
    })
}

/// Count the whitespace-separated words in a character sequence.
pub fn count_words(chars: &Vec<char>) -> (n: usize)
    ensures
        n == spec_count_words(chars@),
{
    let mut count: usize = 0;
    let mut prev_space = true;
    let mut i: usize = 0;
    proof {
        assert(chars@.skip(0) =~= chars@);
    }
    while i < chars.len()
        invariant
            i <= chars@.len(),
            count <= i,
            count + spec_count_words_from(chars@.skip(i as int), prev_space) == spec_count_words(
                chars@,
            ),
        decreases chars@.len() - i,
    {
        let c = chars[i];
        let space = c.is_whitespace();
        proof {
            assert(chars@.skip(i as int).first() == chars@[i as int]);
            assert(chars@.skip(i as int).drop_first() =~= chars@.skip(i as int + 1));
        }
        if !space && prev_space {
            count = count + 1;
        }
        prev_space = space;
        i = i + 1;
    }
    proof {
        assert(chars@.skip(chars@.len() as int) =~= Seq::<char>::empty());
    }
    count
}

/// Count the lines in a character sequence.
pub fn count_lines(chars: &Vec<char>) -> (n: usize)
    ensures
        n == spec_count_lines(chars@),
{
    if chars.len() == 0 {
        return 0;
    }
    let last_index = chars.len() - 1;
    let mut count: usize = 0;
    let mut i: usize = 0;
    proof {
        assert(chars@.skip(0) =~= chars@);
    }
    while i < last_index
        invariant
            i <= last_index,
            last_index == chars@.len() - 1,
            count <= i,
            count + spec_count_char(chars@.skip(i as int), '\n') == spec_count_char(chars@, '\n'),
        decreases last_index - i,
    {
        proof {
            assert(chars@.skip(i as int).first() == chars@[i as int]);
            assert(chars@.skip(i as int).drop_first() =~= chars@.skip(i as int + 1));
        }
        if chars[i] == '\n' {
            count = count + 1;
        }
        i = i + 1;
    }
    proof {
        assert(chars@.skip(last_index as int) =~= seq![chars@.last()]);
        assert(seq![chars@.last()].first() == chars@.last());
        assert(seq![chars@.last()].drop_first() =~= Seq::<char>::empty());
        assert(spec_count_char(Seq::<char>::empty(), '\n') == 0);
        assert(spec_count_char(seq![chars@.last()], '\n') == (if chars@.last() == '\n' {
            1nat
        } else {
            0nat
        }));
    }
    count + 1
}

/// A pluggable content-transform strategy: a pure function from a file name
/// and its bytes to report text, or to a domain failure.
pub trait ProcessingStrategy {
    /// The exact text this strategy produces for the given input, or the
    /// exact message of the domain failure it reports.
    spec fn spec_process(&self, file_name: Seq<char>, content: Seq<u8>) -> Result<
        Seq<char>,
        Seq<char>,
    >;

    /// Process file content and return the processed text, or a domain
    /// processing failure for content the strategy rejects.
    fn process_content(&self, file_name: &str, content: &[u8]) -> (r: Result<String, AppError>)
        ensures
            (match r {
                Ok(out) => self.spec_process(file_name@, content@) == Ok::<Seq<char>, Seq<char>>(
                    out@,
                ),
                Err(e) => (e matches AppError::Processing(m) && self.spec_process(
                    file_name@,
                    content@,
                ) == Err::<Seq<char>, Seq<char>>(m@)),
            }),
    ;
}

/// A deterministic strategy is a function of its input alone: two results
/// that both satisfy the strategy's contract on the same file name and
/// content are the same text (or the same failure message).
pub proof fn lemma_strategy_deterministic<S: ProcessingStrategy>(
    strategy: &S,
    file_name: Seq<char>,
    content: Seq<u8>,
    first: Result<Seq<char>, Seq<char>>,
    second: Result<Seq<char>, Seq<char>>,
)
    requires
        first == strategy.spec_process(file_name, content),
        second == strategy.spec_process(file_name, content),
    ensures
        first == second,
{
}

/// The report text of the digest strategy.
pub open spec fn spec_hash_report(file_name: Seq<char>, content: Seq<u8>) -> Seq<char> {
    "Processed content for "@ + file_name + ": Data size "@ + spec_dec(content.len())
        + "\nSHA256: "@ + spec_hex_lower(spec_sha256(content))
}

/// The default strategy: a SHA-256 digest report of the content.
#[derive(Clone)]
pub struct HashProcessingStrategy;

impl ProcessingStrategy for HashProcessingStrategy {
    open spec fn spec_process(&self, file_name: Seq<char>, content: Seq<u8>) -> Result<
        Seq<char>,
        Seq<char>,
    > {
        Ok(spec_hash_report(file_name, content))
    }

    fn process_content(&self, file_name: &str, content: &[u8]) -> (r: Result<String, AppError>) {
        let mut out = String::from_str("Processed content for ");
        out.append(file_name);
        out.append(": Data size ");
        let size_text = usize_to_dec_string(content.len());
        out.append(size_text.as_str());
        out.append("\nSHA256: ");
        let hash_text = hash_file_content(content);
        out.append(hash_text.as_str());
        assert(out@ =~= spec_hash_report(file_name@, content@));
        Ok(out)
    }
}

/// The report text of the text-analysis strategy.
pub open spec fn spec_text_analysis_report(file_name: Seq<char>, content: Seq<u8>) -> Seq<char> {
    let decoded = spec_utf8_lossy(content);
    "Text analysis for "@ + file_name + ": Data size "@ + spec_dec(content.len()) + "\nWords: "@
        + spec_dec(spec_count_words(decoded)) + "\nCharacters: "@ + spec_dec(decoded.len())
        + "\nLines: "@ + spec_dec(spec_count_lines(decoded)) + "\nHash: "@ + spec_hex_lower(
        spec_sha256(content),
    )
}

/// A strategy that reports word, character and line counts of the content
/// read as text, with a digest.
#[derive(Clone)]
pub struct TextAnalysisStrategy;

impl ProcessingStrategy for TextAnalysisStrategy {
    open spec fn spec_process(&self, file_name: Seq<char>, content: Seq<u8>) -> Result<
        Seq<char>,
        Seq<char>,
    > {
        Ok(spec_text_analysis_report(file_name, content))
    }

    fn process_content(&self, file_name: &str, content: &[u8]) -> (r: Result<String, AppError>) {
        let decoded = utf8_lossy_chars(content);
        let word_count = count_words(&decoded);
        let char_count = decoded.len();
        let line_count = count_lines(&decoded);
        let mut out = String::from_str("Text analysis for ");
        out.append(file_name);
        out.append(": Data size ");
        let size_text = usize_to_dec_string(content.len());
        out.append(size_text.as_str());
        out.append("\nWords: ");
        let words_text = usize_to_dec_string(word_count);
        out.append(words_text.as_str());
        out.append("\nCharacters: ");
        let chars_text = usize_to_dec_string(char_count);
        out.append(chars_text.as_str());
        out.append("\nLines: ");
        let lines_text = usize_to_dec_string(line_count);
        out.append(lines_text.as_str());
        out.append("\nHash: ");
        let hash_text = hash_file_content(content);
        out.append(hash_text.as_str());
        assert(out@ =~= spec_text_analysis_report(file_name@, content@));
        Ok(out)
    }
}

/// Metadata of one completed processing step.
#[derive(Debug, Clone)]
pub struct ProcessingMetadata {
    /// Size of the input content in bytes.
    pub original_size: usize,
    /// Size of the processed text in bytes.
    pub processed_size: usize,
    /// Wall time of the transform step, in milliseconds.
    pub processing_time_ms: u64,
    /// Optional annotation supplied by the strategy.
    pub strategy_info: Option<String>,
}

/// The result of one successfully processed file.
#[derive(Debug)]
pub struct ProcessingResult {
    /// The input file's path.
    pub input_file: String,
    /// The written output file's path.
    pub output_file: String,
    /// Size of the input content in bytes.
    pub original_size: usize,
    /// Size of the processed text in bytes.
    pub processed_size: usize,
    /// Wall time of the transform step, in milliseconds.
    pub processing_time_ms: u64,
    /// Optional annotation supplied by the strategy.
    pub strategy_info: Option<String>,
}

/// The processor: the retry and output policy together with the one bound
/// strategy, shared read-only by every worker.
pub struct FileProcessor<S> {
    /// The processing configuration.
    pub config: ProcessingConfig,
    /// The bound content-transform strategy.
    pub strategy: S,
}

impl FileProcessor<TextAnalysisStrategy> {
    /// A processor with the default text-analysis strategy.
    pub fn new(config: ProcessingConfig) -> (p: Self)
        ensures
            p.config == config,
            p.strategy == TextAnalysisStrategy,
    {
        FileProcessor { config, strategy: TextAnalysisStrategy }
    }
}

impl<S: ProcessingStrategy> FileProcessor<S> {
    /// A processor with a custom processing strategy.
    pub fn with_strategy(config: ProcessingConfig, strategy: S) -> (p: Self)
        ensures
            p.config == config,
            p.strategy == strategy,
    {
        FileProcessor { config, strategy }
    }

    /// Run the bound strategy on one file's content. The host offloads this
    /// call to its pool for CPU-bound work; the result is a pure function
    /// of the arguments, wherever it runs.
    pub fn process_content(&self, file_name: &str, content: &[u8]) -> (r: Result<
        String,
        AppError,
    >)
        ensures
            (match r {
                Ok(out) => self.strategy.spec_process(file_name@, content@) == Ok::<
                    Seq<char>,
                    Seq<char>,
                >(out@),
                Err(e) => (e matches AppError::Processing(m) && self.strategy.spec_process(
                    file_name@,
                    content@,
                ) == Err::<Seq<char>, Seq<char>>(m@)),
            }),
    {
        self.strategy.process_content(file_name, content)
    }
}

/// The log line of one completed processing result under a context heading.
pub open spec fn spec_processing_result_line(context: Seq<char>, r: ProcessingResult) -> Seq<
    char,
> {
    spec_log_line(
        context + " completed successfully"@,
        "Input: "@ + r.input_file@ + ", Output: "@ + r.output_file@ + ", Original: "@ + spec_dec(
            r.original_size as nat,
        ) + " bytes, Processed: "@ + spec_dec(r.processed_size as nat) + " bytes, Time: "@
            + spec_dec(r.processing_time_ms as nat) + "ms, Strategy Info: "@ + (
        match r.strategy_info {
            Some(info) => info@,
            None => "None"@,
        }),
    )
}

/// Compose the log line that reports a processing result.
pub fn log_processing_result(context: &str, result: &ProcessingResult) -> (line: String)
    ensures
        line@ == spec_processing_result_line(context@, *result),
{
    let mut line = String::new();
    line.append(context);
    line.append(" completed successfully");
    line.append(" | ");
    line.append("Input: ");
    line.append(result.input_file.as_str());
    line.append(", Output: ");
    line.append(result.output_file.as_str());
    line.append(", Original: ");
    let original_text = usize_to_dec_string(result.original_size);
    line.append(original_text.as_str());
    line.append(" bytes, Processed: ");
    let processed_text = usize_to_dec_string(result.processed_size);
    line.append(processed_text.as_str());
    line.append(" bytes, Time: ");
    let time_text = u64_to_dec_string(result.processing_time_ms);
    line.append(time_text.as_str());
    line.append("ms, Strategy Info: ");
    match &result.strategy_info {
        Some(info) => {
            line.append(info.as_str());
        },
        None => {
            line.append("None");
        },
    }
    assert(line@ =~= spec_processing_result_line(context@, *result));
    line
}

} // verus!
