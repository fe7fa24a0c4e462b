use concurrent_file_processor::config::ProcessingConfig;
use concurrent_file_processor::processor::{
    count_lines, count_words, log_processing_result, FileProcessor, HashProcessingStrategy,
    ProcessingResult, ProcessingStrategy, TextAnalysisStrategy,
};

const SHA256_HELLO: &str = "2cf24dba5fb0a30e26e83b2ac5b9e29e1b161e5c1fa7425e73043362938b9824";
const SHA256_EMPTY: &str = "e3b0c44298fc1c149afbf4c8996fb92427ae41e4649b934ca495991b7852b855";

#[test]
fn hash_strategy_reports_digest() {
    let out = HashProcessingStrategy.process_content("a.txt", b"hello").unwrap();
    assert_eq!(
        out,
        format!("Processed content for a.txt: Data size 5\nSHA256: {}", SHA256_HELLO)
    );
}

#[test]
fn hash_strategy_empty_content() {
    let out = HashProcessingStrategy.process_content("empty.bin", b"").unwrap();
    assert_eq!(
        out,
        format!("Processed content for empty.bin: Data size 0\nSHA256: {}", SHA256_EMPTY)
    );
}

#[test]
fn strategy_is_deterministic() {
    // A deterministic strategy returns identical text across repeated
    // invocations on the same content.
    let first = HashProcessingStrategy.process_content("a.txt", b"hello").unwrap();
    let second = HashProcessingStrategy.process_content("a.txt", b"hello").unwrap();
    assert_eq!(first, second);
    let third = TextAnalysisStrategy.process_content("a.txt", b"hello").unwrap();
    let fourth = TextAnalysisStrategy.process_content("a.txt", b"hello").unwrap();
    assert_eq!(third, fourth);
}

#[test]
fn text_analysis_counts_hello() {
    let out = TextAnalysisStrategy.process_content("a.txt", b"hello").unwrap();
    assert_eq!(
        out,
        format!(
            "Text analysis for a.txt: Data size 5\nWords: 1\nCharacters: 5\nLines: 1\nHash: {}",
            SHA256_HELLO
        )
    );
}

#[test]
fn text_analysis_counts_multiline() {
    let content = b"hello world\nsecond line\n";
    let out = TextAnalysisStrategy.process_content("t.txt", content).unwrap();
    let hash = concurrent_file_processor::utils::hash_file_content(content);
    assert_eq!(
        out,
        format!(
            "Text analysis for t.txt: Data size 24\nWords: 4\nCharacters: 24\nLines: 2\nHash: {}",
            hash
        )
    );
}

#[test]
fn text_analysis_invalid_utf8_is_replaced() {
    // One invalid byte decodes to one replacement character.
    let out = TextAnalysisStrategy.process_content("b.bin", &[0xff]).unwrap();
    let hash = concurrent_file_processor::utils::hash_file_content(&[0xff]);
    assert_eq!(
        out,
        format!(
            "Text analysis for b.bin: Data size 1\nWords: 1\nCharacters: 1\nLines: 1\nHash: {}",
            hash
        )
    );
}

#[test]
fn word_count_rules() {
    let chars = |s: &str| s.chars().collect::<Vec<char>>();
    assert_eq!(count_words(&chars("")), 0);
    assert_eq!(count_words(&chars("   ")), 0);
    assert_eq!(count_words(&chars("one")), 1);
    assert_eq!(count_words(&chars("a  b\tc")), 3);
    assert_eq!(count_words(&chars(" leading and trailing ")), 3);
    assert_eq!(count_words(&chars("line\nbreaks\ncount")), 3);
}

#[test]
fn line_count_rules() {
    let chars = |s: &str| s.chars().collect::<Vec<char>>();
    assert_eq!(count_lines(&chars("")), 0);
    assert_eq!(count_lines(&chars("a")), 1);
    assert_eq!(count_lines(&chars("a\n")), 1);
    assert_eq!(count_lines(&chars("\n")), 1);
    assert_eq!(count_lines(&chars("a\nb")), 2);
    assert_eq!(count_lines(&chars("a\nb\n")), 2);
}

#[test]
fn processor_binds_strategies() {
    let processor = FileProcessor::new(ProcessingConfig::default());
    let out = processor.process_content("a.txt", b"hello").unwrap();
    assert_eq!(
        out,
        format!(
            "Text analysis for a.txt: Data size 5\nWords: 1\nCharacters: 5\nLines: 1\nHash: {}",
            SHA256_HELLO
        )
    );
    let custom = FileProcessor::with_strategy(ProcessingConfig::default(), HashProcessingStrategy);
    let out = custom.process_content("a.txt", b"hello").unwrap();
    assert_eq!(
        out,
        format!("Processed content for a.txt: Data size 5\nSHA256: {}", SHA256_HELLO)
    );
}

#[test]
fn processing_result_log_line() {
    let result = ProcessingResult {
        input_file: "input/a.txt".to_string(),
        output_file: "output/a.processed.txt".to_string(),
        original_size: 5,
        processed_size: 74,
        processing_time_ms: 12,
        strategy_info: None,
    };
    let line = log_processing_result("File processing", &result);
    assert_eq!(
        line,
        "File processing completed successfully | Input: input/a.txt, \
         Output: output/a.processed.txt, Original: 5 bytes, Processed: 74 bytes, \
         Time: 12ms, Strategy Info: None"
    );
}

#[test]
fn processing_result_log_line_with_info() {
    let result = ProcessingResult {
        input_file: "in/x".to_string(),
        output_file: "out/x.p".to_string(),
        original_size: 1,
        processed_size: 2,
        processing_time_ms: 3,
        strategy_info: Some("checksum".to_string()),
    };
    let line = log_processing_result("Existing file processing", &result);
    assert_eq!(
        line,
        "Existing file processing completed successfully | Input: in/x, Output: out/x.p, \
         Original: 1 bytes, Processed: 2 bytes, Time: 3ms, Strategy Info: checksum"
    );
}
