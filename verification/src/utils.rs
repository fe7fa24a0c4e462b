//! Pure helpers of the pipeline: content digests, file-name handling, and
//! size formatting.
//!
//! Paths are handled as plain text, with `/` as the one separator (the
//! POSIX rule; a platform that also separates on `\` is not modelled). A
//! path's file name is its last component, with trailing separators and
//! trailing `.` components ignored; only an empty path, a root, or a path
//! whose last component is `..` has none.

use vstd::prelude::*;
use vstd::arithmetic::div_mod::lemma_fundamental_div_mod_converse;
use vstd::string::StrSliceExecFns;
use vstd::string::StringExecFns;
use sha2::Digest;

use crate::config::ProcessingConfig;
use crate::error::AppError;
use crate::text::digit_str;
use crate::text::spec_dec;
use crate::text::spec_digit_char;
use crate::text::u64_to_dec_string;

verus! {

// ---------------------------------------------------------------------------
// Content digest
// ---------------------------------------------------------------------------

/// The SHA-256 digest of a byte sequence, as sha2 computes it.
pub uninterp spec fn spec_sha256(data: Seq<u8>) -> Seq<u8>;

/// Relies on sha2's `Sha256` through the one-shot `Digest::digest`: the
/// SHA-256 digest of the input, a function of the input bytes alone, 32
/// bytes long.
#[verifier::external_body]
fn sha256_digest(content: &[u8]) -> (digest_bytes: Vec<u8>)
    ensures
        digest_bytes@ == spec_sha256(content@),
        digest_bytes@.len() == 32,
{
    sha2::Sha256::digest(content).to_vec()
}

/// The lowercase hex digit character for a value below sixteen.
pub open spec fn spec_hex_digit_char(d: nat) -> char
    recommends
        d < 16,
{
    if d < 10 {
        spec_digit_char(d)
    } else if d == 10 {
        'a'
    } else if d == 11 {
        'b'
    } else if d == 12 {
        'c'
    } else if d == 13 {
        'd'
    } else if d == 14 {
        'e'
    } else {
        'f'
    }
}

/// The lowercase hex rendering of a byte sequence: two digits per byte, high
/// nibble first.
pub open spec fn spec_hex_lower(data: Seq<u8>) -> Seq<char>
    decreases data.len(),
{
    if data.len() == 0 {
        Seq::empty()
    } else {
        seq![
            spec_hex_digit_char((data.first() / 16) as nat),
            spec_hex_digit_char((data.first() % 16) as nat),
        ] + spec_hex_lower(data.drop_first())
    }
}

/// A hex rendering is exactly twice as long as its input.
pub proof fn lemma_hex_lower_len(data: Seq<u8>)
    ensures
        spec_hex_lower(data).len() == 2 * data.len(),
    decreases data.len(),
{
    if data.len() > 0 {
        lemma_hex_lower_len(data.drop_first());
    }
}

/// Relies on hex::encode: the lowercase hex string of the input, two digits
/// per byte, high nibble first.
#[verifier::external_body]
fn hex_encode(bytes: &[u8]) -> (r: String)
    ensures
        r@ == spec_hex_lower(bytes@),
{
    hex::encode(bytes)
}

/// Hash file content using SHA-256 and render the digest as lowercase hex.
pub fn hash_file_content(content: &[u8]) -> (r: String)
    ensures
        r@ == spec_hex_lower(spec_sha256(content@)),
        r@.len() == 64,
{
    let digest_bytes = sha256_digest(content);
    let r = hex_encode(digest_bytes.as_slice());
    proof {
        lemma_hex_lower_len(spec_sha256(content@));
    }
    r
}

// ---------------------------------------------------------------------------
// File names
// ---------------------------------------------------------------------------

/// The suffix of a path after its last `/` separator (the whole path when it
/// holds no separator; empty when it ends in one).
pub open spec fn spec_after_last_slash(s: Seq<char>) -> Seq<char>
    decreases s.len(),
{
    if s.len() == 0 {
        s
    } else if s.last() == '/' {
        Seq::empty()
    } else {
        spec_after_last_slash(s.drop_last()).push(s.last())
    }
}

/// A path with its trailing separators and trailing `.` components removed:
/// they say nothing about which file the path denotes.
pub open spec fn spec_trim_path_end(s: Seq<char>) -> Seq<char>
    decreases s.len(),
{
    if s.len() == 0 {
        s
    } else if s.last() == '/' {
        spec_trim_path_end(s.drop_last())
    } else if s.last() == '.' && (s.len() == 1 || s[s.len() - 2] == '/') {
        spec_trim_path_end(s.drop_last())
    } else {
        s
    }
}

/// The file name of a path: its last component, ignoring trailing
/// separators and trailing `.` components (`a.txt/` and `a.txt/.` both name
/// `a.txt`). A path with no component left — empty, a root, or all `.`
/// components — or whose last component is `..`, has none.
pub open spec fn spec_file_name(path: Seq<char>) -> Option<Seq<char>> {
    let base = spec_after_last_slash(spec_trim_path_end(path));
    if base.len() == 0 || base == seq!['.', '.'] {
        None
    } else {
        Some(base)
    }
}

proof fn lemma_after_last_slash_suffix(s: Seq<char>, start: int)
    requires
        0 <= start <= s.len(),
        forall|k: int| start <= k < s.len() ==> s[k] != '/',
        start > 0 ==> s[start - 1] == '/',
    ensures
        spec_after_last_slash(s) == s.skip(start),
    decreases s.len(),
{
    if s.len() == 0 {
        assert(s.skip(start) =~= s);
    } else if s.last() == '/' {
        assert(start == s.len());
        assert(s.skip(start) =~= Seq::<char>::empty());
    } else {
        assert(start < s.len());
        lemma_after_last_slash_suffix(s.drop_last(), start);
        assert(s.drop_last().skip(start).push(s.last()) =~= s.skip(start));
    }
}

/// Extract the file name from a path, or report a domain failure when the
/// path has none.
pub fn extract_file_name(file_path: &str) -> (r: Result<String, AppError>)
    ensures
        (match r {
            Ok(name) => spec_file_name(file_path@) == Some(name@),
            Err(e) => spec_file_name(file_path@) is None && (e matches AppError::Processing(m)
                && m@ == "Could not get file name for "@ + file_path@),
        }),
{
    let n = file_path.unicode_len();
    let mut end = n;
    proof {
        assert(file_path@.take(n as int) =~= file_path@);
    }
    while end > 0 && (file_path.get_char(end - 1) == '/' || (file_path.get_char(end - 1) == '.'
        && (end == 1 || file_path.get_char(end - 2) == '/')))
        invariant
            end <= n,
            n == file_path@.len(),
            spec_trim_path_end(file_path@) == spec_trim_path_end(file_path@.take(end as int)),
        decreases end,
    {
        proof {
            assert(file_path@.take(end as int).drop_last() =~= file_path@.take(end as int - 1));
        }
        end = end - 1;
    }
    let ghost trimmed = file_path@.take(end as int);
    proof {
        assert(spec_trim_path_end(trimmed) == trimmed);
        assert(spec_trim_path_end(file_path@) == trimmed);
    }
    let mut start = end;
    while start > 0 && file_path.get_char(start - 1) != '/'
        invariant
            start <= end,
            end <= n,
            n == file_path@.len(),
            forall|k: int| start <= k < end ==> file_path@[k] != '/',
        decreases start,
    {
        start = start - 1;
    }
    proof {
        lemma_after_last_slash_suffix(trimmed, start as int);
    }
    let ghost base = spec_after_last_slash(trimmed);
    let base_len = end - start;
    let missing = if base_len == 0 {
        true
    } else if base_len == 2 && file_path.get_char(start) == '.' && file_path.get_char(start + 1)
        == '.' {
        proof {
            assert(base =~= seq!['.', '.']);
        }
        true
    } else {
        proof {
            if base_len == 2 {
                assert(base != seq!['.', '.']) by {
                    assert(base[0] != '.' || base[1] != '.');
                }
            } else {
                assert(base != seq!['.', '.']) by {
                    assert(seq!['.', '.'].len() == 2);
                }
            }
        }
        false
    };
    if missing {
        let mut m = String::from_str("Could not get file name for ");
        m.append(file_path);
        assert(m@ =~= "Could not get file name for "@ + file_path@);
        Err(AppError::Processing(m))
    } else {
        let name = file_path.substring_char(start, end);
        assert(name@ =~= base);
        Ok(String::from_str(name))
    }
}

// ---------------------------------------------------------------------------
// Output names
// ---------------------------------------------------------------------------

/// The position of the last `.` in a file name, never counting a leading dot
/// (a name that only starts with a dot has no extension).
pub open spec fn spec_last_dot(s: Seq<char>) -> Option<int>
    decreases s.len(),
{
    if s.len() <= 1 {
        None
    } else if s.last() == '.' {
        Some(s.len() - 1)
    } else {
        spec_last_dot(s.drop_last())
    }
}

/// The stem of a file name: everything before the last `.`, or the whole
/// name when it has no extension.
pub open spec fn spec_stem(name: Seq<char>) -> Seq<char> {
    match spec_last_dot(name) {
        Some(k) => name.take(k),
        None => name,
    }
}

/// The output file name derived from an input file name: its stem followed
/// by the configured extension.
pub open spec fn spec_output_name(name: Seq<char>, extension: Seq<char>) -> Seq<char> {
    spec_stem(name) + extension
}

proof fn lemma_last_dot_none(s: Seq<char>)
    requires
        forall|j: int| 1 <= j < s.len() ==> s[j] != '.',
    ensures
        spec_last_dot(s) is None,
    decreases s.len(),
{
    if s.len() > 1 {
        lemma_last_dot_none(s.drop_last());
    }
}

proof fn lemma_last_dot_some(s: Seq<char>, k: int)
    requires
        1 <= k < s.len(),
        s[k] == '.',
        forall|j: int| k < j < s.len() ==> s[j] != '.',
    ensures
        spec_last_dot(s) == Some(k),
    decreases s.len(),
{
    if k == s.len() - 1 {
    } else {
        lemma_last_dot_some(s.drop_last(), k);
    }
}

/// Derive the output file name for an input file name: the input's stem with
/// the configured extension appended.
///
/// Total by choice: a name without a stem of its own (the empty name)
/// yields the bare extension rather than a failure. The pipeline never
/// reaches that case — a task whose path has no file name already fails at
/// name extraction, so every name arriving here has a non-empty stem.
pub fn derive_output_name(file_name: &str, output_extension: &str) -> (r: String)
    ensures
        r@ == spec_output_name(file_name@, output_extension@),
{
    let n = file_name.unicode_len();
    let mut k = n;
    while k > 1 && file_name.get_char(k - 1) != '.'
        invariant
            k <= n,
            n == file_name@.len(),
            forall|j: int| k <= j < n ==> file_name@[j] != '.',
        decreases k,
    {
        k = k - 1;
    }
    let stem_end = if k > 1 {
        proof {
            lemma_last_dot_some(file_name@, k - 1);
        }
        k - 1
    } else {
        proof {
            lemma_last_dot_none(file_name@);
        }
        n
    };
    let stem = file_name.substring_char(0, stem_end);
    let mut r = String::from_str(stem);
    r.append(output_extension);
    assert(stem@ =~= spec_stem(file_name@));
    assert(r@ =~= spec_output_name(file_name@, output_extension@));
    r
}

/// A directory location joined with a file name: a `/` separator is inserted
/// unless the directory is empty or already ends in one. Meant for a plain
/// file name, not for an absolute path.
pub open spec fn spec_join(dir: Seq<char>, name: Seq<char>) -> Seq<char> {
    if dir.len() == 0 {
        name
    } else if dir.last() == '/' {
        dir + name
    } else {
        dir + seq!['/'] + name
    }
}

/// Join a directory location and a file name into one path.
pub fn join_path(dir: &str, name: &str) -> (r: String)
    ensures
        r@ == spec_join(dir@, name@),
{
    let n = dir.unicode_len();
    let mut r = String::from_str(dir);
    if n > 0 && dir.get_char(n - 1) != '/' {
        r.append("/");
        proof {
            reveal_strlit("/");
        }
    }
    r.append(name);
    assert(r@ =~= spec_join(dir@, name@));
    r
}

// ---------------------------------------------------------------------------
// Path validation and availability classification
// ---------------------------------------------------------------------------

/// Classify a failed open attempt: whether its OS error code is the
/// configured "file locked" signal. The availability gate treats every
/// failed open as transient either way; the classification only shapes the
/// report.
pub fn open_error_is_lock_signal(raw_os_error: Option<i32>, config: &ProcessingConfig) -> (locked:
    bool)
    ensures
        locked == (raw_os_error == Some(config.file_locked_error_code)),
{
    match raw_os_error {
        Some(code) => code == config.file_locked_error_code,
        None => false,
    }
}

/// Classify an observed path: it must exist and denote a regular file. The
/// caller reports what it observed on the filesystem; the classification and
/// the failure text are fixed here.
pub fn validate_file_path(file_path: &str, path_exists: bool, is_regular_file: bool) -> (r: Result<
    (),
    AppError,
>)
    ensures
        r is Ok <==> path_exists && is_regular_file,
        (match r {
            Ok(u) => true,
            Err(e) => (e matches AppError::Processing(m) && m@ == (if !path_exists {
                "File does not exist: "@ + file_path@
            } else {
                "Path is not a file: "@ + file_path@
            })),
        }),
{
    if !path_exists {
        let mut m = String::from_str("File does not exist: ");
        m.append(file_path);
        assert(m@ =~= "File does not exist: "@ + file_path@);
        Err(AppError::Processing(m))
    } else if !is_regular_file {
        let mut m = String::from_str("Path is not a file: ");
        m.append(file_path);
        assert(m@ =~= "Path is not a file: "@ + file_path@);
        Err(AppError::Processing(m))
    } else {
        Ok(())
    }
}

// ---------------------------------------------------------------------------
// Size formatting
// ---------------------------------------------------------------------------

pub const KB: u64 = 1024;

pub const MB: u64 = 1024 * 1024;

pub const GB: u64 = 1024 * 1024 * 1024;

/// A byte count scaled by a unit, rendered as whole units with one decimal
/// place, rounded to the nearest tenth with ties going to the even tenth.
pub open spec fn spec_scaled_tenths(bytes: nat, unit: nat) -> Seq<char>
    recommends
        unit >= 2,
        unit % 2 == 0,
{
    let tenths_floor = bytes * 10 / unit;
    let twice_rest = bytes * 10 % unit * 2;
    let tenths = if twice_rest > unit || (twice_rest == unit && tenths_floor % 2 == 1) {
        tenths_floor + 1
    } else {
        tenths_floor
    };
    spec_dec(tenths / 10) + seq!['.', spec_digit_char(tenths % 10)]
}

/// A human-readable rendering of a byte count: plain bytes below one KB,
/// otherwise whole units with one rounded decimal place in KB, MB or GB.
pub open spec fn spec_file_size_text(bytes: nat) -> Seq<char> {
    if bytes < KB {
        spec_dec(bytes) + " B"@
    } else if bytes < MB {
        spec_scaled_tenths(bytes, KB as nat) + " KB"@
    } else if bytes < GB {
        spec_scaled_tenths(bytes, MB as nat) + " MB"@
    } else {
        spec_scaled_tenths(bytes, GB as nat) + " GB"@
    }
}

fn scaled_tenths_string(bytes: u64, unit: u64) -> (s: String)
    requires
        1024 <= unit <= 1073741824,
    ensures
        s@ == spec_scaled_tenths(bytes as nat, unit as nat),
{
    let whole = bytes / unit;
    let rem = bytes % unit;
    assert(rem < unit);
    assert((bytes as int) / (unit as int) <= 18014398509481983) by (nonlinear_arith)
        requires
            (unit as int) >= 1024,
            (bytes as int) <= 18446744073709551615,
    ;
    let scaled_rem = rem * 10;
    let tenth_digit_floor = scaled_rem / unit;
    assert((scaled_rem as int) / (unit as int) < 10) by (nonlinear_arith)
        requires
            (rem as int) < (unit as int),
            1 <= (unit as int),
            (scaled_rem as int) == (rem as int) * 10,
    ;
    let tenths_floor = whole * 10 + tenth_digit_floor;
    let twice_rest = scaled_rem % unit * 2;
    proof {
        assert(bytes == unit * whole + rem);
        assert(scaled_rem == unit * tenth_digit_floor + scaled_rem % unit);
        assert((bytes as int) * 10 == (tenths_floor as int) * (unit as int) + (scaled_rem % unit)
            as int) by (nonlinear_arith)
            requires
                (bytes as int) == (unit as int) * (whole as int) + (rem as int),
                (scaled_rem as int) == (rem as int) * 10,
                (scaled_rem as int) == (unit as int) * (tenth_digit_floor as int) + (scaled_rem
                    % unit) as int,
                (tenths_floor as int) == (whole as int) * 10 + (tenth_digit_floor as int),
        ;
        lemma_fundamental_div_mod_converse(
            (bytes as int) * 10,
            unit as int,
            tenths_floor as int,
            (scaled_rem % unit) as int,
        );
    }
    let tenths = if twice_rest > unit || (twice_rest == unit && tenths_floor % 2 == 1) {
        tenths_floor + 1
    } else {
        tenths_floor
    };
    let mut s = u64_to_dec_string(tenths / 10);
    s.append(".");
    s.append(digit_str(tenths % 10));
    proof {
        reveal_strlit(".");
    }
    assert(s@ =~= spec_scaled_tenths(bytes as nat, unit as nat));
    s
}

/// Format a byte count in human-readable form.
pub fn format_file_size(bytes: u64) -> (s: String)
    ensures
        s@ == spec_file_size_text(bytes as nat),
{
    if bytes < KB {
        let mut s = u64_to_dec_string(bytes);
        s.append(" B");
        assert(s@ =~= spec_file_size_text(bytes as nat));
        s
    } else if bytes < MB {
        let mut s = scaled_tenths_string(bytes, KB);
        s.append(" KB");
        assert(s@ =~= spec_file_size_text(bytes as nat));
        s
    } else if bytes < GB {
        let mut s = scaled_tenths_string(bytes, MB);
        s.append(" MB");
        assert(s@ =~= spec_file_size_text(bytes as nat));
        s
    } else {
        let mut s = scaled_tenths_string(bytes, GB);
        s.append(" GB");
        assert(s@ =~= spec_file_size_text(bytes as nat));
        s
    }
}

} // verus!
