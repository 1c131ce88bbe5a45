//! The recursive analysis engine: signatures, candidate search, detectors and
//! the nodes of the analysis tree.
use vstd::prelude::*;
use vstd::slice::slice_subrange;
use vstd::utf8::encode_utf8;
use sha2::Digest;
use std::io::Read;
use crate::adapters::{
    adapter_for, spec_adapter_for, Adapter, AdapterError, AdapterErrorView, ExternalAdapter,
    ExternalAnalysis,
};
use crate::adapters::tool_rules::{first_rule_for, spec_all_tool_rules, tool_rule};
use crate::text::{
    str_eq, decimal, option_i32_debug, option_i32_text, owned, padded_decimal, push_char, push_str,
    texts, usize_text, zero_padded,
};

verus! {

/// Why an analysis failed.
#[derive(Debug)]
pub enum DrillError {
    /// Reading or writing a file failed; holds the debug form of the I/O error.
    Io(String),
    /// A JSON document could not be read or written; holds the debug form of the error.
    Json(String),
    /// A signature's magic value is not hexadecimal.
    Hex(String),
    /// A signature names a detector that does not exist.
    DetectorNotFound(String),
    /// An external tool failed.
    ExternalAdapter(String),
}

/// The signature database.
#[derive(Debug, Clone)]
pub struct CheatDatabase {
    pub version: u32,
    pub signatures: Vec<CheatSignature>,
}

/// One signature: a magic value, where it may occur and which detector confirms it.
#[derive(Debug)]
pub struct CheatSignature {
    pub id: String,
    pub name: String,
    pub node_type: String,
    pub subtype: String,
    pub magic: String,
    pub offset: OffsetRule,
    pub detector: String,
    pub dependency: String,
    pub external_tool: Option<String>,
    pub base_confidence: u8,
    pub validation_required: bool,
    pub description: String,
}

/// Where a signature's magic value may occur.
#[derive(Debug)]
pub enum OffsetRule {
    /// Anywhere, when the text is `any`; nowhere for any other text.
    Any(String),
    /// Exactly at this offset.
    Fixed(usize),
}

/// The result of analyzing one file.
#[derive(Debug)]
pub struct Manifest {
    pub manifest_format: String,
    pub original_file: String,
    pub total_size: usize,
    pub sha256: String,
    pub root: Node,
}

/// A node of the analysis tree: a region of bytes and what was found in it.
#[derive(Debug)]
pub struct Node {
    pub id: String,
    pub node_type: String,
    pub subtype: String,
    pub start_offset: usize,
    pub size: usize,
    pub raw_hash: String,
    pub detector_used: String,
    pub dependency: String,
    pub confidence: Confidence,
    pub metadata: NodeMetadata,
    pub children: Vec<Node>,
}

/// How sure the engine is of a node.
#[derive(Debug, Clone)]
pub struct Confidence {
    pub level: String,
    pub score: u8,
    pub criteria: Vec<String>,
}

/// Descriptive facts about a node.
#[derive(Debug, Clone)]
pub struct NodeMetadata {
    pub name: Option<String>,
    pub description: Option<String>,
    pub validated: bool,
    pub reversible: bool,
    pub validation_error: Option<String>,
}

/// A place where a signature's magic value was found.
#[derive(Debug, Clone)]
pub struct Candidate {
    pub signature: CheatSignature,
    pub offset: usize,
    pub magic_bytes: Vec<u8>,
}

/// What a detector concluded about a candidate.
#[derive(Debug, Clone)]
pub struct DetectionResult {
    pub valid: bool,
    pub detected_size: usize,
    pub final_score: u8,
    pub criteria: Vec<String>,
    pub error: Option<String>,
    pub extracted_children: Vec<ExtractedChild>,
}

/// A file taken out of a container.
#[derive(Debug, Clone)]
pub struct ExtractedChild {
    pub name: String,
    pub bytes: Vec<u8>,
}

/// Bounds on the work of one analysis.
#[derive(Debug, Clone, Copy)]
pub struct AnalysisLimits {
    pub max_depth: usize,
    pub max_children_per_node: usize,
    pub max_extracted_size: usize,
}

impl Default for AnalysisLimits {
    fn default() -> (r: Self)
        ensures
            r.max_depth == 8,
            r.max_children_per_node == 10_000,
            r.max_extracted_size == 256 * 1024 * 1024,
    {
        AnalysisLimits { max_depth: 8, max_children_per_node: 10_000, max_extracted_size: 256 * 1024 * 1024 }
    }
}

/// A copy of an optional string.
pub fn copy_opt_string(s: &Option<String>) -> (r: Option<String>)
    ensures
        r == *s,
{
    match s {
        Some(t) => Some(t.clone()),
        None => None,
    }
}

impl Clone for OffsetRule {
    fn clone(&self) -> (r: Self)
        ensures
            r == *self,
    {
        match self {
            OffsetRule::Any(s) => OffsetRule::Any(s.clone()),
            OffsetRule::Fixed(o) => OffsetRule::Fixed(*o),
        }
    }
}

impl Clone for CheatSignature {
    fn clone(&self) -> (r: Self)
        ensures
            r == *self,
    {
        CheatSignature {
            id: self.id.clone(),
            name: self.name.clone(),
            node_type: self.node_type.clone(),
            subtype: self.subtype.clone(),
            magic: self.magic.clone(),
            offset: self.offset.clone(),
            detector: self.detector.clone(),
            dependency: self.dependency.clone(),
            external_tool: copy_opt_string(&self.external_tool),
            base_confidence: self.base_confidence,
            validation_required: self.validation_required,
            description: self.description.clone(),
        }
    }
}

// ---------------------------------------------------------------------------
// Byte matching.

/// Whether `magic` occurs in `bytes` starting at `offset`.
pub open spec fn matches_at(bytes: Seq<u8>, magic: Seq<u8>, offset: int) -> bool {
    0 <= offset && offset + magic.len() <= bytes.len() && bytes.subrange(offset, offset + magic.len())
        == magic
}

/// Whether `magic` occurs in `bytes` starting at `offset`.
pub fn bytes_match_at(bytes: &[u8], magic: &[u8], offset: usize) -> (r: bool)
    ensures
        r == matches_at(bytes@, magic@, offset as int),
{
    if offset > bytes.len() || magic.len() > bytes.len() - offset {
        return false;
    }
    let mut i: usize = 0;
    while i < magic.len()
        invariant
            offset + magic@.len() <= bytes@.len(),
            bytes@.len() <= usize::MAX,
            i <= magic@.len(),
            forall|j: int| 0 <= j < i ==> bytes@[offset + j] == magic@[j],
        decreases magic.len() - i,
    {
        if bytes[offset + i] != magic[i] {
            assert(bytes@.subrange(offset as int, offset + magic@.len())[i as int] != magic@[i as int]);
            return false;
        }
        i = i + 1;
    }
    assert(bytes@.subrange(offset as int, offset + magic@.len()) =~= magic@);
    true
}

/// The number of bytes from `offset` to the end, or zero past the end.
pub open spec fn size_to_end(len: int, offset: int) -> int {
    if offset <= len {
        len - offset
    } else {
        0
    }
}

/// The number of bytes from `offset` to the end of `bytes`, or zero past the end.
pub fn estimate_size_to_end(bytes: &[u8], offset: usize) -> (r: usize)
    ensures
        r == size_to_end(bytes@.len() as int, offset as int),
{
    bytes.len().saturating_sub(offset)
}

// ---------------------------------------------------------------------------
// Hexadecimal magic values.

/// A character that `char::is_whitespace` accepts: the Unicode `White_Space` set.
pub open spec fn is_white_space(c: char) -> bool {
    let v = c as u32;
    (0x09 <= v && v <= 0x0d) || v == 0x20 || v == 0x85 || v == 0xa0 || v == 0x1680 || (0x2000 <= v
        && v <= 0x200a) || v == 0x2028 || v == 0x2029 || v == 0x202f || v == 0x205f || v == 0x3000
}

fn white_space(c: char) -> (r: bool)
    ensures
        r == is_white_space(c),
{
    let v = c as u32;
    (0x09 <= v && v <= 0x0d) || v == 0x20 || v == 0x85 || v == 0xa0 || v == 0x1680 || (0x2000 <= v
        && v <= 0x200a) || v == 0x2028 || v == 0x2029 || v == 0x202f || v == 0x205f || v == 0x3000
}

/// The characters of `s` without its white space.
pub open spec fn strip_white_space(s: Seq<char>) -> Seq<char>
    decreases s.len(),
{
    if s.len() == 0 {
        s
    } else if is_white_space(s.last()) {
        strip_white_space(s.drop_last())
    } else {
        strip_white_space(s.drop_last()).push(s.last())
    }
}

/// An ASCII hexadecimal digit, in either case.
pub open spec fn is_hex_digit(b: u8) -> bool {
    (48 <= b && b <= 57) || (65 <= b && b <= 70) || (97 <= b && b <= 102)
}

/// The value of a hexadecimal digit.
pub open spec fn hex_value(b: u8) -> int {
    if 48 <= b && b <= 57 {
        b - 48
    } else if 65 <= b && b <= 70 {
        b - 55
    } else {
        b - 87
    }
}

/// Whether `s` is an even number of hexadecimal digits.
pub open spec fn is_hex_text(s: Seq<u8>) -> bool {
    s.len() % 2 == 0 && forall|i: int| 0 <= i < s.len() ==> is_hex_digit(#[trigger] s[i])
}

/// The bytes that pairs of hexadecimal digits stand for, high digit first.
pub open spec fn hex_bytes(s: Seq<u8>) -> Seq<u8> {
    Seq::new((s.len() / 2) as nat, |i: int| (hex_value(s[2 * i]) * 16 + hex_value(s[2 * i + 1])) as u8)
}

/// The error of `hex::decode`, declared so that it can stand in signatures.
#[verifier::external_type_specification]
#[verifier::external_body]
pub struct ExFromHexError(hex::FromHexError);

/// Decodes hexadecimal text.
///
/// Trusted: calls `hex::decode`, whose source (hex 0.4.3) rejects text of odd
/// length and text holding a byte outside `0-9`, `a-f`, `A-F`, and otherwise
/// turns each pair of digits into one byte, high digit first.
#[verifier::external_body]
fn hex_decode(data: &[u8]) -> (r: Result<Vec<u8>, hex::FromHexError>)
    ensures
        r is Ok <==> is_hex_text(data@),
        r matches Ok(v) ==> v@ == hex_bytes(data@),
{
    hex::decode(data)
}

/// The bytes (UTF-8) of a magic value once its white space is removed.
pub open spec fn magic_text(input: Seq<char>) -> Seq<u8> {
    encode_utf8(strip_white_space(input))
}

/// The error for a magic value that is not hexadecimal.
pub open spec fn invalid_magic(input: Seq<char>) -> Seq<char> {
    "Invalid magic value: "@ + input
}

/// Reads a signature's magic value: hexadecimal digits, white space ignored.
pub fn parse_hex_magic(input: &str) -> (r: Result<Vec<u8>, DrillError>)
    ensures
        is_hex_text(magic_text(input@)) ==> (r matches Ok(v) && v@ == hex_bytes(magic_text(input@))),
        !is_hex_text(magic_text(input@)) ==> (r matches Err(DrillError::Hex(m)) && m@ == invalid_magic(input@)),
{
    let n = input.unicode_len();
    let mut clean = String::new();
    let mut i: usize = 0;
    while i < n
        invariant
            n == input@.len(),
            i <= n,
            clean@ == strip_white_space(input@.subrange(0, i as int)),
        decreases n - i,
    {
        let c = input.get_char(i);
        assert(input@.subrange(0, i + 1).drop_last() =~= input@.subrange(0, i as int));
        if !white_space(c) {
            push_char(&mut clean, c);
        }
        i = i + 1;
    }
    assert(input@.subrange(0, n as int) =~= input@);
    let data = clean.as_str().as_bytes();
    if data.len() % 2 != 0 {
        let mut m = owned("Invalid magic value: ");
        push_str(&mut m, input);
        return Err(DrillError::Hex(m));
    }
    match hex_decode(data) {
        Ok(v) => Ok(v),
        Err(_) => {
            let mut m = owned("Invalid magic value: ");
            push_str(&mut m, input);
            Err(DrillError::Hex(m))
        },
    }
}

// ---------------------------------------------------------------------------
// Digests.

/// The SHA-256 digest of `data`.
pub uninterp spec fn sha256(data: Seq<u8>) -> Seq<u8>;

/// Computes a SHA-256 digest.
///
/// Trusted: calls `sha2::Sha256::digest`; the result is the digest of the
/// given bytes, and SHA-256 digests are 32 bytes long.
#[verifier::external_body]
fn sha256_digest(data: &[u8]) -> (r: Vec<u8>)
    ensures
        r@ == sha256(data@),
        r@.len() == 32,
{
    sha2::Sha256::digest(data).to_vec()
}

/// The lower-case hexadecimal digit of `n`, for `0 <= n < 16`.
pub open spec fn lower_hex_digit(n: int) -> char {
    if n < 10 {
        ((n + 48) as u32) as char
    } else {
        ((n + 87) as u32) as char
    }
}

/// Each byte as two lower-case hexadecimal digits, high digit first.
pub open spec fn lower_hex(bytes: Seq<u8>) -> Seq<char> {
    Seq::new(
        (2 * bytes.len()) as nat,
        |i: int|
            if i % 2 == 0 {
                lower_hex_digit((bytes[i / 2] / 16) as int)
            } else {
                lower_hex_digit((bytes[i / 2] % 16) as int)
            },
    )
}

fn hex_digit_char(n: u8) -> (r: char)
    requires
        n < 16,
    ensures
        r == lower_hex_digit(n as int),
{
    if n < 10 {
        (n + 48) as char
    } else {
        (n + 87) as char
    }
}

/// The text under which a node records the hash of its bytes.
pub open spec fn hash_text(bytes: Seq<u8>) -> Seq<char> {
    "sha256:"@ + lower_hex(sha256(bytes))
}

/// `sha256:` followed by the lower-case hexadecimal SHA-256 digest of `bytes`.
pub fn sha256_hex(bytes: &[u8]) -> (r: String)
    ensures
        r@ == hash_text(bytes@),
{
    let digest = sha256_digest(bytes);
    let mut s = owned("sha256:");
    proof {
        reveal_strlit("sha256:");
    }
    let ghost start = s@;
    let mut i: usize = 0;
    while i < digest.len()
        invariant
            i <= digest@.len(),
            digest@.len() == 32,
            start == "sha256:"@,
            s@ == start + lower_hex(digest@.subrange(0, i as int)),
        decreases digest.len() - i,
    {
        let b = digest[i];
        push_char(&mut s, hex_digit_char(b / 16));
        push_char(&mut s, hex_digit_char(b % 16));
        assert(lower_hex(digest@.subrange(0, i + 1)) =~= lower_hex(digest@.subrange(0, i as int)).push(
            lower_hex_digit((b / 16) as int),
        ).push(lower_hex_digit((b % 16) as int)));
        i = i + 1;
    }
    assert(digest@.subrange(0, 32) =~= digest@);
    s
}

// ---------------------------------------------------------------------------
// Confidence.

/// The confidence level for a validation outcome and score.
pub open spec fn level_of(valid: bool, score: u8) -> Seq<char> {
    if valid && score >= 85 {
        "high"@
    } else if valid && score >= 60 {
        "medium"@
    } else if valid {
        "low"@
    } else {
        "unconfirmed"@
    }
}

/// The confidence level for a validation outcome and score.
pub fn confidence_level(valid: bool, score: u8) -> (r: &'static str)
    ensures
        r@ == level_of(valid, score),
{
    if valid && score >= 85 {
        "high"
    } else if valid && score >= 60 {
        "medium"
    } else if valid {
        "low"
    } else {
        "unconfirmed"
    }
}


// ---------------------------------------------------------------------------
// Detectors.

/// Whether a candidate's magic value really stands at its offset.
pub open spec fn magic_present(bytes: Seq<u8>, c: Candidate) -> bool {
    matches_at(bytes, c.magic_bytes@, c.offset as int)
}

fn strings1(a: &str) -> (r: Vec<String>)
    ensures
        texts(r@) == seq![a@],
{
    let r = vec![owned(a)];
    assert(texts(r@) =~= seq![a@]);
    r
}

fn strings2(a: &str, b: &str) -> (r: Vec<String>)
    ensures
        texts(r@) == seq![a@, b@],
{
    let r = vec![owned(a), owned(b)];
    assert(texts(r@) =~= seq![a@, b@]);
    r
}

fn strings3(a: &str, b: &str, c: &str) -> (r: Vec<String>)
    ensures
        texts(r@) == seq![a@, b@, c@],
{
    let r = vec![owned(a), owned(b), owned(c)];
    assert(texts(r@) =~= seq![a@, b@, c@]);
    r
}

/// The view of an optional string.
pub open spec fn opt_text(s: Option<String>) -> Option<Seq<char>> {
    match s {
        Some(t) => Some(t@),
        None => None,
    }
}

/// What `validate_png` concludes about `c` in `bytes`.
pub open spec fn png_outcome(bytes: Seq<u8>, c: Candidate, r: DetectionResult) -> bool {
    &&& r.valid == magic_present(bytes, c)
    &&& r.detected_size == size_to_end(bytes.len() as int, c.offset as int)
    &&& r.final_score == (if r.valid { 90u8 } else { 30u8 })
    &&& texts(r.criteria@) == (if r.valid {
        seq!["png_signature_found"@, "magic_bytes_valid"@]
    } else {
        seq!["invalid_signature"@]
    })
    &&& r.error is None
    &&& r.extracted_children@.len() == 0
}

/// PNG: the magic value must be present; the image runs to the end of the data.
pub fn validate_png(bytes: &[u8], candidate: &Candidate) -> (r: DetectionResult)
    ensures
        png_outcome(bytes@, *candidate, r),
{
    let valid = bytes_match_at(bytes, candidate.magic_bytes.as_slice(), candidate.offset);
    DetectionResult {
        valid,
        detected_size: estimate_size_to_end(bytes, candidate.offset),
        final_score: if valid { 90 } else { 30 },
        criteria: if valid {
            strings2("png_signature_found", "magic_bytes_valid")
        } else {
            strings1("invalid_signature")
        },
        error: None,
        extracted_children: Vec::new(),
    }
}

/// The little-endian value of four bytes.
pub open spec fn le_u32(b0: u8, b1: u8, b2: u8, b3: u8) -> int {
    b0 + 256 * b1 + 65536 * b2 + 16777216 * b3
}

/// The size a BMP header declares: the little-endian 32-bit value two bytes
/// after the magic value's offset.
pub open spec fn bmp_declared_size(bytes: Seq<u8>, offset: int) -> int {
    le_u32(bytes[offset + 2], bytes[offset + 3], bytes[offset + 4], bytes[offset + 5])
}

/// Whether a BMP's declared size is non-zero and fits in the data.
pub open spec fn bmp_size_fits(bytes: Seq<u8>, offset: int) -> bool {
    bmp_declared_size(bytes, offset) > 0 && offset + bmp_declared_size(bytes, offset) <= bytes.len()
}

/// What `validate_bmp` concludes about `c` in `bytes`.
pub open spec fn bmp_outcome(bytes: Seq<u8>, c: Candidate, r: DetectionResult) -> bool {
    &&& ({
        let off = c.offset as int;
        let magic_len = c.magic_bytes@.len();
        if !magic_present(bytes, c) {
            &&& !r.valid
            &&& r.detected_size == magic_len
            &&& r.final_score == 20
            &&& texts(r.criteria@) == seq!["invalid_signature"@]
            &&& opt_text(r.error) == Some("Invalid BMP magic"@)
        } else if bytes.len() >= off + 6 {
            &&& r.valid == bmp_size_fits(bytes, off)
            &&& r.detected_size == (if r.valid { bmp_declared_size(bytes, off) } else { magic_len as int })
            &&& r.final_score == (if r.valid { 90u8 } else { 55u8 })
            &&& texts(r.criteria@) == (if r.valid {
                seq!["bmp_signature_found"@, "bmp_size_validated"@]
            } else {
                seq!["bmp_signature_found"@]
            })
            &&& opt_text(r.error) == (if r.valid {
                None
            } else {
                Some("BMP found, but declared size is invalid"@)
            })
        } else {
            &&& !r.valid
            &&& r.detected_size == magic_len
            &&& r.final_score == 40
            &&& texts(r.criteria@) == seq!["bmp_signature_found"@]
            &&& opt_text(r.error) == Some("File is too short to validate BMP"@)
        }
    })
    &&& r.extracted_children@.len() == 0
}

/// BMP: the magic value must be present and the declared size must fit.
pub fn validate_bmp(bytes: &[u8], candidate: &Candidate) -> (r: DetectionResult)
    ensures
        bmp_outcome(bytes@, *candidate, r),
{
    if !bytes_match_at(bytes, candidate.magic_bytes.as_slice(), candidate.offset) {
        return DetectionResult {
            valid: false,
            detected_size: candidate.magic_bytes.len(),
            final_score: 20,
            criteria: strings1("invalid_signature"),
            error: Some(owned("Invalid BMP magic")),
            extracted_children: Vec::new(),
        };
    }
    let off = candidate.offset;
    if bytes.len() - off >= 6 {
        let b0 = bytes[off + 2];
        let b1 = bytes[off + 3];
        let b2 = bytes[off + 4];
        let b3 = bytes[off + 5];
        let size64: u64 = b0 as u64 + 256 * (b1 as u64) + 65536 * (b2 as u64) + 16777216 * (b3 as u64);
        assert(size64 <= 0xffff_ffff);
        let size = size64 as usize;
        let valid = size > 0 && size <= bytes.len() - off;
        return DetectionResult {
            valid,
            detected_size: if valid { size } else { candidate.magic_bytes.len() },
            final_score: if valid { 90 } else { 55 },
            criteria: if valid {
                strings2("bmp_signature_found", "bmp_size_validated")
            } else {
                strings1("bmp_signature_found")
            },
            error: if valid { None } else { Some(owned("BMP found, but declared size is invalid")) },
            extracted_children: Vec::new(),
        };
    }
    DetectionResult {
        valid: false,
        detected_size: candidate.magic_bytes.len(),
        final_score: 40,
        criteria: strings1("bmp_signature_found"),
        error: Some(owned("File is too short to validate BMP")),
        extracted_children: Vec::new(),
    }
}

/// What `validate_elf` concludes about `c` in `bytes`.
pub open spec fn elf_outcome(bytes: Seq<u8>, c: Candidate, r: DetectionResult) -> bool {
    &&& ({
        let off = c.offset as int;
        if !magic_present(bytes, c) {
            &&& !r.valid
            &&& r.detected_size == c.magic_bytes@.len()
            &&& r.final_score == 20
            &&& texts(r.criteria@) == seq!["invalid_signature"@]
            &&& opt_text(r.error) == Some("Invalid ELF magic"@)
        } else {
            &&& r.valid == (bytes.len() >= off + 16)
            &&& r.detected_size == size_to_end(bytes.len() as int, off)
            &&& r.final_score == (if r.valid { 90u8 } else { 50u8 })
            &&& texts(r.criteria@) == (if r.valid {
                seq!["elf_signature_found"@, "minimum_header_present"@]
            } else {
                seq!["elf_signature_found"@]
            })
            &&& opt_text(r.error) == (if r.valid { None } else { Some("Incomplete ELF header"@) })
        }
    })
    &&& r.extracted_children@.len() == 0
}

/// ELF: the magic value must be present; the header needs 16 bytes from the offset.
pub fn validate_elf(bytes: &[u8], candidate: &Candidate) -> (r: DetectionResult)
    ensures
        elf_outcome(bytes@, *candidate, r),
{
    if !bytes_match_at(bytes, candidate.magic_bytes.as_slice(), candidate.offset) {
        return DetectionResult {
            valid: false,
            detected_size: candidate.magic_bytes.len(),
            final_score: 20,
            criteria: strings1("invalid_signature"),
            error: Some(owned("Invalid ELF magic")),
            extracted_children: Vec::new(),
        };
    }
    let valid = bytes.len() - candidate.offset >= 16;
    DetectionResult {
        valid,
        detected_size: estimate_size_to_end(bytes, candidate.offset),
        final_score: if valid { 90 } else { 50 },
        criteria: if valid {
            strings2("elf_signature_found", "minimum_header_present")
        } else {
            strings1("elf_signature_found")
        },
        error: if valid { None } else { Some(owned("Incomplete ELF header")) },
        extracted_children: Vec::new(),
    }
}

/// What `validate_java_class` concludes about `c` in `bytes`.
pub open spec fn java_class_outcome(bytes: Seq<u8>, c: Candidate, r: DetectionResult) -> bool {
    &&& ({
        let off = c.offset as int;
        if !magic_present(bytes, c) {
            &&& !r.valid
            &&& r.detected_size == c.magic_bytes@.len()
            &&& r.final_score == 20
            &&& texts(r.criteria@) == seq!["invalid_signature"@]
            &&& opt_text(r.error) == Some("Invalid Java class magic"@)
        } else {
            &&& r.valid == (bytes.len() >= off + 10)
            &&& r.detected_size == size_to_end(bytes.len() as int, off)
            &&& r.final_score == (if r.valid { 90u8 } else { 50u8 })
            &&& texts(r.criteria@) == (if r.valid {
                seq!["cafebabe_signature_found"@, "minimum_class_header_present"@]
            } else {
                seq!["cafebabe_signature_found"@]
            })
            &&& opt_text(r.error) == (if r.valid { None } else { Some("Incomplete Java .class header"@) })
        }
    })
    &&& r.extracted_children@.len() == 0
}

/// Java class: the magic value must be present; the header needs 10 bytes from the offset.
pub fn validate_java_class(bytes: &[u8], candidate: &Candidate) -> (r: DetectionResult)
    ensures
        java_class_outcome(bytes@, *candidate, r),
{
    if !bytes_match_at(bytes, candidate.magic_bytes.as_slice(), candidate.offset) {
        return DetectionResult {
            valid: false,
            detected_size: candidate.magic_bytes.len(),
            final_score: 20,
            criteria: strings1("invalid_signature"),
            error: Some(owned("Invalid Java class magic")),
            extracted_children: Vec::new(),
        };
    }
    let valid = bytes.len() - candidate.offset >= 10;
    DetectionResult {
        valid,
        detected_size: estimate_size_to_end(bytes, candidate.offset),
        final_score: if valid { 90 } else { 50 },
        criteria: if valid {
            strings2("cafebabe_signature_found", "minimum_class_header_present")
        } else {
            strings1("cafebabe_signature_found")
        },
        error: if valid { None } else { Some(owned("Incomplete Java .class header")) },
        extracted_children: Vec::new(),
    }
}

/// What `validate_generic_magic` concludes about `c` in `bytes`.
pub open spec fn generic_outcome(bytes: Seq<u8>, c: Candidate, r: DetectionResult) -> bool {
    &&& r.valid == magic_present(bytes, c)
    &&& r.detected_size == size_to_end(bytes.len() as int, c.offset as int)
    &&& r.final_score == (if r.valid { c.signature.base_confidence } else { 10u8 })
    &&& texts(r.criteria@) == (if r.valid {
        seq!["signature_found"@]
    } else {
        seq!["invalid_signature"@]
    })
    &&& r.error is None
    &&& r.extracted_children@.len() == 0
}

/// Any other format: the magic value alone decides, with the signature's own confidence.
pub fn validate_generic_magic(bytes: &[u8], candidate: &Candidate) -> (r: DetectionResult)
    ensures
        generic_outcome(bytes@, *candidate, r),
{
    let valid = bytes_match_at(bytes, candidate.magic_bytes.as_slice(), candidate.offset);
    DetectionResult {
        valid,
        detected_size: estimate_size_to_end(bytes, candidate.offset),
        final_score: if valid { candidate.signature.base_confidence } else { 10 },
        criteria: if valid {
            strings1("signature_found")
        } else {
            strings1("invalid_signature")
        },
        error: None,
        extracted_children: Vec::new(),
    }
}


// ---------------------------------------------------------------------------
// ZIP archives.

/// `zip::ZipArchive`, declared so that it can stand in signatures.
#[verifier::external_type_specification]
#[verifier::external_body]
#[verifier::reject_recursive_types(R)]
pub struct ExZipArchive<R>(zip::ZipArchive<R>);

/// `std::io::Cursor`, declared so that it can stand in signatures.
#[verifier::external_type_specification]
#[verifier::external_body]
#[verifier::reject_recursive_types(T)]
pub struct ExCursor<T>(std::io::Cursor<T>);

/// `zip::result::ZipError`, declared so that it can stand in signatures.
#[verifier::external_type_specification]
#[verifier::external_body]
pub struct ExZipError(zip::result::ZipError);

/// Whether the zip crate reads `data` as an archive.
pub uninterp spec fn zip_archive_opens(data: Seq<u8>) -> bool;

/// The text that the zip crate's error displays when it cannot read `data`
/// as an archive.
pub uninterp spec fn zip_open_error_text(data: Seq<u8>) -> Seq<char>;

/// The entries of the archive in `data`, in index order, as reading them
/// hands them out: an entry that cannot be opened is `None`; an opened one
/// gives its stored name and, when reading it to the end succeeds, its
/// content.
pub uninterp spec fn zip_entries(data: Seq<u8>) -> Seq<Option<(Seq<char>, Option<Seq<u8>>)>>;

/// The data an archive was opened on.
pub uninterp spec fn zip_source(archive: zip::ZipArchive<std::io::Cursor<Vec<u8>>>) -> Seq<u8>;

/// Opens an in-memory ZIP archive.
///
/// Trusted: calls `zip::ZipArchive::new` on a cursor over `data`, and on
/// failure `ToString::to_string` on the `Display` form of its error. It reads
/// the archive's central directory from those bytes alone, so whether it
/// succeeds, and the error it reports, are functions of `data`; the archive it
/// returns reads `data`.
#[verifier::external_body]
fn zip_open(data: Vec<u8>) -> (r: Result<zip::ZipArchive<std::io::Cursor<Vec<u8>>>, String>)
    ensures
        r is Ok <==> zip_archive_opens(data@),
        r matches Ok(a) ==> zip_source(a) == data@,
        r matches Err(t) ==> t@ == zip_open_error_text(data@),
{
    zip::ZipArchive::new(std::io::Cursor::new(data)).map_err(|err| err.to_string())
}

/// The number of entries of an archive.
///
/// Trusted: calls `zip::ZipArchive::len`, the number of entries of the
/// central directory, which is the number of entries that reading hands out.
#[verifier::external_body]
fn zip_len(archive: &zip::ZipArchive<std::io::Cursor<Vec<u8>>>) -> (r: usize)
    ensures
        r == zip_entries(zip_source(*archive)).len(),
{
    archive.len()
}

/// One entry of an archive as plain values: its stored name, and its content
/// when reading it to the end succeeded.
pub struct ZipEntry {
    pub name: String,
    pub content: Option<Vec<u8>>,
}

/// The name and content of an entry.
pub open spec fn zip_entry_view(e: ZipEntry) -> (Seq<char>, Option<Seq<u8>>) {
    (e.name@, match e.content {
        Some(c) => Some(c@),
        None => None,
    })
}

/// Opens the entry at `index` and reads it.
///
/// Trusted: calls `zip::ZipArchive::by_index`, then on the entry it returns
/// `zip::read::ZipFile::name` and `std::io::Read::read_to_end`, and hands the
/// entry out as plain values. Reading moves only the archive's reader, which
/// every `by_index` positions anew, so the data it reads stays as it was; an
/// index past the last entry is an error.
#[verifier::external_body]
fn zip_entry(archive: &mut zip::ZipArchive<std::io::Cursor<Vec<u8>>>, index: usize) -> (r: Result<
    ZipEntry,
    zip::result::ZipError,
>)
    ensures
        zip_source(*final(archive)) == zip_source(*old(archive)),
        index < zip_entries(zip_source(*old(archive))).len() ==> match r {
            Ok(e) => zip_entries(zip_source(*old(archive)))[index as int] == Some(zip_entry_view(e)),
            Err(_) => zip_entries(zip_source(*old(archive)))[index as int] is None,
        },
        index >= zip_entries(zip_source(*old(archive))).len() ==> r is Err,
{
    let mut file = archive.by_index(index)?;
    let mut content = Vec::new();
    let read = file.read_to_end(&mut content).is_ok();
    Ok(ZipEntry { name: file.name().to_string(), content: if read { Some(content) } else { None } })
}

/// How the zip crate tells a directory entry: its name ends with `/` or `\`.
pub open spec fn is_directory_entry(name: Seq<char>) -> bool {
    name.len() > 0 && (name.last() == '/' || name.last() == '\\')
}

fn directory_entry(name: &str) -> (r: bool)
    ensures
        r == is_directory_entry(name@),
{
    let n = name.unicode_len();
    if n == 0 {
        return false;
    }
    let c = name.get_char(n - 1);
    c == '/' || c == '\\'
}

/// The files among archive entries, in order, with their contents: the
/// entries that opened, are not directories and were read to the end.
pub open spec fn file_entries(entries: Seq<Option<(Seq<char>, Option<Seq<u8>>)>>) -> Seq<(Seq<char>, Seq<u8>)>
    decreases entries.len(),
{
    if entries.len() == 0 {
        seq![]
    } else {
        let rest = file_entries(entries.drop_last());
        match entries.last() {
            Some((name, Some(content))) => if is_directory_entry(name) {
                rest
            } else {
                rest.push((name, content))
            },
            _ => rest,
        }
    }
}

/// The names and contents of extracted children.
pub open spec fn extracted_view(children: Seq<ExtractedChild>) -> Seq<(Seq<char>, Seq<u8>)> {
    children.map_values(|c: ExtractedChild| (c.name@, c.bytes@))
}

/// What `validate_zip` concludes about `c` in `bytes`.
pub open spec fn zip_outcome(bytes: Seq<u8>, c: Candidate, r: DetectionResult) -> bool {
    let data = bytes.subrange(c.offset as int, bytes.len() as int);
    if zip_archive_opens(data) {
        &&& r.valid
        &&& r.detected_size == data.len()
        &&& r.final_score == 95
        &&& texts(r.criteria@) == seq!["signature_found"@, "zip_validated"@, "entries_extracted"@]
        &&& r.error is None
        &&& extracted_view(r.extracted_children@) == file_entries(zip_entries(data))
    } else {
        &&& !r.valid
        &&& r.detected_size == c.magic_bytes@.len()
        &&& r.final_score == c.signature.base_confidence
        &&& texts(r.criteria@) == seq!["signature_found"@]
        &&& opt_text(r.error) == Some("ZIP validation failed: "@ + zip_open_error_text(data))
        &&& r.extracted_children@.len() == 0
    }
}

/// ZIP: the data from the offset to the end must open as an archive; every
/// file entry that can be read becomes an extracted child.
pub fn validate_zip(bytes: &[u8], candidate: &Candidate) -> (r: DetectionResult)
    requires
        candidate.offset <= bytes@.len(),
    ensures
        zip_outcome(bytes@, *candidate, r),
{
    let slice = slice_subrange(bytes, candidate.offset, bytes.len());
    let size = slice.len();
    match zip_open(vstd::slice::slice_to_vec(slice)) {
        Ok(mut archive) => {
            let ghost entries = zip_entries(zip_source(archive));
            let mut children: Vec<ExtractedChild> = Vec::new();
            let count = zip_len(&archive);
            let mut index: usize = 0;
            while index < count
                invariant
                    index <= count,
                    count == entries.len(),
                    zip_entries(zip_source(archive)) == entries,
                    extracted_view(children@) == file_entries(entries.take(index as int)),
                decreases count - index,
            {
                let ghost before = children@;
                assert(entries.take(index + 1).drop_last() =~= entries.take(index as int));
                match zip_entry(&mut archive, index) {
                    Ok(entry) => {
                        if !directory_entry(entry.name.as_str()) {
                            match entry.content {
                                Some(content) => {
                                    children.push(ExtractedChild { name: entry.name, bytes: content });
                                    assert(extracted_view(children@) =~= extracted_view(before).push(
                                        (children@.last().name@, children@.last().bytes@),
                                    ));
                                },
                                None => {},
                            }
                        }
                    },
                    Err(_) => {},
                }
                index = index + 1;
            }
            assert(entries.take(count as int) =~= entries);
            DetectionResult {
                valid: true,
                detected_size: size,
                final_score: 95,
                criteria: strings3("signature_found", "zip_validated", "entries_extracted"),
                error: None,
                extracted_children: children,
            }
        },
        Err(detail) => {
            let mut message = owned("ZIP validation failed: ");
            push_str(&mut message, detail.as_str());
            DetectionResult {
                valid: false,
                detected_size: candidate.magic_bytes.len(),
                final_score: candidate.signature.base_confidence,
                criteria: strings1("signature_found"),
                error: Some(message),
                extracted_children: Vec::new(),
            }
        },
    }
}


// ---------------------------------------------------------------------------
// External tools.

/// The text under which an adapter failure is reported.
pub open spec fn adapter_error_text(e: AdapterErrorView) -> Seq<char> {
    match e {
        AdapterErrorView::Io(m) => m,
        AdapterErrorView::ToolFailed { command, status_code, stderr } => command + " failed with status "@
            + option_i32_debug(status_code) + ": "@ + stderr,
        AdapterErrorView::ToolNotFound(tool) => match first_rule_for(spec_all_tool_rules(), tool) {
            Some(rule) => tool + " was not found in PATH; install package "@ + rule.arch_package + " ("@
                + rule.install_hint + ")"@,
            None => tool + " was not found in PATH"@,
        },
        AdapterErrorView::Unsupported(m) => m,
    }
}

/// Describes an adapter failure; a missing tool names the package that provides it.
pub fn format_adapter_error(err: &AdapterError) -> (r: String)
    ensures
        r@ == adapter_error_text(err@),
{
    match err {
        AdapterError::Io(m) => m.clone(),
        AdapterError::ToolFailed { command, status_code, stderr } => {
            let mut s = command.clone();
            push_str(&mut s, " failed with status ");
            let status = option_i32_text(*status_code);
            push_str(&mut s, status.as_str());
            push_str(&mut s, ": ");
            push_str(&mut s, stderr.as_str());
            s
        },
        AdapterError::ToolNotFound(tool) => {
            let mut s = tool.clone();
            match tool_rule(tool.as_str()) {
                Some(rule) => {
                    push_str(&mut s, " was not found in PATH; install package ");
                    push_str(&mut s, rule.arch_package);
                    push_str(&mut s, " (");
                    push_str(&mut s, rule.install_hint);
                    push_str(&mut s, ")");
                },
                None => {
                    push_str(&mut s, " was not found in PATH");
                },
            }
            s
        },
        AdapterError::Unsupported(m) => m.clone(),
    }
}

/// What validating a candidate asks for next.
#[derive(Debug)]
pub enum CandidateCheck {
    /// The detector reached its conclusion.
    Finished(DetectionResult),
    /// The detector needs this external tool to run on the data first.
    RunAdapter(Adapter),
}

/// A refusal of an external-tool candidate before any tool runs.
pub open spec fn tool_refusal(c: Candidate, r: DetectionResult, criterion: Seq<char>, error: Seq<char>) -> bool {
    &&& !r.valid
    &&& r.detected_size == c.magic_bytes@.len()
    &&& r.final_score == 10
    &&& texts(r.criteria@) == seq![criterion]
    &&& opt_text(r.error) == Some(error)
    &&& r.extracted_children@.len() == 0
}

/// What checking an external-tool candidate leads to: the adapter of the
/// signature's tool, or a refusal when there is no tool or no adapter for it.
pub open spec fn tool_check_outcome(c: Candidate, r: CandidateCheck) -> bool {
    match c.signature.external_tool {
        None => r matches CandidateCheck::Finished(d) && tool_refusal(
            c,
            d,
            "external_tool_missing"@,
            "Signature requires an external tool, but none was configured"@,
        ),
        Some(tool) => match spec_adapter_for(tool@) {
            None => r matches CandidateCheck::Finished(d) && tool_refusal(
                c,
                d,
                "external_adapter_missing"@,
                "No external adapter registered for "@ + tool@,
            ),
            Some(a) => r == CandidateCheck::RunAdapter(a),
        },
    }
}

/// Finds the adapter that an external-tool candidate needs.
pub fn external_tool_check(candidate: &Candidate) -> (r: CandidateCheck)
    ensures
        tool_check_outcome(*candidate, r),
{
    match &candidate.signature.external_tool {
        None => CandidateCheck::Finished(
            DetectionResult {
                valid: false,
                detected_size: candidate.magic_bytes.len(),
                final_score: 10,
                criteria: strings1("external_tool_missing"),
                error: Some(owned("Signature requires an external tool, but none was configured")),
                extracted_children: Vec::new(),
            },
        ),
        Some(tool) => match adapter_for(tool.as_str()) {
            None => {
                let mut m = owned("No external adapter registered for ");
                push_str(&mut m, tool.as_str());
                CandidateCheck::Finished(
                    DetectionResult {
                        valid: false,
                        detected_size: candidate.magic_bytes.len(),
                        final_score: 10,
                        criteria: strings1("external_adapter_missing"),
                        error: Some(m),
                        extracted_children: Vec::new(),
                    },
                )
            },
            Some(a) => CandidateCheck::RunAdapter(a),
        },
    }
}

/// What an external tool's outcome makes of a candidate. A finished tool
/// confirms the candidate, up to the end of the data, and hands over its
/// artifacts as extracted children; a failure keeps the signature's own
/// confidence and reports the failure text.
pub open spec fn tool_outcome(
    bytes: Seq<u8>,
    c: Candidate,
    adapter: Adapter,
    outcome: Result<ExternalAnalysis, String>,
    r: DetectionResult,
) -> bool {
    match outcome {
        Ok(analysis) => {
            &&& r.valid
            &&& r.detected_size == size_to_end(bytes.len() as int, c.offset as int)
            &&& r.final_score == 90
            &&& texts(r.criteria@) == seq![
                "signature_found"@,
                "external_adapter:"@ + adapter.spec_name(),
                "external_command:"@ + analysis.command@,
                "external_status:"@ + option_i32_debug(analysis.status_code),
                "artifacts_extracted:"@ + decimal(analysis.artifacts@.len()),
            ]
            &&& r.error is None
            &&& r.extracted_children@.len() == analysis.artifacts@.len()
            &&& forall|i: int| 0 <= i < r.extracted_children@.len() ==> {
                &&& (#[trigger] r.extracted_children@[i]).name == analysis.artifacts@[i].name
                &&& r.extracted_children@[i].bytes@ == analysis.artifacts@[i].bytes@
            }
        },
        Err(text) => {
            &&& !r.valid
            &&& r.detected_size == c.magic_bytes@.len()
            &&& r.final_score == c.signature.base_confidence
            &&& texts(r.criteria@) == seq!["signature_found"@, "external_adapter:"@ + adapter.spec_name()]
            &&& opt_text(r.error) == Some(text@)
            &&& r.extracted_children@.len() == 0
        },
    }
}

fn labelled(label: &str, value: &str) -> (r: String)
    ensures
        r@ == label@ + value@,
{
    let mut s = owned(label);
    push_str(&mut s, value);
    s
}

/// Turns the outcome of an external tool run into the candidate's detection result.
pub fn external_tool_result(
    bytes: &[u8],
    candidate: &Candidate,
    adapter: Adapter,
    outcome: Result<ExternalAnalysis, String>,
) -> (r: DetectionResult)
    ensures
        tool_outcome(bytes@, *candidate, adapter, outcome, r),
{
    let name = adapter.name();
    match outcome {
        Ok(analysis) => {
            let count = analysis.artifacts.len();
            let status = option_i32_text(analysis.status_code);
            let count_text = usize_text(count);
            let mut criteria: Vec<String> = Vec::new();
            criteria.push(owned("signature_found"));
            criteria.push(labelled("external_adapter:", name));
            criteria.push(labelled("external_command:", analysis.command.as_str()));
            criteria.push(labelled("external_status:", status.as_str()));
            criteria.push(labelled("artifacts_extracted:", count_text.as_str()));
            let ghost artifacts = analysis.artifacts@;
            let mut remaining = analysis.artifacts;
            let mut children: Vec<ExtractedChild> = Vec::new();
            while remaining.len() > 0
                invariant
                    children@.len() + remaining@.len() == artifacts.len(),
                    remaining@ == artifacts.subrange(children@.len() as int, artifacts.len() as int),
                    forall|i: int| 0 <= i < children@.len() ==> {
                        &&& (#[trigger] children@[i]).name == artifacts[i].name
                        &&& children@[i].bytes@ == artifacts[i].bytes@
                    },
                decreases remaining.len(),
            {
                let artifact = remaining.remove(0);
                children.push(ExtractedChild { name: artifact.name, bytes: artifact.bytes });
            }
            assert(texts(criteria@) =~= seq![
                "signature_found"@,
                "external_adapter:"@ + adapter.spec_name(),
                "external_command:"@ + analysis.command@,
                "external_status:"@ + option_i32_debug(analysis.status_code),
                "artifacts_extracted:"@ + decimal(artifacts.len()),
            ]);
            DetectionResult {
                valid: true,
                detected_size: estimate_size_to_end(bytes, candidate.offset),
                final_score: 90,
                criteria,
                error: None,
                extracted_children: children,
            }
        },
        Err(text) => {
            let mut criteria: Vec<String> = Vec::new();
            criteria.push(owned("signature_found"));
            criteria.push(labelled("external_adapter:", name));
            assert(texts(criteria@) =~= seq!["signature_found"@, "external_adapter:"@ + adapter.spec_name()]);
            DetectionResult {
                valid: false,
                detected_size: candidate.magic_bytes.len(),
                final_score: candidate.signature.base_confidence,
                criteria,
                error: Some(text),
                extracted_children: Vec::new(),
            }
        },
    }
}


// ---------------------------------------------------------------------------
// The engine.

/// The analysis engine: a signature database and the limits it works within.
pub struct DrillEngine {
    database: CheatDatabase,
    limits: AnalysisLimits,
}

/// Where the engine's signature database comes from.
#[derive(Debug)]
pub enum DatabaseSource {
    /// The database built into the application.
    Builtin,
    /// A JSON file at this path.
    LocalFile(String),
}

/// The detectors that signatures can name.
#[derive(Clone, Copy, Debug, PartialEq, Eq, Structural)]
pub enum Detector {
    Zip,
    Png,
    Elf,
    JavaClass,
    GenericMagic,
    Bmp,
    ExternalTool,
}

/// The detector that a signature names, if it exists.
pub open spec fn detector_named(name: Seq<char>) -> Option<Detector> {
    if name == "zip_detector"@ {
        Some(Detector::Zip)
    } else if name == "png_detector"@ {
        Some(Detector::Png)
    } else if name == "elf_detector"@ {
        Some(Detector::Elf)
    } else if name == "java_class_detector"@ {
        Some(Detector::JavaClass)
    } else if name == "generic_magic_detector"@ {
        Some(Detector::GenericMagic)
    } else if name == "bmp_detector"@ {
        Some(Detector::Bmp)
    } else if name == "external_tool_detector"@ || name == "uefi_extract_detector"@ || name
        == "binwalk_detector"@ || name == "ghidra_detector"@ {
        Some(Detector::ExternalTool)
    } else {
        None
    }
}

fn find_detector(name: &str) -> (r: Option<Detector>)
    ensures
        r == detector_named(name@),
{
    proof {
        reveal_strlit("zip_detector");
        reveal_strlit("png_detector");
        reveal_strlit("elf_detector");
        reveal_strlit("java_class_detector");
        reveal_strlit("generic_magic_detector");
        reveal_strlit("bmp_detector");
        reveal_strlit("external_tool_detector");
        reveal_strlit("uefi_extract_detector");
        reveal_strlit("binwalk_detector");
        reveal_strlit("ghidra_detector");
    }
    if str_eq(name, "zip_detector") {
        Some(Detector::Zip)
    } else if str_eq(name, "png_detector") {
        Some(Detector::Png)
    } else if str_eq(name, "elf_detector") {
        Some(Detector::Elf)
    } else if str_eq(name, "java_class_detector") {
        Some(Detector::JavaClass)
    } else if str_eq(name, "generic_magic_detector") {
        Some(Detector::GenericMagic)
    } else if str_eq(name, "bmp_detector") {
        Some(Detector::Bmp)
    } else if str_eq(name, "external_tool_detector") || str_eq(name, "uefi_extract_detector")
        || str_eq(name, "binwalk_detector") || str_eq(name, "ghidra_detector") {
        Some(Detector::ExternalTool)
    } else {
        None
    }
}

/// What validating a candidate leads to: the conclusion of the detector that
/// its signature names, the adapter that detector needs, or an error when no
/// such detector exists.
pub open spec fn check_outcome(bytes: Seq<u8>, c: Candidate, r: Result<CandidateCheck, DrillError>) -> bool {
    match detector_named(c.signature.detector@) {
        None => r matches Err(DrillError::DetectorNotFound(m)) && m@ == c.signature.detector@,
        Some(Detector::Zip) => r matches Ok(CandidateCheck::Finished(d)) && zip_outcome(bytes, c, d),
        Some(Detector::Png) => r matches Ok(CandidateCheck::Finished(d)) && png_outcome(bytes, c, d),
        Some(Detector::Elf) => r matches Ok(CandidateCheck::Finished(d)) && elf_outcome(bytes, c, d),
        Some(Detector::JavaClass) => r matches Ok(CandidateCheck::Finished(d)) && java_class_outcome(
            bytes,
            c,
            d,
        ),
        Some(Detector::GenericMagic) => r matches Ok(CandidateCheck::Finished(d)) && generic_outcome(
            bytes,
            c,
            d,
        ),
        Some(Detector::Bmp) => r matches Ok(CandidateCheck::Finished(d)) && bmp_outcome(bytes, c, d),
        Some(Detector::ExternalTool) => r matches Ok(k) && tool_check_outcome(c, k),
    }
}

/// The magic bytes of a signature, when its magic value is hexadecimal.
pub open spec fn signature_magic(sig: CheatSignature) -> Seq<u8> {
    hex_bytes(magic_text(sig.magic@))
}

/// Whether a signature's magic value is hexadecimal.
pub open spec fn magic_is_hex(sig: CheatSignature) -> bool {
    is_hex_text(magic_text(sig.magic@))
}

/// The first signature, from index `i` on, whose magic value is not hexadecimal.
pub open spec fn first_invalid_magic(sigs: Seq<CheatSignature>, i: int) -> Option<int>
    decreases sigs.len() - i,
{
    if i < 0 || i >= sigs.len() {
        None
    } else if !magic_is_hex(sigs[i]) {
        Some(i)
    } else {
        first_invalid_magic(sigs, i + 1)
    }
}

/// Whether a signature puts a candidate at `offset`: at its fixed offset, or
/// anywhere when its rule is `any` and its magic value is not empty; the
/// magic value must stand there.
pub open spec fn places_candidate(sig: CheatSignature, bytes: Seq<u8>, offset: int) -> bool {
    let magic = signature_magic(sig);
    &&& matches_at(bytes, magic, offset)
    &&& match sig.offset {
        OffsetRule::Fixed(f) => offset == f,
        OffsetRule::Any(v) => v@ == "any"@ && magic.len() > 0,
    }
}

/// The candidates at one offset from the first `k` signatures, in database
/// order, as pairs of signature index and offset.
pub open spec fn candidate_row(sigs: Seq<CheatSignature>, bytes: Seq<u8>, offset: int, k: int) -> Seq<(int, int)>
    decreases k,
{
    if k <= 0 {
        seq![]
    } else {
        let prev = candidate_row(sigs, bytes, offset, k - 1);
        if places_candidate(sigs[k - 1], bytes, offset) {
            prev.push((k - 1, offset))
        } else {
            prev
        }
    }
}

/// All candidates at offsets below `upto`: by offset, then in database order.
pub open spec fn candidate_pairs(sigs: Seq<CheatSignature>, bytes: Seq<u8>, upto: int) -> Seq<(int, int)>
    decreases upto,
{
    if upto <= 0 {
        seq![]
    } else {
        candidate_pairs(sigs, bytes, upto - 1) + candidate_row(sigs, bytes, upto - 1, sigs.len() as int)
    }
}

/// Whether `cands` are the candidates that `pairs` describe.
pub open spec fn candidates_are(cands: Seq<Candidate>, pairs: Seq<(int, int)>, sigs: Seq<CheatSignature>) -> bool {
    &&& cands.len() == pairs.len()
    &&& forall|i: int| 0 <= i < cands.len() ==> {
        &&& (#[trigger] cands[i]).signature == sigs[pairs[i].0]
        &&& cands[i].offset == pairs[i].1
        &&& cands[i].magic_bytes@ == signature_magic(sigs[pairs[i].0])
    }
}

/// Where one signature may put candidates.
enum Placement {
    At(usize),
    Anywhere,
    Nowhere,
}

impl DrillEngine {
    /// The signature database.
    pub closed spec fn spec_database(&self) -> CheatDatabase {
        self.database
    }

    /// The analysis limits.
    pub closed spec fn spec_limits(&self) -> AnalysisLimits {
        self.limits
    }

    /// An engine over `database`, with the default limits.
    pub fn from_database(database: CheatDatabase) -> (r: Self)
        ensures
            r.spec_database() == database,
            r.spec_limits().max_depth == 8,
            r.spec_limits().max_children_per_node == 10_000,
            r.spec_limits().max_extracted_size == 256 * 1024 * 1024,
    {
        DrillEngine { database, limits: AnalysisLimits::default() }
    }

    /// The database that the settings select: the local file when the source
    /// is `local` and a path is set, the built-in database otherwise.
    pub fn from_database_source(source: &str, local_path: &str) -> (r: DatabaseSource)
        ensures
            (source@ == "local"@ && local_path@.len() > 0) ==> (r matches DatabaseSource::LocalFile(p) && p@
                == local_path@),
            !(source@ == "local"@ && local_path@.len() > 0) ==> (r is Builtin),
    {
        proof {
            reveal_strlit("local");
        }
        if str_eq(source, "local") && local_path.unicode_len() > 0 {
            DatabaseSource::LocalFile(owned(local_path))
        } else {
            DatabaseSource::Builtin
        }
    }

    /// The same engine with other limits.
    pub fn with_limits(self, limits: AnalysisLimits) -> (r: Self)
        ensures
            r.spec_database() == self.spec_database(),
            r.spec_limits() == limits,
    {
        DrillEngine { database: self.database, limits }
    }

    /// The signature database.
    pub fn database(&self) -> (r: &CheatDatabase)
        ensures
            *r == self.spec_database(),
    {
        &self.database
    }

    /// The analysis limits.
    pub fn limits(&self) -> (r: AnalysisLimits)
        ensures
            r == self.spec_limits(),
    {
        self.limits
    }

    /// Runs the detector that a candidate's signature names.
    pub fn validate_candidate(&self, bytes: &[u8], candidate: &Candidate) -> (r: Result<CandidateCheck, DrillError>)
        requires
            candidate.signature.detector@ == "zip_detector"@ ==> candidate.offset <= bytes@.len(),
        ensures
            check_outcome(bytes@, *candidate, r),
    {
        match find_detector(candidate.signature.detector.as_str()) {
            Some(Detector::Zip) => Ok(CandidateCheck::Finished(validate_zip(bytes, candidate))),
            Some(Detector::Png) => Ok(CandidateCheck::Finished(validate_png(bytes, candidate))),
            Some(Detector::Elf) => Ok(CandidateCheck::Finished(validate_elf(bytes, candidate))),
            Some(Detector::JavaClass) => Ok(CandidateCheck::Finished(validate_java_class(bytes, candidate))),
            Some(Detector::GenericMagic) => Ok(
                CandidateCheck::Finished(validate_generic_magic(bytes, candidate)),
            ),
            Some(Detector::Bmp) => Ok(CandidateCheck::Finished(validate_bmp(bytes, candidate))),
            Some(Detector::ExternalTool) => Ok(external_tool_check(candidate)),
            None => Err(DrillError::DetectorNotFound(candidate.signature.detector.clone())),
        }
    }

    /// Every place in `bytes` where a signature's magic value stands, ordered
    /// by offset and, at one offset, by the signatures' order in the database.
    /// Fails on the first signature whose magic value is not hexadecimal.
    #[verifier::rlimit(50)]
    pub fn find_candidates(&self, bytes: &[u8]) -> (r: Result<Vec<Candidate>, DrillError>)
        ensures
            first_invalid_magic(self.spec_database().signatures@, 0) matches Some(k) ==> (r matches Err(
                DrillError::Hex(m),
            ) && m@ == invalid_magic(self.spec_database().signatures@[k].magic@)),
            first_invalid_magic(self.spec_database().signatures@, 0) is None ==> (r matches Ok(v)
                && candidates_are(
                v@,
                candidate_pairs(self.spec_database().signatures@, bytes@, bytes@.len() + 1int),
                self.spec_database().signatures@,
            )),
    {
        let sigs = &self.database.signatures;
        let ghost gs = sigs@;
        let mut magics: Vec<Vec<u8>> = Vec::new();
        let mut placements: Vec<Placement> = Vec::new();
        let mut i: usize = 0;
        while i < sigs.len()
            invariant
                gs == sigs@,
                gs == self.spec_database().signatures@,
                i <= gs.len(),
                magics@.len() == i,
                placements@.len() == i,
                first_invalid_magic(gs, 0) == first_invalid_magic(gs, i as int),
                forall|j: int| 0 <= j < i ==> magics@[j]@ == signature_magic(#[trigger] gs[j]),
                forall|j: int| 0 <= j < i ==> match #[trigger] placements@[j] {
                    Placement::At(f) => gs[j].offset == OffsetRule::Fixed(f),
                    Placement::Anywhere => gs[j].offset matches OffsetRule::Any(v) && v@ == "any"@,
                    Placement::Nowhere => gs[j].offset matches OffsetRule::Any(v) && v@ != "any"@,
                },
            decreases gs.len() - i,
        {
            let magic = match parse_hex_magic(sigs[i].magic.as_str()) {
                Ok(m) => m,
                Err(e) => {
                    assert(!magic_is_hex(gs[i as int]));
                    assert(first_invalid_magic(gs, i as int) == Some(i as int));
                    assert(e matches DrillError::Hex(m) && m@ == invalid_magic(gs[i as int].magic@));
                    return Err(e);
                },
            };
            magics.push(magic);
            let placement = match &sigs[i].offset {
                OffsetRule::Fixed(f) => Placement::At(*f),
                OffsetRule::Any(v) => {
                    proof {
                        reveal_strlit("any");
                    }
                    if str_eq(v.as_str(), "any") {
                        Placement::Anywhere
                    } else {
                        Placement::Nowhere
                    }
                },
            };
            placements.push(placement);
            i = i + 1;
        }
        assert(first_invalid_magic(gs, gs.len() as int) is None);
        assert(first_invalid_magic(self.spec_database().signatures@, 0) is None);
        let mut found: Vec<Candidate> = Vec::new();
        let len = bytes.len();
        let mut offset: usize = 0;
        loop
            invariant_except_break
                candidates_are(found@, candidate_pairs(gs, bytes@, offset as int), gs),
            invariant
                gs == sigs@,
                gs == self.spec_database().signatures@,
                len == bytes@.len(),
                offset <= len,
                magics@.len() == gs.len(),
                placements@.len() == gs.len(),
                forall|j: int| 0 <= j < gs.len() ==> magics@[j]@ == signature_magic(#[trigger] gs[j]),
                forall|j: int| 0 <= j < gs.len() ==> match #[trigger] placements@[j] {
                    Placement::At(f) => gs[j].offset == OffsetRule::Fixed(f),
                    Placement::Anywhere => gs[j].offset matches OffsetRule::Any(v) && v@ == "any"@,
                    Placement::Nowhere => gs[j].offset matches OffsetRule::Any(v) && v@ != "any"@,
                },
            ensures
                candidates_are(found@, candidate_pairs(gs, bytes@, len + 1int), gs),
            decreases len - offset,
        {
            let mut k: usize = 0;
            while k < sigs.len()
                invariant
                    gs == sigs@,
                    gs == self.spec_database().signatures@,
                    len == bytes@.len(),
                    offset <= len,
                    k <= gs.len(),
                    magics@.len() == gs.len(),
                    placements@.len() == gs.len(),
                    forall|j: int| 0 <= j < gs.len() ==> magics@[j]@ == signature_magic(#[trigger] gs[j]),
                    forall|j: int| 0 <= j < gs.len() ==> match #[trigger] placements@[j] {
                        Placement::At(f) => gs[j].offset == OffsetRule::Fixed(f),
                        Placement::Anywhere => gs[j].offset matches OffsetRule::Any(v) && v@ == "any"@,
                        Placement::Nowhere => gs[j].offset matches OffsetRule::Any(v) && v@ != "any"@,
                    },
                    candidates_are(
                        found@,
                        candidate_pairs(gs, bytes@, offset as int) + candidate_row(gs, bytes@, offset as int, k as int),
                        gs,
                    ),
                decreases gs.len() - k,
            {
                let ghost before = candidate_pairs(gs, bytes@, offset as int) + candidate_row(gs, bytes@, offset as int, k as int);
                let here = match placements[k] {
                    Placement::At(f) => f == offset && bytes_match_at(bytes, magics[k].as_slice(), offset),
                    Placement::Anywhere => magics[k].len() > 0 && bytes_match_at(bytes, magics[k].as_slice(), offset),
                    Placement::Nowhere => false,
                };
                assert(here == places_candidate(gs[k as int], bytes@, offset as int));
                if here {
                    let cand = Candidate {
                        signature: sigs[k].clone(),
                        offset,
                        magic_bytes: vstd::slice::slice_to_vec(magics[k].as_slice()),
                    };
                    found.push(cand);
                    assert(candidate_pairs(gs, bytes@, offset as int) + candidate_row(gs, bytes@, offset as int, k + 1)
                        =~= before.push((k as int, offset as int)));
                } else {
                    assert(candidate_pairs(gs, bytes@, offset as int) + candidate_row(gs, bytes@, offset as int, k + 1)
                        =~= before);
                }
                k = k + 1;
            }
            assert(candidate_pairs(gs, bytes@, offset + 1) =~= candidate_pairs(gs, bytes@, offset as int)
                + candidate_row(gs, bytes@, offset as int, gs.len() as int));
            if offset == len {
                break;
            }
            offset = offset + 1;
        }
        assert(candidates_are(found@, candidate_pairs(gs, bytes@, bytes@.len() + 1int), gs));
        Ok(found)
    }
}


// ---------------------------------------------------------------------------
// Nodes.

/// The id of the node numbered `k`: `n` and the number, zero-padded to four digits.
pub open spec fn node_id_text(k: nat) -> Seq<char> {
    seq!['n'] + zero_padded(decimal(k), 4)
}

/// The id of the node numbered `k`.
pub fn node_id(k: usize) -> (r: String)
    ensures
        r@ == node_id_text(k as nat),
{
    let mut s = owned("n");
    proof {
        reveal_strlit("n");
    }
    let digits = padded_decimal(k, 4);
    push_str(&mut s, digits.as_str());
    assert(s@ =~= node_id_text(k as nat));
    s
}

/// The root node of an analysis of `bytes`, named after the file.
pub open spec fn is_root_node(n: Node, bytes: Seq<u8>, file_name: Option<String>) -> bool {
    &&& n.id@ == "n0000"@
    &&& n.node_type@ == "root"@
    &&& n.subtype@ == "original_file"@
    &&& n.start_offset == 0
    &&& n.size == bytes.len()
    &&& n.raw_hash@ == hash_text(bytes)
    &&& n.detector_used@ == "drill_root"@
    &&& n.dependency@ == "none"@
    &&& n.confidence.level@ == "high"@
    &&& n.confidence.score == 100
    &&& texts(n.confidence.criteria@) == seq!["file_opened"@, "sha256_calculated"@]
    &&& n.metadata.name == file_name
    &&& opt_text(n.metadata.description) == Some("Original file analyzed by Drill"@)
    &&& n.metadata.validated
    &&& !n.metadata.reversible
    &&& n.metadata.validation_error is None
    &&& n.children@.len() == 0
}

/// The root node of an analysis of `bytes`.
pub fn root_node(bytes: &[u8], file_name: Option<String>) -> (r: Node)
    ensures
        is_root_node(r, bytes@, file_name),
{
    Node {
        id: owned("n0000"),
        node_type: owned("root"),
        subtype: owned("original_file"),
        start_offset: 0,
        size: bytes.len(),
        raw_hash: sha256_hex(bytes),
        detector_used: owned("drill_root"),
        dependency: owned("none"),
        confidence: Confidence { level: owned("high"), score: 100, criteria: strings2("file_opened", "sha256_calculated") },
        metadata: NodeMetadata {
            name: file_name,
            description: Some(owned("Original file analyzed by Drill")),
            validated: true,
            reversible: false,
            validation_error: None,
        },
        children: Vec::new(),
    }
}

/// The size of the node for a confirmed candidate: what the detector found,
/// cut at the end of the data.
pub open spec fn child_size(len: int, c: Candidate, d: DetectionResult) -> int {
    let room = size_to_end(len, c.offset as int);
    if d.detected_size <= room {
        d.detected_size as int
    } else {
        room
    }
}

/// Whether a detection result yields a node: a candidate that failed a
/// validation its signature requires yields none, and neither does one of
/// size zero.
pub open spec fn yields_node(len: int, c: Candidate, d: DetectionResult) -> bool {
    !(!d.valid && c.signature.validation_required) && child_size(len, c, d) > 0
}

/// The node made for a candidate of `bytes`, numbered `id`, from its detection result.
pub open spec fn is_candidate_node(n: Node, bytes: Seq<u8>, c: Candidate, d: DetectionResult, id: nat) -> bool {
    let size = child_size(bytes.len() as int, c, d);
    &&& n.id@ == node_id_text(id)
    &&& n.node_type == c.signature.node_type
    &&& n.subtype == c.signature.subtype
    &&& n.start_offset == c.offset
    &&& n.size == size
    &&& n.raw_hash@ == hash_text(bytes.subrange(c.offset as int, c.offset + size))
    &&& n.detector_used == c.signature.detector
    &&& n.dependency == c.signature.dependency
    &&& n.confidence.level@ == level_of(d.valid, d.final_score)
    &&& n.confidence.score == d.final_score
    &&& n.confidence.criteria == d.criteria
    &&& n.metadata.name == Some(c.signature.name)
    &&& n.metadata.description == Some(c.signature.description)
    &&& n.metadata.validated == d.valid
    &&& !n.metadata.reversible
    &&& n.metadata.validation_error == d.error
    &&& n.children@.len() == 0
}

/// The node for a candidate, numbered `id`, with the files its detector
/// extracted; `None` when the result yields no node.
pub fn candidate_node(bytes: &[u8], candidate: &Candidate, result: DetectionResult, id: usize) -> (r: Option<
    (Node, Vec<ExtractedChild>),
>)
    ensures
        match r {
            None => !yields_node(bytes@.len() as int, *candidate, result),
            Some((n, extracted)) => {
                &&& yields_node(bytes@.len() as int, *candidate, result)
                &&& is_candidate_node(n, bytes@, *candidate, result, id as nat)
                &&& extracted == result.extracted_children
            },
        },
{
    let level = confidence_level(result.valid, result.final_score);
    if !result.valid && candidate.signature.validation_required {
        return None;
    }
    let room = bytes.len().saturating_sub(candidate.offset);
    let size = if result.detected_size <= room { result.detected_size } else { room };
    if size == 0 {
        return None;
    }
    let end = candidate.offset + size;
    let slice = slice_subrange(bytes, candidate.offset, end);
    let sig = &candidate.signature;
    let node = Node {
        id: node_id(id),
        node_type: sig.node_type.clone(),
        subtype: sig.subtype.clone(),
        start_offset: candidate.offset,
        size,
        raw_hash: sha256_hex(slice),
        detector_used: sig.detector.clone(),
        dependency: sig.dependency.clone(),
        confidence: Confidence { level: owned(level), score: result.final_score, criteria: result.criteria },
        metadata: NodeMetadata {
            name: Some(sig.name.clone()),
            description: Some(sig.description.clone()),
            validated: result.valid,
            reversible: false,
            validation_error: result.error,
        },
        children: Vec::new(),
    };
    Some((node, result.extracted_children))
}

/// The node for a file extracted from a container, numbered `id`.
pub open spec fn is_extracted_node(n: Node, child: ExtractedChild, dependency: String, id: nat) -> bool {
    &&& n.id@ == node_id_text(id)
    &&& n.node_type@ == "extracted_file"@
    &&& n.subtype@ == "unknown"@
    &&& n.start_offset == 0
    &&& n.size == child.bytes@.len()
    &&& n.raw_hash@ == hash_text(child.bytes@)
    &&& n.detector_used@ == "extracted_by_dependency"@
    &&& n.dependency == dependency
    &&& n.confidence.level@ == "medium"@
    &&& n.confidence.score == 70
    &&& texts(n.confidence.criteria@) == seq!["extracted_from_validated_container"@, "pending_recursive_analysis"@]
    &&& n.metadata.name == Some(child.name)
    &&& opt_text(n.metadata.description) == Some("File extracted from container"@)
    &&& n.metadata.validated
    &&& !n.metadata.reversible
    &&& n.metadata.validation_error is None
    &&& n.children@.len() == 0
}

/// The node for a file extracted from a container, numbered `id`.
pub fn extracted_node(child: &ExtractedChild, dependency: &String, id: usize) -> (r: Node)
    ensures
        is_extracted_node(r, *child, *dependency, id as nat),
{
    Node {
        id: node_id(id),
        node_type: owned("extracted_file"),
        subtype: owned("unknown"),
        start_offset: 0,
        size: child.bytes.len(),
        raw_hash: sha256_hex(child.bytes.as_slice()),
        detector_used: owned("extracted_by_dependency"),
        dependency: dependency.clone(),
        confidence: Confidence {
            level: owned("medium"),
            score: 70,
            criteria: strings2("extracted_from_validated_container", "pending_recursive_analysis"),
        },
        metadata: NodeMetadata {
            name: Some(child.name.clone()),
            description: Some(owned("File extracted from container")),
            validated: true,
            reversible: false,
            validation_error: None,
        },
        children: Vec::new(),
    }
}


// ---------------------------------------------------------------------------
// Laws of the candidate search.

proof fn lemma_candidate_row(sigs: Seq<CheatSignature>, bytes: Seq<u8>, offset: int, k: int)
    requires
        k <= sigs.len(),
    ensures
        forall|i: int| 0 <= i < candidate_row(sigs, bytes, offset, k).len() ==> {
            let p = #[trigger] candidate_row(sigs, bytes, offset, k)[i];
            &&& 0 <= p.0 < k
            &&& p.1 == offset
            &&& places_candidate(sigs[p.0], bytes, offset)
        },
        forall|i: int, j: int|
            0 <= i < j < candidate_row(sigs, bytes, offset, k).len() ==> #[trigger] candidate_row(
                sigs,
                bytes,
                offset,
                k,
            )[i].0 < #[trigger] candidate_row(sigs, bytes, offset, k)[j].0,
        forall|q: int|
            0 <= q < k && places_candidate(sigs[q], bytes, offset) ==> #[trigger] candidate_row(
                sigs,
                bytes,
                offset,
                k,
            ).contains((q, offset)),
    decreases k,
{
    if k > 0 {
        lemma_candidate_row(sigs, bytes, offset, k - 1);
        let prev = candidate_row(sigs, bytes, offset, k - 1);
        if places_candidate(sigs[k - 1], bytes, offset) {
            let row = prev.push((k - 1, offset));
            assert forall|q: int| 0 <= q < k && places_candidate(sigs[q], bytes, offset) implies row.contains(
                (q, offset),
            ) by {
                if q < k - 1 {
                    assert(prev.contains((q, offset)));
                    let w = choose|w: int| 0 <= w < prev.len() && prev[w] == (q, offset);
                    assert(row[w] == (q, offset));
                } else {
                    assert(row[prev.len() as int] == (q, offset));
                }
            }
        } else {
            assert forall|q: int| 0 <= q < k && places_candidate(sigs[q], bytes, offset) implies prev.contains(
                (q, offset),
            ) by {
                assert(q != k - 1);
            }
        }
    }
}

/// Every candidate of the search is a place where a signature puts one, and
/// the search stays below `upto`.
pub proof fn lemma_candidate_pairs_sound(sigs: Seq<CheatSignature>, bytes: Seq<u8>, upto: int)
    ensures
        forall|i: int| 0 <= i < candidate_pairs(sigs, bytes, upto).len() ==> {
            let p = #[trigger] candidate_pairs(sigs, bytes, upto)[i];
            &&& 0 <= p.0 < sigs.len()
            &&& 0 <= p.1 < upto
            &&& places_candidate(sigs[p.0], bytes, p.1)
        },
    decreases upto,
{
    if upto > 0 {
        lemma_candidate_pairs_sound(sigs, bytes, upto - 1);
        lemma_candidate_row(sigs, bytes, upto - 1, sigs.len() as int);
        let a = candidate_pairs(sigs, bytes, upto - 1);
        let b = candidate_row(sigs, bytes, upto - 1, sigs.len() as int);
        assert forall|i: int| 0 <= i < (a + b).len() implies {
            let p = #[trigger] (a + b)[i];
            &&& 0 <= p.0 < sigs.len()
            &&& 0 <= p.1 < upto
            &&& places_candidate(sigs[p.0], bytes, p.1)
        } by {
            if i < a.len() {
                assert((a + b)[i] == a[i]);
            } else {
                assert((a + b)[i] == b[i - a.len()]);
            }
        }
    }
}

/// Candidates come ordered by offset, and at one offset by the signatures'
/// order in the database: no pair of candidates is out of that order.
pub proof fn lemma_candidate_pairs_ordered(sigs: Seq<CheatSignature>, bytes: Seq<u8>, upto: int)
    ensures
        forall|i: int, j: int|
            0 <= i < j < candidate_pairs(sigs, bytes, upto).len() ==> {
                let a = #[trigger] candidate_pairs(sigs, bytes, upto)[i];
                let b = #[trigger] candidate_pairs(sigs, bytes, upto)[j];
                a.1 < b.1 || (a.1 == b.1 && a.0 < b.0)
            },
    decreases upto,
{
    if upto > 0 {
        lemma_candidate_pairs_ordered(sigs, bytes, upto - 1);
        lemma_candidate_pairs_sound(sigs, bytes, upto - 1);
        lemma_candidate_row(sigs, bytes, upto - 1, sigs.len() as int);
        let a = candidate_pairs(sigs, bytes, upto - 1);
        let b = candidate_row(sigs, bytes, upto - 1, sigs.len() as int);
        assert forall|i: int, j: int| 0 <= i < j < (a + b).len() implies {
            let x = #[trigger] (a + b)[i];
            let y = #[trigger] (a + b)[j];
            x.1 < y.1 || (x.1 == y.1 && x.0 < y.0)
        } by {
            if j < a.len() {
                assert((a + b)[i] == a[i]);
                assert((a + b)[j] == a[j]);
            } else if i < a.len() {
                assert((a + b)[i] == a[i]);
                assert((a + b)[j] == b[j - a.len()]);
            } else {
                assert((a + b)[i] == b[i - a.len()]);
                assert((a + b)[j] == b[j - a.len()]);
            }
        }
    }
}

/// No candidate is missed: every place below `upto` where a signature puts a
/// candidate is among the results.
pub proof fn lemma_candidate_pairs_complete(sigs: Seq<CheatSignature>, bytes: Seq<u8>, upto: int, q: int, offset: int)
    requires
        0 <= q < sigs.len(),
        0 <= offset < upto,
        places_candidate(sigs[q], bytes, offset),
    ensures
        candidate_pairs(sigs, bytes, upto).contains((q, offset)),
    decreases upto,
{
    let a = candidate_pairs(sigs, bytes, upto - 1);
    let b = candidate_row(sigs, bytes, upto - 1, sigs.len() as int);
    if offset < upto - 1 {
        lemma_candidate_pairs_complete(sigs, bytes, upto - 1, q, offset);
        let w = choose|w: int| 0 <= w < a.len() && a[w] == (q, offset);
        assert((a + b)[w] == (q, offset));
    } else {
        lemma_candidate_row(sigs, bytes, upto - 1, sigs.len() as int);
        assert(b.contains((q, offset)));
        let w = choose|w: int| 0 <= w < b.len() && b[w] == (q, offset);
        assert((a + b)[a.len() + w] == (q, offset));
    }
}

/// Every candidate that the search returns lies within the data: its magic
/// value ends before the end of `bytes`.
pub proof fn lemma_candidates_within(cands: Seq<Candidate>, sigs: Seq<CheatSignature>, bytes: Seq<u8>, upto: int)
    requires
        candidates_are(cands, candidate_pairs(sigs, bytes, upto), sigs),
    ensures
        forall|i: int| 0 <= i < cands.len() ==> (#[trigger] cands[i]).offset + cands[i].magic_bytes@.len()
            <= bytes.len(),
{
    lemma_candidate_pairs_sound(sigs, bytes, upto);
    assert forall|i: int| 0 <= i < cands.len() implies (#[trigger] cands[i]).offset + cands[i].magic_bytes@.len()
        <= bytes.len() by {
        let p = candidate_pairs(sigs, bytes, upto)[i];
        assert(places_candidate(sigs[p.0], bytes, p.1));
    }
}

/// The candidates that the search returns come in order of their offsets.
pub proof fn lemma_candidates_sorted(cands: Seq<Candidate>, sigs: Seq<CheatSignature>, bytes: Seq<u8>, upto: int)
    requires
        candidates_are(cands, candidate_pairs(sigs, bytes, upto), sigs),
    ensures
        forall|a: int, b: int| 0 <= a < b < cands.len() ==> (#[trigger] cands[a]).offset <= (#[trigger] cands[b]).offset,
{
    lemma_candidate_pairs_ordered(sigs, bytes, upto);
    assert forall|a: int, b: int| 0 <= a < b < cands.len() implies (#[trigger] cands[a]).offset <= (
    #[trigger] cands[b]).offset by {
        let x = candidate_pairs(sigs, bytes, upto)[a];
        let y = candidate_pairs(sigs, bytes, upto)[b];
        assert(x.1 < y.1 || (x.1 == y.1 && x.0 < y.0));
    }
}

/// The node made for a confirmed candidate never exceeds what its detector
/// found: its size is the smaller of the detected size and the bytes from the
/// candidate's offset to the end of the data, and its hash covers exactly
/// those bytes. A candidate yields a node exactly when it did not fail a
/// validation its signature requires, the detector found something, and the
/// offset lies inside the data.
pub proof fn lemma_candidate_node_size(bytes: Seq<u8>, c: Candidate, d: DetectionResult, id: nat, n: Node)
    ensures
        yields_node(bytes.len() as int, c, d) <==> ((d.valid || !c.signature.validation_required)
            && d.detected_size > 0 && c.offset < bytes.len()),
        is_candidate_node(n, bytes, c, d, id) ==> {
            let room: int = if c.offset <= bytes.len() { bytes.len() - c.offset } else { 0 };
            &&& n.size == (if d.detected_size <= room { d.detected_size as int } else { room })
            &&& n.size <= d.detected_size
            &&& n.start_offset == c.offset
            &&& n.raw_hash@ == hash_text(bytes.subrange(c.offset as int, c.offset + n.size))
        },
{
}

/// A BMP candidate is valid only with its magic value in place and its
/// header complete, and then it is judged by the size it declares, the
/// little-endian 32-bit value of the four bytes from two past its offset: it
/// is valid exactly when that size is not zero and fits in the data, and then
/// its detected size is that size. An invalid candidate covers its magic
/// value alone.
pub proof fn lemma_bmp_declared_size(bytes: Seq<u8>, c: Candidate, r: DetectionResult)
    requires
        bmp_outcome(bytes, c, r),
    ensures
        !matches_at(bytes, c.magic_bytes@, c.offset as int) ==> !r.valid,
        bytes.len() < c.offset + 6 ==> !r.valid,
        !r.valid ==> r.detected_size == c.magic_bytes@.len(),
        r.extracted_children@.len() == 0,
        (matches_at(bytes, c.magic_bytes@, c.offset as int) && bytes.len() >= c.offset + 6) ==> ({
            let off = c.offset as int;
            let size = bytes[off + 2] + 256 * bytes[off + 3] + 65536 * bytes[off + 4] + 16777216 * bytes[off + 5];
            &&& r.valid == (size > 0 && off + size <= bytes.len())
            &&& r.valid ==> r.detected_size == size
        }),
{
}

/// What the magic-value detectors accept: PNG and any other format when the
/// magic value stands at the offset, ELF when a 16-byte header follows from
/// the offset as well, Java class when a 10-byte header does. An accepted
/// image runs from its offset to the end of the data, and the generic
/// detector gives an accepted candidate its signature's own confidence.
pub proof fn lemma_detector_verdicts(bytes: Seq<u8>, c: Candidate, r: DetectionResult)
    ensures
        ({
            let off = c.offset as int;
            let present = matches_at(bytes, c.magic_bytes@, off);
            let room: int = if off <= bytes.len() { bytes.len() - off } else { 0 };
            &&& png_outcome(bytes, c, r) ==> r.valid == present && r.detected_size == room
            &&& elf_outcome(bytes, c, r) ==> r.valid == (present && bytes.len() >= off + 16)
                && (present ==> r.detected_size == room)
            &&& java_class_outcome(bytes, c, r) ==> r.valid == (present && bytes.len() >= off + 10)
                && (present ==> r.detected_size == room)
            &&& generic_outcome(bytes, c, r) ==> r.valid == present && r.detected_size == room && (r.valid
                ==> r.final_score == c.signature.base_confidence)
        }),
{
}

} // verus!
