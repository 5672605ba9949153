use vstd::prelude::*;
use vstd::string::StrSliceExecFns;
use vstd::string::StringExecFns;
use vstd::utf8::encode_utf8;
use crate::tables::{capacity_row, char_capacity, get_err_metadata, lemma_capacity_bounded, spec_err_metadata};

verus! {

/// Errors surfaced by the QR bit-packing layer.
#[derive(Debug, Clone, Copy, PartialEq, Eq, Structural)]
pub enum QRCodeError {
    UnsupportedVersion,
    DataSizeMissing,
}

/// The character class a payload is encoded in.
#[derive(Debug, Clone, Copy, PartialEq, Eq, Structural)]
pub enum QREncoding {
    Numeric,
    AlphaNumeric,
    Byte,
    _StructuredAppendMode,
}

/// The four QR error correction levels.
#[derive(Debug, Clone, Copy, PartialEq, Eq, Structural)]
pub enum ErrorCorrectionLevel {
    L,
    M,
    Q,
    H,
}

/// How the data codewords of one version/level pair are grouped into blocks.
#[derive(Debug, Clone, Copy, PartialEq, Eq, Structural)]
pub struct ErrorCorrectionMetaData {
    pub words_per_block: usize,
    pub blocks_grp1: usize,
    pub blocks_grp2: usize,
    pub words_per_block_grp1: usize,
    pub words_per_block_grp2: usize,
}

impl ErrorCorrectionMetaData {
    /// The value new(a, b, c, d, e) stands for, slot by slot.
    pub open spec fn spec_new(
        words_per_block: usize,
        blocks_grp1: usize,
        blocks_grp2: usize,
        words_per_block_grp1: usize,
        words_per_block_grp2: usize,
    ) -> ErrorCorrectionMetaData {
        ErrorCorrectionMetaData {
            words_per_block,
            blocks_grp1,
            blocks_grp2,
            words_per_block_grp1,
            words_per_block_grp2,
        }
    }

    /// All counts are small, as every entry of the standard table is: block
    /// counts and codeword counts never exceed 255.
    pub open spec fn wf(self) -> bool {
        self.words_per_block <= 255 && self.blocks_grp1 <= 255 && self.blocks_grp2 <= 255
            && self.words_per_block_grp1 <= 255 && self.words_per_block_grp2 <= 255
    }

    /// The number of data codewords: blocks of each group times the codewords
    /// each block holds.
    pub open spec fn spec_total_code_words(self) -> int {
        self.blocks_grp1 * self.words_per_block_grp1 + self.blocks_grp2 * self.words_per_block_grp2
    }

    pub fn new(
        words_per_block: usize,
        blocks_grp1: usize,
        blocks_grp2: usize,
        words_per_block_grp1: usize,
        words_per_block_grp2: usize,
    ) -> (r: Self)
        ensures
            r == Self::spec_new(
                words_per_block,
                blocks_grp1,
                blocks_grp2,
                words_per_block_grp1,
                words_per_block_grp2,
            ),
    {
        Self { words_per_block, blocks_grp1, blocks_grp2, words_per_block_grp1, words_per_block_grp2 }
    }

    pub fn total_code_words(&self) -> (r: usize)
        requires
            self.wf(),
        ensures
            r == self.spec_total_code_words(),
            r <= 130050,
    {
        proof {
            assert(self.blocks_grp1 * self.words_per_block_grp1 <= 255 * 255) by (nonlinear_arith)
                requires
                    self.blocks_grp1 <= 255,
                    self.words_per_block_grp1 <= 255,
            ;
            assert(self.blocks_grp2 * self.words_per_block_grp2 <= 255 * 255) by (nonlinear_arith)
                requires
                    self.blocks_grp2 <= 255,
                    self.words_per_block_grp2 <= 255,
            ;
        }
        self.blocks_grp1 * self.words_per_block_grp1 + self.blocks_grp2
            * self.words_per_block_grp2
    }
}

/// A character the numeric class accepts: an ASCII digit.
pub open spec fn is_digit_char(c: char) -> bool {
    48 <= c as u32 <= 57
}

/// A string of the numeric class: digits only.
pub open spec fn is_numeric_seq(s: Seq<char>) -> bool {
    forall|i: int| 0 <= i < s.len() ==> is_digit_char(#[trigger] s[i])
}

/// A character the alphanumeric pattern accepts, within ASCII: a digit, an
/// upper-case letter, ASCII whitespace, or one of $ % * + , - . / : (the
/// pattern's range from '+' to '.' covers the comma).
pub open spec fn is_alnum_char(c: char) -> bool {
    is_digit_char(c) || (65 <= c as u32 <= 90) || (9 <= c as u32 <= 13) || c == ' ' || c == '$'
        || c == '%' || c == '*' || (43 <= c as u32 <= 47) || c == ':'
}

/// A string of the alphanumeric class (exact for ASCII strings).
pub open spec fn is_alnum_seq(s: Seq<char>) -> bool {
    forall|i: int| 0 <= i < s.len() ==> is_alnum_char(#[trigger] s[i])
}

/// An ASCII string: every character below 128.
pub open spec fn is_ascii_seq(s: Seq<char>) -> bool {
    forall|i: int| 0 <= i < s.len() ==> ((#[trigger] s[i]) as u32) < 128
}

/// Relies on regex::Regex::new and Regex::is_match: the anchored pattern
/// ^[0-9]*$ matches exactly the strings made of ASCII digits, on any input.
#[verifier::external_body]
fn matches_numeric(data: &str) -> (r: bool)
    ensures
        r <==> is_numeric_seq(data@),
{
    let numeric_regex = regex::Regex::new(r"^[0-9]*$").unwrap();
    numeric_regex.is_match(data)
}

/// Relies on regex::Regex::new and Regex::is_match: on ASCII input, the
/// anchored pattern ^[0-9A-Z\s$%\*\+-\./:]*$ matches exactly the strings of
/// digits, upper-case letters, whitespace and the symbols of is_alnum_char;
/// on non-ASCII input nothing is relied upon beyond a boolean coming back
/// (the \s class then also covers characters outside ASCII).
#[verifier::external_body]
fn matches_alphanumeric(data: &str) -> (r: bool)
    ensures
        is_ascii_seq(data@) ==> (r <==> is_alnum_seq(data@)),
{
    let alphanumeric_regex = regex::Regex::new(r"^[0-9A-Z\s$%\*\+-\./:]*$").unwrap();
    alphanumeric_regex.is_match(data)
}

/// The class find_encoding reports for a string, exact for ASCII input.
pub open spec fn spec_find_encoding(s: Seq<char>) -> QREncoding {
    if is_numeric_seq(s) {
        QREncoding::Numeric
    } else if is_alnum_seq(s) {
        QREncoding::AlphaNumeric
    } else {
        QREncoding::Byte
    }
}

/// Classify a payload: all digits is numeric, the wider character class is
/// alphanumeric, anything else is byte data.
fn find_encoding(data: &str) -> (r: QREncoding)
    ensures
        r == QREncoding::Numeric <==> is_numeric_seq(data@),
        is_ascii_seq(data@) ==> r == spec_find_encoding(data@),
        r != QREncoding::_StructuredAppendMode,
        r == QREncoding::Numeric || r == QREncoding::AlphaNumeric || r == QREncoding::Byte,
{
    if matches_numeric(data) {
        QREncoding::Numeric
    } else if matches_alphanumeric(data) {
        QREncoding::AlphaNumeric
    } else {
        QREncoding::Byte
    }
}

/// The version the capacity scan reports: the first of the twenty smallest
/// versions whose capacity holds data_size, or 0 when none does.
pub open spec fn spec_scan_version(cap: Seq<usize>, data_size: int, i: int) -> int
    decreases 20 - i,
{
    if i < 0 || i >= 20 || cap.len() != 40 {
        0
    } else if data_size <= cap[i] {
        i + 1
    } else {
        spec_scan_version(cap, data_size, i + 1)
    }
}

/// The smallest version in [1,20] whose character capacity at this encoding
/// and level holds the payload, or 0 when even version 20 is too small.
pub open spec fn spec_get_size(
    data_size: int,
    encoding: QREncoding,
    level: ErrorCorrectionLevel,
) -> int {
    spec_scan_version(char_capacity(encoding, level), data_size, 0)
}

/// Looks up the smallest of the first twenty versions able to hold data_size
/// characters at this encoding and error correction level; 0 when none can.
pub(crate) fn get_size(
    data_size: usize,
    encoding: &QREncoding,
    error_correction: &ErrorCorrectionLevel,
) -> (r: usize)
    ensures
        r == spec_get_size(data_size as int, *encoding, *error_correction),
        r <= 20,
        r >= 1 ==> data_size <= char_capacity(*encoding, *error_correction)[r - 1],
{
    let row = capacity_row(encoding, error_correction);
    if row.len() != 40 {
        return 0;
    }
    let ghost cap = char_capacity(*encoding, *error_correction);
    for i in 0..20usize
        invariant
            row@ == cap,
            cap == char_capacity(*encoding, *error_correction),
            cap.len() == 40,
            forall|j: int| 0 <= j < i ==> data_size > cap[j],
            spec_scan_version(cap, data_size as int, 0) == spec_scan_version(
                cap,
                data_size as int,
                i as int,
            ),
    {
        if data_size <= row[i] {
            proof {
                assert(spec_scan_version(cap, data_size as int, i as int) == i + 1);
            }
            return i + 1;
        }
    }
    0
}

/// The number of modules on one side of a symbol of the given version.
pub fn get_size_from_version(version: usize) -> (r: usize)
    requires
        version <= 40,
    ensures
        r == version * 4 + 21,
{
    version * 4 + 21
}

/// The character for one binary digit.
pub open spec fn bit_char(b: int) -> char {
    if b == 1 {
        '1'
    } else {
        '0'
    }
}

/// The binary rendering of v, zero-padded on the left to at least w digits,
/// and to more digits whenever v needs them (minimum-width formatting).
pub open spec fn bin_chars(v: nat, w: nat) -> Seq<char>
    decreases v + w,
{
    if v <= 1 && w <= 1 {
        seq![bit_char(v as int)]
    } else {
        bin_chars(v / 2, (if w <= 1 {
            0
        } else {
            w - 1
        }) as nat).push(bit_char((v % 2) as int))
    }
}

/// Render value in binary, left-padded with zeros to at least width digits.
fn binary_string(value: u32, width: usize) -> (s: String)
    ensures
        s@ == bin_chars(value as nat, width as nat),
    decreases value + width,
{
    proof {
        reveal_strlit("1");
        reveal_strlit("0");
    }
    if value <= 1 && width <= 1 {
        let r = (if value == 1 {
            "1"
        } else {
            "0"
        }).to_owned();
        proof {
            assert(r@ =~= bin_chars(value as nat, width as nat));
        }
        r
    } else {
        let mut s = binary_string(value / 2, if width <= 1 {
            0
        } else {
            width - 1
        });
        let last = if value % 2 == 1 {
            "1"
        } else {
            "0"
        };
        s.append(last);
        proof {
            assert(s@ =~= bin_chars(value as nat, width as nat));
        }
        s
    }
}

/// The numeric value of a digit string.
pub open spec fn digits_val(s: Seq<char>) -> int
    decreases s.len(),
{
    if s.len() == 0 {
        0
    } else {
        digits_val(s.drop_last()) * 10 + (s.last() as u32 - 48)
    }
}

/// Parse a short digit string into its value.
#[verifier::loop_isolation(false)]
fn parse_digits(s: &str) -> (v: u32)
    requires
        s@.len() <= 3,
        is_numeric_seq(s@),
    ensures
        v == digits_val(s@),
        v <= 999,
{
    let n = s.unicode_len();
    let mut v: u32 = 0;
    for i in 0..n
        invariant
            v == digits_val(s@.subrange(0, i as int)),
            v <= (if i == 0 {
                0int
            } else if i == 1 {
                9
            } else if i == 2 {
                99
            } else {
                999
            }),
    {
        let c = s.get_char(i);
        proof {
            assert(s@.subrange(0, i + 1).drop_last() =~= s@.subrange(0, i as int));
            assert(s@.subrange(0, i + 1).last() == s@[i as int]);
        }
        v = v * 10 + (c as u32 - 48);
    }
    proof {
        assert(s@.subrange(0, n as int) =~= s@);
    }
    v
}

/// The bits one numeric group contributes: the group's value rendered with
/// the width picked from the value's size.
pub open spec fn numeric_group_bits(g: Seq<char>) -> Seq<char> {
    let v = digits_val(g);
    if v > 100 {
        bin_chars(v as nat, 10)
    } else if 10 <= v < 100 {
        bin_chars(v as nat, 7)
    } else {
        bin_chars(v as nat, 4)
    }
}

/// Append the bits of one numeric group of at most three digits.
fn encode_numeric(bit_buffer: &mut String, current_slice: &str)
    requires
        1 <= current_slice@.len() <= 3,
        is_numeric_seq(current_slice@),
    ensures
        final(bit_buffer)@ == old(bit_buffer)@ + numeric_group_bits(current_slice@),
{
    let parsed_int = parse_digits(current_slice);
    let bits = if parsed_int > 100 {
        binary_string(parsed_int, 10)
    } else if parsed_int < 100 && parsed_int >= 10 {
        binary_string(parsed_int, 7)
    } else {
        binary_string(parsed_int, 4)
    };
    bit_buffer.append(bits.as_str());
}

/// The code the alphanumeric table gives a character; 99 for one outside it.
pub open spec fn spec_char_code(c: char) -> u16 {
    match c {
        '0' => 0,
        '1' => 1,
        '2' => 2,
        '3' => 3,
        '4' => 4,
        '5' => 5,
        '6' => 6,
        '7' => 7,
        '8' => 8,
        '9' => 9,
        'A' => 10,
        'B' => 11,
        'C' => 12,
        'D' => 13,
        'E' => 14,
        'F' => 15,
        'G' => 16,
        'H' => 17,
        'I' => 18,
        'J' => 19,
        'K' => 20,
        'L' => 21,
        'M' => 22,
        'N' => 23,
        'O' => 24,
        'P' => 25,
        'Q' => 26,
        'R' => 27,
        'S' => 28,
        'T' => 29,
        'U' => 30,
        'V' => 31,
        'W' => 32,
        'X' => 33,
        'Y' => 34,
        'Z' => 35,
        ' ' => 36,
        '$' => 37,
        '%' => 38,
        '*' => 39,
        '+' => 40,
        '-' => 41,
        '.' => 42,
        '/' => 43,
        ':' => 44,
        _ => 99,
    }
}

/// The alphanumeric code of a character.
pub(crate) fn alphanumeric_get_char_code(c: char) -> (r: u16)
    ensures
        r == spec_char_code(c),
        r <= 99,
{
    match c {
        '0' => 0,
        '1' => 1,
        '2' => 2,
        '3' => 3,
        '4' => 4,
        '5' => 5,
        '6' => 6,
        '7' => 7,
        '8' => 8,
        '9' => 9,
        'A' => 10,
        'B' => 11,
        'C' => 12,
        'D' => 13,
        'E' => 14,
        'F' => 15,
        'G' => 16,
        'H' => 17,
        'I' => 18,
        'J' => 19,
        'K' => 20,
        'L' => 21,
        'M' => 22,
        'N' => 23,
        'O' => 24,
        'P' => 25,
        'Q' => 26,
        'R' => 27,
        'S' => 28,
        'T' => 29,
        'U' => 30,
        'V' => 31,
        'W' => 32,
        'X' => 33,
        'Y' => 34,
        'Z' => 35,
        ' ' => 36,
        '$' => 37,
        '%' => 38,
        '*' => 39,
        '+' => 40,
        '-' => 41,
        '.' => 42,
        '/' => 43,
        ':' => 44,
        _ => 99,
    }
}

/// The eleven bits a pair of alphanumeric characters contributes.
pub open spec fn alnum_pair_bits(p: Seq<char>) -> Seq<char> {
    bin_chars((spec_char_code(p[0]) * 45 + spec_char_code(p[1])) as nat, 11)
}

/// The six bits a trailing single alphanumeric character contributes.
pub open spec fn alnum_single_bits(c: char) -> Seq<char> {
    bin_chars(spec_char_code(c) as nat, 6)
}

/// Encode one or two alphanumeric characters into their bit group.
fn encode_alphanumeric(current_slice: &str) -> (r: String)
    requires
        1 <= current_slice@.len() <= 2,
    ensures
        current_slice@.len() == 2 ==> r@ == alnum_pair_bits(current_slice@),
        current_slice@.len() == 1 ==> r@ == alnum_single_bits(current_slice@[0]),
{
    let n = current_slice.unicode_len();
    if n == 2 {
        let code1 = alphanumeric_get_char_code(current_slice.get_char(0));
        let code2 = alphanumeric_get_char_code(current_slice.get_char(1));
        let code = code1 * 45 + code2;
        binary_string(code as u32, 11)
    } else {
        binary_string(alphanumeric_get_char_code(current_slice.get_char(0)) as u32, 6)
    }
}

/// The mode indicator bits for each character class.
pub open spec fn mode_bits(enc: QREncoding) -> Seq<char> {
    match enc {
        QREncoding::Numeric => "0001"@,
        QREncoding::AlphaNumeric => "0010"@,
        QREncoding::Byte => "0100"@,
        QREncoding::_StructuredAppendMode => "0000"@,
    }
}

/// The width of the character count field, by version range and class.
pub open spec fn len_field_width(version: int, enc: QREncoding) -> nat {
    if 1 <= version <= 9 {
        match enc {
            QREncoding::Numeric => 10,
            QREncoding::AlphaNumeric => 9,
            QREncoding::Byte => 8,
            QREncoding::_StructuredAppendMode => 0,
        }
    } else if 10 <= version <= 26 {
        match enc {
            QREncoding::Numeric => 12,
            QREncoding::AlphaNumeric => 11,
            QREncoding::Byte => 16,
            QREncoding::_StructuredAppendMode => 0,
        }
    } else if 27 <= version <= 40 {
        match enc {
            QREncoding::Numeric => 14,
            QREncoding::AlphaNumeric => 13,
            QREncoding::Byte => 16,
            QREncoding::_StructuredAppendMode => 0,
        }
    } else {
        0
    }
}

/// The character count field: the payload's byte length in binary, or the
/// fixed placeholder for the structured-append class.
pub open spec fn len_field_bits(version: int, enc: QREncoding, n: nat) -> Seq<char> {
    match enc {
        QREncoding::_StructuredAppendMode => "0000"@,
        _ => bin_chars(n, len_field_width(version, enc)),
    }
}

/// The bits of the first k numeric groups; group k starts at index k - 1:
/// consecutive groups overlap, as the slice arithmetic walks them one index
/// at a time.
pub open spec fn numeric_prefix_bits(s: Seq<char>, k: int) -> Seq<char>
    decreases k,
{
    if k <= 0 {
        Seq::empty()
    } else {
        numeric_prefix_bits(s, k - 1) + numeric_group_bits(s.subrange(k - 1, k + 2))
    }
}

/// All bits of a numeric payload: the full groups, then the leftover digits.
pub open spec fn numeric_data_bits(s: Seq<char>) -> Seq<char> {
    let full = s.len() as int / 3;
    let left = s.len() as int % 3;
    numeric_prefix_bits(s, full) + if left > 0 {
        numeric_group_bits(s.subrange(s.len() - left, s.len() as int))
    } else {
        Seq::empty()
    }
}

/// The bits of the first k alphanumeric pairs.
pub open spec fn alnum_prefix_bits(s: Seq<char>, k: int) -> Seq<char>
    decreases k,
{
    if k <= 0 {
        Seq::empty()
    } else {
        alnum_prefix_bits(s, k - 1) + alnum_pair_bits(s.subrange(2 * (k - 1), 2 * k))
    }
}

/// All bits of an alphanumeric payload: the pairs, then a leftover character.
pub open spec fn alnum_data_bits(s: Seq<char>) -> Seq<char> {
    alnum_prefix_bits(s, s.len() as int / 2) + if s.len() % 2 == 1 {
        alnum_single_bits(s[s.len() - 1])
    } else {
        Seq::empty()
    }
}

/// The bits of the first k bytes of a byte payload, eight bits each.
pub open spec fn byte_prefix_bits(b: Seq<u8>, k: int) -> Seq<char>
    decreases k,
{
    if k <= 0 {
        Seq::empty()
    } else {
        byte_prefix_bits(b, k - 1) + bin_chars(b[k - 1] as nat, 8)
    }
}

/// The payload bits for a class: over characters for the numeric and
/// alphanumeric classes, over the UTF-8 bytes for the byte class.
pub open spec fn data_bits(enc: QREncoding, chars: Seq<char>, bytes: Seq<u8>) -> Seq<char> {
    match enc {
        QREncoding::Numeric => numeric_data_bits(chars),
        QREncoding::AlphaNumeric => alnum_data_bits(chars),
        QREncoding::Byte => byte_prefix_bits(bytes, bytes.len() as int),
        QREncoding::_StructuredAppendMode => Seq::empty(),
    }
}

/// The unpadded bit stream of a payload: mode indicator, character count
/// field over the byte length, then the payload bits.
pub open spec fn qr_stream_bits(enc: QREncoding, version: int, data: Seq<char>) -> Seq<char> {
    mode_bits(enc) + len_field_bits(version, enc, encode_utf8(data).len()) + data_bits(
        enc,
        data,
        encode_utf8(data),
    )
}

/// A run of zero bits.
pub open spec fn zeros(n: nat) -> Seq<char> {
    Seq::new(n, |i: int| '0')
}

/// The alternating filler codewords that pad a stream to full capacity.
pub open spec fn pad_bytes_bits(k: nat) -> Seq<char>
    decreases k,
{
    if k == 0 {
        Seq::empty()
    } else {
        pad_bytes_bits((k - 1) as nat) + (if (k - 1) % 2 == 0 {
            "11101100"@
        } else {
            "00010001"@
        })
    }
}

/// Each filler codeword contributes eight bits.
pub proof fn lemma_pad_bytes_len(k: nat)
    ensures
        pad_bytes_bits(k).len() == 8 * k,
    decreases k,
{
    reveal_strlit("11101100");
    reveal_strlit("00010001");
    if k > 0 {
        lemma_pad_bytes_len((k - 1) as nat);
    }
}

/// A stream padded to capacity: up to four terminator zeros, zeros up to a
/// codeword boundary, then alternating filler codewords.
pub open spec fn padded_stream(bits: Seq<char>, cap: int) -> Seq<char> {
    let t = if cap - bits.len() <= 4 {
        cap - bits.len()
    } else {
        4
    };
    let b1l = bits.len() + t;
    let d8 = if b1l % 8 == 0 {
        0int
    } else {
        8 - b1l % 8
    };
    let b2l = b1l + d8;
    let k = if cap >= b2l {
        (cap - b2l) / 8
    } else {
        0
    };
    bits + zeros(t as nat) + zeros(d8 as nat) + pad_bytes_bits(k as nat)
}

/// A QR payload together with everything its encoding depends on: the
/// detected character class, the error correction level, the chosen version
/// and that version's codeword grouping.
#[derive(Debug)]
pub struct QRCode {
    raw_data: String,
    encoding: QREncoding,
    error_correction: ErrorCorrectionLevel,
    version: usize,
    err_metadata: ErrorCorrectionMetaData,
}

impl QRCode {
    /// Everything construction guarantees: a version among the twenty the
    /// capacity scan covers, the grouping the table gives that version, a
    /// payload within the largest capacity, and digits only when the class
    /// is numeric.
    #[verifier::type_invariant]
    pub closed spec fn wf(self) -> bool {
        &&& 1 <= self.version <= 20
        &&& spec_err_metadata(self.version as int, self.error_correction) == Some(
            self.err_metadata,
        )
        &&& self.err_metadata.wf()
        &&& self.encoding != QREncoding::_StructuredAppendMode
        &&& encode_utf8(self.raw_data@).len() <= 7089
        &&& (self.encoding == QREncoding::Numeric ==> is_numeric_seq(self.raw_data@))
    }

    /// The payload.
    pub closed spec fn spec_data(self) -> Seq<char> {
        self.raw_data@
    }

    /// The detected character class.
    pub closed spec fn spec_encoding(self) -> QREncoding {
        self.encoding
    }

    /// The error correction level asked for.
    pub closed spec fn spec_level(self) -> ErrorCorrectionLevel {
        self.error_correction
    }

    /// The chosen version.
    pub closed spec fn spec_version(self) -> int {
        self.version as int
    }

    /// The codeword grouping of the chosen version and level.
    pub closed spec fn spec_metadata(self) -> ErrorCorrectionMetaData {
        self.err_metadata
    }

    /// The bit capacity the stream is padded to.
    pub open spec fn spec_capacity_bits(self) -> int {
        8 * self.spec_metadata().spec_total_code_words()
    }

    /// The unpadded bit stream of this payload.
    pub open spec fn spec_stream(self) -> Seq<char> {
        qr_stream_bits(self.spec_encoding(), self.spec_version(), self.spec_data())
    }
}

/// The mode indicator of a payload's class.
pub(crate) fn get_encoding(qrcode: &QRCode) -> (r: &'static str)
    ensures
        r@ == mode_bits(qrcode.spec_encoding()),
{
    proof {
        reveal_strlit("0001");
        reveal_strlit("0010");
        reveal_strlit("0100");
        reveal_strlit("0000");
    }
    match qrcode.encoding {
        QREncoding::Numeric => "0001",
        QREncoding::AlphaNumeric => "0010",
        QREncoding::Byte => "0100",
        _ => "0000",
    }
}

/// The character count field: the payload's byte length, zero-padded to the
/// width the version range and class call for.
pub(crate) fn get_data_len(qrcode: &QRCode) -> (r: Result<String, QRCodeError>)
    ensures
        1 <= qrcode.spec_version() <= 40 ==> (r matches Ok(s) && s@ == len_field_bits(
            qrcode.spec_version(),
            qrcode.spec_encoding(),
            encode_utf8(qrcode.spec_data()).len(),
        )),
        !(1 <= qrcode.spec_version() <= 40) ==> r == Result::<String, QRCodeError>::Err(
            QRCodeError::UnsupportedVersion,
        ),
{
    proof {
        use_type_invariant(qrcode);
        reveal_strlit("0000");
    }
    let n = qrcode.raw_data.as_str().as_bytes().len();
    proof {
        broadcast use vstd::slice::axiom_spec_len;

        assert(n == encode_utf8(qrcode.raw_data@).len());
    }
    let width: usize = if qrcode.version >= 1 && qrcode.version <= 9 {
        match qrcode.encoding {
            QREncoding::Numeric => 10,
            QREncoding::AlphaNumeric => 9,
            QREncoding::Byte => 8,
            QREncoding::_StructuredAppendMode => {
                return Ok("0000".to_owned());
            },
        }
    } else if qrcode.version >= 10 && qrcode.version <= 26 {
        match qrcode.encoding {
            QREncoding::Numeric => 12,
            QREncoding::AlphaNumeric => 11,
            QREncoding::Byte => 16,
            QREncoding::_StructuredAppendMode => {
                return Ok("0000".to_owned());
            },
        }
    } else if qrcode.version >= 27 && qrcode.version <= 40 {
        match qrcode.encoding {
            QREncoding::Numeric => 14,
            QREncoding::AlphaNumeric => 13,
            QREncoding::Byte => 16,
            QREncoding::_StructuredAppendMode => {
                return Ok("0000".to_owned());
            },
        }
    } else {
        return Err(QRCodeError::UnsupportedVersion);
    };
    Ok(binary_string(n as u32, width))
}

/// Append the payload bits of a QR code to the bit buffer.
#[verifier::loop_isolation(false)]
pub(crate) fn encode_data(qrcode: &QRCode, bit_buffer: &mut String)
    ensures
        final(bit_buffer)@ == old(bit_buffer)@ + data_bits(
            qrcode.spec_encoding(),
            qrcode.spec_data(),
            encode_utf8(qrcode.spec_data()),
        ),
{
    proof {
        use_type_invariant(qrcode);
    }
    let ghost start = bit_buffer@;
    let ghost s = qrcode.raw_data@;
    match qrcode.encoding {
        QREncoding::Numeric => {
            let len = qrcode.raw_data.as_str().unicode_len();
            let scaled_len = len / 3;
            let left_over = len % 3;
            for i in 0..scaled_len
                invariant
                    bit_buffer@ == start + numeric_prefix_bits(s, i as int),
            {
                let current_slice = qrcode.raw_data.as_str().substring_char(i, i + 3);
                encode_numeric(bit_buffer, current_slice);
                proof {
                    assert(bit_buffer@ =~= start + numeric_prefix_bits(s, i + 1));
                }
            }
            if left_over > 0 {
                let current_slice = qrcode.raw_data.as_str().substring_char(len - left_over, len);
                encode_numeric(bit_buffer, current_slice);
            }
            proof {
                assert(bit_buffer@ =~= start + numeric_data_bits(s));
            }
        },
        QREncoding::AlphaNumeric => {
            let len = qrcode.raw_data.as_str().unicode_len();
            let scaled_len = len / 2;
            let left_over = len % 2;
            for i in 0..scaled_len
                invariant
                    bit_buffer@ == start + alnum_prefix_bits(s, i as int),
            {
                let current_slice = qrcode.raw_data.as_str().substring_char(i * 2, (i + 1) * 2);
                let encoded = encode_alphanumeric(current_slice);
                bit_buffer.append(encoded.as_str());
                proof {
                    assert(bit_buffer@ =~= start + alnum_prefix_bits(s, i + 1));
                }
            }
            if left_over > 0 {
                let current_slice = qrcode.raw_data.as_str().substring_char(len - 1, len);
                let encoded = encode_alphanumeric(current_slice);
                bit_buffer.append(encoded.as_str());
                proof {
                    assert(current_slice@[0] == s[s.len() - 1]);
                }
            }
            proof {
                assert(bit_buffer@ =~= start + alnum_data_bits(s));
            }
        },
        QREncoding::Byte => {
            let bytes = qrcode.raw_data.as_str().as_bytes();
            let n = bytes.len();
            for i in 0..n
                invariant
                    bytes@ == encode_utf8(s),
                    n == bytes@.len(),
                    bit_buffer@ == start + byte_prefix_bits(bytes@, i as int),
            {
                let b = bytes[i];
                let bits = binary_string(b as u32, 8);
                bit_buffer.append(bits.as_str());
                proof {
                    assert(bit_buffer@ =~= start + byte_prefix_bits(bytes@, i + 1));
                }
            }
        },
        QREncoding::_StructuredAppendMode => {
            proof {
                assert(bit_buffer@ =~= start + Seq::<char>::empty());
            }
        },
    }
}

/// Pad the bit buffer to the capacity of the chosen version: terminator,
/// zeros to a codeword boundary, then alternating filler codewords.
#[verifier::loop_isolation(false)]
#[verifier::rlimit(60)]
pub(crate) fn add_padding(qrcode: &QRCode, bit_buffer: &mut String) -> (r: Result<(), QRCodeError>)
    requires
        old(bit_buffer)@.len() <= qrcode.spec_capacity_bits(),
    ensures
        r is Ok,
        final(bit_buffer)@ == padded_stream(old(bit_buffer)@, qrcode.spec_capacity_bits()),
        final(bit_buffer)@.len() == qrcode.spec_capacity_bits(),
{
    proof {
        use_type_invariant(qrcode);
        reveal_strlit("0");
        reveal_strlit("11101100");
        reveal_strlit("00010001");
    }
    let ghost start = bit_buffer@;
    let bit_size = 8 * qrcode.err_metadata.total_code_words();
    let len0 = bit_buffer.as_str().unicode_len();
    let missing_bits = bit_size - len0;

    // terminator of zeros: at most four
    let terminator_len = if missing_bits <= 4 {
        missing_bits
    } else {
        4
    };
    for i in 0..terminator_len
        invariant
            bit_buffer@ == start + zeros(i as nat),
    {
        bit_buffer.append("0");
        proof {
            assert(bit_buffer@ =~= start + zeros((i + 1) as nat));
        }
    }
    let ghost b1 = bit_buffer@;

    // pad to a multiple of eight
    let len1 = bit_buffer.as_str().unicode_len();
    let diff_to_eight = if len1 % 8 == 0 {
        0
    } else {
        8 - len1 % 8
    };
    for i in 0..diff_to_eight
        invariant
            bit_buffer@ == b1 + zeros(i as nat),
    {
        bit_buffer.append("0");
        proof {
            assert(bit_buffer@ =~= b1 + zeros((i + 1) as nat));
        }
    }
    let ghost b2 = bit_buffer@;

    // fill the remaining codewords with the two alternating filler bytes
    let len2 = bit_buffer.as_str().unicode_len();
    proof {
        vstd::arithmetic::div_mod::lemma_fundamental_div_mod(len1 as int, 8);
        vstd::arithmetic::div_mod::lemma_fundamental_div_mod(bit_size as int, 8);
        vstd::arithmetic::div_mod::lemma_fundamental_div_mod(len2 as int, 8);
    }
    let missing_bytes = (bit_size - len2) / 8;
    for i in 0..missing_bytes
        invariant
            bit_buffer@ == b2 + pad_bytes_bits(i as nat),
    {
        if i % 2 == 0 {
            bit_buffer.append("11101100");
        } else {
            bit_buffer.append("00010001");
        }
        proof {
            assert(bit_buffer@ =~= b2 + pad_bytes_bits((i + 1) as nat));
        }
    }
    proof {
        lemma_pad_bytes_len(missing_bytes as nat);
        assert(bit_buffer@ =~= padded_stream(start, qrcode.spec_capacity_bits()));
        assert(bit_buffer@.len() == qrcode.spec_capacity_bits());
    }
    Ok(())
}

/// The value of a bit string, most significant bit first; characters other
/// than '1' count as zero.
pub open spec fn bits_val(s: Seq<char>) -> nat
    decreases s.len(),
{
    if s.len() == 0 {
        0
    } else {
        bits_val(s.drop_last()) * 2 + (if s.last() == '1' {
            1nat
        } else {
            0
        })
    }
}

/// Powers of two.
pub open spec fn pow2s(k: nat) -> nat
    decreases k,
{
    if k == 0 {
        1
    } else {
        2 * pow2s((k - 1) as nat)
    }
}

/// A bit stream cut into bytes of eight bits each.
pub open spec fn bits_to_bytes(bits: Seq<char>) -> Seq<u8> {
    Seq::new(bits.len() / 8, |i: int| bits_val(bits.subrange(8 * i, 8 * i + 8)) as u8)
}

impl QRCode {
    /// Build a QR payload: classify the data, pick the smallest of the first
    /// twenty versions whose capacity holds it, and look up that version's
    /// codeword grouping.
    pub fn new(data: String, error_correction: ErrorCorrectionLevel) -> (r: Result<Self, String>)
        ensures
            r matches Ok(q) ==> {
                &&& q.spec_data() == data@
                &&& q.spec_level() == error_correction
                &&& 1 <= q.spec_version() <= 20
                &&& q.spec_version() == spec_get_size(
                    encode_utf8(data@).len() as int,
                    q.spec_encoding(),
                    error_correction,
                )
                &&& spec_err_metadata(q.spec_version(), error_correction) == Some(
                    q.spec_metadata(),
                )
                &&& (q.spec_encoding() == QREncoding::Numeric <==> is_numeric_seq(data@))
                &&& (is_ascii_seq(data@) ==> q.spec_encoding() == spec_find_encoding(data@))
            },
            is_ascii_seq(data@) ==> ((r is Ok) <==> spec_get_size(
                encode_utf8(data@).len() as int,
                spec_find_encoding(data@),
                error_correction,
            ) >= 1),
    {
        let encoding = find_encoding(data.as_str());
        let byte_len = data.as_str().as_bytes().len();
        proof {
            broadcast use vstd::slice::axiom_spec_len;

            assert(byte_len == encode_utf8(data@).len());
        }
        let version = get_size(byte_len, &encoding, &error_correction);
        proof {
            assert(version as int == spec_get_size(byte_len as int, encoding, error_correction));
        }

        if version == 0 {
            proof {
                assert(version as int == spec_get_size(
                    encode_utf8(data@).len() as int,
                    encoding,
                    error_correction,
                ));
            }
            return Err("Data too long for encoding!".to_owned());
        }
        let err_metadata = match get_err_metadata(version, &error_correction) {
            Some(m) => m,
            None => vstd::pervasive::unreached(),
        };
        proof {
            lemma_capacity_bounded(encoding, error_correction);
            assert(version as int == spec_get_size(
                encode_utf8(data@).len() as int,
                encoding,
                error_correction,
            ));
            assert(encode_utf8(data@).len() <= char_capacity(encoding, error_correction)[version
                - 1]);
            assert(encode_utf8(data@).len() <= 7089);
        }
        Ok(
            QRCode {
                raw_data: data,
                encoding,
                error_correction,
                version,
                err_metadata,
            },
        )
    }

    /// Pack the payload into its bit stream: mode indicator, character count,
    /// data bits, then padding to the version's full codeword capacity. The
    /// stream must fit that capacity, else no stream is owed.
    pub fn encode(&self) -> (r: Result<String, QRCodeError>)
        ensures
            (r is Ok) <==> self.spec_stream().len() <= self.spec_capacity_bits(),
            r matches Ok(s) ==> s@ == padded_stream(self.spec_stream(), self.spec_capacity_bits())
                && s@.len() == self.spec_capacity_bits(),
            r matches Err(e) ==> e == QRCodeError::DataSizeMissing,
    {
        proof {
            use_type_invariant(self);
        }
        let mut bit_buffer = String::new();

        let encoding = get_encoding(self);
        bit_buffer.append(encoding);

        let data_len = match get_data_len(self) {
            Ok(s) => s,
            Err(_) => vstd::pervasive::unreached(),
        };
        bit_buffer.append(data_len.as_str());

        encode_data(self, &mut bit_buffer);
        proof {
            assert(bit_buffer@ =~= self.spec_stream());
        }

        let total = self.err_metadata.total_code_words();
        if bit_buffer.as_str().unicode_len() > 8 * total {
            return Err(QRCodeError::DataSizeMissing);
        }
        match add_padding(self, &mut bit_buffer) {
            Ok(()) => {},
            Err(_) => vstd::pervasive::unreached(),
        }
        Ok(bit_buffer)
    }

    /// The packed stream cut into codewords: every eight bits read as one
    /// byte, most significant bit first.
    pub fn get_coeffs(&self) -> (r: Result<Vec<u8>, QRCodeError>)
        ensures
            (r is Ok) <==> self.spec_stream().len() <= self.spec_capacity_bits(),
            r matches Ok(v) ==> v@ == bits_to_bytes(
                padded_stream(self.spec_stream(), self.spec_capacity_bits()),
            ),
    {
        proof {
            use_type_invariant(self);
        }
        let bitbuf = match self.encode() {
            Ok(s) => s,
            Err(e) => {
                return Err(e);
            },
        };
        let n = bitbuf.as_str().unicode_len();
        let chunks = n / 8;
        proof {
            assert(n % 8 == 0) by {
                assert(bitbuf@.len() == 8 * self.spec_metadata().spec_total_code_words());
            }
        }
        let mut coeffs: Vec<u8> = Vec::new();
        for i in 0..chunks
            invariant
                coeffs@.len() == i,
                n == bitbuf@.len(),
                8 * chunks <= n,
                forall|j: int| 0 <= j < i ==> coeffs@[j] == bits_to_bytes(bitbuf@)[j],
        {
            let mut value: u32 = 0;
            for k in 0..8usize
                invariant
                    i < chunks,
                    n == bitbuf@.len(),
                    8 * chunks <= n,
                    value == bits_val(bitbuf@.subrange(8 * i as int, 8 * i + k)),
                    value < pow2s(k as nat),
            {
                let c = bitbuf.as_str().get_char(8 * i + k);
                proof {
                    assert(pow2s(k as nat) <= 256) by {
                        reveal_with_fuel(pow2s, 9);
                    }
                    assert(bitbuf@.subrange(8 * i as int, 8 * i + k + 1).drop_last()
                        =~= bitbuf@.subrange(8 * i as int, 8 * i + k));
                    assert(bitbuf@.subrange(8 * i as int, 8 * i + k + 1).last() == bitbuf@[8 * i
                        + k]);
                }
                value = value * 2 + (if c == '1' {
                    1
                } else {
                    0
                });
            }
            proof {
                assert(pow2s(8) == 256) by {
                    reveal_with_fuel(pow2s, 9);
                }
                assert(bits_to_bytes(bitbuf@)[i as int] == value as u8);
            }
            coeffs.push(value as u8);
        }
        proof {
            assert(coeffs@ =~= bits_to_bytes(bitbuf@));
        }
        Ok(coeffs)
    }
}

} // verus!
