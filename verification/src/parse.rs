use vstd::prelude::*;
use vstd::string::StringSliceAdditionalSpecFns;

use crate::error::InferenceError;
use crate::types::DataType;

verus! {

/// ASCII lower-casing of one byte: the upper-case letters (65 through 90)
/// move down to their lower-case forms; every other byte stays as it is.
pub open spec fn lower_byte(b: u8) -> u8 {
    if 65 <= b && b <= 90 {
        (b + 32) as u8
    } else {
        b
    }
}

/// ASCII lower-casing of a byte sequence.
pub open spec fn lower_bytes(s: Seq<u8>) -> Seq<u8> {
    s.map_values(|b: u8| lower_byte(b))
}

/// `p` occurs somewhere in `s` as a contiguous run of bytes.
pub open spec fn contains_bytes(s: Seq<u8>, p: Seq<u8>) -> bool {
    exists|i: int| 0 <= i && i + p.len() <= s.len() && #[trigger] s.subrange(i, i + p.len()) == p
}

/// The bytes of "int4".
pub open spec fn pat_int4() -> Seq<u8> {
    seq![105u8, 110u8, 116u8, 52u8]
}

/// The bytes of "int8".
pub open spec fn pat_int8() -> Seq<u8> {
    seq![105u8, 110u8, 116u8, 56u8]
}

/// The bytes of "boolean".
pub open spec fn pat_boolean() -> Seq<u8> {
    seq![98u8, 111u8, 111u8, 108u8, 101u8, 97u8, 110u8]
}

/// The bytes of "bool".
pub open spec fn pat_bool() -> Seq<u8> {
    seq![98u8, 111u8, 111u8, 108u8]
}

/// The bytes of "int".
pub open spec fn pat_int() -> Seq<u8> {
    seq![105u8, 110u8, 116u8]
}

/// The bytes of "big".
pub open spec fn pat_big() -> Seq<u8> {
    seq![98u8, 105u8, 103u8]
}

/// The bytes of "char".
pub open spec fn pat_char() -> Seq<u8> {
    seq![99u8, 104u8, 97u8, 114u8]
}

/// The bytes of "clob".
pub open spec fn pat_clob() -> Seq<u8> {
    seq![99u8, 108u8, 111u8, 98u8]
}

/// The bytes of "text".
pub open spec fn pat_text() -> Seq<u8> {
    seq![116u8, 101u8, 120u8, 116u8]
}

/// The bytes of "blob".
pub open spec fn pat_blob() -> Seq<u8> {
    seq![98u8, 108u8, 111u8, 98u8]
}

/// The bytes of "real".
pub open spec fn pat_real() -> Seq<u8> {
    seq![114u8, 101u8, 97u8, 108u8]
}

/// The bytes of "floa".
pub open spec fn pat_floa() -> Seq<u8> {
    seq![102u8, 108u8, 111u8, 97u8]
}

/// The bytes of "doub".
pub open spec fn pat_doub() -> Seq<u8> {
    seq![100u8, 111u8, 117u8, 98u8]
}

/// What an already lower-cased declared-type text parses to. The rules are
/// ordered and the first that applies wins: the exact forms "int4", "int8",
/// "boolean" and "bool" come before the substring rules, then "int" (with
/// "big" deciding between the two integer widths), then the text, blob and
/// real substrings. `None` means no rule matched.
pub open spec fn parse_lowered(t: Seq<u8>) -> Option<DataType> {
    if t == pat_int4() {
        Some(DataType::Int)
    } else if t == pat_int8() {
        Some(DataType::BigInt)
    } else if t == pat_boolean() || t == pat_bool() {
        Some(DataType::Bool)
    } else if contains_bytes(t, pat_int()) {
        if contains_bytes(t, pat_big()) {
            Some(DataType::BigInt)
        } else {
            Some(DataType::Int)
        }
    } else if contains_bytes(t, pat_char()) || contains_bytes(t, pat_clob()) || contains_bytes(
        t,
        pat_text(),
    ) {
        Some(DataType::Text)
    } else if contains_bytes(t, pat_blob()) {
        Some(DataType::Blob)
    } else if contains_bytes(t, pat_real()) || contains_bytes(t, pat_floa()) || contains_bytes(
        t,
        pat_doub(),
    ) {
        Some(DataType::Real)
    } else {
        None
    }
}

/// What a declared-type text parses to: lower-case it, then apply the
/// ordered rules.
pub open spec fn parse_declared(s: Seq<u8>) -> Option<DataType> {
    parse_lowered(lower_bytes(s))
}

/// Parsing is case-insensitive: two declared-type texts whose ASCII
/// lower-casings agree parse to the same result.
pub proof fn lemma_parse_case_insensitive(a: Seq<u8>, b: Seq<u8>)
    requires
        lower_bytes(a) == lower_bytes(b),
    ensures
        parse_declared(a) == parse_declared(b),
{
}

/// Lower-casing is idempotent, so a text and its lower-cased form parse to
/// the same result.
pub proof fn lemma_parse_of_lowered(s: Seq<u8>)
    ensures
        parse_declared(lower_bytes(s)) == parse_declared(s),
{
    assert(lower_bytes(lower_bytes(s)) =~= lower_bytes(s));
    lemma_parse_case_insensitive(lower_bytes(s), s);
}

fn byte_lower(b: u8) -> (r: u8)
    ensures
        r == lower_byte(b),
{
    if 65 <= b && b <= 90 {
        b + 32
    } else {
        b
    }
}

fn to_lower(s: &[u8]) -> (v: Vec<u8>)
    ensures
        v@ == lower_bytes(s@),
{
    let mut v: Vec<u8> = Vec::new();
    let mut i: usize = 0;
    while i < s.len()
        invariant
            i <= s@.len(),
            v@ =~= lower_bytes(s@).subrange(0, i as int),
        decreases s@.len() - i,
    {
        v.push(byte_lower(s[i]));
        i = i + 1;
    }
    proof {
        assert(v@ =~= lower_bytes(s@));
    }
    v
}

fn bytes_eq(a: &[u8], b: &[u8]) -> (r: bool)
    ensures
        r == (a@ == b@),
{
    if a.len() != b.len() {
        return false;
    }
    let mut i: usize = 0;
    while i < a.len()
        invariant
            a@.len() == b@.len(),
            i <= a@.len(),
            forall|j: int| 0 <= j < i ==> a@[j] == b@[j],
        decreases a@.len() - i,
    {
        if a[i] != b[i] {
            return false;
        }
        i = i + 1;
    }
    proof {
        assert(a@ =~= b@);
    }
    true
}

fn matches_at(s: &[u8], p: &[u8], i: usize) -> (r: bool)
    requires
        i + p@.len() <= s@.len(),
    ensures
        r == (s@.subrange(i as int, i + p@.len()) == p@),
{
    let n = s.len();
    let m = p.len();
    let mut j: usize = 0;
    while j < m
        invariant
            n == s@.len(),
            m == p@.len(),
            i + m <= n,
            j <= m,
            forall|k: int| 0 <= k < j ==> s@[i + k] == p@[k],
        decreases m - j,
    {
        if s[i + j] != p[j] {
            proof {
                assert(s@.subrange(i as int, i + p@.len())[j as int] != p@[j as int]);
            }
            return false;
        }
        j = j + 1;
    }
    proof {
        assert(s@.subrange(i as int, i + p@.len()) =~= p@);
    }
    true
}

fn contains(s: &[u8], p: &[u8]) -> (r: bool)
    ensures
        r == contains_bytes(s@, p@),
{
    let n = s.len();
    let m = p.len();
    if m == 0 {
        proof {
            let w: int = 0;
            assert(s@.subrange(w, w + p@.len()) =~= p@);
            assert(contains_bytes(s@, p@));
        }
        return true;
    }
    if m > n {
        return false;
    }
    let mut i: usize = 0;
    while i <= n - m
        invariant
            n == s@.len(),
            m == p@.len(),
            1 <= m <= n,
            i <= n - m + 1,
            forall|j: int| 0 <= j < i ==> #[trigger] s@.subrange(j, j + p@.len()) != p@,
        decreases n - i,
    {
        if matches_at(s, p, i) {
            return true;
        }
        i = i + 1;
    }
    false
}

fn pattern_int4() -> (v: Vec<u8>)
    ensures
        v@ == pat_int4(),
{
    let mut v: Vec<u8> = Vec::new();
    v.push(105);
    v.push(110);
    v.push(116);
    v.push(52);
    proof {
        assert(v@ =~= pat_int4());
    }
    v
}

fn pattern_int8() -> (v: Vec<u8>)
    ensures
        v@ == pat_int8(),
{
    let mut v: Vec<u8> = Vec::new();
    v.push(105);
    v.push(110);
    v.push(116);
    v.push(56);
    proof {
        assert(v@ =~= pat_int8());
    }
    v
}

fn pattern_boolean() -> (v: Vec<u8>)
    ensures
        v@ == pat_boolean(),
{
    let mut v: Vec<u8> = Vec::new();
    v.push(98);
    v.push(111);
    v.push(111);
    v.push(108);
    v.push(101);
    v.push(97);
    v.push(110);
    proof {
        assert(v@ =~= pat_boolean());
    }
    v
}

fn pattern_bool() -> (v: Vec<u8>)
    ensures
        v@ == pat_bool(),
{
    let mut v: Vec<u8> = Vec::new();
    v.push(98);
    v.push(111);
    v.push(111);
    v.push(108);
    proof {
        assert(v@ =~= pat_bool());
    }
    v
}

fn pattern_int() -> (v: Vec<u8>)
    ensures
        v@ == pat_int(),
{
    let mut v: Vec<u8> = Vec::new();
    v.push(105);
    v.push(110);
    v.push(116);
    proof {
        assert(v@ =~= pat_int());
    }
    v
}

fn pattern_big() -> (v: Vec<u8>)
    ensures
        v@ == pat_big(),
{
    let mut v: Vec<u8> = Vec::new();
    v.push(98);
    v.push(105);
    v.push(103);
    proof {
        assert(v@ =~= pat_big());
    }
    v
}

fn pattern_char() -> (v: Vec<u8>)
    ensures
        v@ == pat_char(),
{
    let mut v: Vec<u8> = Vec::new();
    v.push(99);
    v.push(104);
    v.push(97);
    v.push(114);
    proof {
        assert(v@ =~= pat_char());
    }
    v
}

fn pattern_clob() -> (v: Vec<u8>)
    ensures
        v@ == pat_clob(),
{
    let mut v: Vec<u8> = Vec::new();
    v.push(99);
    v.push(108);
    v.push(111);
    v.push(98);
    proof {
        assert(v@ =~= pat_clob());
    }
    v
}

fn pattern_text() -> (v: Vec<u8>)
    ensures
        v@ == pat_text(),
{
    let mut v: Vec<u8> = Vec::new();
    v.push(116);
    v.push(101);
    v.push(120);
    v.push(116);
    proof {
        assert(v@ =~= pat_text());
    }
    v
}

fn pattern_blob() -> (v: Vec<u8>)
    ensures
        v@ == pat_blob(),
{
    let mut v: Vec<u8> = Vec::new();
    v.push(98);
    v.push(108);
    v.push(111);
    v.push(98);
    proof {
        assert(v@ =~= pat_blob());
    }
    v
}

fn pattern_real() -> (v: Vec<u8>)
    ensures
        v@ == pat_real(),
{
    let mut v: Vec<u8> = Vec::new();
    v.push(114);
    v.push(101);
    v.push(97);
    v.push(108);
    proof {
        assert(v@ =~= pat_real());
    }
    v
}

fn pattern_floa() -> (v: Vec<u8>)
    ensures
        v@ == pat_floa(),
{
    let mut v: Vec<u8> = Vec::new();
    v.push(102);
    v.push(108);
    v.push(111);
    v.push(97);
    proof {
        assert(v@ =~= pat_floa());
    }
    v
}

fn pattern_doub() -> (v: Vec<u8>)
    ensures
        v@ == pat_doub(),
{
    let mut v: Vec<u8> = Vec::new();
    v.push(100);
    v.push(111);
    v.push(117);
    v.push(98);
    proof {
        assert(v@ =~= pat_doub());
    }
    v
}

impl DataType {
    /// Parses a free-text declared column type (such as "VARCHAR(255)" or
    /// "UNSIGNED BIG INT") into a logical data type, case-insensitively and
    /// by the ordered rules of `parse_lowered`; a text that no rule matches
    /// is an `UnknownDeclaredType` error carrying the text as given, never
    /// a silent default.
    pub fn parse(s: &str) -> (r: Result<DataType, InferenceError>)
        ensures
            match r {
                Ok(dt) => parse_declared(s.spec_bytes()) == Some(dt),
                Err(e) => parse_declared(s.spec_bytes()) is None && (e matches InferenceError::UnknownDeclaredType(t)
                    && t@ == s@),
            },
    {
        let bytes: &[u8] = s.as_bytes();
        let t = to_lower(bytes);
        let ts: &[u8] = t.as_slice();
        let parsed: Option<DataType> = if bytes_eq(ts, pattern_int4().as_slice()) {
            Some(DataType::Int)
        } else if bytes_eq(ts, pattern_int8().as_slice()) {
            Some(DataType::BigInt)
        } else if bytes_eq(ts, pattern_boolean().as_slice()) || bytes_eq(
            ts,
            pattern_bool().as_slice(),
        ) {
            Some(DataType::Bool)
        } else if contains(ts, pattern_int().as_slice()) {
            if contains(ts, pattern_big().as_slice()) {
                Some(DataType::BigInt)
            } else {
                Some(DataType::Int)
            }
        } else if contains(ts, pattern_char().as_slice()) || contains(ts, pattern_clob().as_slice())
            || contains(ts, pattern_text().as_slice()) {
            Some(DataType::Text)
        } else if contains(ts, pattern_blob().as_slice()) {
            Some(DataType::Blob)
        } else if contains(ts, pattern_real().as_slice()) || contains(ts, pattern_floa().as_slice())
            || contains(ts, pattern_doub().as_slice()) {
            Some(DataType::Real)
        } else {
            None
        };
        match parsed {
            Some(dt) => Ok(dt),
            None => Err(InferenceError::UnknownDeclaredType(s.to_owned())),
        }
    }
}

impl core::str::FromStr for DataType {
    type Err = InferenceError;

    fn from_str(s: &str) -> Result<DataType, InferenceError> {
        DataType::parse(s)
    }
}

} // verus!
