//! The attribute's version literal, `major, minor[, revision]`, read from its tokens.
//!
//! A non-numeric or out-of-range component is reported and reading goes on; a missing
//! component, a missing separator or anything after the revision ends the reading. Every
//! defect found is reported in one failure.
use crate::diagnostics::{accumulate2, accumulate3, failures_in, failures_of, merge, Anchor, CombinedDiagnostic};
use vstd::prelude::*;

verus! {

/// One token of the attribute's arguments.
#[derive(Clone, Debug, PartialEq, Eq)]
pub enum VersionToken {
    /// An integer literal, by its base-10 digits (without suffix or separators).
    Integer { digits: String },
    /// A `,`.
    Comma,
    /// Any other token, by its text.
    Other { text: String },
}

/// The minimum host API version that a plugin requires.
#[derive(Clone, Copy, Debug, PartialEq, Eq, Structural)]
pub struct RequiredVersion {
    pub major: u32,
    pub minor: u32,
    pub revision: u32,
}

pub open spec fn is_digit(c: char) -> bool {
    '0' <= c <= '9'
}

pub open spec fn all_digits(s: Seq<char>) -> bool {
    forall|i: int| 0 <= i < s.len() ==> is_digit(#[trigger] s[i])
}

/// The number written by the base-10 digits `s`.
pub open spec fn digits_value(s: Seq<char>) -> nat
    decreases s.len(),
{
    if s.len() == 0 {
        0
    } else {
        10 * digits_value(s.drop_last()) + (s.last() as int - '0' as int) as nat
    }
}

pub open spec fn digit_char(d: nat) -> char {
    (d + '0' as nat) as char
}

/// The base-10 digits of `n`, without leading zeros.
pub open spec fn decimal_text(n: nat) -> Seq<char>
    decreases n,
{
    if n < 10 {
        seq![digit_char(n)]
    } else {
        decimal_text(n / 10).push(digit_char(n % 10))
    }
}

pub open spec fn missing_major_message() -> Seq<char> {
    "expected the major version number"@
}

pub open spec fn missing_minor_message() -> Seq<char> {
    "expected the minor version number"@
}

pub open spec fn missing_revision_message() -> Seq<char> {
    "expected the revision number after `,`"@
}

pub open spec fn separator_message() -> Seq<char> {
    "expected `,` between version numbers"@
}

pub open spec fn not_numeric_message() -> Seq<char> {
    "version component is not a base-10 integer"@
}

pub open spec fn too_large_message() -> Seq<char> {
    "version component does not fit in 32 bits"@
}

pub open spec fn trailing_message() -> Seq<char> {
    "unexpected additional components in version"@
}

/// Where position `i` of `t` lies: at a token, or past the end.
pub open spec fn anchor_at(t: Seq<VersionToken>, i: int) -> Anchor {
    if 0 <= i < t.len() {
        Anchor::AttributeToken { index: i as usize }
    } else {
        Anchor::AttributeEnd
    }
}

/// No token stands at position `i` where a number is expected: the input ends, or a `,`
/// stands there.
pub open spec fn slot_missing(t: Seq<VersionToken>, i: int) -> bool {
    i >= t.len() || t[i] is Comma
}

/// The defect of the number expected at position `i`, if any, given that a token is there.
pub open spec fn slot_defect(t: Seq<VersionToken>, i: int) -> Option<Seq<char>> {
    match t[i] {
        VersionToken::Integer { digits } => if digits@.len() == 0 || !all_digits(digits@) {
            Some(not_numeric_message())
        } else if digits_value(digits@) > u32::MAX {
            Some(too_large_message())
        } else {
            None
        },
        _ => Some(not_numeric_message()),
    }
}

/// The value of the number at position `i`, when it has no defect.
pub open spec fn slot_value(t: Seq<VersionToken>, i: int) -> u32 {
    match t[i] {
        VersionToken::Integer { digits } => digits_value(digits@) as u32,
        _ => 0,
    }
}

/// The diagnostics of the number at position `i`: one if it has a defect, else none.
pub open spec fn slot_errors(t: Seq<VersionToken>, i: int) -> Seq<(Anchor, Seq<char>)> {
    match slot_defect(t, i) {
        Some(m) => seq![(anchor_at(t, i), m)],
        None => Seq::empty(),
    }
}

/// Every defect of the version literal `t`, in order of position.
pub open spec fn version_errors(t: Seq<VersionToken>) -> Seq<(Anchor, Seq<char>)> {
    if slot_missing(t, 0) {
        seq![(anchor_at(t, 0), missing_major_message())]
    } else if t.len() < 2 {
        slot_errors(t, 0) + seq![(Anchor::AttributeEnd, missing_minor_message())]
    } else if !(t[1] is Comma) {
        slot_errors(t, 0) + seq![(anchor_at(t, 1), separator_message())]
    } else if slot_missing(t, 2) {
        slot_errors(t, 0) + seq![(anchor_at(t, 2), missing_minor_message())]
    } else if t.len() == 3 {
        slot_errors(t, 0) + slot_errors(t, 2)
    } else if !(t[3] is Comma) {
        slot_errors(t, 0) + slot_errors(t, 2) + seq![(anchor_at(t, 3), trailing_message())]
    } else if slot_missing(t, 4) {
        slot_errors(t, 0) + slot_errors(t, 2) + seq![(anchor_at(t, 4), missing_revision_message())]
    } else if t.len() > 5 {
        slot_errors(t, 0) + slot_errors(t, 2) + slot_errors(t, 4) + seq![
            (anchor_at(t, 5), trailing_message()),
        ]
    } else {
        slot_errors(t, 0) + slot_errors(t, 2) + slot_errors(t, 4)
    }
}

/// The version that a literal without defects denotes; the revision is 0 when omitted.
pub open spec fn version_of(t: Seq<VersionToken>) -> RequiredVersion {
    RequiredVersion {
        major: slot_value(t, 0),
        minor: slot_value(t, 2),
        revision: if t.len() == 3 {
            0
        } else {
            slot_value(t, 4)
        },
    }
}

/// What reading the version literal `t` gives.
pub open spec fn parse_version(t: Seq<VersionToken>) -> Result<
    RequiredVersion,
    Seq<(Anchor, Seq<char>)>,
> {
    if version_errors(t).len() == 0 {
        Ok(version_of(t))
    } else {
        Err(version_errors(t))
    }
}

/// The tokens `major, minor, revision` of `v`, each number without leading zeros.
pub open spec fn is_version_literal_of(t: Seq<VersionToken>, v: RequiredVersion) -> bool {
    &&& t.len() == 5
    &&& t[0] matches VersionToken::Integer { digits } && digits@ == decimal_text(v.major as nat)
    &&& t[1] is Comma
    &&& t[2] matches VersionToken::Integer { digits } && digits@ == decimal_text(v.minor as nat)
    &&& t[3] is Comma
    &&& t[4] matches VersionToken::Integer { digits } && digits@ == decimal_text(
        v.revision as nat,
    )
}

/// Outcome of reading the digits of one integer token.
enum Decimal {
    NotDecimal,
    TooLarge,
    Value { value: u32 },
}

/// Reads the base-10 number that `s` writes.
fn read_decimal(s: &str) -> (r: Decimal)
    ensures
        match r {
            Decimal::NotDecimal => s@.len() == 0 || !all_digits(s@),
            Decimal::TooLarge => s@.len() > 0 && all_digits(s@) && digits_value(s@) > u32::MAX,
            Decimal::Value { value } => s@.len() > 0 && all_digits(s@) && digits_value(s@)
                == value,
        },
{
    let n = s.unicode_len();
    if n == 0 {
        return Decimal::NotDecimal;
    }
    let mut acc: u64 = 0;
    let mut too_large = false;
    let mut i: usize = 0;
    while i < n
        invariant
            n == s@.len(),
            i <= n,
            all_digits(s@.take(i as int)),
            !too_large ==> acc == digits_value(s@.take(i as int)) && acc <= u32::MAX,
            too_large ==> digits_value(s@.take(i as int)) > u32::MAX,
        decreases n - i,
    {
        let c = s.get_char(i);
        if !('0' <= c && c <= '9') {
            assert(!is_digit(s@[i as int]));
            return Decimal::NotDecimal;
        }
        proof {
            assert(s@.take(i + 1).drop_last() =~= s@.take(i as int));
            assert(s@.take(i + 1).last() == c);
        }
        if !too_large {
            acc = acc * 10 + (c as u64 - '0' as u64);
            if acc > 4294967295 {
                too_large = true;
            }
        }
        i = i + 1;
    }
    assert(s@.take(i as int) =~= s@);
    if too_large {
        Decimal::TooLarge
    } else {
        Decimal::Value { value: acc as u32 }
    }
}

/// Reads the number expected at position `i`: `None` when it is missing, else its value or
/// its defect.
fn read_slot(t: &[VersionToken], i: usize) -> (r: Option<Result<u32, CombinedDiagnostic>>)
    ensures
        r.is_none() == slot_missing(t@, i as int),
        r matches Some(Ok(v)) ==> slot_defect(t@, i as int).is_none() && v == slot_value(t@, i as int),
        r matches Some(Err(e)) ==> slot_defect(t@, i as int).is_some() && e@ == slot_errors(t@, i as int),
{
    if i >= t.len() {
        return None;
    }
    let anchor = Anchor::AttributeToken { index: i };
    match &t[i] {
        VersionToken::Comma => None,
        VersionToken::Other { .. } => Some(Err(CombinedDiagnostic::new(anchor, "version component is not a base-10 integer"))),
        VersionToken::Integer { digits } => match read_decimal(digits.as_str()) {
            Decimal::NotDecimal => Some(Err(CombinedDiagnostic::new(anchor, "version component is not a base-10 integer"))),
            Decimal::TooLarge => Some(Err(CombinedDiagnostic::new(anchor, "version component does not fit in 32 bits"))),
            Decimal::Value { value } => Some(Ok(value)),
        },
    }
}

fn anchor_for(t: &[VersionToken], i: usize) -> (r: Anchor)
    ensures
        r == anchor_at(t@, i as int),
{
    if i < t.len() {
        Anchor::AttributeToken { index: i }
    } else {
        Anchor::AttributeEnd
    }
}

/// The failure of a component, if it has one.
fn defect_of(r: Result<u32, CombinedDiagnostic>) -> (o: Option<CombinedDiagnostic>)
    ensures
        failures_in(o) == failures_of(r),
{
    match r {
        Ok(_) => None,
        Err(e) => Some(e),
    }
}

/// The failures found so far, followed by one more diagnostic.
fn then_fail(found: Option<CombinedDiagnostic>, anchor: Anchor, message: &str) -> (e:
    CombinedDiagnostic)
    ensures
        e@ == failures_in(found) + seq![(anchor, message@)],
{
    let last = CombinedDiagnostic::new(anchor, message);
    let r = merge(found, Some(last));
    r.unwrap()
}

/// The single base-10 digit `d`.
fn digit_string(d: u32) -> (r: String)
    requires
        d < 10,
    ensures
        r@ == seq![digit_char(d as nat)],
{
    let r = match d {
        0 => String::from_str("0"),
        1 => String::from_str("1"),
        2 => String::from_str("2"),
        3 => String::from_str("3"),
        4 => String::from_str("4"),
        5 => String::from_str("5"),
        6 => String::from_str("6"),
        7 => String::from_str("7"),
        8 => String::from_str("8"),
        _ => String::from_str("9"),
    };
    proof {
        reveal_strlit("0");
        reveal_strlit("1");
        reveal_strlit("2");
        reveal_strlit("3");
        reveal_strlit("4");
        reveal_strlit("5");
        reveal_strlit("6");
        reveal_strlit("7");
        reveal_strlit("8");
        reveal_strlit("9");
        assert(r@ =~= seq![digit_char(d as nat)]);
    }
    r
}

/// The base-10 digits of `n`, without leading zeros.
pub fn decimal_string(n: u32) -> (r: String)
    ensures
        r@ == decimal_text(n as nat),
    decreases n,
{
    if n < 10 {
        digit_string(n)
    } else {
        let mut r = decimal_string(n / 10);
        let last = digit_string(n % 10);
        r.append(last.as_str());
        assert(r@ =~= decimal_text(n as nat));
        r
    }
}

impl RequiredVersion {
    /// Reads `major, minor[, revision]` from the attribute's tokens.
    pub fn parse(tokens: &[VersionToken]) -> (r: Result<RequiredVersion, CombinedDiagnostic>)
        ensures
            match r {
                Ok(v) => parse_version(tokens@) == Ok::<
                    RequiredVersion,
                    Seq<(Anchor, Seq<char>)>,
                >(v),
                Err(e) => parse_version(tokens@) == Err::<
                    RequiredVersion,
                    Seq<(Anchor, Seq<char>)>,
                >(e@),
            },
    {
        let ghost t = tokens@;
        let n = tokens.len();
        let major = match read_slot(tokens, 0) {
            None => {
                let a = anchor_for(tokens, 0);
                let e = CombinedDiagnostic::new(a, "expected the major version number");
                return Err(e);
            },
            Some(m) => m,
        };
        if n < 2 {
            return Err(
                then_fail(defect_of(major), Anchor::AttributeEnd, "expected the minor version number"),
            );
        }
        match &tokens[1] {
            VersionToken::Comma => {},
            _ => {
                return Err(
                    then_fail(
                        defect_of(major),
                        Anchor::AttributeToken { index: 1 },
                        "expected `,` between version numbers",
                    ),
                );
            },
        }
        let minor = match read_slot(tokens, 2) {
            None => {
                let a = anchor_for(tokens, 2);
                return Err(then_fail(defect_of(major), a, "expected the minor version number"));
            },
            Some(m) => m,
        };
        if n == 3 {
            let both = accumulate2(major, minor);
            return match both {
                Ok((ma, mi)) => Ok(RequiredVersion { major: ma, minor: mi, revision: 0 }),
                Err(e) => {
                    assert(version_errors(t) == slot_errors(t, 0) + slot_errors(t, 2));
                    Err(e)
                },
            };
        }
        match &tokens[3] {
            VersionToken::Comma => {},
            _ => {
                let found = merge(defect_of(major), defect_of(minor));
                return Err(
                    then_fail(
                        found,
                        Anchor::AttributeToken { index: 3 },
                        "unexpected additional components in version",
                    ),
                );
            },
        }
        let revision = match read_slot(tokens, 4) {
            None => {
                let a = anchor_for(tokens, 4);
                let found = merge(defect_of(major), defect_of(minor));
                return Err(then_fail(found, a, "expected the revision number after `,`"));
            },
            Some(m) => m,
        };
        if n > 5 {
            let found = merge(merge(defect_of(major), defect_of(minor)), defect_of(revision));
            return Err(
                then_fail(
                    found,
                    Anchor::AttributeToken { index: 5 },
                    "unexpected additional components in version",
                ),
            );
        }
        match accumulate3(major, minor, revision) {
            Ok((ma, mi, re)) => Ok(RequiredVersion { major: ma, minor: mi, revision: re }),
            Err(e) => Err(e),
        }
    }

    /// The tokens `major, minor, revision` that denote this version.
    pub fn to_tokens(&self) -> (r: Vec<VersionToken>)
        ensures
            is_version_literal_of(r@, *self),
    {
        let r = vec![
            VersionToken::Integer { digits: decimal_string(self.major) },
            VersionToken::Comma,
            VersionToken::Integer { digits: decimal_string(self.minor) },
            VersionToken::Comma,
            VersionToken::Integer { digits: decimal_string(self.revision) },
        ];
        r
    }
}

/// The digits of a number read back give that number.
pub proof fn lemma_decimal_text_reads_back(n: nat)
    ensures
        decimal_text(n).len() > 0,
        all_digits(decimal_text(n)),
        digits_value(decimal_text(n)) == n,
    decreases n,
{
    if n < 10 {
        assert(decimal_text(n).drop_last() =~= Seq::<char>::empty());
        assert(digit_char(n) as int == n + '0' as int);
        assert(digits_value(Seq::<char>::empty()) == 0);
        assert(digits_value(decimal_text(n)) == 10 * digits_value(decimal_text(n).drop_last()) + (
        decimal_text(n).last() as int - '0' as int) as nat);
    } else {
        lemma_decimal_text_reads_back(n / 10);
        let prefix = decimal_text(n / 10);
        assert(decimal_text(n).drop_last() =~= prefix);
        assert(digit_char(n % 10) as int == n % 10 + '0' as int);
        assert(10 * (n / 10) + n % 10 == n) by (nonlinear_arith);
        assert(decimal_text(n).last() == digit_char(n % 10));
        assert(digits_value(decimal_text(n)) == 10 * digits_value(prefix) + n % 10);
        assert forall|i: int| 0 <= i < decimal_text(n).len() implies is_digit(
            #[trigger] decimal_text(n)[i],
        ) by {
            if i < prefix.len() {
                assert(decimal_text(n)[i] == prefix[i]);
            }
        }
    }
}

/// A number token that writes `value` in base 10.
pub open spec fn is_number_token(tok: VersionToken, value: u32) -> bool {
    tok matches VersionToken::Integer { digits } && digits@.len() > 0 && all_digits(digits@)
        && digits_value(digits@) == value
}

/// A well-formed literal `major, minor, revision` reads as its three numbers; one without a
/// revision reads as its two numbers with revision 0.
pub proof fn lemma_well_formed_version_reads(t: Seq<VersionToken>, major: u32, minor: u32, revision: u32)
    requires
        t.len() == 3 || t.len() == 5,
        is_number_token(t[0], major),
        t[1] is Comma,
        is_number_token(t[2], minor),
        t.len() == 5 ==> t[3] is Comma && is_number_token(t[4], revision),
    ensures
        t.len() == 5 ==> parse_version(t) == Ok::<RequiredVersion, Seq<(Anchor, Seq<char>)>>(
            RequiredVersion { major, minor, revision },
        ),
        t.len() == 3 ==> parse_version(t) == Ok::<RequiredVersion, Seq<(Anchor, Seq<char>)>>(
            RequiredVersion { major, minor, revision: 0 },
        ),
{
    assert(slot_errors(t, 0) =~= Seq::empty());
    assert(slot_errors(t, 2) =~= Seq::empty());
    if t.len() == 5 {
        assert(slot_errors(t, 4) =~= Seq::empty());
        assert(version_errors(t) =~= Seq::empty());
    } else {
        assert(version_errors(t) =~= Seq::empty());
    }
}

/// Reading the tokens that denote a version gives that version back.
pub proof fn lemma_version_tokens_read_back(t: Seq<VersionToken>, v: RequiredVersion)
    requires
        is_version_literal_of(t, v),
    ensures
        parse_version(t) == Ok::<RequiredVersion, Seq<(Anchor, Seq<char>)>>(v),
{
    lemma_decimal_text_reads_back(v.major as nat);
    lemma_decimal_text_reads_back(v.minor as nat);
    lemma_decimal_text_reads_back(v.revision as nat);
    lemma_well_formed_version_reads(t, v.major, v.minor, v.revision);
}

/// A malformed literal is rejected, and the failure names its defect: a missing major
/// number, a non-numeric major, minor or revision, a component after the revision, or a `,`
/// with no revision after it.
pub proof fn lemma_malformed_version_rejected(t: Seq<VersionToken>)
    ensures
        slot_missing(t, 0) ==> parse_version(t) == Err::<RequiredVersion, Seq<(Anchor, Seq<char>)>>(
            seq![(anchor_at(t, 0), missing_major_message())],
        ),
        (t.len() > 0 && t[0] is Other) ==> parse_version(t) is Err && parse_version(t)->Err_0[0] == (
        Anchor::AttributeToken { index: 0 }, not_numeric_message()),
        (t.len() >= 3 && t[1] is Comma && t[2] is Other && !slot_missing(t, 0)) ==> parse_version(
            t,
        ) is Err && parse_version(t)->Err_0.contains(
            (Anchor::AttributeToken { index: 2 }, not_numeric_message()),
        ),
        (t.len() >= 5 && t[1] is Comma && t[3] is Comma && t[4] is Other && !slot_missing(t, 0)
            && !slot_missing(t, 2)) ==> parse_version(t) is Err && parse_version(t)->Err_0.contains(
            (Anchor::AttributeToken { index: 4 }, not_numeric_message()),
        ),
        (t.len() > 5 && t[1] is Comma && t[3] is Comma && !slot_missing(t, 0) && !slot_missing(t, 2)
            && !slot_missing(t, 4)) ==> parse_version(t) is Err && parse_version(t)->Err_0.last() == (
        Anchor::AttributeToken { index: 5 }, trailing_message()),
        (t.len() == 4 && t[1] is Comma && t[3] is Comma && !slot_missing(t, 0) && !slot_missing(
            t,
            2,
        )) ==> parse_version(t) is Err && parse_version(t)->Err_0.last() == (
        Anchor::AttributeEnd, missing_revision_message()),
{
    if t.len() >= 3 && t[1] is Comma && t[2] is Other && !slot_missing(t, 0) {
        let e = version_errors(t);
        let e0 = slot_errors(t, 0);
        assert(e.len() >= e0.len() + 1);
        assert(e[e0.len() as int] == (Anchor::AttributeToken { index: 2 }, not_numeric_message()));
    }
    if t.len() >= 5 && t[1] is Comma && t[3] is Comma && t[4] is Other && !slot_missing(t, 0)
        && !slot_missing(t, 2) {
        let e = version_errors(t);
        let k = slot_errors(t, 0).len() + slot_errors(t, 2).len();
        assert(e.len() >= k + 1);
        assert(e[k as int] == (Anchor::AttributeToken { index: 4 }, not_numeric_message()));
    }
}

} // verus!
