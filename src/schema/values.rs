use vstd::prelude::*;

use crate::error::SAMLError;
use crate::xml::q_name::opt_view;

verus! {

/// True when `a` holds exactly the characters of `b`.
pub fn name_is(a: &String, b: &str) -> (r: bool)
    ensures
        r == (a@ == b@),
{
    *a == b.to_owned()
}

/// The value of a boolean attribute: the words `true` and `false`.
pub open spec fn bool_of(t: Seq<char>) -> Option<bool> {
    if t == "true"@ {
        Some(true)
    } else if t == "false"@ {
        Some(false)
    } else {
        None
    }
}

pub open spec fn bool_text(b: bool) -> Seq<char> {
    if b {
        "true"@
    } else {
        "false"@
    }
}

pub fn parse_bool(t: &String) -> (r: Option<bool>)
    ensures
        r == bool_of(t@),
{
    if name_is(t, "true") {
        Some(true)
    } else if name_is(t, "false") {
        Some(false)
    } else {
        None
    }
}

pub fn format_bool(b: bool) -> (r: String)
    ensures
        r@ == bool_text(b),
{
    if b {
        "true".to_owned()
    } else {
        "false".to_owned()
    }
}

pub proof fn lemma_bool_round_trip(b: bool)
    ensures
        bool_of(bool_text(b)) == Some(b),
{
    reveal_strlit("true");
    reveal_strlit("false");
    assert("true"@.len() != "false"@.len());
}

pub open spec fn is_digit(c: char) -> bool {
    '0' <= c && c <= '9'
}

/// The number that a string of decimal digits denotes.
pub open spec fn digits_value(d: Seq<char>) -> int
    decreases d.len(),
{
    if d.len() == 0 {
        0
    } else {
        10 * digits_value(d.drop_last()) + (d.last() as int - '0' as int)
    }
}

/// The value of an unsigned decimal numeral: an optional `+` and one or more
/// digits.
pub open spec fn unsigned_of(t: Seq<char>) -> Option<int> {
    let d = if t.len() > 0 && t[0] == '+' {
        t.drop_first()
    } else {
        t
    };
    if d.len() > 0 && forall|i: int| 0 <= i < d.len() ==> is_digit(#[trigger] d[i]) {
        Some(digits_value(d))
    } else {
        None
    }
}

/// The value of a signed decimal numeral: an optional sign and one or more
/// digits.
pub open spec fn signed_of(t: Seq<char>) -> Option<int> {
    if t.len() > 0 && t[0] == '-' {
        match unsigned_of(t.drop_first()) {
            Some(v) if t.drop_first().len() == 0 || t.drop_first()[0] != '+' => Some(-v),
            _ => None,
        }
    } else {
        unsigned_of(t)
    }
}

/// The digit character of a number below ten.
pub open spec fn digit_char(d: nat) -> char {
    if d == 0 {
        '0'
    } else if d == 1 {
        '1'
    } else if d == 2 {
        '2'
    } else if d == 3 {
        '3'
    } else if d == 4 {
        '4'
    } else if d == 5 {
        '5'
    } else if d == 6 {
        '6'
    } else if d == 7 {
        '7'
    } else if d == 8 {
        '8'
    } else {
        '9'
    }
}

/// The shortest decimal numeral of a natural number.
pub open spec fn decimal_text(n: nat) -> Seq<char>
    decreases n,
{
    if n < 10 {
        seq![digit_char(n)]
    } else {
        decimal_text(n / 10).push(digit_char(n % 10))
    }
}

pub open spec fn signed_text(v: int) -> Seq<char> {
    if v < 0 {
        seq!['-'] + decimal_text((-v) as nat)
    } else {
        decimal_text(v as nat)
    }
}

pub open spec fn usize_of(t: Seq<char>) -> Option<usize> {
    match unsigned_of(t) {
        Some(v) => if v <= usize::MAX {
            Some(v as usize)
        } else {
            None
        },
        None => None,
    }
}

pub open spec fn u32_of(t: Seq<char>) -> Option<u32> {
    match unsigned_of(t) {
        Some(v) => if v <= u32::MAX {
            Some(v as u32)
        } else {
            None
        },
        None => None,
    }
}

pub open spec fn i32_of(t: Seq<char>) -> Option<i32> {
    match signed_of(t) {
        Some(v) => if i32::MIN <= v <= i32::MAX {
            Some(v as i32)
        } else {
            None
        },
        None => None,
    }
}

/// Relies on `str::parse::<usize>`: an optional `+`, then decimal digits whose
/// value fits.
#[verifier::external_body]
pub fn parse_usize(t: &String) -> (r: Option<usize>)
    ensures
        r == usize_of(t@),
{
    t.parse::<usize>().ok()
}

/// Relies on `str::parse::<u32>`: an optional `+`, then decimal digits whose
/// value fits.
#[verifier::external_body]
pub fn parse_u32(t: &String) -> (r: Option<u32>)
    ensures
        r == u32_of(t@),
{
    t.parse::<u32>().ok()
}

/// Relies on `str::parse::<i32>`: an optional sign, then decimal digits whose
/// value fits.
#[verifier::external_body]
pub fn parse_i32(t: &String) -> (r: Option<i32>)
    ensures
        r == i32_of(t@),
{
    t.parse::<i32>().ok()
}

/// Relies on `usize`'s `Display`: the shortest decimal numeral.
#[verifier::external_body]
pub fn format_usize(n: usize) -> (r: String)
    ensures
        r@ == decimal_text(n as nat),
{
    n.to_string()
}

/// Relies on `u32`'s `Display`: the shortest decimal numeral.
#[verifier::external_body]
pub fn format_u32(n: u32) -> (r: String)
    ensures
        r@ == decimal_text(n as nat),
{
    n.to_string()
}

/// Relies on `i32`'s `Display`: a minus sign when negative, then the shortest
/// decimal numeral of the magnitude.
#[verifier::external_body]
pub fn format_i32(n: i32) -> (r: String)
    ensures
        r@ == signed_text(n as int),
{
    n.to_string()
}

proof fn lemma_decimal_digits(n: nat)
    ensures
        decimal_text(n).len() > 0,
        forall|i: int| 0 <= i < decimal_text(n).len() ==> is_digit(#[trigger] decimal_text(n)[i]),
        decimal_text(n)[0] != '+' && decimal_text(n)[0] != '-',
        digits_value(decimal_text(n)) == n,
    decreases n,
{
    if n < 10 {
        assert(digits_value(decimal_text(n)) == 10 * digits_value(decimal_text(n).drop_last()) + (digit_char(n) as int - '0' as int));
        assert(decimal_text(n).drop_last() =~= Seq::<char>::empty());
    } else {
        lemma_decimal_digits(n / 10);
        let d = decimal_text(n);
        assert(d.drop_last() =~= decimal_text(n / 10));
        assert(digit_char(n % 10) as int - '0' as int == n % 10);
        assert forall|i: int| 0 <= i < d.len() implies is_digit(#[trigger] d[i]) by {
            if i < d.len() - 1 {
                assert(d[i] == decimal_text(n / 10)[i]);
            }
        }
    }
}

pub proof fn lemma_unsigned_round_trip(n: nat)
    ensures
        unsigned_of(decimal_text(n)) == Some(n as int),
{
    lemma_decimal_digits(n);
}

pub proof fn lemma_signed_round_trip(v: int)
    ensures
        signed_of(signed_text(v)) == Some(v),
{
    if v < 0 {
        lemma_decimal_digits((-v) as nat);
        assert((seq!['-'] + decimal_text((-v) as nat)).drop_first() =~= decimal_text((-v) as nat));
    } else {
        lemma_decimal_digits(v as nat);
    }
}


/// A protocol version, major and minor number.
#[derive(Debug)]
pub struct SAMLVersion {
    pub major: i32,
    pub minor: i32,
}

/// The versions that `Version` attributes may name.
pub open spec fn version_of(t: Seq<char>) -> Option<(i32, i32)> {
    if t == "2.0"@ {
        Some((2, 0))
    } else if t == "1.1"@ {
        Some((1, 1))
    } else if t == "1.0"@ {
        Some((1, 0))
    } else {
        None
    }
}

pub open spec fn version_text(major: i32, minor: i32) -> Seq<char> {
    signed_text(major as int) + "."@ + signed_text(minor as int)
}

/// Relies on `format!`: both numbers in decimal, joined by a dot.
#[verifier::external_body]
fn format_version(major: i32, minor: i32) -> (r: String)
    ensures
        r@ == version_text(major, minor),
{
    format!("{}.{}", major, minor)
}

impl SAMLVersion {
    pub open spec fn is_known(self) -> bool {
        version_of(version_text(self.major, self.minor)) == Some((self.major, self.minor))
    }

    pub fn new(major: i32, minor: i32) -> (r: SAMLVersion)
        ensures
            r.major == major && r.minor == minor,
    {
        SAMLVersion { major, minor }
    }

    /// Reads `2.0`, `1.1` or `1.0`; any other text is an unmarshalling error.
    pub fn from_string(version: &String) -> (r: Result<SAMLVersion, SAMLError>)
        ensures
            r is Ok <==> version_of(version@) is Some,
            r is Ok ==> (r->Ok_0.major, r->Ok_0.minor) == version_of(version@)->0,
            r is Err ==> r->Err_0 is UnmarshallingError,
    {
        if name_is(version, "2.0") {
            Ok(SAMLVersion::new(2, 0))
        } else if name_is(version, "1.1") {
            Ok(SAMLVersion::new(1, 1))
        } else if name_is(version, "1.0") {
            Ok(SAMLVersion::new(1, 0))
        } else {
            Err(SAMLError::unmarshalling("unsupported SAML version"))
        }
    }

    pub fn get_major_version(&self) -> (r: i32)
        ensures
            r == self.major,
    {
        self.major
    }

    pub fn get_minor_version(&self) -> (r: i32)
        ensures
            r == self.minor,
    {
        self.minor
    }

    /// The version as text, `major.minor`.
    pub fn to_string(&self) -> (r: String)
        ensures
            r@ == version_text(self.major, self.minor),
    {
        format_version(self.major, self.minor)
    }

    pub fn copy(&self) -> (r: SAMLVersion)
        ensures
            r == *self,
    {
        SAMLVersion { major: self.major, minor: self.minor }
    }
}

/// The instant that an RFC 3339 timestamp denotes, as seconds and nanoseconds
/// since the Unix epoch, when the text is one.
pub uninterp spec fn instant_of(text: Seq<char>) -> Option<(i64, u32)>;

/// The RFC 3339 text of an instant, when the instant is in range.
pub uninterp spec fn rfc3339_of(seconds: i64, nanos: u32) -> Option<Seq<char>>;

/// Relies on chrono's `FromStr for DateTime<Utc>`: reads an RFC 3339
/// timestamp and gives its instant.
#[verifier::external_body]
fn read_instant(t: &str) -> (r: Option<(i64, u32)>)
    ensures
        r == instant_of(t@),
{
    t.parse::<chrono::DateTime<chrono::Utc>>().ok().map(|d| (d.timestamp(), d.timestamp_subsec_nanos()))
}

/// Relies on chrono's `DateTime::from_timestamp` and `to_rfc3339`: the text of
/// an instant, or `None` when it is out of chrono's range.
#[verifier::external_body]
fn write_instant(seconds: i64, nanos: u32) -> (r: Option<String>)
    ensures
        opt_view(r) == rfc3339_of(seconds, nanos),
{
    chrono::DateTime::from_timestamp(seconds, nanos).map(|d| d.to_rfc3339())
}

/// A point in time: seconds and nanoseconds since the Unix epoch, with its
/// RFC 3339 text.
#[derive(Debug)]
pub struct Timestamp {
    pub seconds: i64,
    pub nanos: u32,
    pub text: String,
}

pub struct TimestampView {
    pub seconds: i64,
    pub nanos: u32,
    pub text: Seq<char>,
}

impl View for Timestamp {
    type V = TimestampView;

    open spec fn view(&self) -> TimestampView {
        TimestampView { seconds: self.seconds, nanos: self.nanos, text: self.text@ }
    }
}

/// The timestamp that a text denotes: its instant, when chrono can also write
/// that instant back.
pub open spec fn timestamp_of(t: Seq<char>) -> Option<TimestampView> {
    match instant_of(t) {
        Some((s, n)) => match rfc3339_of(s, n) {
            Some(text) => Some(TimestampView { seconds: s, nanos: n, text }),
            None => None,
        },
        None => None,
    }
}

impl Timestamp {
    /// Reads a timestamp; `None` when the text is not RFC 3339.
    pub fn parse(t: &String) -> (r: Option<Timestamp>)
        ensures
            r is Some <==> timestamp_of(t@) is Some,
            r is Some ==> r->0@ == timestamp_of(t@)->0,
    {
        match read_instant(t.as_str()) {
            Some((seconds, nanos)) => match write_instant(seconds, nanos) {
                Some(text) => Some(Timestamp { seconds, nanos, text }),
                None => None,
            },
            None => None,
        }
    }

    /// The RFC 3339 text of the timestamp.
    pub fn to_rfc3339(&self) -> (r: String)
        ensures
            r@ == self.text@,
    {
        self.text.clone()
    }

    pub fn copy(&self) -> (r: Timestamp)
        ensures
            r@ == self@,
    {
        Timestamp { seconds: self.seconds, nanos: self.nanos, text: self.text.clone() }
    }
}

/// How the requested authentication contexts are compared.
#[derive(Debug)]
pub enum AuthnContextComparisonTypeEnumeration {
    EXACT,
    MINIMUM,
    MAXIMUM,
    BETTER,
}

pub open spec fn comparison_of(t: Seq<char>) -> Option<AuthnContextComparisonTypeEnumeration> {
    if t == "exact"@ {
        Some(AuthnContextComparisonTypeEnumeration::EXACT)
    } else if t == "minimum"@ {
        Some(AuthnContextComparisonTypeEnumeration::MINIMUM)
    } else if t == "maximum"@ {
        Some(AuthnContextComparisonTypeEnumeration::MAXIMUM)
    } else if t == "better"@ {
        Some(AuthnContextComparisonTypeEnumeration::BETTER)
    } else {
        None
    }
}

pub open spec fn comparison_text(c: AuthnContextComparisonTypeEnumeration) -> Seq<char> {
    match c {
        AuthnContextComparisonTypeEnumeration::EXACT => "exact"@,
        AuthnContextComparisonTypeEnumeration::MINIMUM => "minimum"@,
        AuthnContextComparisonTypeEnumeration::MAXIMUM => "maximum"@,
        AuthnContextComparisonTypeEnumeration::BETTER => "better"@,
    }
}

impl AuthnContextComparisonTypeEnumeration {
    /// Reads `exact`, `minimum`, `maximum` or `better`.
    pub fn from_str(s: &String) -> (r: Result<AuthnContextComparisonTypeEnumeration, SAMLError>)
        ensures
            r is Ok <==> comparison_of(s@) is Some,
            r is Ok ==> r->Ok_0 == comparison_of(s@)->0,
            r is Err ==> r->Err_0 is UnmarshallingError,
    {
        if name_is(s, "exact") {
            Ok(AuthnContextComparisonTypeEnumeration::EXACT)
        } else if name_is(s, "minimum") {
            Ok(AuthnContextComparisonTypeEnumeration::MINIMUM)
        } else if name_is(s, "maximum") {
            Ok(AuthnContextComparisonTypeEnumeration::MAXIMUM)
        } else if name_is(s, "better") {
            Ok(AuthnContextComparisonTypeEnumeration::BETTER)
        } else {
            Err(SAMLError::unmarshalling("invalid AuthnContextComparisonType"))
        }
    }

    pub fn to_string(&self) -> (r: String)
        ensures
            r@ == comparison_text(*self),
    {
        match self {
            AuthnContextComparisonTypeEnumeration::EXACT => "exact".to_owned(),
            AuthnContextComparisonTypeEnumeration::MINIMUM => "minimum".to_owned(),
            AuthnContextComparisonTypeEnumeration::MAXIMUM => "maximum".to_owned(),
            AuthnContextComparisonTypeEnumeration::BETTER => "better".to_owned(),
        }
    }

    pub fn copy(&self) -> (r: AuthnContextComparisonTypeEnumeration)
        ensures
            r == *self,
    {
        match self {
            AuthnContextComparisonTypeEnumeration::EXACT => AuthnContextComparisonTypeEnumeration::EXACT,
            AuthnContextComparisonTypeEnumeration::MINIMUM => AuthnContextComparisonTypeEnumeration::MINIMUM,
            AuthnContextComparisonTypeEnumeration::MAXIMUM => AuthnContextComparisonTypeEnumeration::MAXIMUM,
            AuthnContextComparisonTypeEnumeration::BETTER => AuthnContextComparisonTypeEnumeration::BETTER,
        }
    }
}

pub proof fn lemma_comparison_round_trip(c: AuthnContextComparisonTypeEnumeration)
    ensures
        comparison_of(comparison_text(c)) == Some(c),
{
    reveal_strlit("exact");
    reveal_strlit("minimum");
    reveal_strlit("maximum");
    reveal_strlit("better");
    assert("exact"@.len() == 5 && "better"@.len() == 6 && "minimum"@.len() == 7 && "maximum"@.len() == 7);
    assert("minimum"@[1] != "maximum"@[1]);
}

pub proof fn lemma_version_round_trip(major: i32, minor: i32)
    requires
        (major, minor) == (2i32, 0i32) || (major, minor) == (1i32, 1i32) || (major, minor) == (1i32, 0i32),
    ensures
        version_of(version_text(major, minor)) == Some((major, minor)),
{
    reveal_strlit("2.0");
    reveal_strlit("1.1");
    reveal_strlit("1.0");
    reveal_strlit(".");
    assert(version_text(major, minor) =~= seq![digit_char(major as nat), '.', digit_char(minor as nat)]);
    assert("2.0"@ =~= seq!['2', '.', '0']);
    assert("1.1"@ =~= seq!['1', '.', '1']);
    assert("1.0"@ =~= seq!['1', '.', '0']);
}

} // verus!
