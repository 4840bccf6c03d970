//! Validation of a credential record into a canonical TOTP descriptor.
use vstd::prelude::*;
use vstd::string::*;
use crate::entry::Entry;

verus! {

/// The hash algorithms a descriptor can use.
#[derive(Clone, Copy, Debug, PartialEq, Eq, Structural)]
pub enum Algorithm {
    SHA1,
    SHA256,
    SHA512,
}

/// The algorithm's canonical upper-case name.
pub open spec fn algorithm_name(a: Algorithm) -> Seq<char> {
    match a {
        Algorithm::SHA1 => "SHA1"@,
        Algorithm::SHA256 => "SHA256"@,
        Algorithm::SHA512 => "SHA512"@,
    }
}

/// The algorithm whose canonical name is exactly `upper`, if any.
pub open spec fn algorithm_of(upper: Seq<char>) -> Option<Algorithm> {
    if upper == "SHA1"@ {
        Some(Algorithm::SHA1)
    } else if upper == "SHA256"@ {
        Some(Algorithm::SHA256)
    } else if upper == "SHA512"@ {
        Some(Algorithm::SHA512)
    } else {
        None
    }
}

impl Algorithm {
    /// The canonical upper-case name.
    pub fn name(&self) -> (r: String)
        ensures
            r@ == algorithm_name(*self),
    {
        proof {
            reveal_strlit("SHA1");
            reveal_strlit("SHA256");
            reveal_strlit("SHA512");
        }
        match self {
            Algorithm::SHA1 => String::from_str("SHA1"),
            Algorithm::SHA256 => String::from_str("SHA256"),
            Algorithm::SHA512 => String::from_str("SHA512"),
        }
    }
}

/// A validated TOTP credential, ready to be rendered as a URI.
pub struct TotpDescriptor {
    pub algorithm: Algorithm,
    pub digits: u32,
    pub period: u64,
    /// The decoded secret; its length is not bounded below.
    pub secret_bytes: Vec<u8>,
    pub issuer: String,
    pub account_name: String,
}

/// The mathematical value of a descriptor.
pub struct DescriptorModel {
    pub algorithm: Algorithm,
    pub digits: u32,
    pub period: u64,
    pub secret_bytes: Seq<u8>,
    pub issuer: Seq<char>,
    pub account_name: Seq<char>,
}

impl View for TotpDescriptor {
    type V = DescriptorModel;

    open spec fn view(&self) -> DescriptorModel {
        DescriptorModel {
            algorithm: self.algorithm,
            digits: self.digits,
            period: self.period,
            secret_bytes: self.secret_bytes@,
            issuer: self.issuer@,
            account_name: self.account_name@,
        }
    }
}

/// Why a record does not make a descriptor.
#[derive(Debug)]
pub enum ValidationError {
    /// The algorithm name as given, which names none of the known algorithms.
    UnsupportedAlgorithm(String),
    /// The digit count as given, outside 6 to 8.
    InvalidDigits(u32),
    /// The period is zero.
    InvalidPeriod,
    /// The secret as given, which is not valid Base32.
    InvalidSecretEncoding(String),
}

/// The mathematical value of a validation error.
pub enum ValidationErrorModel {
    UnsupportedAlgorithm(Seq<char>),
    InvalidDigits(u32),
    InvalidPeriod,
    InvalidSecretEncoding(Seq<char>),
}

impl View for ValidationError {
    type V = ValidationErrorModel;

    open spec fn view(&self) -> ValidationErrorModel {
        match self {
            ValidationError::UnsupportedAlgorithm(s) => ValidationErrorModel::UnsupportedAlgorithm(s@),
            ValidationError::InvalidDigits(d) => ValidationErrorModel::InvalidDigits(*d),
            ValidationError::InvalidPeriod => ValidationErrorModel::InvalidPeriod,
            ValidationError::InvalidSecretEncoding(s) => ValidationErrorModel::InvalidSecretEncoding(s@),
        }
    }
}

/// The value of a build result.
pub open spec fn build_view(r: Result<TotpDescriptor, ValidationError>) -> Result<
    DescriptorModel,
    ValidationErrorModel,
> {
    match r {
        Ok(d) => Ok(d@),
        Err(e) => Err(e@),
    }
}

/// What a record builds to, given its algorithm name upper-cased and its
/// secret decoded: the algorithm is checked first, then the digit count,
/// then the period, then the secret.
pub open spec fn build_outcome(e: Entry, upper: Seq<char>, decoded: Option<Seq<u8>>) -> Result<
    DescriptorModel,
    ValidationErrorModel,
> {
    match algorithm_of(upper) {
        None => Err(ValidationErrorModel::UnsupportedAlgorithm(e.algorithm@)),
        Some(a) => if e.digits < 6 || e.digits > 8 {
            Err(ValidationErrorModel::InvalidDigits(e.digits))
        } else if e.period_time == 0 {
            Err(ValidationErrorModel::InvalidPeriod)
        } else {
            match decoded {
                None => Err(ValidationErrorModel::InvalidSecretEncoding(e.secret@)),
                Some(b) => Ok(
                    DescriptorModel {
                        algorithm: a,
                        digits: e.digits,
                        period: e.period_time,
                        secret_bytes: b,
                        issuer: e.label_name@,
                        account_name: e.username@,
                    },
                ),
            }
        },
    }
}

/// What `str::to_uppercase` returns for a string.
pub uninterp spec fn upper_of(s: Seq<char>) -> Seq<char>;

/// What unpadded RFC 4648 Base32 decoding gives for a string, `None` where it
/// is not valid Base32.
pub uninterp spec fn base32_bytes(s: Seq<char>) -> Option<Seq<u8>>;

/// `s` without its trailing `=` padding characters.
pub open spec fn without_padding(s: Seq<char>) -> Seq<char>
    decreases s.len(),
{
    if s.len() > 0 && s.last() == '=' {
        without_padding(s.drop_last())
    } else {
        s
    }
}

/// The bytes of a Base32 secret written with or without padding, `None`
/// where it is not valid Base32.
pub open spec fn secret_bytes_of(s: Seq<char>) -> Option<Seq<u8>> {
    base32_bytes(without_padding(s))
}

/// What a record builds to.
pub open spec fn spec_build(e: Entry) -> Result<DescriptorModel, ValidationErrorModel> {
    build_outcome(e, upper_of(e.algorithm@), secret_bytes_of(e.secret@))
}

/// Removes the trailing `=` padding characters of a Base32 text.
pub fn strip_padding(s: &str) -> (r: &str)
    ensures
        r@ == without_padding(s@),
{
    let mut k = s.unicode_len();
    proof {
        assert(s@.subrange(0, k as int) =~= s@);
    }
    while k > 0 && s.get_char(k - 1) == '='
        invariant
            k <= s@.len(),
            without_padding(s@.subrange(0, k as int)) == without_padding(s@),
        decreases k,
    {
        proof {
            assert(s@.subrange(0, k as int).drop_last() =~= s@.subrange(0, k - 1));
        }
        k = k - 1;
    }
    proof {
        if k > 0 {
            assert(s@.subrange(0, k as int).last() == s@[k - 1]);
        }
    }
    s.substring_char(0, k)
}

/// Decodes a Base32 secret written with or without padding.
pub fn decode_secret(s: &str) -> (r: Option<Vec<u8>>)
    ensures
        match r {
            Some(b) => secret_bytes_of(s@) == Some(b@),
            None => secret_bytes_of(s@) is None,
        },
{
    decode_base32(strip_padding(s))
}

/// Relies on `str::to_uppercase`: the result depends on the characters alone.
#[verifier::external_body]
fn uppercase(s: &str) -> (r: String)
    ensures
        r@ == upper_of(s@),
{
    s.to_uppercase()
}

/// Relies on `totp_rs::Secret::to_bytes` of `Secret::Encoded`, which decodes
/// unpadded RFC 4648 Base32 and fails on text that is not such Base32.
#[verifier::external_body]
fn decode_base32(s: &str) -> (r: Option<Vec<u8>>)
    ensures
        match r {
            Some(b) => base32_bytes(s@) == Some(b@),
            None => base32_bytes(s@) is None,
        },
{
    totp_rs::Secret::Encoded(s.to_string()).to_bytes().ok()
}

/// The algorithm whose canonical name is exactly `upper`.
pub fn parse_algorithm(upper: &str) -> (r: Option<Algorithm>)
    ensures
        r == algorithm_of(upper@),
{
    proof {
        reveal_strlit("SHA1");
        reveal_strlit("SHA256");
        reveal_strlit("SHA512");
    }
    let u = String::from_str(upper);
    if u == String::from_str("SHA1") {
        Some(Algorithm::SHA1)
    } else if u == String::from_str("SHA256") {
        Some(Algorithm::SHA256)
    } else if u == String::from_str("SHA512") {
        Some(Algorithm::SHA512)
    } else {
        None
    }
}

/// Builds a descriptor from a record, given its algorithm name already
/// upper-cased and its secret already decoded (`None` where it is not
/// valid Base32).
pub fn build_totp_from(entry: &Entry, upper: &str, decoded: Option<Vec<u8>>) -> (r: Result<
    TotpDescriptor,
    ValidationError,
>)
    ensures
        build_view(r) == build_outcome(
            *entry,
            upper@,
            match decoded {
                Some(b) => Some(b@),
                None => None,
            },
        ),
{
    let algorithm = match parse_algorithm(upper) {
        Some(a) => a,
        None => {
            return Err(ValidationError::UnsupportedAlgorithm(entry.algorithm.clone()));
        },
    };
    if entry.digits < 6 || entry.digits > 8 {
        return Err(ValidationError::InvalidDigits(entry.digits));
    }
    if entry.period_time == 0 {
        return Err(ValidationError::InvalidPeriod);
    }
    match decoded {
        None => Err(ValidationError::InvalidSecretEncoding(entry.secret.clone())),
        Some(secret_bytes) => Ok(
            TotpDescriptor {
                algorithm,
                digits: entry.digits,
                period: entry.period_time,
                secret_bytes,
                issuer: entry.label_name.clone(),
                account_name: entry.username.clone(),
            },
        ),
    }
}

/// Validates a record into a descriptor: the algorithm name, in any casing,
/// must be SHA1, SHA256 or SHA512, the digit count 6 to 8, the period
/// positive and the secret valid Base32. Short secrets are accepted as they
/// are.
pub fn build_totp(entry: &Entry) -> (r: Result<TotpDescriptor, ValidationError>)
    ensures
        build_view(r) == spec_build(*entry),
{
    let upper = uppercase(entry.algorithm.as_str());
    let decoded = decode_secret(entry.secret.as_str());
    build_totp_from(entry, upper.as_str(), decoded)
}

} // verus!
