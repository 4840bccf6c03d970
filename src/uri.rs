//! Rendering a descriptor as an `otpauth://` URI.
use vstd::prelude::*;
use vstd::string::*;
use crate::descriptor::{TotpDescriptor, DescriptorModel, algorithm_name, base32_bytes, secret_bytes_of, without_padding, decode_secret};
use crate::text::{decimal, push_decimal};

verus! {

/// What `urlencoding::encode` returns for a string.
pub uninterp spec fn url_encoded(s: Seq<char>) -> Seq<char>;

/// What unpadded RFC 4648 Base32 encoding gives for a byte sequence.
pub uninterp spec fn base32_text(b: Seq<u8>) -> Seq<char>;

/// Relies on `urlencoding::encode`: percent-encodes every byte but ASCII
/// letters, digits, `-`, `_`, `.` and `~`.
#[verifier::external_body]
fn url_encode(s: &str) -> (r: String)
    ensures
        r@ == url_encoded(s@),
{
    urlencoding::encode(s).into_owned()
}

/// Relies on `totp_rs::Secret::to_encoded` of `Secret::Raw`, which encodes
/// with unpadded RFC 4648 Base32, and on its `Display`, which writes the
/// encoded text. Unpadded output holds no `=`. That decoding gives the bytes
/// back is the property that the `base32` crate's own
/// `invertible_unpadded_rfc4648` test states.
#[verifier::external_body]
fn encode_base32(b: &Vec<u8>) -> (r: String)
    ensures
        r@ == base32_text(b@),
        base32_bytes(r@) == Some(b@),
        forall|i: int| 0 <= i < r@.len() ==> r@[i] != '=',
{
    totp_rs::Secret::Raw(b.clone()).to_encoded().to_string()
}

/// The URI of a descriptor:
/// `otpauth://totp/{issuer}:{account}?secret=..&issuer=..&algorithm=..&digits=..&period=..`,
/// with issuer and account percent-encoded and the secret in unpadded Base32.
pub open spec fn uri_of(d: DescriptorModel) -> Seq<char> {
    "otpauth://totp/"@ + url_encoded(d.issuer) + ":"@ + url_encoded(d.account_name)
        + "?secret="@ + base32_text(d.secret_bytes) + "&issuer="@ + url_encoded(d.issuer)
        + "&algorithm="@ + algorithm_name(d.algorithm) + "&digits="@ + decimal(d.digits as nat)
        + "&period="@ + decimal(d.period as nat)
}

/// The secret of a descriptor in canonical (unpadded) Base32; it decodes to
/// the descriptor's bytes again.
pub fn secret_base32(d: &TotpDescriptor) -> (r: String)
    ensures
        r@ == base32_text(d.secret_bytes@),
        base32_bytes(r@) == Some(d.secret_bytes@),
{
    encode_base32(&d.secret_bytes)
}

/// A text that holds no `=` has no padding to strip.
proof fn lemma_no_padding(s: Seq<char>)
    requires
        forall|i: int| 0 <= i < s.len() ==> s[i] != '=',
    ensures
        without_padding(s) == s,
{
    if s.len() > 0 {
        assert(s.last() != '=');
    }
}

/// Decodes a Base32 secret and encodes its bytes again in canonical
/// (unpadded) Base32; `None` where the secret is not valid Base32. The text
/// returned decodes to the same bytes as the secret.
pub fn canonical_secret(secret: &str) -> (r: Option<String>)
    ensures
        match r {
            Some(c) => secret_bytes_of(secret@) is Some && c@ == base32_text(
                secret_bytes_of(secret@)->Some_0,
            ) && secret_bytes_of(c@) == secret_bytes_of(secret@),
            None => secret_bytes_of(secret@) is None,
        },
{
    match decode_secret(secret) {
        Some(b) => {
            let c = encode_base32(&b);
            proof {
                lemma_no_padding(c@);
            }
            Some(c)
        },
        None => None,
    }
}

/// Renders a descriptor as its `otpauth://` URI.
pub fn encode(d: &TotpDescriptor) -> (r: String)
    ensures
        r@ == uri_of(d@),
        base32_bytes(base32_text(d.secret_bytes@)) == Some(d.secret_bytes@),
{
    let issuer = url_encode(d.issuer.as_str());
    let account = url_encode(d.account_name.as_str());
    let secret = secret_base32(d);
    let alg = d.algorithm.name();
    let mut s = String::from_str("otpauth://totp/");
    s.append(issuer.as_str());
    s.append(":");
    s.append(account.as_str());
    s.append("?secret=");
    s.append(secret.as_str());
    s.append("&issuer=");
    s.append(issuer.as_str());
    s.append("&algorithm=");
    s.append(alg.as_str());
    s.append("&digits=");
    push_decimal(&mut s, d.digits as u64);
    s.append("&period=");
    push_decimal(&mut s, d.period);
    s
}

} // verus!
