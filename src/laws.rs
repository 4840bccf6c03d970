//! Properties of the builder and the URI, stated over the models and proved.
use vstd::prelude::*;
use crate::entry::Entry;
use crate::descriptor::{algorithm_of, algorithm_name, upper_of, secret_bytes_of, spec_build, ValidationErrorModel};
use crate::uri::uri_of;
use crate::text::decimal;

verus! {

/// A record whose algorithm names a known algorithm in any casing, whose
/// digit count is 6 to 8, whose period is positive and whose secret is valid
/// Base32 builds, and its URI ends with the matching `algorithm=`, `digits=`
/// and `period=` fields.
pub proof fn lemma_valid_entry_builds(e: Entry)
    requires
        algorithm_of(upper_of(e.algorithm@)) is Some,
        6 <= e.digits <= 8,
        e.period_time > 0,
        secret_bytes_of(e.secret@) is Some,
    ensures
        spec_build(e) is Ok,
        spec_build(e)->Ok_0.algorithm == algorithm_of(upper_of(e.algorithm@))->Some_0,
        exists|head: Seq<char>|
            uri_of(spec_build(e)->Ok_0) == head + "&algorithm="@ + algorithm_name(
                algorithm_of(upper_of(e.algorithm@))->Some_0,
            ) + "&digits="@ + decimal(e.digits as nat) + "&period="@ + decimal(
                e.period_time as nat,
            ),
{
    let d = spec_build(e)->Ok_0;
    let tail = "&algorithm="@ + algorithm_name(d.algorithm) + "&digits="@ + decimal(d.digits as nat)
        + "&period="@ + decimal(d.period as nat);
    let head = uri_of(d).subrange(0, uri_of(d).len() - tail.len());
    assert(uri_of(d) =~= head + tail);
    assert(head + tail =~= head + "&algorithm="@ + algorithm_name(d.algorithm) + "&digits="@
        + decimal(d.digits as nat) + "&period="@ + decimal(d.period as nat));
}

/// A record with a known algorithm and a digit count outside 6 to 8 fails
/// with `InvalidDigits`, carrying that count.
pub proof fn lemma_invalid_digits(e: Entry)
    requires
        algorithm_of(upper_of(e.algorithm@)) is Some,
        e.digits < 6 || e.digits > 8,
    ensures
        spec_build(e) == Err::<crate::descriptor::DescriptorModel, ValidationErrorModel>(
            ValidationErrorModel::InvalidDigits(e.digits),
        ),
{
}

/// A record with a known algorithm, a valid digit count and a zero period
/// fails with `InvalidPeriod`.
pub proof fn lemma_zero_period(e: Entry)
    requires
        algorithm_of(upper_of(e.algorithm@)) is Some,
        6 <= e.digits <= 8,
        e.period_time == 0,
    ensures
        spec_build(e) == Err::<crate::descriptor::DescriptorModel, ValidationErrorModel>(
            ValidationErrorModel::InvalidPeriod,
        ),
{
}

/// A record whose algorithm names no known algorithm, in any casing, fails
/// with `UnsupportedAlgorithm`, carrying the name as given.
pub proof fn lemma_unknown_algorithm(e: Entry)
    requires
        algorithm_of(upper_of(e.algorithm@)) is None,
    ensures
        spec_build(e) == Err::<crate::descriptor::DescriptorModel, ValidationErrorModel>(
            ValidationErrorModel::UnsupportedAlgorithm(e.algorithm@),
        ),
{
}

/// A record whose other fields are valid and whose secret is not valid
/// Base32 fails with `InvalidSecretEncoding`, carrying the secret as given.
pub proof fn lemma_bad_secret(e: Entry)
    requires
        algorithm_of(upper_of(e.algorithm@)) is Some,
        6 <= e.digits <= 8,
        e.period_time > 0,
        secret_bytes_of(e.secret@) is None,
    ensures
        spec_build(e) == Err::<crate::descriptor::DescriptorModel, ValidationErrorModel>(
            ValidationErrorModel::InvalidSecretEncoding(e.secret@),
        ),
{
}

} // verus!
