use vstd::prelude::*;

verus! {

/// Name of the environment indicator whose presence arms the diagnostics.
pub open spec fn ci_indicator_spec() -> Seq<char> {
    "CI"@
}

/// The name of the environment indicator that marks a run under CI.
pub fn ci_indicator() -> (r: &'static str)
    ensures
        r@ == ci_indicator_spec(),
{
    "CI"
}

/// The environment gate: diagnostics are armed exactly when the CI indicator
/// is present. Its value, whatever its type, plays no part.
pub fn enabled<T>(indicator: &Option<T>) -> (r: bool)
    ensures
        r == indicator.is_some(),
{
    indicator.is_some()
}

} // verus!
