use vstd::prelude::*;

verus! {

/// The preview rule: an explicit per-invocation override always wins;
/// without one, only a persisted preference of exactly `Some(true)` turns
/// the preview on.
pub open spec fn decide_spec(cli_override: Option<bool>, persisted: Option<bool>) -> bool {
    match cli_override {
        Some(b) => b,
        None => persisted == Some(true),
    }
}

/// Decides whether to show a preview. Pure and total: exactly
/// `decide_spec` on every pair of inputs.
pub fn decide(cli_override: Option<bool>, persisted: Option<bool>) -> (r: bool)
    ensures
        r == decide_spec(cli_override, persisted),
{
    match cli_override {
        Some(b) => b,
        None => match persisted {
            Some(b) => b,
            None => false,
        },
    }
}

/// The whole decision table of the preview rule, case by case: each
/// override wins, a persisted `true` is followed, everything else means
/// no preview.
pub proof fn lemma_decide_table(persisted: Option<bool>)
    ensures
        decide_spec(Some(true), persisted) == true,
        decide_spec(Some(false), persisted) == false,
        decide_spec(None, Some(true)) == true,
        decide_spec(None, Some(false)) == false,
        decide_spec(None, None) == false,
{
}

} // verus!
