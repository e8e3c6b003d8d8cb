//! Placement policy: which of the two outputs receives the next top-level.

use vstd::prelude::*;

verus! {

/// One of the two outputs, and with it the space that feeds that output.
#[derive(Clone, Copy, Debug, PartialEq, Eq, Structural)]
pub enum OutputKind {
    Primary,
    Secondary,
}

/// The guard under which the next top-level goes to the secondary output:
/// multi-output mode is on, a secondary output exists, the primary space
/// already shows a window and the secondary space shows none.
pub open spec fn routes_to_secondary(
    primary_mapped_count: nat,
    secondary_output_present: bool,
    secondary_mapped_count: nat,
    multi_output_enabled: bool,
) -> bool {
    multi_output_enabled && secondary_output_present && primary_mapped_count >= 1
        && secondary_mapped_count == 0
}

/// The output chosen for the next top-level.
pub open spec fn chosen_output(
    primary_mapped_count: nat,
    secondary_output_present: bool,
    secondary_mapped_count: nat,
    multi_output_enabled: bool,
) -> OutputKind {
    if routes_to_secondary(
        primary_mapped_count,
        secondary_output_present,
        secondary_mapped_count,
        multi_output_enabled,
    ) {
        OutputKind::Secondary
    } else {
        OutputKind::Primary
    }
}

/// Decides where the next top-level is placed.
///
/// The policy keeps no memory: it looks only at how many windows each space
/// shows at the moment of the call.
pub fn decide(
    primary_mapped_count: usize,
    secondary_output_present: bool,
    secondary_mapped_count: usize,
    multi_output_enabled: bool,
) -> (target: OutputKind)
    ensures
        target == chosen_output(
            primary_mapped_count as nat,
            secondary_output_present,
            secondary_mapped_count as nat,
            multi_output_enabled,
        ),
{
    if multi_output_enabled && secondary_output_present && primary_mapped_count >= 1
        && secondary_mapped_count == 0 {
        OutputKind::Secondary
    } else {
        OutputKind::Primary
    }
}

/// With multi-output mode off the policy answers `Primary`, whatever the
/// spaces show and whether or not a secondary output exists.
pub proof fn law_single_output_is_primary(
    primary_mapped_count: nat,
    secondary_output_present: bool,
    secondary_mapped_count: nat,
)
    ensures
        chosen_output(primary_mapped_count, secondary_output_present, secondary_mapped_count, false)
            == OutputKind::Primary,
{
}

/// With multi-output mode on and a secondary output present, an empty primary
/// space sends the window to `Primary`, a populated primary space beside an
/// empty secondary space sends it to `Secondary`, and a populated secondary
/// space sends it back to `Primary`.
pub proof fn law_two_output_order(primary_mapped_count: nat, secondary_mapped_count: nat)
    ensures
        primary_mapped_count == 0 ==> chosen_output(
            primary_mapped_count,
            true,
            secondary_mapped_count,
            true,
        ) == OutputKind::Primary,
        primary_mapped_count >= 1 && secondary_mapped_count == 0 ==> chosen_output(
            primary_mapped_count,
            true,
            secondary_mapped_count,
            true,
        ) == OutputKind::Secondary,
        secondary_mapped_count >= 1 ==> chosen_output(
            primary_mapped_count,
            true,
            secondary_mapped_count,
            true,
        ) == OutputKind::Primary,
{
}

} // verus!
