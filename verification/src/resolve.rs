use vstd::prelude::*;
use crate::addr::{MacAddress, PrinterAddr};
use crate::config::DirectoryLoadError;
use crate::directory::{DeviceDirectory, lookup_in};

verus! {

/// Why no hardware address could be settled on. Fatal to the session and
/// user-actionable; each kind names the missing piece.
#[derive(Clone, Copy, Debug, PartialEq, Eq, Structural)]
pub enum ResolveError {
    /// The user named a device, the directory is loaded, and the name is
    /// not in it.
    UnresolvableName,
    /// The user named a device but no directory is available to resolve
    /// names with.
    DirectoryUnavailable,
    /// The directory's own default is a name that the directory does not
    /// resolve.
    UnresolvableDefault,
    /// The user gave nothing and no directory is available.
    NoAddressSpecified,
}

/// The address-resolution decision table, first match wins:
/// a literal hardware address is always directly usable, a symbolic name
/// always needs the directory, and an absent input falls back to the
/// directory's default.
pub open spec fn resolve_spec(
    user_input: Option<PrinterAddr>,
    directory: Result<DeviceDirectory, DirectoryLoadError>,
) -> Result<MacAddress, ResolveError> {
    match user_input {
        Some(PrinterAddr::MacAddress(a)) => Ok(a),
        Some(PrinterAddr::Name(n)) => match directory {
            Ok(d) => match lookup_in(d.entries@, n@) {
                Some(a) => Ok(a),
                None => Err(ResolveError::UnresolvableName),
            },
            Err(_) => Err(ResolveError::DirectoryUnavailable),
        },
        None => match directory {
            Ok(d) => match d.default {
                PrinterAddr::MacAddress(a) => Ok(a),
                PrinterAddr::Name(n) => match lookup_in(d.entries@, n@) {
                    Some(a) => Ok(a),
                    None => Err(ResolveError::UnresolvableDefault),
                },
            },
            Err(_) => Err(ResolveError::NoAddressSpecified),
        },
    }
}

/// Settles on exactly one hardware address, or says why none could be:
/// the outcome is exactly `resolve_spec`'s decision table.
pub fn resolve(
    user_input: &Option<PrinterAddr>,
    directory: &Result<DeviceDirectory, DirectoryLoadError>,
) -> (r: Result<MacAddress, ResolveError>)
    ensures
        r == resolve_spec(*user_input, *directory),
{
    match user_input {
        Some(PrinterAddr::MacAddress(a)) => Ok(*a),
        Some(PrinterAddr::Name(n)) => match directory {
            Ok(d) => match d.lookup(n) {
                Some(a) => Ok(a),
                None => Err(ResolveError::UnresolvableName),
            },
            Err(_) => Err(ResolveError::DirectoryUnavailable),
        },
        None => match directory {
            Ok(d) => match &d.default {
                PrinterAddr::MacAddress(a) => Ok(*a),
                PrinterAddr::Name(n) => match d.lookup(n) {
                    Some(a) => Ok(a),
                    None => Err(ResolveError::UnresolvableDefault),
                },
            },
            Err(_) => Err(ResolveError::NoAddressSpecified),
        },
    }
}

/// A literal hardware address from the user resolves to itself, whatever
/// the directory holds and whether it loaded at all.
pub proof fn lemma_mac_input_used_directly(
    a: MacAddress,
    directory: Result<DeviceDirectory, DirectoryLoadError>,
)
    ensures
        resolve_spec(Some(PrinterAddr::MacAddress(a)), directory) == Ok::<
            MacAddress,
            ResolveError,
        >(a),
{
}

/// Round trip: resolving a literal hardware address hands its six bytes
/// back unmodified, whatever the directory state.
pub proof fn lemma_mac_round_trip(
    a: MacAddress,
    directory: Result<DeviceDirectory, DirectoryLoadError>,
)
    ensures
        resolve_spec(Some(PrinterAddr::MacAddress(a)), directory) matches Ok(m) && m.octets@
            == a.octets@,
{
}

/// With nothing from the user and no directory, resolution fails with
/// exactly `NoAddressSpecified`.
pub proof fn lemma_nothing_to_resolve(e: DirectoryLoadError)
    ensures
        resolve_spec(None, Err(e)) == Err::<MacAddress, ResolveError>(
            ResolveError::NoAddressSpecified,
        ),
{
}

} // verus!
