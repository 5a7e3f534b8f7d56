use d30_cli::addr::{MacAddress, PrinterAddr};
use d30_cli::config::DirectoryLoadError;
use d30_cli::directory::{DeviceDirectory, DirectoryEntry};
use d30_cli::preview::decide;
use d30_cli::resolve::{ResolveError, resolve};

fn mac(octets: [u8; 6]) -> MacAddress {
    MacAddress { octets }
}

fn office_mac() -> MacAddress {
    mac([0xAA, 0xBB, 0xCC, 0xDD, 0xEE, 0xFF])
}

fn office_directory(default: PrinterAddr) -> DeviceDirectory {
    DeviceDirectory {
        default,
        entries: vec![
            DirectoryEntry { name: String::from("office"), addr: office_mac() },
            DirectoryEntry { name: String::from("kitchen"), addr: mac([1, 2, 3, 4, 5, 6]) },
        ],
    }
}

#[test]
fn literal_address_wins_with_directory_loaded() {
    let dir = Ok(office_directory(PrinterAddr::Name(String::from("office"))));
    let a = mac([9, 8, 7, 6, 5, 4]);
    let r = resolve(&Some(PrinterAddr::MacAddress(a)), &dir);
    assert_eq!(r, Ok(a));
}

#[test]
fn literal_address_wins_without_directory() {
    let dir = Err(DirectoryLoadError::CouldNotReadFile);
    let a = mac([9, 8, 7, 6, 5, 4]);
    let r = resolve(&Some(PrinterAddr::MacAddress(a)), &dir);
    assert_eq!(r, Ok(a));
}

#[test]
fn literal_address_round_trips_unmodified() {
    let dir = Err(DirectoryLoadError::CouldNotParse);
    let a = mac([0x00, 0xFF, 0x10, 0x20, 0x30, 0x40]);
    match resolve(&Some(PrinterAddr::MacAddress(a)), &dir) {
        Ok(m) => assert_eq!(m.octets, [0x00, 0xFF, 0x10, 0x20, 0x30, 0x40]),
        Err(e) => panic!("resolution failed: {:?}", e),
    }
}

#[test]
fn name_is_looked_up_in_directory() {
    let dir = Ok(office_directory(PrinterAddr::MacAddress(mac([0, 0, 0, 0, 0, 1]))));
    let r = resolve(&Some(PrinterAddr::Name(String::from("office"))), &dir);
    assert_eq!(r, Ok(office_mac()));
}

#[test]
fn unknown_name_is_unresolvable() {
    let dir = Ok(office_directory(PrinterAddr::MacAddress(mac([0, 0, 0, 0, 0, 1]))));
    let r = resolve(&Some(PrinterAddr::Name(String::from("garage"))), &dir);
    assert_eq!(r, Err(ResolveError::UnresolvableName));
}

#[test]
fn name_without_directory_is_unavailable() {
    let dir = Err(DirectoryLoadError::CouldNotReadFile);
    let r = resolve(&Some(PrinterAddr::Name(String::from("office"))), &dir);
    assert_eq!(r, Err(ResolveError::DirectoryUnavailable));
}

#[test]
fn no_input_falls_back_to_default_address() {
    let dir = Ok(office_directory(PrinterAddr::MacAddress(mac([0, 0, 0, 0, 0, 1]))));
    let r = resolve(&None, &dir);
    assert_eq!(r, Ok(mac([0, 0, 0, 0, 0, 1])));
}

#[test]
fn no_input_resolves_default_name_through_directory() {
    let dir = Ok(office_directory(PrinterAddr::Name(String::from("office"))));
    let r = resolve(&None, &dir);
    assert_eq!(r, Ok(office_mac()));
}

#[test]
fn no_input_with_dangling_default_name_fails() {
    let dir = Ok(office_directory(PrinterAddr::Name(String::from("garage"))));
    let r = resolve(&None, &dir);
    assert_eq!(r, Err(ResolveError::UnresolvableDefault));
}

#[test]
fn no_input_no_directory_fails() {
    let dir = Err(DirectoryLoadError::CouldNotGetXDGPath);
    let r = resolve(&None, &dir);
    assert_eq!(r, Err(ResolveError::NoAddressSpecified));
}

#[test]
fn directory_lookup_and_unique_names() {
    let mut d = DeviceDirectory::new(PrinterAddr::MacAddress(mac([0, 0, 0, 0, 0, 1])));
    assert!(d.add_entry(String::from("office"), office_mac()));
    assert!(d.add_entry(String::from("kitchen"), mac([1, 2, 3, 4, 5, 6])));
    assert!(!d.add_entry(String::from("office"), mac([7, 7, 7, 7, 7, 7])));
    assert_eq!(d.entries.len(), 2);
    assert_eq!(d.lookup(&String::from("office")), Some(office_mac()));
    assert_eq!(d.lookup(&String::from("garage")), None);
}

#[test]
fn preview_decision_table() {
    assert!(decide(Some(true), None));
    assert!(decide(Some(true), Some(false)));
    assert!(!decide(Some(false), None));
    assert!(!decide(Some(false), Some(true)));
    assert!(decide(None, Some(true)));
    assert!(!decide(None, Some(false)));
    assert!(!decide(None, None));
}
