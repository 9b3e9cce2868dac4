//! Classification of component and product identifiers.

use vssetup::Msvc;
use vssetup::Product;
use vssetup::Sdk;
use vssetup::install::major_version;

#[test]
fn sdk_windows10_recognized() {
    let sdk = Sdk::from_id("Microsoft.VisualStudio.Component.Windows10SDK.19041").unwrap();
    assert_eq!(sdk.version, 19041);
    assert_eq!(sdk.id, "Microsoft.VisualStudio.Component.Windows10SDK.19041");
}

#[test]
fn sdk_windows11_recognized() {
    let sdk = Sdk::from_id("Microsoft.VisualStudio.Component.Windows11SDK.22000").unwrap();
    assert_eq!(sdk.version, 22000);
    assert_eq!(sdk.id(), "Microsoft.VisualStudio.Component.Windows11SDK.22000");
}

#[test]
fn sdk_wrong_segment_count_rejected() {
    // four segments
    assert!(Sdk::from_id("Microsoft.VisualStudio.Component.Windows10SDK").is_none());
    // six segments
    assert!(Sdk::from_id("Microsoft.VisualStudio.Component.Windows10SDK.19041.1").is_none());
}

#[test]
fn sdk_non_numeric_version_rejected() {
    assert!(Sdk::from_id("Microsoft.VisualStudio.Component.Windows10SDK.abc").is_none());
    assert!(Sdk::from_id("Microsoft.VisualStudio.Component.Windows10SDK.").is_none());
}

#[test]
fn sdk_wrong_family_rejected() {
    assert!(Sdk::from_id("Microsoft.VisualStudio.Component.Windows9SDK.19041").is_none());
    assert!(Sdk::from_id("Contoso.VisualStudio.Component.Windows10SDK.19041").is_none());
}

#[test]
fn sdk_version_overflow_rejected() {
    assert!(Sdk::from_id("Microsoft.VisualStudio.Component.Windows10SDK.4294967295").is_some());
    assert!(Sdk::from_id("Microsoft.VisualStudio.Component.Windows10SDK.4294967296").is_none());
}

#[test]
fn msvc_ids_recognized() {
    assert_eq!(
        Msvc::from_id("Microsoft.VisualStudio.Component.VC.Tools.x86.x64"),
        Some(Msvc::X86X64)
    );
    assert_eq!(
        Msvc::from_id("Microsoft.VisualStudio.Component.VC.Tools.ARM64"),
        Some(Msvc::Arm64)
    );
    assert_eq!(Msvc::from_id("Microsoft.VisualStudio.Component.VC.Tools"), None);
}

#[test]
fn msvc_from_rust_arch_maps_families() {
    assert_eq!(Msvc::from_rust_arch("aarch64"), Msvc::Arm64);
    assert_eq!(Msvc::from_rust_arch("x86_64"), Msvc::X86X64);
    assert_eq!(Msvc::from_rust_arch("x86"), Msvc::X86X64);
}

#[test]
fn msvc_id_round_trip() {
    assert_eq!(Msvc::from_id(Msvc::X86X64.id()), Some(Msvc::X86X64));
    assert_eq!(Msvc::from_id(Msvc::Arm64.id()), Some(Msvc::Arm64));
}

#[test]
fn product_round_trip() {
    for p in [
        Product::BuildTools,
        Product::Enterprise,
        Product::Professional,
        Product::Community,
    ] {
        assert_eq!(Product::from_str(p.as_str()), Some(p));
    }
    assert_eq!(Product::from_str("Microsoft.VisualStudio.Product.TeamExplorer"), None);
}

#[test]
fn major_version_reads_prefix() {
    assert_eq!(major_version("17.5.33530.505"), 17);
    assert_eq!(major_version("16.0"), 16);
    assert_eq!(major_version("17"), 0);
    assert_eq!(major_version("banana.7"), 0);
    assert_eq!(major_version(""), 0);
    assert_eq!(major_version("99999.0"), 0);
}
