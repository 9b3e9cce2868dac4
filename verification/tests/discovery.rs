//! Discovery: walking the enumerated instances, extracting fields,
//! classifying installed components and filtering out what cannot be
//! repaired.

use vssetup::FILETIME;
use vssetup::Msvc;
use vssetup::Product;
use vssetup::SetupConfiguration;
use vssetup::SetupInstance;
use vssetup::SetupPackageReference;
use vssetup::SetupProductReference;
use vssetup::SetupPropertyStore;
use vssetup::Variant;
use vssetup::WideStr;
use vssetup::install::instances;
use vssetup::setup::PropertyEntry;

const FALLBACK: &str = "C:\\Program Files (x86)\\Microsoft Visual Studio\\installer\\setup.exe";

fn package(id: &str) -> SetupPackageReference {
    SetupPackageReference {
        id: id.to_string(),
        version: "1.0".to_string(),
        chip: "neutral".to_string(),
        language: String::new(),
        branch: String::new(),
        kind: "Component".to_string(),
        unique_id: format!("{},version=1.0", id),
        is_extension: false,
    }
}

fn product(id: &str) -> SetupProductReference {
    SetupProductReference { package: package(id), is_installed: true, supports_extensions: false }
}

fn store_with_engine_path(path: Option<&str>) -> SetupPropertyStore {
    let mut entries = vec![PropertyEntry {
        name: WideStr::from_ascii("channelId"),
        value: Variant::Bstr("VisualStudio.17.Release".to_string()),
    }];
    if let Some(path) = path {
        entries.push(PropertyEntry {
            name: WideStr::from_ascii("setupEngineFilePath"),
            value: Variant::Bstr(path.to_string()),
        });
    }
    SetupPropertyStore { entries }
}

fn full_instance(
    name: &str,
    version: &str,
    product_id: &str,
    package_ids: &[&str],
    engine_path: Option<&str>,
) -> SetupInstance {
    SetupInstance {
        instance_id: format!("id-{}", name),
        install_date: FILETIME { dwLowDateTime: 1, dwHighDateTime: 2 },
        installation_name: format!("VisualStudio/{}", version),
        installation_path: format!("C:\\VS\\{}", name),
        installation_version: version.to_string(),
        display_name: name.to_string(),
        description: "desc".to_string(),
        product: Some(product(product_id)),
        packages: package_ids.iter().map(|id| package(id)).collect(),
        properties: Some(store_with_engine_path(engine_path)),
    }
}

#[test]
fn discovery_extracts_and_classifies() {
    let inst = full_instance(
        "Community",
        "17.5.0",
        "Microsoft.VisualStudio.Product.Community",
        &[
            "Microsoft.VisualStudio.Component.CoreEditor",
            "Microsoft.VisualStudio.Component.VC.Tools.x86.x64",
            "Microsoft.VisualStudio.Component.Windows10SDK.18362",
            "Microsoft.VisualStudio.Component.Windows10SDK.19041",
        ],
        Some("C:\\Installer\\setup.exe"),
    );
    let setup = SetupConfiguration::from_instances(vec![inst]);
    let found = instances(&setup, Msvc::X86X64, FALLBACK);
    assert_eq!(found.len(), 1);
    let v = &found[0];
    assert_eq!(v.display_name, "Community");
    assert_eq!(v.version, 17);
    assert_eq!(v.product_id, Product::Community);
    assert_eq!(v.install_path, "C:\\VS\\Community");
    assert_eq!(v.setup_path, "C:\\Installer\\setup.exe");
    assert_eq!(v.msvc, Some(Msvc::X86X64));
    assert_eq!(v.sdk.as_ref().unwrap().version, 19041);
}

#[test]
fn discovery_ignores_foreign_architecture_toolset() {
    let inst = full_instance(
        "Arm",
        "17.0.1",
        "Microsoft.VisualStudio.Product.Professional",
        &["Microsoft.VisualStudio.Component.VC.Tools.ARM64"],
        Some("C:\\Installer\\setup.exe"),
    );
    let setup = SetupConfiguration::from_instances(vec![inst]);
    let found = instances(&setup, Msvc::X86X64, FALLBACK);
    assert_eq!(found.len(), 1);
    assert_eq!(found[0].msvc, None);
}

#[test]
fn discovery_excludes_legacy_generations() {
    let legacy = full_instance(
        "Legacy",
        "15.9.6",
        "Microsoft.VisualStudio.Product.Enterprise",
        &["Microsoft.VisualStudio.Component.VC.Tools.x86.x64"],
        Some("C:\\Installer\\setup.exe"),
    );
    let current = full_instance(
        "Current",
        "16.11.0",
        "Microsoft.VisualStudio.Product.Enterprise",
        &[],
        Some("C:\\Installer\\setup.exe"),
    );
    let setup = SetupConfiguration::from_instances(vec![legacy, current]);
    let found = instances(&setup, Msvc::X86X64, FALLBACK);
    assert_eq!(found.len(), 1);
    assert_eq!(found[0].display_name, "Current");
    assert_eq!(found[0].version, 16);
}

#[test]
fn discovery_discards_incomplete_instances() {
    let mut no_product = full_instance(
        "NoProduct",
        "17.0.0",
        "Microsoft.VisualStudio.Product.Community",
        &[],
        Some("C:\\Installer\\setup.exe"),
    );
    no_product.product = None;
    let mut no_properties = full_instance(
        "NoProperties",
        "17.0.0",
        "Microsoft.VisualStudio.Product.Community",
        &[],
        Some("C:\\Installer\\setup.exe"),
    );
    no_properties.properties = None;
    let unknown_product = full_instance(
        "UnknownProduct",
        "17.0.0",
        "Microsoft.VisualStudio.Product.TeamExplorer",
        &[],
        Some("C:\\Installer\\setup.exe"),
    );
    let no_engine_path = full_instance(
        "NoEnginePath",
        "17.0.0",
        "Microsoft.VisualStudio.Product.Community",
        &[],
        None,
    );
    let setup = SetupConfiguration::from_instances(vec![
        no_product,
        no_properties,
        unknown_product,
        no_engine_path,
    ]);
    let found = instances(&setup, Msvc::X86X64, FALLBACK);
    assert!(found.is_empty());
}

#[test]
fn discovery_falls_back_on_non_text_engine_path() {
    let mut inst = full_instance(
        "OddStore",
        "17.1.0",
        "Microsoft.VisualStudio.Product.BuildTools",
        &[],
        None,
    );
    inst.properties = Some(SetupPropertyStore {
        entries: vec![PropertyEntry {
            name: WideStr::from_ascii("setupEngineFilePath"),
            value: Variant::Unsigned(7),
        }],
    });
    let setup = SetupConfiguration::from_instances(vec![inst]);
    let found = instances(&setup, Msvc::X86X64, FALLBACK);
    assert_eq!(found.len(), 1);
    assert_eq!(found[0].setup_path, FALLBACK);
}

#[test]
fn property_store_looks_up_by_content() {
    let store = store_with_engine_path(Some("C:\\Installer\\setup.exe"));
    let key = WideStr::from_ascii("setupEngineFilePath");
    match store.GetValue(&key).unwrap() {
        Variant::Bstr(path) => assert_eq!(path, "C:\\Installer\\setup.exe"),
        _ => panic!("expected a text value"),
    }
    let missing = WideStr::from_ascii("somethingElse");
    assert!(store.GetValue(&missing).is_err());
}

#[test]
fn property_store_names_come_in_order() {
    let store = store_with_engine_path(Some("C:\\Installer\\setup.exe"));
    let mut names = store.GetNames().unwrap();
    let listed: Vec<Vec<u16>> = names.as_slice().iter().map(|n| n.to_slice().to_vec()).collect();
    assert_eq!(listed.len(), 2);
    assert_eq!(listed[0], "channelId".encode_utf16().collect::<Vec<u16>>());
    assert_eq!(listed[1], "setupEngineFilePath".encode_utf16().collect::<Vec<u16>>());
    names.release();
    assert_eq!(names.unlocks(), 1);
    assert_eq!(names.destroys(), 1);
}
