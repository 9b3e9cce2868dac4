//! Ordering and selection of candidates.

use vssetup::Msvc;
use vssetup::Product;
use vssetup::VisualStudio;
use vssetup::select::le_instances;
use vssetup::select::select_best;
use vssetup::select::sort_instances;

fn candidate(name: &str, version: u16, product_id: Product, msvc: Option<Msvc>) -> VisualStudio {
    VisualStudio {
        display_name: name.to_string(),
        version,
        product_id,
        install_path: format!("C:\\VS\\{}", name),
        setup_path: "C:\\Installer\\setup.exe".to_string(),
        msvc,
        sdk: None,
    }
}

#[test]
fn toolset_presence_dominates_version() {
    let a = candidate("A", 17, Product::Community, None);
    let b = candidate("B", 16, Product::Community, Some(Msvc::X86X64));
    let mut list = vec![a, b];
    sort_instances(&mut list);
    assert_eq!(list[0].display_name, "B");
    assert_eq!(list[1].display_name, "A");
}

#[test]
fn product_breaks_full_ties() {
    let a = candidate("Community", 17, Product::Community, None);
    let b = candidate("BuildTools", 17, Product::BuildTools, None);
    let mut list = vec![a, b];
    sort_instances(&mut list);
    assert_eq!(list[0].display_name, "BuildTools");
    assert_eq!(list[1].display_name, "Community");
}

#[test]
fn higher_version_first_on_equal_presence() {
    let a = candidate("Old", 16, Product::Enterprise, None);
    let b = candidate("New", 17, Product::Community, None);
    assert!(le_instances(&b, &a));
    assert!(!le_instances(&a, &b));
}

#[test]
fn full_order_across_keys() {
    let mut list = vec![
        candidate("NoToolsNew", 17, Product::Community, None),
        candidate("ToolsOldCommunity", 16, Product::Community, Some(Msvc::X86X64)),
        candidate("ToolsOldBuildTools", 16, Product::BuildTools, Some(Msvc::X86X64)),
        candidate("ToolsNew", 17, Product::Professional, Some(Msvc::X86X64)),
    ];
    sort_instances(&mut list);
    assert_eq!(list[0].display_name, "ToolsNew");
    assert_eq!(list[1].display_name, "ToolsOldBuildTools");
    assert_eq!(list[2].display_name, "ToolsOldCommunity");
    assert_eq!(list[3].display_name, "NoToolsNew");
}

#[test]
fn select_best_takes_first_of_order() {
    let list = vec![
        candidate("A", 17, Product::Community, None),
        candidate("B", 16, Product::Community, Some(Msvc::X86X64)),
    ];
    let best = select_best(list).unwrap();
    assert_eq!(best.display_name, "B");
}

#[test]
fn select_best_of_nothing_is_nothing() {
    assert!(select_best(Vec::new()).is_none());
}
