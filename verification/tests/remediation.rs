//! Resolution of missing components and the repair workflow: the SDK pick,
//! the command lines, the confirmation answer and the state machine.

use vssetup::Msvc;
use vssetup::Product;
use vssetup::VisualStudio;
use vssetup::install::best_sdk;
use vssetup::workflow::ResolveError;
use vssetup::workflow::WorkflowAction;
use vssetup::workflow::WorkflowEvent;
use vssetup::workflow::WorkflowState;
use vssetup::workflow::export_args;
use vssetup::workflow::is_affirmative;
use vssetup::workflow::modify_args;
use vssetup::workflow::resolve_components;
use vssetup::workflow::workflow_step;
use vssetup::workflow::workload_for_product;

fn candidate(product_id: Product, msvc: Option<Msvc>) -> VisualStudio {
    VisualStudio {
        display_name: "Visual Studio".to_string(),
        version: 17,
        product_id,
        install_path: "C:\\VS".to_string(),
        setup_path: "C:\\Installer\\setup.exe".to_string(),
        msvc,
        sdk: None,
    }
}

#[test]
fn sdk_pick_takes_highest_version() {
    let ids = vec![
        "Microsoft.VisualStudio.Component.Windows10SDK.18362".to_string(),
        "Microsoft.VisualStudio.Component.Windows10SDK.19041".to_string(),
        "Microsoft.VisualStudio.Component.Windows10SDK.17763".to_string(),
    ];
    let sdk = best_sdk(&ids).unwrap();
    assert_eq!(sdk.version, 19041);
    assert_eq!(sdk.id, "Microsoft.VisualStudio.Component.Windows10SDK.19041");
}

#[test]
fn sdk_pick_ignores_everything_else() {
    let ids = vec![
        "Microsoft.VisualStudio.Component.CoreEditor".to_string(),
        "Microsoft.VisualStudio.Workload.NativeDesktop".to_string(),
    ];
    assert!(best_sdk(&ids).is_none());
    assert!(best_sdk(&Vec::new()).is_none());
}

#[test]
fn resolve_fills_exactly_the_missing_components() {
    let mut instance = candidate(Product::Community, None);
    let export = vec![
        "Microsoft.VisualStudio.Component.CoreEditor".to_string(),
        "Microsoft.VisualStudio.Component.Windows10SDK.18362".to_string(),
        "Microsoft.VisualStudio.Component.Windows11SDK.22000".to_string(),
    ];
    resolve_components(&mut instance, Msvc::X86X64, false, false, &export).unwrap();
    let components = instance.components();
    assert_eq!(
        components,
        [
            "Microsoft.VisualStudio.Component.VC.Tools.x86.x64",
            "Microsoft.VisualStudio.Component.Windows11SDK.22000",
        ]
    );
}

#[test]
fn resolve_leaves_present_components_alone() {
    // the toolset is present and the SDK was found on disk: nothing to add
    let mut instance = candidate(Product::Community, Some(Msvc::X86X64));
    resolve_components(&mut instance, Msvc::X86X64, true, true, &Vec::new()).unwrap();
    assert!(instance.components().is_empty());
    // only the SDK is missing
    let mut instance = candidate(Product::Community, Some(Msvc::X86X64));
    let export = vec!["Microsoft.VisualStudio.Component.Windows10SDK.19041".to_string()];
    resolve_components(&mut instance, Msvc::X86X64, true, false, &export).unwrap();
    assert_eq!(
        instance.components(),
        ["Microsoft.VisualStudio.Component.Windows10SDK.19041"]
    );
}

#[test]
fn resolve_fails_without_an_offered_sdk() {
    let mut instance = candidate(Product::Community, None);
    let export = vec!["Microsoft.VisualStudio.Component.CoreEditor".to_string()];
    let err = resolve_components(&mut instance, Msvc::X86X64, false, false, &export).unwrap_err();
    assert_eq!(err, ResolveError::SdkNotFound);
    assert!(instance.components().is_empty());
}

#[test]
fn workload_depends_on_product() {
    assert_eq!(
        workload_for_product(Product::BuildTools),
        "Microsoft.VisualStudio.Workload.VCTools"
    );
    assert_eq!(
        workload_for_product(Product::Community),
        "Microsoft.VisualStudio.Workload.NativeDesktop"
    );
}

#[test]
fn export_command_line_is_exact() {
    let instance = candidate(Product::BuildTools, None);
    let args = export_args(&instance, "C:\\Temp\\vsconfig-1.json");
    assert_eq!(
        args,
        [
            "export",
            "--quiet",
            "--noUpdateInstaller",
            "--noWeb",
            "--config",
            "C:\\Temp\\vsconfig-1.json",
            "--installPath",
            "C:\\VS",
            "--productId",
            "Microsoft.VisualStudio.Product.BuildTools",
            "--add",
            "Microsoft.VisualStudio.Workload.VCTools",
            "--includeRecommended",
            "--includeOptional",
        ]
    );
}

#[test]
fn modify_command_line_adds_each_component() {
    let mut instance = candidate(Product::Community, None);
    let export = vec!["Microsoft.VisualStudio.Component.Windows10SDK.19041".to_string()];
    resolve_components(&mut instance, Msvc::Arm64, false, false, &export).unwrap();
    let args = modify_args(&instance);
    assert_eq!(
        args,
        [
            "modify",
            "--installPath",
            "C:\\VS",
            "--focusedUi",
            "--addProductLang",
            "En-us",
            "--add",
            "Microsoft.VisualStudio.Component.VC.Tools.ARM64",
            "--add",
            "Microsoft.VisualStudio.Component.Windows10SDK.19041",
        ]
    );
}

#[test]
fn affirmative_answers() {
    assert!(is_affirmative("y"));
    assert!(is_affirmative("Y"));
    assert!(is_affirmative("yes"));
    assert!(is_affirmative("YES"));
    assert!(is_affirmative("  yEs \r\n"));
}

#[test]
fn negative_answers() {
    assert!(!is_affirmative("n"));
    assert!(!is_affirmative("no"));
    assert!(!is_affirmative(""));
    assert!(!is_affirmative("yess"));
    assert!(!is_affirmative("y e s"));
    assert!(!is_affirmative("\u{79}\u{0}"));
}

#[test]
fn satisfied_scan_ends_with_nothing_to_do() {
    // the instance already has the toolset and the SDK is on disk
    let (state, action) = workflow_step(
        WorkflowState::Scanning,
        &WorkflowEvent::Scanned { msvc_installed: true, sdk_installed: true },
    );
    assert_eq!(state, WorkflowState::Satisfied);
    assert_eq!(action, WorkflowAction::Finish);
    // nothing a satisfied workflow hears makes it spawn the maintenance tool
    for event in [
        WorkflowEvent::Scanned { msvc_installed: false, sdk_installed: false },
        WorkflowEvent::ComponentsResolved,
        WorkflowEvent::Answer { accepted: true },
        WorkflowEvent::ModifyExited,
    ] {
        let (next, action) = workflow_step(WorkflowState::Satisfied, &event);
        assert_ne!(action, WorkflowAction::SpawnModify);
        assert_ne!(next, WorkflowState::Installing);
    }
    let (done, action) = workflow_step(WorkflowState::Satisfied, &WorkflowEvent::Proceed);
    assert_eq!(done, WorkflowState::Done);
    assert_eq!(action, WorkflowAction::Finish);
}

#[test]
fn declined_repair_spawns_nothing_and_still_finishes() {
    // both components are missing and were resolved; the user answers "n"
    let (state, action) = workflow_step(
        WorkflowState::Scanning,
        &WorkflowEvent::Scanned { msvc_installed: false, sdk_installed: false },
    );
    assert_eq!(state, WorkflowState::NeedsRepair);
    assert_eq!(action, WorkflowAction::ResolveMissing);
    let (state, _) = workflow_step(state, &WorkflowEvent::ComponentsResolved);
    assert_eq!(state, WorkflowState::Resolved);
    let (state, action) = workflow_step(state, &WorkflowEvent::Proceed);
    assert_eq!(state, WorkflowState::AwaitingConfirmation);
    assert_eq!(action, WorkflowAction::PromptUser);
    let accepted = is_affirmative("n");
    let (state, action) = workflow_step(state, &WorkflowEvent::Answer { accepted });
    assert_eq!(state, WorkflowState::Declined);
    assert_ne!(action, WorkflowAction::SpawnModify);
    let (state, action) = workflow_step(state, &WorkflowEvent::Proceed);
    assert_eq!(state, WorkflowState::Done);
    assert_eq!(action, WorkflowAction::Finish);
}

#[test]
fn accepted_repair_spawns_the_modify_operation() {
    let (state, action) = workflow_step(
        WorkflowState::AwaitingConfirmation,
        &WorkflowEvent::Answer { accepted: is_affirmative("yes") },
    );
    assert_eq!(state, WorkflowState::Installing);
    assert_eq!(action, WorkflowAction::SpawnModify);
    let (state, action) = workflow_step(state, &WorkflowEvent::ModifyExited);
    assert_eq!(state, WorkflowState::Done);
    assert_eq!(action, WorkflowAction::Finish);
}
