//! The remediation workflow: determining the missing components of the
//! selected candidate, building the maintenance tool's command lines,
//! reading the user's confirmation and stepping the repair state machine.

use vstd::prelude::*;
use vstd::string::StrSliceExecFns;
use vstd::string::StringExecFns;

use crate::install::Msvc;
use crate::install::Product;
use crate::install::VisualStudio;
use crate::install::VisualStudioView;
use crate::install::best_sdk;
use crate::install::best_sdk_view;
use crate::install::sdk_view_opt;
use crate::install::spec_components;
use crate::text::eq_ignore_case;
use crate::text::is_space;
use crate::text::lemma_trimmed_range;
use crate::text::str_chars;
use crate::text::trimmed;

verus! {

/// The one resolution-time failure: the export offered no platform SDK,
/// most likely because the maintenance tool was already running and the
/// export came back effectively empty.
#[derive(Clone, Copy, Debug, PartialEq, Eq, Structural)]
pub enum ResolveError {
    SdkNotFound,
}

/// Rebuilds the selected candidate's component list to exactly what must be
/// installed: both recorded components are cleared; a missing platform SDK
/// is taken as the best the export offers, a missing toolset is the running
/// architecture's own. Fails exactly when the SDK is missing and the export
/// offers none; the candidate is then left with no components.
pub fn resolve_components(
    instance: &mut VisualStudio,
    current: Msvc,
    msvc_installed: bool,
    sdk_installed: bool,
    export_ids: &Vec<String>,
) -> (r: Result<(), ResolveError>)
    ensures
        final(instance).display_name == old(instance).display_name,
        final(instance).version == old(instance).version,
        final(instance).product_id == old(instance).product_id,
        final(instance).install_path == old(instance).install_path,
        final(instance).setup_path == old(instance).setup_path,
        match r {
            Ok(_) => {
                &&& final(instance).msvc == if msvc_installed {
                    None::<Msvc>
                } else {
                    Some(current)
                }
                &&& sdk_view_opt(final(instance).sdk) == if sdk_installed {
                    None
                } else {
                    best_sdk_view(export_ids.deep_view())
                }
                &&& !sdk_installed ==> best_sdk_view(export_ids.deep_view()) is Some
            },
            Err(e) => {
                &&& e == ResolveError::SdkNotFound
                &&& !sdk_installed
                &&& best_sdk_view(export_ids.deep_view()) is None
                &&& final(instance).msvc is None
                &&& final(instance).sdk is None
            },
        },
{
    instance.clear_components();
    if !sdk_installed {
        match best_sdk(export_ids) {
            Some(sdk) => {
                instance.sdk = Some(sdk);
            },
            None => {
                return Err(ResolveError::SdkNotFound);
            },
        }
    }
    if !msvc_installed {
        instance.msvc = Some(current);
    }
    Ok(())
}

/// The workload to scope an export to, by product: the build-tools edition
/// uses its own native-tools workload, every other edition the
/// native-desktop workload.
pub open spec fn spec_workload(p: Product) -> Seq<char> {
    if p == Product::BuildTools {
        "Microsoft.VisualStudio.Workload.VCTools"@
    } else {
        "Microsoft.VisualStudio.Workload.NativeDesktop"@
    }
}

/// The workload to scope an export to, by product.
pub fn workload_for_product(p: Product) -> (r: &'static str)
    ensures
        r@ == spec_workload(p),
{
    match p {
        Product::BuildTools => "Microsoft.VisualStudio.Workload.VCTools",
        _ => "Microsoft.VisualStudio.Workload.NativeDesktop",
    }
}

/// The maintenance tool's export command line for a candidate: a quiet,
/// offline export of the candidate's product scoped to its workload with
/// recommended and optional components, written to the given config path.
pub open spec fn spec_export_args(v: VisualStudioView, config_path: Seq<char>) -> Seq<Seq<char>> {
    seq![
        "export"@,
        "--quiet"@,
        "--noUpdateInstaller"@,
        "--noWeb"@,
        "--config"@,
        config_path,
        "--installPath"@,
        v.install_path,
        "--productId"@,
        v.product_id.spec_as_str(),
        "--add"@,
        spec_workload(v.product_id),
        "--includeRecommended"@,
        "--includeOptional"@,
    ]
}

/// Builds the export command line for a candidate.
pub fn export_args(instance: &VisualStudio, config_path: &str) -> (r: Vec<String>)
    ensures
        r.deep_view() == spec_export_args(instance@, config_path@),
{
    let mut r: Vec<String> = Vec::new();
    r.push(String::from_str("export"));
    r.push(String::from_str("--quiet"));
    r.push(String::from_str("--noUpdateInstaller"));
    r.push(String::from_str("--noWeb"));
    r.push(String::from_str("--config"));
    r.push(String::from_str(config_path));
    r.push(String::from_str("--installPath"));
    r.push(instance.install_path.clone());
    r.push(String::from_str("--productId"));
    r.push(String::from_str(instance.product_id.as_str()));
    r.push(String::from_str("--add"));
    r.push(String::from_str(workload_for_product(instance.product_id)));
    r.push(String::from_str("--includeRecommended"));
    r.push(String::from_str("--includeOptional"));
    proof {
        assert(r.deep_view() =~~= spec_export_args(instance@, config_path@));
    }
    r
}

/// One `--add` pair per component, in component order.
pub open spec fn spec_add_pairs(components: Seq<Seq<char>>) -> Seq<Seq<char>>
    decreases components.len(),
{
    if components.len() == 0 {
        Seq::<Seq<char>>::empty()
    } else {
        spec_add_pairs(components.drop_last()) + seq!["--add"@, components.last()]
    }
}

/// The maintenance tool's modify command line for a candidate: an
/// interactive, focused modification of the candidate's installation adding
/// the English language pack and each resolved component.
pub open spec fn spec_modify_args(v: VisualStudioView) -> Seq<Seq<char>> {
    seq![
        "modify"@,
        "--installPath"@,
        v.install_path,
        "--focusedUi"@,
        "--addProductLang"@,
        "En-us"@,
    ] + spec_add_pairs(spec_components(v))
}

/// Builds the modify command line for a candidate.
pub fn modify_args(instance: &VisualStudio) -> (r: Vec<String>)
    ensures
        r.deep_view() == spec_modify_args(instance@),
{
    let mut r: Vec<String> = Vec::new();
    r.push(String::from_str("modify"));
    r.push(String::from_str("--installPath"));
    r.push(instance.install_path.clone());
    r.push(String::from_str("--focusedUi"));
    r.push(String::from_str("--addProductLang"));
    r.push(String::from_str("En-us"));
    let ghost fixed = r.deep_view();
    proof {
        assert(fixed =~~= spec_modify_args(instance@).subrange(0, 6));
    }
    let components = instance.components();
    let ghost comps = components.deep_view();
    let n = components.len();
    let mut i: usize = 0;
    proof {
        assert(comps.subrange(0, 0) =~= Seq::<Seq<char>>::empty());
        assert(r.deep_view() =~~= fixed + spec_add_pairs(comps.subrange(0, 0)));
    }
    while i < n
        invariant
            0 <= i <= n,
            n == components@.len(),
            comps == components.deep_view(),
            fixed == spec_modify_args(instance@).subrange(0, 6),
            fixed.len() == 6,
            spec_modify_args(instance@) == fixed + spec_add_pairs(comps),
            r.deep_view() == fixed + spec_add_pairs(comps.subrange(0, i as int)),
        decreases n - i,
    {
        proof {
            assert(comps.subrange(0, i + 1).drop_last() =~= comps.subrange(0, i as int));
            assert(comps.subrange(0, i + 1).last() == components@[i as int]@);
        }
        let ghost before = r.deep_view();
        r.push(String::from_str("--add"));
        r.push(components[i].clone());
        proof {
            assert(r.deep_view() =~~= before + seq!["--add"@, components@[i as int]@]);
            assert(r.deep_view() =~~= fixed + spec_add_pairs(comps.subrange(0, i + 1)));
        }
        i += 1;
    }
    proof {
        assert(comps.subrange(0, n as int) =~= comps);
        assert(spec_components(instance@) == comps);
        assert(r.deep_view() =~~= spec_modify_args(instance@));
    }
    r
}

/// Whether a confirmation line accepts: stripped of surrounding whitespace
/// it reads "y" or "yes" in any letter case. Everything else declines.
pub open spec fn answer_accepted(s: Seq<char>) -> bool {
    eq_ignore_case(trimmed(s), "y"@) || eq_ignore_case(trimmed(s), "yes"@)
}

/// Folds one character to lower case.
fn lower_char_code(c: char) -> (r: u32)
    ensures
        r == crate::text::lower_code(c),
{
    let u = c as u32;
    if 65 <= u && u <= 90 {
        u + 32
    } else {
        u
    }
}

/// Compares a range of characters with a word, folding letter case.
fn matches_folded(chars: &Vec<char>, a: usize, b: usize, word: &str) -> (r: bool)
    requires
        a <= b <= chars@.len(),
    ensures
        r == eq_ignore_case(chars@.subrange(a as int, b as int), word@),
{
    let n = word.unicode_len();
    if b - a != n {
        return false;
    }
    let mut i: usize = 0;
    while i < n
        invariant
            0 <= i <= n,
            a <= b <= chars@.len(),
            b - a == n,
            n == word@.len(),
            forall|j: int|
                0 <= j < i ==> crate::text::lower_code(#[trigger] chars@[a + j]) == crate::text::lower_code(
                    word@[j],
                ),
        decreases n - i,
    {
        if lower_char_code(chars[a + i]) != lower_char_code(word.get_char(i)) {
            proof {
                assert(chars@.subrange(a as int, b as int)[i as int] == chars@[a + i]);
            }
            return false;
        }
        i += 1;
    }
    proof {
        assert forall|j: int|
            0 <= j < n implies crate::text::lower_code(
            #[trigger] chars@.subrange(a as int, b as int)[j],
        ) == crate::text::lower_code(word@[j]) by {
            assert(chars@.subrange(a as int, b as int)[j] == chars@[a + j]);
        }
    }
    true
}

/// Decides a confirmation line: only "y" or "yes", case-insensitively and
/// ignoring surrounding whitespace, accepts.
pub fn is_affirmative(line: &str) -> (r: bool)
    ensures
        r == answer_accepted(line@),
{
    let chars = str_chars(line);
    let n = chars.len();
    let mut a: usize = 0;
    while a < n && is_space_char(chars[a])
        invariant
            0 <= a <= n,
            n == chars@.len(),
            chars@ == line@,
            forall|i: int| 0 <= i < a ==> is_space(#[trigger] chars@[i]),
        decreases n - a,
    {
        a += 1;
    }
    let mut b: usize = n;
    while b > a && is_space_char(chars[b - 1])
        invariant
            a <= b <= n,
            n == chars@.len(),
            chars@ == line@,
            forall|i: int| 0 <= i < a ==> is_space(#[trigger] chars@[i]),
            a < n ==> !is_space(chars@[a as int]),
            forall|i: int| b <= i < n ==> is_space(#[trigger] chars@[i]),
        decreases b,
    {
        b -= 1;
    }
    proof {
        lemma_trimmed_range(line@, a as int, b as int);
    }
    let yes = matches_folded(&chars, a, b, "y") || matches_folded(&chars, a, b, "yes");
    yes
}

/// Whether a character is ASCII whitespace.
fn is_space_char(c: char) -> (r: bool)
    ensures
        r == is_space(c),
{
    c == ' ' || c == '\t' || c == '\n' || c == '\r'
}

/// The states of the repair workflow.
#[derive(Clone, Copy, Debug, PartialEq, Eq, Structural)]
pub enum WorkflowState {
    /// Discovery and selection are under way.
    Scanning,
    /// Both components are present; there is nothing to do.
    Satisfied,
    /// At least one component is missing.
    NeedsRepair,
    /// The missing components have been determined.
    Resolved,
    /// The findings were reported; one line of confirmation is awaited.
    AwaitingConfirmation,
    /// The maintenance tool's modify operation is running.
    Installing,
    /// The user declined; nothing is installed.
    Declined,
    /// The workflow is over.
    Done,
}

/// What the driver reports into the workflow.
#[derive(Clone, Copy, Debug, PartialEq, Eq, Structural)]
pub enum WorkflowEvent {
    /// Discovery finished; whether each component is already present.
    Scanned { msvc_installed: bool, sdk_installed: bool },
    /// The missing components have been determined.
    ComponentsResolved,
    /// The previous action is done; move on.
    Proceed,
    /// The confirmation line was read and decided.
    Answer { accepted: bool },
    /// The maintenance tool's modify operation exited, with any status.
    ModifyExited,
}

/// What the driver must do next.
#[derive(Clone, Copy, Debug, PartialEq, Eq, Structural)]
pub enum WorkflowAction {
    /// Nothing; wait for the next event.
    Wait,
    /// Determine the missing components.
    ResolveMissing,
    /// Report the findings and read one line of confirmation.
    PromptUser,
    /// Spawn the maintenance tool's modify operation and wait for it.
    SpawnModify,
    /// Leave the workflow; no further action follows.
    Finish,
}

/// The transition table of the repair workflow. A scan with both components
/// present satisfies the workflow; anything missing leads through
/// resolution, confirmation and, only on an accepting answer, the modify
/// operation. Events that a state does not expect change nothing.
pub open spec fn spec_workflow_step(state: WorkflowState, event: WorkflowEvent) -> (
    WorkflowState,
    WorkflowAction,
) {
    match (state, event) {
        (
            WorkflowState::Scanning,
            WorkflowEvent::Scanned { msvc_installed, sdk_installed },
        ) => if msvc_installed && sdk_installed {
            (WorkflowState::Satisfied, WorkflowAction::Finish)
        } else {
            (WorkflowState::NeedsRepair, WorkflowAction::ResolveMissing)
        },
        (WorkflowState::NeedsRepair, WorkflowEvent::ComponentsResolved) => (
            WorkflowState::Resolved,
            WorkflowAction::Wait,
        ),
        (WorkflowState::Resolved, WorkflowEvent::Proceed) => (
            WorkflowState::AwaitingConfirmation,
            WorkflowAction::PromptUser,
        ),
        (WorkflowState::AwaitingConfirmation, WorkflowEvent::Answer { accepted }) => if accepted {
            (WorkflowState::Installing, WorkflowAction::SpawnModify)
        } else {
            (WorkflowState::Declined, WorkflowAction::Wait)
        },
        (WorkflowState::Installing, WorkflowEvent::ModifyExited) => (
            WorkflowState::Done,
            WorkflowAction::Finish,
        ),
        (WorkflowState::Declined, WorkflowEvent::Proceed) => (
            WorkflowState::Done,
            WorkflowAction::Finish,
        ),
        (WorkflowState::Satisfied, WorkflowEvent::Proceed) => (
            WorkflowState::Done,
            WorkflowAction::Finish,
        ),
        _ => (state, WorkflowAction::Wait),
    }
}

/// Steps the repair workflow by one event.
pub fn workflow_step(state: WorkflowState, event: &WorkflowEvent) -> (r: (
    WorkflowState,
    WorkflowAction,
))
    ensures
        r == spec_workflow_step(state, *event),
{
    match (state, event) {
        (
            WorkflowState::Scanning,
            WorkflowEvent::Scanned { msvc_installed, sdk_installed },
        ) => if *msvc_installed && *sdk_installed {
            (WorkflowState::Satisfied, WorkflowAction::Finish)
        } else {
            (WorkflowState::NeedsRepair, WorkflowAction::ResolveMissing)
        },
        (WorkflowState::NeedsRepair, WorkflowEvent::ComponentsResolved) => (
            WorkflowState::Resolved,
            WorkflowAction::Wait,
        ),
        (WorkflowState::Resolved, WorkflowEvent::Proceed) => (
            WorkflowState::AwaitingConfirmation,
            WorkflowAction::PromptUser,
        ),
        (WorkflowState::AwaitingConfirmation, WorkflowEvent::Answer { accepted }) => if *accepted {
            (WorkflowState::Installing, WorkflowAction::SpawnModify)
        } else {
            (WorkflowState::Declined, WorkflowAction::Wait)
        },
        (WorkflowState::Installing, WorkflowEvent::ModifyExited) => (
            WorkflowState::Done,
            WorkflowAction::Finish,
        ),
        (WorkflowState::Declined, WorkflowEvent::Proceed) => (
            WorkflowState::Done,
            WorkflowAction::Finish,
        ),
        (WorkflowState::Satisfied, WorkflowEvent::Proceed) => (
            WorkflowState::Done,
            WorkflowAction::Finish,
        ),
        _ => (state, WorkflowAction::Wait),
    }
}

/// The modify operation is spawned only on an accepting answer awaited in
/// the confirmation state: a satisfied workflow, and one the user declined,
/// never spawn it, whatever events arrive.
pub proof fn lemma_spawn_needs_acceptance(state: WorkflowState, event: WorkflowEvent)
    ensures
        spec_workflow_step(state, event).1 == WorkflowAction::SpawnModify ==> state
            == WorkflowState::AwaitingConfirmation && event == (WorkflowEvent::Answer {
            accepted: true,
        }),
        state == WorkflowState::Satisfied ==> spec_workflow_step(state, event).1
            != WorkflowAction::SpawnModify && spec_workflow_step(state, event).0
            != WorkflowState::Installing,
        state == WorkflowState::Declined ==> spec_workflow_step(state, event).1
            != WorkflowAction::SpawnModify && spec_workflow_step(state, event).0
            != WorkflowState::Installing,
{
}

} // verus!
