//! The enumeration cursor: batched pulls, the end-of-sequence sentinel,
//! skipping, rewinding, forking, and the conflating single-item pull.

use vssetup::FILETIME;
use vssetup::HResult;
use vssetup::SetupConfiguration;
use vssetup::SetupInstance;
use vssetup::defs::E_UNEXPECTED;
use vssetup::defs::S_FALSE;
use vssetup::defs::S_OK;
use vssetup::setup::next_from_status;

fn instance(id: &str) -> SetupInstance {
    SetupInstance {
        instance_id: id.to_string(),
        install_date: FILETIME { dwLowDateTime: 0, dwHighDateTime: 0 },
        installation_name: format!("VisualStudio/{}", id),
        installation_path: format!("C:\\VS\\{}", id),
        installation_version: "17.0.31903.59".to_string(),
        display_name: format!("Visual Studio ({})", id),
        description: String::new(),
        product: None,
        packages: Vec::new(),
        properties: None,
    }
}

fn config() -> SetupConfiguration {
    SetupConfiguration::from_instances(vec![instance("a"), instance("b"), instance("c")])
}

#[test]
fn next_pulls_batches_and_signals_the_end() {
    let mut e = config().EnumInstances().unwrap();
    let batch = e.Next(2).unwrap().expect("two instances remain");
    assert_eq!(batch.len(), 2);
    assert_eq!(batch[0].instance_id, "a");
    assert_eq!(batch[1].instance_id, "b");
    // one instance remains, fewer than requested: the sentinel, not an error
    let sentinel = e.Next(2).unwrap();
    assert!(sentinel.is_none());
    // the sentinel consumed the rest
    let after = e.Next(1).unwrap();
    assert!(after.is_none());
}

#[test]
fn sentinel_differs_from_errors() {
    // an exhausted pull is Ok(None); an error would be Err(status)
    let mut e = config().EnumInstances().unwrap();
    let pulled: Result<Option<Vec<SetupInstance>>, HResult> = e.Next(4);
    match pulled {
        Ok(None) => {}
        _ => panic!("expected the end-of-sequence sentinel"),
    }
}

#[test]
fn single_pull_conflates_everything_but_success() {
    let fetched = Some(instance("x"));
    assert!(next_from_status(HResult { code: S_OK }, fetched).is_some());
    assert!(next_from_status(HResult { code: S_FALSE }, Some(instance("x"))).is_none());
    assert!(next_from_status(HResult { code: E_UNEXPECTED }, Some(instance("x"))).is_none());
    assert!(next_from_status(HResult { code: S_OK }, None).is_none());
}

#[test]
fn iteration_terminates_on_both_ends() {
    let mut e = config().EnumInstances().unwrap();
    let mut seen = Vec::new();
    while let Some(inst) = e.next() {
        seen.push(inst.instance_id);
    }
    assert_eq!(seen, ["a", "b", "c"]);
    // pulling past the end keeps yielding nothing
    assert!(e.next().is_none());
}

#[test]
fn skip_reports_whether_enough_remained() {
    let mut e = config().EnumInstances().unwrap();
    assert!(e.Skip(2).unwrap());
    assert_eq!(e.next().unwrap().instance_id, "c");
    assert!(!e.Skip(1).unwrap());
}

#[test]
fn reset_rewinds_to_the_start() {
    let mut e = config().EnumInstances().unwrap();
    assert_eq!(e.next().unwrap().instance_id, "a");
    e.Reset();
    assert_eq!(e.next().unwrap().instance_id, "a");
    e.Reset();
    e.Reset();
    assert_eq!(e.next().unwrap().instance_id, "a");
}

#[test]
fn clone_forks_an_independent_cursor() {
    let mut e = config().EnumInstances().unwrap();
    assert_eq!(e.next().unwrap().instance_id, "a");
    let mut f = e.Clone().unwrap();
    assert_eq!(f.next().unwrap().instance_id, "b");
    assert_eq!(f.next().unwrap().instance_id, "c");
    // the first cursor kept its own position
    assert_eq!(e.next().unwrap().instance_id, "b");
}
