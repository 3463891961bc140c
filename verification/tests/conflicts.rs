use reaboot::conflicts::{weed_out_conflicts, weed_out_download_errors};
use reaboot::package_id::PackageId;

fn id(remote: &str, category: &str, package: &str) -> PackageId {
    PackageId { remote: remote.to_string(), category: category.to_string(), package: package.to_string() }
}

#[test]
fn unique_keys_are_kept_in_order() {
    let entries = vec![
        ("a".to_string(), 1),
        ("b".to_string(), 2),
        ("c".to_string(), 3),
    ];
    let (cool, conflicts) = weed_out_conflicts(entries);
    assert_eq!(cool, vec![1, 2, 3]);
    assert!(conflicts.is_empty());
}

#[test]
fn shared_keys_become_conflicts() {
    let entries = vec![
        ("x".to_string(), 10),
        ("y".to_string(), 20),
        ("x".to_string(), 30),
        ("z".to_string(), 40),
        ("y".to_string(), 50),
        ("x".to_string(), 60),
    ];
    let (cool, conflicts) = weed_out_conflicts(entries);
    assert_eq!(cool, vec![40]);
    assert_eq!(conflicts.len(), 2);
    assert_eq!(conflicts[0].0, "x");
    assert_eq!(conflicts[0].1, vec![10, 30, 60]);
    assert_eq!(conflicts[1].0, "y");
    assert_eq!(conflicts[1].1, vec![20, 50]);
}

#[test]
fn nothing_in_nothing_out() {
    let (cool, conflicts) = weed_out_conflicts(Vec::<(String, u8)>::new());
    assert!(cool.is_empty());
    assert!(conflicts.is_empty());
}

#[test]
fn package_ids_as_keys() {
    let entries = vec![
        (id("r", "c", "p"), "1.0"),
        (id("r", "c", "q"), "2.0"),
        (id("r", "c", "p"), "1.1"),
    ];
    let (cool, conflicts) = weed_out_conflicts(entries);
    assert_eq!(cool, vec!["2.0"]);
    assert_eq!(conflicts.len(), 1);
    assert_eq!(conflicts[0].0.package, "p");
    assert_eq!(conflicts[0].1, vec!["1.0", "1.1"]);
}

#[test]
fn download_errors_weed_out_all_files_of_a_failed_package() {
    let results: Vec<(String, Result<u32, String>)> = vec![
        ("p".to_string(), Ok(1)),
        ("q".to_string(), Err("q failed".to_string())),
        ("q".to_string(), Ok(2)),
        ("r".to_string(), Ok(3)),
        ("p".to_string(), Err("p failed".to_string())),
        ("p".to_string(), Ok(4)),
    ];
    let (ok, errors) = weed_out_download_errors(results);
    // Every file of `p` and `q` goes, also the one of `p` that came before its failure.
    assert_eq!(ok, vec![3]);
    assert_eq!(errors, vec!["q failed".to_string(), "p failed".to_string()]);
}

#[test]
fn download_errors_all_successful() {
    let results: Vec<(String, Result<u32, String>)> = vec![("a".to_string(), Ok(1)), ("a".to_string(), Ok(2))];
    let (ok, errors) = weed_out_download_errors(results);
    assert_eq!(ok, vec![1, 2]);
    assert!(errors.is_empty());
}
