use nuget::output::dep_directory;
use nuget::output::file_destination;

#[test]
fn dependency_directory_is_keyed_by_name() {
    let dir = dep_directory(&"Acme.Widgets".to_string());
    assert_eq!(dir, "target/nuget/Acme.Widgets");
}

#[test]
fn distinct_names_give_distinct_directories() {
    let a = dep_directory(&"Acme.Widgets".to_string());
    let b = dep_directory(&"Beta.Lib".to_string());
    assert_ne!(a, b);
}

#[test]
fn file_destination_joins_directory_and_bare_name() {
    let dir = dep_directory(&"Acme.Widgets".to_string());
    let a = file_destination(dir.as_str(), &b"foo.winmd".to_vec());
    let b = file_destination(dir.as_str(), &b"bar.winmd".to_vec());
    assert_eq!(a, b"target/nuget/Acme.Widgets/foo.winmd".to_vec());
    assert_eq!(b, b"target/nuget/Acme.Widgets/bar.winmd".to_vec());
}
