use botracers::bot_runtime::{
    binary_names, bot_manifest_path, bot_project_dir, build_arguments, choose_details, elf_path,
    failure_details,
    insert_name, metadata_arguments, CargoMetadata, CargoPackage, CargoTarget, BOT_TARGET_TRIPLE,
};

fn target(name: &str, kinds: &[&str]) -> CargoTarget {
    CargoTarget {
        name: name.to_string(),
        kind: kinds.iter().map(|kind| kind.to_string()).collect(),
    }
}

#[test]
fn bot_project_lies_next_to_the_racing_project() {
    assert_eq!(bot_project_dir("/work/racing"), "/work/racing/../bot");
    assert_eq!(bot_manifest_path("/work/racing"), "/work/racing/../bot/Cargo.toml");
    assert_eq!(bot_project_dir(""), "/../bot");
}

#[test]
fn binary_targets_are_sorted_and_listed_once() {
    let metadata = CargoMetadata {
        packages: vec![
            CargoPackage {
                targets: vec![
                    target("car", &["bin"]),
                    target("bot", &["lib"]),
                    target("bottles", &["bin"]),
                    target("zebra", &["example", "bin"]),
                    target("bench", &["bench"]),
                ],
            },
            CargoPackage { targets: vec![] },
            CargoPackage {
                targets: vec![
                    target("car", &["bin"]),
                    target("Car", &["bin"]),
                    target("ca", &["bin"]),
                    target("nothing", &[]),
                    target("binary", &["binary"]),
                ],
            },
        ],
    };
    assert_eq!(binary_names(&metadata), vec!["Car", "bottles", "ca", "car", "zebra"]);
    assert!(target("x", &["lib", "bin"]).is_binary());
    assert!(!target("x", &["lib", "Bin"]).is_binary());
}

#[test]
fn binary_names_of_an_empty_project() {
    assert!(binary_names(&CargoMetadata { packages: vec![] }).is_empty());
}

#[test]
fn names_are_ordered_by_code_points() {
    let mut names: Vec<String> = Vec::new();
    for name in ["b", "a", "ab", "", "é", "z", "a", "B", "ab", "aa", "\u{10000}", "\u{ffff}"] {
        insert_name(&mut names, name.to_string());
    }
    let mut expected: Vec<String> =
        ["b", "a", "ab", "", "é", "z", "B", "aa", "\u{10000}", "\u{ffff}"]
            .iter()
            .map(|name| name.to_string())
            .collect();
    expected.sort();
    assert_eq!(names, expected);
    assert_eq!(names.first().map(|name| name.as_str()), Some(""));
    assert_eq!(names.last().map(|name| name.as_str()), Some("\u{10000}"));
}

#[test]
fn failure_details_prefer_the_error_output() {
    assert_eq!(failure_details("  error: no bin\n", "compiling\n"), "error: no bin");
    assert_eq!(failure_details(" \n\t", "  only this \n"), "only this");
    assert_eq!(failure_details("", ""), "");
}

#[test]
fn arguments_for_the_build_tool() {
    assert_eq!(
        metadata_arguments("/bot/Cargo.toml"),
        vec!["metadata", "--manifest-path", "/bot/Cargo.toml", "--no-deps", "--format-version", "1"]
    );
    assert_eq!(
        build_arguments("car"),
        vec!["build", "--release", "--bin", "car", "--target", "riscv32imafc-unknown-none-elf"]
    );
    assert_eq!(BOT_TARGET_TRIPLE, "riscv32imafc-unknown-none-elf");
    assert_eq!(
        elf_path("/bot", "car"),
        "/bot/target/riscv32imafc-unknown-none-elf/release/car"
    );
}

#[test]
fn details_from_outputs_that_are_trimmed_already() {
    assert_eq!(choose_details("boom", "fine"), "boom");
    assert_eq!(choose_details("", "fine"), "fine");
    assert_eq!(choose_details(" ", "fine"), " ");
    assert_eq!(choose_details("", ""), "");
}
