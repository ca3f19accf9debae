//! Building bots: where the bot project lies, what to ask of the build tool,
//! and what to make of its answers.
//!
//! Nothing here starts a process or reads a file; the host does, with the
//! arguments that these functions give, and hands the output back.

use vstd::prelude::*;
use vstd::string::StringExecFns;
use crate::text::{joined, less, text_less, trim, trimmed};

verus! {

/// The target that bots are compiled for.
pub const BOT_TARGET_TRIPLE: &'static str = "riscv32imafc-unknown-none-elf";

/// The directory of the bot project, next to the directory `manifest_dir` of
/// the racing project.
pub fn bot_project_dir(manifest_dir: &str) -> (dir: String)
    ensures
        dir@ == manifest_dir@ + "/../bot"@,
{
    joined(manifest_dir, "/../bot")
}

/// The manifest of the bot project.
pub fn bot_manifest_path(manifest_dir: &str) -> (path: String)
    ensures
        path@ == manifest_dir@ + "/../bot"@ + "/Cargo.toml"@,
{
    let mut path: String = bot_project_dir(manifest_dir);
    path.append("/Cargo.toml");
    path
}

/// One build target of a package, as the build tool describes it.
#[derive(Debug)]
pub struct CargoTarget {
    /// The name of the target.
    pub name: String,
    /// The kinds of the target: `bin`, `lib` and others.
    pub kind: Vec<String>,
}

/// One package, as the build tool describes it.
#[derive(Debug)]
pub struct CargoPackage {
    /// The build targets of the package.
    pub targets: Vec<CargoTarget>,
}

/// The description of a project by the build tool.
#[derive(Debug)]
pub struct CargoMetadata {
    /// The packages of the project.
    pub packages: Vec<CargoPackage>,
}

impl CargoTarget {
    /// Whether the target is a binary: one of its kinds is `bin`.
    pub open spec fn spec_is_binary(&self) -> bool {
        exists|i: int| 0 <= i < self.kind@.len() && (#[trigger] self.kind@[i])@ == "bin"@
    }

    /// Whether the target is a binary.
    pub fn is_binary(&self) -> (binary: bool)
        ensures
            binary == self.spec_is_binary(),
    {
        let bin: String = String::from_str("bin");
        let mut index: usize = 0;
        while index < self.kind.len()
            invariant
                index <= self.kind@.len(),
                bin@ == "bin"@,
                forall|i: int| 0 <= i < index ==> (#[trigger] self.kind@[i])@ != "bin"@,
            decreases self.kind@.len() - index,
        {
            if self.kind[index] == bin {
                return true;
            }
            index += 1;
        }
        false
    }
}

impl CargoMetadata {
    /// Whether `name` is the name of a binary target of some package.
    pub open spec fn has_binary(&self, name: Seq<char>) -> bool {
        exists|p: int, t: int|
            0 <= p < self.packages@.len() && 0 <= t < self.packages@[p].targets@.len() && (
            #[trigger] self.packages@[p].targets@[t]).spec_is_binary()
                && self.packages@[p].targets@[t].name@ == name
    }
}

/// Whether the names are in strictly ascending order. No name occurs twice in
/// such a list.
pub open spec fn ascending(names: Seq<String>) -> bool {
    forall|i: int, j: int|
        0 <= i < j < names.len() ==> text_less((#[trigger] names[i])@, (#[trigger] names[j])@)
}

/// Whether `name` occurs among the names.
pub open spec fn listed(names: Seq<String>, name: Seq<char>) -> bool {
    exists|i: int| 0 <= i < names.len() && (#[trigger] names[i])@ == name
}

/// No text comes before itself.
pub proof fn lemma_less_irreflexive(text: Seq<char>)
    ensures
        !text_less(text, text),
    decreases text.len(),
{
    if text.len() > 0 {
        lemma_less_irreflexive(text.drop_first());
    }
}

/// The order of texts is transitive.
pub proof fn lemma_less_transitive(first: Seq<char>, second: Seq<char>, third: Seq<char>)
    requires
        text_less(first, second),
        text_less(second, third),
    ensures
        text_less(first, third),
    decreases first.len(),
{
    if first.len() > 0 && second.len() > 0 && third.len() > 0 {
        if first[0] == second[0] && second[0] == third[0] {
            lemma_less_transitive(first.drop_first(), second.drop_first(), third.drop_first());
        }
    }
}

/// Of two different texts one comes before the other.
pub proof fn lemma_less_total(first: Seq<char>, second: Seq<char>)
    ensures
        text_less(first, second) || text_less(second, first) || first == second,
    decreases first.len(),
{
    if first.len() > 0 && second.len() > 0 {
        if first[0] == second[0] {
            lemma_less_total(first.drop_first(), second.drop_first());
            if first.drop_first() == second.drop_first() {
                assert(first =~= seq![first[0]] + first.drop_first());
                assert(second =~= seq![second[0]] + second.drop_first());
            }
        } else {
            vstd::utf8::char_u32_cast(first[0], first[0] as u32);
            vstd::utf8::char_u32_cast(second[0], second[0] as u32);
        }
    } else if first.len() == 0 && second.len() == 0 {
        assert(first =~= second);
    }
}

/// No name occurs twice in an ascending list.
pub proof fn lemma_ascending_distinct(names: Seq<String>, i: int, j: int)
    requires
        ascending(names),
        0 <= i < names.len(),
        0 <= j < names.len(),
        i != j,
    ensures
        names[i]@ != names[j]@,
{
    lemma_less_irreflexive(names[i]@);
    lemma_less_irreflexive(names[j]@);
}

/// Puts `name` at its place in an ascending list, unless it is there already.
pub fn insert_name(names: &mut Vec<String>, name: String)
    requires
        ascending(old(names)@),
    ensures
        ascending(final(names)@),
        forall|text: Seq<char>|
            listed(final(names)@, text) <==> (listed(old(names)@, text) || text == name@),
{
    let mut at: usize = 0;
    while at < names.len() && less(names[at].as_str(), name.as_str())
        invariant
            at <= names@.len(),
            names@ == old(names)@,
            forall|i: int| 0 <= i < at ==> text_less((#[trigger] names@[i])@, name@),
        decreases names@.len() - at,
    {
        at += 1;
    }
    let ghost before = names@;
    if at < names.len() && !less(name.as_str(), names[at].as_str()) {
        proof {
            lemma_less_total(name@, before[at as int]@);
            assert forall|text: Seq<char>| listed(before, text) || text == name@ implies listed(
                before,
                text,
            ) by {
                if text == name@ {
                    assert(before[at as int]@ == text);
                }
            }
        }
    } else {
        names.insert(at, name);
        proof {
            let after = names@;
            assert forall|i: int, j: int| 0 <= i < j < after.len() implies text_less(
                (#[trigger] after[i])@,
                (#[trigger] after[j])@,
            ) by {
                if j == at {
                    assert(after[i] == before[i]);
                } else if i == at {
                    assert(after[j] == before[j - 1]);
                    if j - 1 > at {
                        lemma_less_transitive(name@, before[at as int]@, before[j - 1]@);
                    }
                } else {
                    let bi = if i < at {
                        i
                    } else {
                        i - 1
                    };
                    let bj = if j < at {
                        j
                    } else {
                        j - 1
                    };
                    assert(after[i] == before[bi]);
                    assert(after[j] == before[bj]);
                }
            }
            assert forall|text: Seq<char>| listed(after, text) <==> (listed(before, text) || text
                == name@) by {
                if listed(after, text) {
                    let i = choose|i: int| 0 <= i < after.len() && (#[trigger] after[i])@ == text;
                    if i < at {
                        assert(before[i]@ == text);
                    } else if i > at {
                        assert(before[i - 1]@ == text);
                    }
                }
                if listed(before, text) {
                    let i = choose|i: int| 0 <= i < before.len() && (#[trigger] before[i])@ == text;
                    if i < at {
                        assert(after[i]@ == text);
                    } else {
                        assert(after[i + 1]@ == text);
                    }
                }
                if text == name@ {
                    assert(after[at as int]@ == text);
                }
            }
        }
    }
}

/// The names of the binary targets of a project, in ascending order, each
/// once.
pub fn binary_names(metadata: &CargoMetadata) -> (names: Vec<String>)
    ensures
        ascending(names@),
        forall|text: Seq<char>| listed(names@, text) <==> metadata.has_binary(text),
{
    let mut names: Vec<String> = Vec::new();
    let mut p: usize = 0;
    while p < metadata.packages.len()
        invariant
            p <= metadata.packages@.len(),
            ascending(names@),
            forall|text: Seq<char>|
                listed(names@, text) <==> exists|q: int, t: int|
                    0 <= q < p && 0 <= t < metadata.packages@[q].targets@.len() && (
                    #[trigger] metadata.packages@[q].targets@[t]).spec_is_binary()
                        && metadata.packages@[q].targets@[t].name@ == text,
        decreases metadata.packages@.len() - p,
    {
        let package: &CargoPackage = &metadata.packages[p];
        let mut t: usize = 0;
        while t < package.targets.len()
            invariant
                p < metadata.packages@.len(),
                package == metadata.packages@[p as int],
                t <= package.targets@.len(),
                ascending(names@),
                forall|text: Seq<char>|
                    listed(names@, text) <==> ((exists|q: int, u: int|
                        0 <= q < p && 0 <= u < metadata.packages@[q].targets@.len() && (
                        #[trigger] metadata.packages@[q].targets@[u]).spec_is_binary()
                            && metadata.packages@[q].targets@[u].name@ == text) || (exists|u: int|
                        0 <= u < t && (#[trigger] package.targets@[u]).spec_is_binary()
                            && package.targets@[u].name@ == text)),
            decreases package.targets@.len() - t,
        {
            let target: &CargoTarget = &package.targets[t];
            let ghost before = names@;
            if target.is_binary() {
                insert_name(&mut names, target.name.clone());
            }
            proof {
                assert forall|text: Seq<char>|
                    listed(names@, text) <==> ((exists|q: int, u: int|
                        0 <= q < p && 0 <= u < metadata.packages@[q].targets@.len() && (
                        #[trigger] metadata.packages@[q].targets@[u]).spec_is_binary()
                            && metadata.packages@[q].targets@[u].name@ == text) || (exists|u: int|
                        0 <= u < t + 1 && (#[trigger] package.targets@[u]).spec_is_binary()
                            && package.targets@[u].name@ == text)) by {
                    let earlier = exists|u: int|
                        0 <= u < t && (#[trigger] package.targets@[u]).spec_is_binary()
                            && package.targets@[u].name@ == text;
                    let now = exists|u: int|
                        0 <= u < t + 1 && (#[trigger] package.targets@[u]).spec_is_binary()
                            && package.targets@[u].name@ == text;
                    let here = package.targets@[t as int].spec_is_binary()
                        && package.targets@[t as int].name@ == text;
                    if now {
                        let u = choose|u: int|
                            0 <= u < t + 1 && (#[trigger] package.targets@[u]).spec_is_binary()
                                && package.targets@[u].name@ == text;
                        if u < t {
                            assert(earlier);
                        } else {
                            assert(here);
                        }
                    }
                    if here {
                        assert(package.targets@[t as int].spec_is_binary());
                        assert(now);
                    }
                    if earlier {
                        let u = choose|u: int|
                            0 <= u < t && (#[trigger] package.targets@[u]).spec_is_binary()
                                && package.targets@[u].name@ == text;
                        assert(package.targets@[u].spec_is_binary());
                        assert(now);
                    }
                    assert(now <==> (earlier || here));
                }
            }
            t += 1;
        }
        proof {
            assert forall|text: Seq<char>|
                listed(names@, text) <==> exists|q: int, u: int|
                    0 <= q < p + 1 && 0 <= u < metadata.packages@[q].targets@.len() && (
                    #[trigger] metadata.packages@[q].targets@[u]).spec_is_binary()
                        && metadata.packages@[q].targets@[u].name@ == text by {
                let upto = exists|q: int, u: int|
                    0 <= q < p + 1 && 0 <= u < metadata.packages@[q].targets@.len() && (
                    #[trigger] metadata.packages@[q].targets@[u]).spec_is_binary()
                        && metadata.packages@[q].targets@[u].name@ == text;
                let below = exists|q: int, u: int|
                    0 <= q < p && 0 <= u < metadata.packages@[q].targets@.len() && (
                    #[trigger] metadata.packages@[q].targets@[u]).spec_is_binary()
                        && metadata.packages@[q].targets@[u].name@ == text;
                let here = exists|u: int|
                    0 <= u < package.targets@.len() && (
                    #[trigger] package.targets@[u]).spec_is_binary() && package.targets@[u].name@
                        == text;
                if upto {
                    let (q, u) = choose|q: int, u: int|
                        0 <= q < p + 1 && 0 <= u < metadata.packages@[q].targets@.len() && (
                        #[trigger] metadata.packages@[q].targets@[u]).spec_is_binary()
                            && metadata.packages@[q].targets@[u].name@ == text;
                    if q < p {
                        assert(below);
                    } else {
                        assert(package.targets@[u].spec_is_binary());
                        assert(here);
                    }
                }
                if here {
                    let u = choose|u: int|
                        0 <= u < package.targets@.len() && (
                        #[trigger] package.targets@[u]).spec_is_binary()
                            && package.targets@[u].name@ == text;
                    assert(metadata.packages@[p as int].targets@[u].spec_is_binary());
                    assert(upto);
                }
                if below {
                    let (q, u) = choose|q: int, u: int|
                        0 <= q < p && 0 <= u < metadata.packages@[q].targets@.len() && (
                        #[trigger] metadata.packages@[q].targets@[u]).spec_is_binary()
                            && metadata.packages@[q].targets@[u].name@ == text;
                    assert(metadata.packages@[q].targets@[u].spec_is_binary());
                    assert(upto);
                }
            }
        }
        p += 1;
    }
    names
}

/// What is reported of a failed build, given what the error output and the
/// ordinary output say: the former, or the latter where the former says
/// nothing.
pub fn choose_details(stderr: &str, stdout: &str) -> (details: String)
    ensures
        details@ == if stderr@.len() == 0 {
            stdout@
        } else {
            stderr@
        },
{
    if stderr.is_empty() {
        String::from_str(stdout)
    } else {
        String::from_str(stderr)
    }
}

/// What is reported of a failed build: the trimmed error output, or the
/// trimmed ordinary output where the error output is blank.
pub open spec fn spec_failure_details(stderr: Seq<char>, stdout: Seq<char>) -> Seq<char> {
    if trimmed(stderr).len() == 0 {
        trimmed(stdout)
    } else {
        trimmed(stderr)
    }
}

/// What is reported of a failed build.
pub fn failure_details(stderr: &str, stdout: &str) -> (details: String)
    ensures
        details@ == spec_failure_details(stderr@, stdout@),
{
    choose_details(trim(stderr), trim(stdout))
}

/// The arguments with which the build tool describes the project of the
/// manifest `manifest`.
pub fn metadata_arguments(manifest: &str) -> (arguments: Vec<String>)
    ensures
        arguments@.len() == 6,
        arguments@[0]@ == "metadata"@,
        arguments@[1]@ == "--manifest-path"@,
        arguments@[2]@ == manifest@,
        arguments@[3]@ == "--no-deps"@,
        arguments@[4]@ == "--format-version"@,
        arguments@[5]@ == "1"@,
{
    let mut arguments: Vec<String> = Vec::new();
    arguments.push(String::from_str("metadata"));
    arguments.push(String::from_str("--manifest-path"));
    arguments.push(String::from_str(manifest));
    arguments.push(String::from_str("--no-deps"));
    arguments.push(String::from_str("--format-version"));
    arguments.push(String::from_str("1"));
    arguments
}

/// The arguments with which the build tool builds the bot `binary` for the
/// bot target, optimized.
pub fn build_arguments(binary: &str) -> (arguments: Vec<String>)
    ensures
        arguments@.len() == 6,
        arguments@[0]@ == "build"@,
        arguments@[1]@ == "--release"@,
        arguments@[2]@ == "--bin"@,
        arguments@[3]@ == binary@,
        arguments@[4]@ == "--target"@,
        arguments@[5]@ == BOT_TARGET_TRIPLE@,
{
    let mut arguments: Vec<String> = Vec::new();
    arguments.push(String::from_str("build"));
    arguments.push(String::from_str("--release"));
    arguments.push(String::from_str("--bin"));
    arguments.push(String::from_str(binary));
    arguments.push(String::from_str("--target"));
    arguments.push(String::from_str(BOT_TARGET_TRIPLE));
    arguments
}

/// Where the build tool leaves the image of the bot `binary`, seen from the
/// directory `bot_dir` of the bot project.
pub fn elf_path(bot_dir: &str, binary: &str) -> (path: String)
    ensures
        path@ == bot_dir@ + "/target/"@ + BOT_TARGET_TRIPLE@ + "/release/"@ + binary@,
{
    let mut path: String = joined(bot_dir, "/target/");
    path.append(BOT_TARGET_TRIPLE);
    path.append("/release/");
    path.append(binary);
    path
}

} // verus!
