//! The steps that the continuous integration runs for each package, and the
//! text it writes for them into a workflow file.
use vstd::prelude::*;

use crate::query_writer::texts;
use crate::text::{
    chars_of, find, find_exec, lemma_find, replace, replace_str, string_from_chars,
};

verus! {

/// A cargo command that the continuous integration runs for a package.
pub struct CiStep {
    pub command: String,
    /// What follows `--package` and the package's name
    pub extra_args: Vec<String>,
    /// Whether the step is written into the workflow file
    pub for_ci: bool,
}

/// The model of a step: its command, its extra arguments, and whether it
/// is written into the workflow file.
pub open spec fn step_model(s: CiStep) -> (Seq<char>, Seq<Seq<char>>, bool) {
    (s.command@, texts(s.extra_args@), s.for_ci)
}

/// The models of a list of steps.
pub open spec fn step_models(v: Seq<CiStep>) -> Seq<(Seq<char>, Seq<Seq<char>>, bool)> {
    v.map_values(|s: CiStep| step_model(s))
}

/// Cleaning and building the package, skipped for the package that runs the
/// continuous integration itself (it cannot remove its own executable).
pub open spec fn clean_and_build(skip: bool) -> Seq<(Seq<char>, Seq<Seq<char>>, bool)> {
    if skip {
        Seq::empty()
    } else {
        seq![("clean"@, Seq::empty(), true), ("build"@, seq!["--jobs=1"@], true)]
    }
}

/// The steps for a package: clean and build, format, fix, test, clean and
/// build again, and lint.
pub open spec fn ci_steps_spec(skip_clean: bool) -> Seq<(Seq<char>, Seq<Seq<char>>, bool)> {
    clean_and_build(skip_clean) + seq![
        ("fmt"@, Seq::empty(), false),
        (
            "fix"@,
            seq!["--all-features"@, "--allow-dirty"@, "--allow-staged"@, "--jobs=1"@],
            false,
        ),
        ("test"@, seq!["--verbose"@, "--"@, "--test-threads=1"@], true),
    ] + clean_and_build(skip_clean) + seq![("clippy"@, seq!["--"@, "-D"@, "warnings"@], true)]
}

fn strings(parts: Vec<&'static str>) -> (r: Vec<String>)
    ensures
        texts(r@) == parts@.map_values(|p: &'static str| p@),
{
    let mut r: Vec<String> = Vec::new();
    let mut i: usize = 0;
    while i < parts.len()
        invariant
            i <= parts.len(),
            texts(r@) =~= parts@.map_values(|p: &'static str| p@).take(i as int),
        decreases parts.len() - i,
    {
        let ghost before = r@;
        r.push(parts[i].to_owned());
        assert(texts(r@) =~= texts(before).push(parts@[i as int]@));
        i = i + 1;
    }
    r
}

fn step(command: &str, extra: Vec<&'static str>, for_ci: bool) -> (r: CiStep)
    ensures
        step_model(r) == (command@, extra@.map_values(|p: &'static str| p@), for_ci),
{
    CiStep { command: command.to_owned(), extra_args: strings(extra), for_ci }
}

fn push_step(v: &mut Vec<CiStep>, s: CiStep)
    ensures
        step_models(final(v)@) == step_models(old(v)@).push(step_model(s)),
{
    v.push(s);
    assert(step_models(v@) =~= step_models(old(v)@).push(step_model(s)));
}

fn push_clean_and_build(v: &mut Vec<CiStep>, skip: bool)
    ensures
        step_models(final(v)@) == step_models(old(v)@) + clean_and_build(skip),
{
    if !skip {
        let clean = step("clean", vec![], true);
        assert(step_model(clean).1 =~= Seq::<Seq<char>>::empty());
        push_step(v, clean);
        let build = step("build", vec!["--jobs=1"], true);
        assert(step_model(build).1 =~= seq!["--jobs=1"@]);
        push_step(v, build);
    }
    assert(step_models(v@) =~= step_models(old(v)@) + clean_and_build(skip));
}

/// The steps that the continuous integration runs for `package`, in order;
/// `package_currently_executing` is the package that runs them.
pub fn ci_steps(package: &str, package_currently_executing: &str) -> (r: Vec<CiStep>)
    ensures
        step_models(r@) == ci_steps_spec(package@ == package_currently_executing@),
{
    let skip = crate::text::str_eq(package, package_currently_executing);
    let mut r: Vec<CiStep> = Vec::new();
    push_clean_and_build(&mut r, skip);
    let fmt = step("fmt", vec![], false);
    assert(step_model(fmt).1 =~= Seq::<Seq<char>>::empty());
    push_step(&mut r, fmt);
    let fix = step("fix", vec!["--all-features", "--allow-dirty", "--allow-staged", "--jobs=1"], false);
    assert(step_model(fix).1 =~= seq![
        "--all-features"@,
        "--allow-dirty"@,
        "--allow-staged"@,
        "--jobs=1"@,
    ]);
    push_step(&mut r, fix);
    let test = step("test", vec!["--verbose", "--", "--test-threads=1"], true);
    assert(step_model(test).1 =~= seq!["--verbose"@, "--"@, "--test-threads=1"@]);
    push_step(&mut r, test);
    push_clean_and_build(&mut r, skip);
    let clippy = step("clippy", vec!["--", "-D", "warnings"], true);
    assert(step_model(clippy).1 =~= seq!["--"@, "-D"@, "warnings"@]);
    push_step(&mut r, clippy);
    assert(step_models(r@) =~= ci_steps_spec(skip));
    r
}

/// The arguments of the cargo call of a step: the command, `--package`, the
/// package's name, then the step's extra arguments.
pub fn command_args(s: &CiStep, package: &str) -> (r: Vec<String>)
    ensures
        texts(r@) == seq![s.command@, "--package"@, package@] + texts(s.extra_args@),
{
    let mut r: Vec<String> = Vec::new();
    r.push(s.command.as_str().to_owned());
    r.push("--package".to_owned());
    r.push(package.to_owned());
    let ghost head = texts(r@);
    let mut i: usize = 0;
    while i < s.extra_args.len()
        invariant
            i <= s.extra_args.len(),
            head == seq![s.command@, "--package"@, package@],
            texts(r@) =~= head + texts(s.extra_args@).take(i as int),
        decreases s.extra_args.len() - i,
    {
        let ghost before = r@;
        r.push(s.extra_args[i].as_str().to_owned());
        assert(texts(r@) =~= texts(before).push(s.extra_args@[i as int]@));
        i = i + 1;
    }
    r
}

/// The lines that name a step and give its command in the workflow file:
/// `{whitespace}- name: {command} {package}` and `{whitespace}  run: {run}`.
pub fn step_lines(whitespace: &str, command: &str, package: &str, run: &str) -> (r: (
    String,
    String,
))
    ensures
        r.0@ == whitespace@ + "- name: "@ + command@ + " "@ + package@,
        r.1@ == whitespace@ + "  run: "@ + run@,
{
    let mut name = whitespace.to_owned();
    name.append("- name: ");
    name.append(command);
    name.append(" ");
    name.append(package);
    let mut run_line = whitespace.to_owned();
    run_line.append("  run: ");
    run_line.append(run);
    (name, run_line)
}

/// A command's text without its double quotes.
pub fn without_quotes(s: &str) -> (r: String)
    ensures
        r@ == replace(s@, seq!['"'], Seq::empty()),
{
    proof {
        reveal_strlit("\"");
        reveal_strlit("");
        assert("\""@ =~= seq!['"']);
        assert(""@ =~= Seq::<char>::empty());
    }
    replace_str(s, "\"", "")
}

/// A workflow template with its image and container filled in.
pub fn fill_template(template: &str, container: &str, image: &str) -> (r: String)
    ensures
        r@ == replace(replace(template@, "$IMAGE$"@, image@), "$CONTAINER$"@, container@),
{
    proof {
        reveal_strlit("$IMAGE$");
        reveal_strlit("$CONTAINER$");
    }
    let with_image = replace_str(template, "$IMAGE$", image);
    replace_str(with_image.as_str(), "$CONTAINER$", container)
}

/// The name of a package, read from the text by which cargo's metadata
/// names a workspace member: what comes before its first space.
pub fn package_name(repr: &str) -> (r: String)
    requires
        find(repr@, seq![' ']) is Some,
    ensures
        find(repr@, seq![' ']) matches Some(i) && r@ == repr@.take(i),
{
    let chars = chars_of(repr);
    let mut space: Vec<char> = Vec::new();
    space.push(' ');
    assert(space@ =~= seq![' ']);
    proof {
        lemma_find(chars@, space@);
    }
    match find_exec(&chars, &space) {
        Some(i) => {
            let r = string_from_chars(&chars, 0, i);
            assert(chars@.subrange(0, i as int) =~= chars@.take(i as int));
            r
        },
        None => String::new(),
    }
}

} // verus!
