//! The text of the environment descriptor and of the activation stub.

use vstd::prelude::*;
use crate::language::Language;

verus! {

/// The packages that the environment of `l` provides, in order.
pub open spec fn packages(l: Language) -> Seq<Seq<char>> {
    match l {
        Language::Rust => seq!["cargo"@, "rustc"@, "rustfmt"@],
        Language::Dotnet => seq!["dotnet-sdk"@],
        Language::Java => seq!["jdk"@],
        Language::NodeJS => seq!["nodejs_20"@],
        Language::Go => seq!["go"@],
    }
}

/// The lines that the shell hook of `l` runs, in order.
pub open spec fn setup_lines(l: Language) -> Seq<Seq<char>> {
    match l {
        Language::Rust => seq!["export LD_LIBRARY_PATH=$NIX_LD_LIBRARY_PATH"@],
        Language::Dotnet => seq![
            "export DOTNET_CLI_TELEMETRY_OPTOUT=1"@,
            "export DOTNET_ROOT=${pkgs.dotnet-sdk}"@,
        ],
        Language::Java | Language::NodeJS | Language::Go => seq![],
    }
}

/// `parts` with `sep` between each two neighbours.
pub open spec fn joined(parts: Seq<Seq<char>>, sep: Seq<char>) -> Seq<char>
    decreases parts.len(),
{
    if parts.len() == 0 {
        seq![]
    } else if parts.len() == 1 {
        parts[0]
    } else {
        joined(parts.drop_last(), sep) + sep + parts.last()
    }
}

/// What separates two entries of a list in the descriptor.
pub open spec fn entry_separator() -> Seq<char> {
    "\n    "@
}

/// The descriptor's text up to the package list.
pub open spec fn descriptor_head() -> Seq<char> {
    "{ pkgs ? import <nixpkgs> {} }:\npkgs.mkShell rec {\n  buildInputs = with pkgs; [ \n    "@
}

/// The descriptor's text between the package list and the hook lines.
pub open spec fn descriptor_middle() -> Seq<char> {
    "\n  ];\n\n  shellHook = ''\n    "@
}

/// The descriptor's text after the hook lines.
pub open spec fn descriptor_tail() -> Seq<char> {
    "\n  '';\n}"@
}

/// The environment descriptor generated for `l`.
pub open spec fn descriptor(l: Language) -> Seq<char> {
    descriptor_head() + joined(packages(l), entry_separator()) + descriptor_middle()
        + joined(setup_lines(l), entry_separator()) + descriptor_tail()
}

/// The activation stub, the same for every language.
pub open spec fn activation_stub() -> Seq<char> {
    "use nix"@
}

/// Whether `t` appears in `s` as a contiguous piece.
pub open spec fn occurs_in(t: Seq<char>, s: Seq<char>) -> bool {
    exists|k: int| 0 <= k <= s.len() - t.len() && #[trigger] s.subrange(k, k + t.len()) == t
}

proof fn lemma_occurs_in_context(t: Seq<char>, s: Seq<char>, before: Seq<char>, after: Seq<char>)
    requires
        occurs_in(t, s),
    ensures
        occurs_in(t, before + s + after),
{
    let k = choose|k: int| 0 <= k <= s.len() - t.len() && #[trigger] s.subrange(k, k + t.len()) == t;
    let whole = before + s + after;
    let j = before.len() + k;
    assert(whole.subrange(j, j + t.len()) =~= s.subrange(k, k + t.len()));
}

proof fn lemma_joined_holds_each(parts: Seq<Seq<char>>, sep: Seq<char>, i: int)
    requires
        0 <= i < parts.len(),
    ensures
        occurs_in(parts[i], joined(parts, sep)),
    decreases parts.len(),
{
    let t = parts[i];
    if parts.len() == 1 {
        let k: int = 0;
        assert(joined(parts, sep).subrange(k, k + t.len()) =~= t);
    } else if i == parts.len() - 1 {
        let k = (joined(parts.drop_last(), sep) + sep).len() as int;
        assert(joined(parts, sep).subrange(k, k + t.len()) =~= t);
    } else {
        assert(parts.drop_last()[i] == t);
        lemma_joined_holds_each(parts.drop_last(), sep, i);
        lemma_occurs_in_context(t, joined(parts.drop_last(), sep), seq![], sep + parts.last());
        assert(seq![] + joined(parts.drop_last(), sep) + (sep + parts.last()) =~= joined(parts, sep));
    }
}

/// For every language, each of its packages and each of its hook lines appears
/// in its environment descriptor.
pub proof fn lemma_descriptor_lists_requirements(l: Language)
    ensures
        forall|i: int| 0 <= i < packages(l).len() ==> occurs_in(#[trigger] packages(l)[i], descriptor(l)),
        forall|i: int| 0 <= i < setup_lines(l).len() ==> occurs_in(#[trigger] setup_lines(l)[i], descriptor(l)),
{
    let sep = entry_separator();
    assert forall|i: int| 0 <= i < packages(l).len() implies occurs_in(#[trigger] packages(l)[i], descriptor(l)) by {
        lemma_joined_holds_each(packages(l), sep, i);
        let after = descriptor_middle() + joined(setup_lines(l), sep) + descriptor_tail();
        lemma_occurs_in_context(packages(l)[i], joined(packages(l), sep), descriptor_head(), after);
        assert(descriptor_head() + joined(packages(l), sep) + after =~= descriptor(l));
    }
    assert forall|i: int| 0 <= i < setup_lines(l).len() implies occurs_in(#[trigger] setup_lines(l)[i], descriptor(l)) by {
        lemma_joined_holds_each(setup_lines(l), sep, i);
        let before = descriptor_head() + joined(packages(l), sep) + descriptor_middle();
        lemma_occurs_in_context(setup_lines(l)[i], joined(setup_lines(l), sep), before, descriptor_tail());
    }
}

/// Views of a list of borrowed strings.
pub open spec fn texts(v: Seq<&str>) -> Seq<Seq<char>> {
    v.map_values(|t: &str| t@)
}

fn packages_and_hooks(language: &Language) -> (r: (Vec<&'static str>, Vec<&'static str>))
    ensures
        texts(r.0@) == packages(*language),
        texts(r.1@) == setup_lines(*language),
{
    let r = match language {
        Language::Rust => (
            vec!["cargo", "rustc", "rustfmt"],
            vec!["export LD_LIBRARY_PATH=$NIX_LD_LIBRARY_PATH"],
        ),
        Language::Go => (vec!["go"], vec![]),
        Language::Java => (vec!["jdk"], vec![]),
        Language::NodeJS => (vec!["nodejs_20"], vec![]),
        Language::Dotnet => (
            vec!["dotnet-sdk"],
            vec!["export DOTNET_CLI_TELEMETRY_OPTOUT=1", "export DOTNET_ROOT=${pkgs.dotnet-sdk}"],
        ),
    };
    assert(texts(r.0@) =~= packages(*language));
    assert(texts(r.1@) =~= setup_lines(*language));
    r
}

/// Appends `parts` to `out`, with `sep` between each two neighbours.
fn push_joined(out: &mut String, parts: &Vec<&str>, sep: &str)
    ensures
        final(out)@ == old(out)@ + joined(texts(parts@), sep@),
{
    let mut i: usize = 0;
    let ghost start = out@;
    while i < parts.len()
        invariant
            i <= parts.len(),
            out@ == start + joined(texts(parts@.subrange(0, i as int)), sep@),
        decreases parts.len() - i,
    {
        proof {
            let prev = texts(parts@.subrange(0, i as int));
            let next = texts(parts@.subrange(0, i + 1));
            assert(next.drop_last() =~= prev);
            assert(next.last() == parts@[i as int]@);
        }
        if i > 0 {
            out.append(sep);
        }
        out.append(parts[i]);
        i = i + 1;
    }
    assert(parts@.subrange(0, parts.len() as int) =~= parts@);
}

/// The environment descriptor for `language`: its packages and then its hook
/// lines, each list joined by a line break and indentation, set into a fixed
/// shell definition.
pub fn create_nix_shell(language: &Language) -> (r: String)
    ensures
        r@ == descriptor(*language),
{
    let (packages, hooks) = packages_and_hooks(language);
    let mut r = String::from_str(
        "{ pkgs ? import <nixpkgs> {} }:\npkgs.mkShell rec {\n  buildInputs = with pkgs; [ \n    ",
    );
    push_joined(&mut r, &packages, "\n    ");
    r.append("\n  ];\n\n  shellHook = ''\n    ");
    push_joined(&mut r, &hooks, "\n    ");
    r.append("\n  '';\n}");
    r
}

/// The activation stub for `language`, which is the same for every language.
pub fn create_direnv(language: &Language) -> (r: &'static str)
    ensures
        r@ == activation_stub(),
{
    "use nix"
}

} // verus!
