//! What a run request asks for: its phases, whether it searches, the tests a
//! search resolves to, and where the latest snapshot of a project is kept.

use vstd::prelude::*;
use vstd::string::*;

use crate::text::{is_blank_text, trim};
use crate::types::{
    targets_view, UnityTestAssembly, UnityTestAssemblyView, UnityTestDiscovery,
    UnityTestDiscoveryView, UnityTestFilter, UnityTestFilterView, UnityTestFixture,
    UnityTestFixtureView, UnityTestMethod, UnityTestMethodView, UnityTestMode, UnityTestRunRequest,
    UnityTestRunRequestView, UnityTestTarget, UnityTestTargetView,
};

verus! {

/// The modes a request runs, in order: edit mode before play mode when it
/// asks for all.
pub open spec fn phase_modes(mode: UnityTestMode) -> Seq<UnityTestMode> {
    match mode {
        UnityTestMode::Editmode => seq![UnityTestMode::Editmode],
        UnityTestMode::Playmode => seq![UnityTestMode::Playmode],
        UnityTestMode::All => seq![UnityTestMode::Editmode, UnityTestMode::Playmode],
    }
}

/// The modes that a request runs, one phase each, in order.
pub fn requested_phase_modes(request: &UnityTestRunRequest) -> (modes: Vec<UnityTestMode>)
    ensures
        modes@ == phase_modes(request.filter.test_mode),
{
    let mut modes: Vec<UnityTestMode> = Vec::new();
    match request.filter.test_mode {
        UnityTestMode::Editmode => {
            modes.push(UnityTestMode::Editmode);
        },
        UnityTestMode::Playmode => {
            modes.push(UnityTestMode::Playmode);
        },
        UnityTestMode::All => {
            modes.push(UnityTestMode::Editmode);
            modes.push(UnityTestMode::Playmode);
        },
    }
    assert(modes@ =~= phase_modes(request.filter.test_mode));
    modes
}

/// A request searches when its search text holds something besides white space.
pub open spec fn has_search(request: UnityTestRunRequestView) -> bool {
    match request.filter.search {
        Some(s) => trim(s).len() > 0,
        None => false,
    }
}

/// Whether the request carries a search text that is not blank.
pub fn request_has_search(request: &UnityTestRunRequest) -> (b: bool)
    ensures
        b == has_search(request@),
{
    match &request.filter.search {
        Some(s) => !is_blank_text(s.as_str()),
        None => false,
    }
}

/// The target that names one test of one fixture of one assembly.
pub open spec fn test_target(assembly: Seq<char>, fixture: Seq<char>, test: Seq<char>) -> UnityTestTargetView {
    UnityTestTargetView {
        assembly_name: Some(assembly),
        fixture_name: Some(fixture),
        test_name: Some(test),
    }
}

/// The targets of the tests of one fixture, in order.
pub open spec fn method_targets(
    assembly: Seq<char>,
    fixture: Seq<char>,
    tests: Seq<UnityTestMethodView>,
) -> Seq<UnityTestTargetView> {
    tests.map_values(|m: UnityTestMethodView| test_target(assembly, fixture, m.name))
}

/// The targets of the tests of the fixtures of one assembly, fixture by fixture.
pub open spec fn fixture_targets(assembly: Seq<char>, fixtures: Seq<UnityTestFixtureView>) -> Seq<
    UnityTestTargetView,
>
    decreases fixtures.len(),
{
    if fixtures.len() == 0 {
        Seq::empty()
    } else {
        fixture_targets(assembly, fixtures.drop_last()) + method_targets(
            assembly,
            fixtures.last().name,
            fixtures.last().tests,
        )
    }
}

/// The targets of every test that discovery found, assembly by assembly.
pub open spec fn assembly_targets(assemblies: Seq<UnityTestAssemblyView>) -> Seq<UnityTestTargetView>
    decreases assemblies.len(),
{
    if assemblies.len() == 0 {
        Seq::empty()
    } else {
        assembly_targets(assemblies.drop_last()) + fixture_targets(
            assemblies.last().name,
            assemblies.last().fixtures,
        )
    }
}

fn push_method_targets(
    out: &mut Vec<UnityTestTarget>,
    assembly: &String,
    fixture: &String,
    tests: &Vec<UnityTestMethod>,
)
    ensures
        targets_view(final(out)@) == targets_view(old(out)@) + method_targets(
            assembly@,
            fixture@,
            tests@.map_values(|m: UnityTestMethod| m@),
        ),
{
    let ghost start = targets_view(out@);
    let ghost ms = tests@.map_values(|m: UnityTestMethod| m@);
    let mut k: usize = 0;
    while k < tests.len()
        invariant
            k <= tests.len(),
            ms == tests@.map_values(|m: UnityTestMethod| m@),
            targets_view(out@) == start + method_targets(assembly@, fixture@, ms.take(k as int)),
        decreases tests.len() - k,
    {
        let t = UnityTestTarget {
            assembly_name: Some(assembly.clone()),
            fixture_name: Some(fixture.clone()),
            test_name: Some(tests[k].name.clone()),
        };
        let ghost before = out@;
        out.push(t);
        proof {
            assert(ms.take(k + 1) =~= ms.take(k as int).push(ms[k as int]));
            assert(method_targets(assembly@, fixture@, ms.take(k + 1)) =~= method_targets(
                assembly@,
                fixture@,
                ms.take(k as int),
            ).push(test_target(assembly@, fixture@, ms[k as int].name)));
            assert(targets_view(out@) =~= targets_view(before).push(t@));
        }
        k = k + 1;
    }
    assert(ms.take(k as int) =~= ms);
}

fn push_fixture_targets(
    out: &mut Vec<UnityTestTarget>,
    assembly: &String,
    fixtures: &Vec<UnityTestFixture>,
)
    ensures
        targets_view(final(out)@) == targets_view(old(out)@) + fixture_targets(
            assembly@,
            fixtures@.map_values(|f: UnityTestFixture| f@),
        ),
{
    let ghost start = targets_view(out@);
    let ghost fs = fixtures@.map_values(|f: UnityTestFixture| f@);
    let mut j: usize = 0;
    assert(fs.take(0) =~= Seq::<UnityTestFixtureView>::empty());
    while j < fixtures.len()
        invariant
            j <= fixtures.len(),
            fs == fixtures@.map_values(|f: UnityTestFixture| f@),
            targets_view(out@) == start + fixture_targets(assembly@, fs.take(j as int)),
        decreases fixtures.len() - j,
    {
        push_method_targets(out, assembly, &fixtures[j].name, &fixtures[j].tests);
        proof {
            assert(fs.take(j + 1).drop_last() =~= fs.take(j as int));
            assert(fs.take(j + 1).last() == fs[j as int]);
        }
        j = j + 1;
    }
    assert(fs.take(j as int) =~= fs);
}

/// The targets of every test that discovery found: one per test, naming its
/// assembly, fixture and test, in the order of discovery.
pub fn discovered_targets(discovery: &UnityTestDiscovery) -> (targets: Vec<UnityTestTarget>)
    ensures
        targets_view(targets@) == assembly_targets(discovery@.assemblies),
{
    let mut out: Vec<UnityTestTarget> = Vec::new();
    let ghost asms = discovery@.assemblies;
    let mut i: usize = 0;
    assert(targets_view(out@) =~= Seq::<UnityTestTargetView>::empty());
    assert(asms.take(0) =~= Seq::<UnityTestAssemblyView>::empty());
    while i < discovery.assemblies.len()
        invariant
            i <= discovery.assemblies.len(),
            asms == discovery@.assemblies,
            targets_view(out@) == assembly_targets(asms.take(i as int)),
        decreases discovery.assemblies.len() - i,
    {
        let a: &UnityTestAssembly = &discovery.assemblies[i];
        push_fixture_targets(&mut out, &a.name, &a.fixtures);
        proof {
            assert(asms.take(i + 1).drop_last() =~= asms.take(i as int));
            assert(asms.take(i + 1).last() == asms[i as int]);
        }
        i = i + 1;
    }
    assert(asms.take(i as int) =~= asms);
    out
}

/// The request that a search resolves to: the same mode and assembly, no
/// fixture, test name or search, and the discovered tests as explicit targets.
pub open spec fn resolved_request(request: UnityTestRunRequestView, discovery: UnityTestDiscoveryView) -> UnityTestRunRequestView {
    UnityTestRunRequestView {
        filter: UnityTestFilterView {
            test_mode: request.filter.test_mode,
            assembly_name: request.filter.assembly_name,
            fixture_name: None,
            test_name: None,
            search: None,
        },
        tests: assembly_targets(discovery.assemblies),
    }
}

/// The request that a search resolves to, given what discovery found for it.
pub fn search_resolved_request(request: &UnityTestRunRequest, discovery: &UnityTestDiscovery) -> (r:
    UnityTestRunRequest)
    ensures
        r@ == resolved_request(request@, discovery@),
{
    let assembly_name = match &request.filter.assembly_name {
        Some(a) => Some(a.clone()),
        None => None,
    };
    UnityTestRunRequest {
        filter: UnityTestFilter {
            test_mode: request.filter.test_mode,
            assembly_name,
            fixture_name: None,
            test_name: None,
            search: None,
        },
        tests: discovered_targets(discovery),
    }
}

/// A character that separates path components on some platform: `/`, or
/// `\` on Windows.
pub open spec fn is_path_separator(c: char) -> bool {
    c == '/' || c == '\\'
}

/// A single path component: not empty, with no separator, no `:` and no
/// `?`, so that it is relative and has neither a root nor a prefix on any
/// platform.
pub open spec fn is_plain_component(name: Seq<char>) -> bool {
    &&& name.len() > 0
    &&& forall|i: int|
        0 <= i < name.len() ==> !is_path_separator(#[trigger] name[i]) && name[i] != ':' && name[i]
            != '?'
}

/// `p` begins as a Windows verbatim path (`\\?\`) may begin.
pub open spec fn starts_verbatim(p: Seq<char>) -> bool {
    p.len() >= 3 && p[0] == '\\' && p[1] == '\\' && p[2] == '?'
}

/// The text that `Path::join` may put between `base` and a plain component:
/// nothing or one separator; nothing after an empty base or one that ends in
/// `/`; exactly one separator after a base that ends in neither separator and
/// holds no drive colon.
pub open spec fn separator_fits(base: Seq<char>, sep: Seq<char>) -> bool {
    &&& (sep.len() == 0 || (sep.len() == 1 && is_path_separator(sep[0])))
    &&& (base.len() == 0 || base.last() == '/') ==> sep.len() == 0
    &&& (base.len() > 0 && !is_path_separator(base.last()) && !base.contains(':')) ==> sep.len()
        == 1
}

/// `joined` is the path `base` extended by `name`: `base`, the text that fits
/// between them, then `name`.
pub open spec fn adjoins(joined: Seq<char>, base: Seq<char>, name: Seq<char>) -> bool {
    exists|sep: Seq<char>| separator_fits(base, sep) && joined == base + sep + name
}

/// `std::path::Path::join` of a plain component onto `base`, as a string.
/// Pushing a relative path extends the existing one, with a separator
/// between unless the base is empty or already ends in one; on Windows no
/// separator follows a bare drive (`C:`), and a base with a verbatim prefix
/// (`\\?\`) is normalized as well, so a base that may begin that way is left
/// out. Which separator goes between, `/` or `\`, is the platform's and is
/// left unsaid, as is whether one follows a base that ends in `\` or holds a
/// `:`. Both arguments are text, so the path converts back to text without
/// loss.
#[verifier::external_body]
fn join_path(base: &str, name: &str) -> (path: String)
    requires
        is_plain_component(name@),
    ensures
        !starts_verbatim(base@) ==> adjoins(path@, base@, name@),
{
    std::path::Path::new(base).join(name).to_string_lossy().into_owned()
}

proof fn lemma_adjoin_facts(joined: Seq<char>, base: Seq<char>, name: Seq<char>)
    requires
        adjoins(joined, base, name),
        is_plain_component(name),
        !starts_verbatim(base),
    ensures
        !starts_verbatim(joined),
        joined.len() > 0,
        joined.last() == name.last(),
        !base.contains(':') ==> !joined.contains(':'),
{
    let sep = choose|sep: Seq<char>| separator_fits(base, sep) && joined == base + sep + name;
    assert forall|i: int| 0 <= i < joined.len() && i >= base.len() implies joined[i] != ':'
        && joined[i] != '?' by {
        if i < base.len() + sep.len() {
            assert(joined[i] == sep[i - base.len()]);
        } else {
            assert(joined[i] == name[i - base.len() - sep.len()]);
        }
    }
    if !base.contains(':') {
        assert forall|i: int| 0 <= i < joined.len() implies joined[i] != ':' by {
            if i < base.len() {
                assert(joined[i] == base[i]);
            }
        }
    }
    if base.len() >= 3 {
        assert(joined[0] == base[0] && joined[1] == base[1] && joined[2] == base[2]);
    }
    assert(joined.last() == joined[joined.len() - 1]);
    assert(joined[joined.len() - 1] == name[name.len() - 1]);
}

/// `path` is where the latest snapshot of `project` is kept: `Locus`,
/// `test-results` and `latest.json` adjoined to the project path in turn.
pub open spec fn is_snapshot_path(path: Seq<char>, project: Seq<char>) -> bool {
    exists|locus: Seq<char>, results: Seq<char>|
        adjoins(locus, project, "Locus"@) && adjoins(results, locus, "test-results"@) && adjoins(
            path,
            results,
            "latest.json"@,
        )
}

/// The path of the latest test snapshot of the project at `project_path`:
/// `Locus/test-results/latest.json` below it, joined as `Path::join` joins on
/// the platform at hand. What is stated leaves out a project path that may
/// begin as a Windows verbatim path (`\\?`).
pub fn latest_snapshot_path(project_path: &str) -> (path: String)
    ensures
        !starts_verbatim(project_path@) ==> is_snapshot_path(path@, project_path@),
{
    proof {
        reveal_strlit("Locus");
        reveal_strlit("test-results");
        reveal_strlit("latest.json");
    }
    let locus = join_path(project_path, "Locus");
    proof {
        if !starts_verbatim(project_path@) {
            lemma_adjoin_facts(locus@, project_path@, "Locus"@);
        }
    }
    let results = join_path(locus.as_str(), "test-results");
    proof {
        if !starts_verbatim(project_path@) {
            lemma_adjoin_facts(results@, locus@, "test-results"@);
        }
    }
    join_path(results.as_str(), "latest.json")
}

} // verus!
