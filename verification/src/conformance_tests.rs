//! The list of the conformance tests.
use vstd::prelude::*;

use crate::scenarios;
use crate::scratch_space::ScratchSpace;
use crate::steps::Step;
#[allow(unused_imports)]
use crate::steps::StepModel;

verus! {

/// A conformance test.
#[derive(Debug, Clone, Copy, PartialEq, Eq, Structural)]
pub enum ConformanceTest {
    NameLength1,
    NameLength2,
    NameLength3,
    NameLength4,
    MultipleSiblingDependencies,
    MultipleHierarchicalDependencies,
    CrossRegistryDependencies,
    CratesIoDependenciesUnify,
    MultipleVersions,
    ConflictingLinks,
    MinimumVersion,
    OptionalDependencyUnused,
    OptionalDependencyUsedImplicit,
    OptionalDependencyUsedImplicitRenamed,
    OptionalDependencyUsedExplicit,
    PlatformSpecificDependencyUnused,
    PlatformSpecificDependencyUsed,
    BuildOnlyDependency,
    AuthorizationRequired,
}

/// The tests, in the order in which they are started.
pub open spec fn all_tests() -> Seq<ConformanceTest> {
    seq![
        ConformanceTest::NameLength1,
        ConformanceTest::NameLength2,
        ConformanceTest::NameLength3,
        ConformanceTest::NameLength4,
        ConformanceTest::MultipleSiblingDependencies,
        ConformanceTest::MultipleHierarchicalDependencies,
        ConformanceTest::CrossRegistryDependencies,
        ConformanceTest::CratesIoDependenciesUnify,
        ConformanceTest::MultipleVersions,
        ConformanceTest::ConflictingLinks,
        ConformanceTest::MinimumVersion,
        ConformanceTest::OptionalDependencyUnused,
        ConformanceTest::OptionalDependencyUsedImplicit,
        ConformanceTest::OptionalDependencyUsedImplicitRenamed,
        ConformanceTest::OptionalDependencyUsedExplicit,
        ConformanceTest::PlatformSpecificDependencyUnused,
        ConformanceTest::PlatformSpecificDependencyUsed,
        ConformanceTest::BuildOnlyDependency,
        ConformanceTest::AuthorizationRequired,
    ]
}

impl ConformanceTest {
    /// The name under which the test is selected and reported.
    pub open spec fn title(self) -> Seq<char> {
        match self {
            ConformanceTest::NameLength1 => "name_length_1"@,
            ConformanceTest::NameLength2 => "name_length_2"@,
            ConformanceTest::NameLength3 => "name_length_3"@,
            ConformanceTest::NameLength4 => "name_length_4"@,
            ConformanceTest::MultipleSiblingDependencies => "multiple_sibling_dependencies"@,
            ConformanceTest::MultipleHierarchicalDependencies => "multiple_hierarchical_dependencies"@,
            ConformanceTest::CrossRegistryDependencies => "cross_registry_dependencies"@,
            ConformanceTest::CratesIoDependenciesUnify => "crates_io_dependencies_unify"@,
            ConformanceTest::MultipleVersions => "multiple_versions"@,
            ConformanceTest::ConflictingLinks => "conflicting_links"@,
            ConformanceTest::MinimumVersion => "minimum_version"@,
            ConformanceTest::OptionalDependencyUnused => "optional_dependency_unused"@,
            ConformanceTest::OptionalDependencyUsedImplicit => "optional_dependency_used_implicit"@,
            ConformanceTest::OptionalDependencyUsedImplicitRenamed => "optional_dependency_used_implicit_renamed"@,
            ConformanceTest::OptionalDependencyUsedExplicit => "optional_dependency_used_explicit"@,
            ConformanceTest::PlatformSpecificDependencyUnused => "platform_specific_dependency_unused"@,
            ConformanceTest::PlatformSpecificDependencyUsed => "platform_specific_dependency_used"@,
            ConformanceTest::BuildOnlyDependency => "build_only_dependency"@,
            ConformanceTest::AuthorizationRequired => "authorization_required"@,
        }
    }

    /// The steps that the test takes on the current target against a registry
    /// at the URL.
    pub open spec fn script(self, current_target: Seq<char>, url: Seq<char>) -> Seq<StepModel> {
        match self {
            ConformanceTest::NameLength1 => scenarios::parameterized_name_script("a"@, url),
            ConformanceTest::NameLength2 => scenarios::parameterized_name_script("ab"@, url),
            ConformanceTest::NameLength3 => scenarios::parameterized_name_script("abc"@, url),
            ConformanceTest::NameLength4 => scenarios::parameterized_name_script("abcd"@, url),
            ConformanceTest::MultipleSiblingDependencies => scenarios::multiple_sibling_dependencies_script(url),
            ConformanceTest::MultipleHierarchicalDependencies => scenarios::multiple_hierarchical_dependencies_script(url),
            ConformanceTest::CrossRegistryDependencies => scenarios::cross_registry_dependencies_script(url),
            ConformanceTest::CratesIoDependenciesUnify => scenarios::crates_io_dependencies_unify_script(url),
            ConformanceTest::MultipleVersions => scenarios::multiple_versions_script(url),
            ConformanceTest::ConflictingLinks => scenarios::conflicting_links_script(url),
            ConformanceTest::MinimumVersion => scenarios::minimum_version_script(url),
            ConformanceTest::OptionalDependencyUnused => scenarios::optional_dependency_unused_script(url),
            ConformanceTest::OptionalDependencyUsedImplicit => scenarios::optional_dependency_used_implicit_script(url),
            ConformanceTest::OptionalDependencyUsedImplicitRenamed => scenarios::optional_dependency_used_implicit_renamed_script(url),
            ConformanceTest::OptionalDependencyUsedExplicit => scenarios::optional_dependency_used_explicit_script(url),
            ConformanceTest::PlatformSpecificDependencyUnused => scenarios::platform_specific_dependency_unused_script(url),
            ConformanceTest::PlatformSpecificDependencyUsed => scenarios::platform_specific_dependency_used_script(
                current_target,
                url,
            ),
            ConformanceTest::BuildOnlyDependency => scenarios::build_only_dependency_script(url),
            ConformanceTest::AuthorizationRequired => scenarios::authorization_required_script(url),
        }
    }

    /// The user name and the password that the registry is to ask for, if it
    /// is to ask for any.
    pub open spec fn login(self) -> Option<(Seq<char>, Seq<char>)> {
        match self {
            ConformanceTest::AuthorizationRequired => Some(
                (scenarios::USERNAME@, scenarios::PASSWORD@),
            ),
            _ => None,
        }
    }

    /// The tests, in the order in which they are started.
    pub fn all() -> (tests: Vec<ConformanceTest>)
        ensures
            tests@ == all_tests(),
    {
        let mut tests: Vec<ConformanceTest> = Vec::new();
        tests.push(ConformanceTest::NameLength1);
        tests.push(ConformanceTest::NameLength2);
        tests.push(ConformanceTest::NameLength3);
        tests.push(ConformanceTest::NameLength4);
        tests.push(ConformanceTest::MultipleSiblingDependencies);
        tests.push(ConformanceTest::MultipleHierarchicalDependencies);
        tests.push(ConformanceTest::CrossRegistryDependencies);
        tests.push(ConformanceTest::CratesIoDependenciesUnify);
        tests.push(ConformanceTest::MultipleVersions);
        tests.push(ConformanceTest::ConflictingLinks);
        tests.push(ConformanceTest::MinimumVersion);
        tests.push(ConformanceTest::OptionalDependencyUnused);
        tests.push(ConformanceTest::OptionalDependencyUsedImplicit);
        tests.push(ConformanceTest::OptionalDependencyUsedImplicitRenamed);
        tests.push(ConformanceTest::OptionalDependencyUsedExplicit);
        tests.push(ConformanceTest::PlatformSpecificDependencyUnused);
        tests.push(ConformanceTest::PlatformSpecificDependencyUsed);
        tests.push(ConformanceTest::BuildOnlyDependency);
        tests.push(ConformanceTest::AuthorizationRequired);
        assert(tests@ =~= all_tests());
        tests
    }

    /// The name under which the test is selected and reported.
    pub fn name(self) -> (name: &'static str)
        ensures
            name@ == self.title(),
    {
        match self {
            ConformanceTest::NameLength1 => "name_length_1",
            ConformanceTest::NameLength2 => "name_length_2",
            ConformanceTest::NameLength3 => "name_length_3",
            ConformanceTest::NameLength4 => "name_length_4",
            ConformanceTest::MultipleSiblingDependencies => "multiple_sibling_dependencies",
            ConformanceTest::MultipleHierarchicalDependencies => "multiple_hierarchical_dependencies",
            ConformanceTest::CrossRegistryDependencies => "cross_registry_dependencies",
            ConformanceTest::CratesIoDependenciesUnify => "crates_io_dependencies_unify",
            ConformanceTest::MultipleVersions => "multiple_versions",
            ConformanceTest::ConflictingLinks => "conflicting_links",
            ConformanceTest::MinimumVersion => "minimum_version",
            ConformanceTest::OptionalDependencyUnused => "optional_dependency_unused",
            ConformanceTest::OptionalDependencyUsedImplicit => "optional_dependency_used_implicit",
            ConformanceTest::OptionalDependencyUsedImplicitRenamed => "optional_dependency_used_implicit_renamed",
            ConformanceTest::OptionalDependencyUsedExplicit => "optional_dependency_used_explicit",
            ConformanceTest::PlatformSpecificDependencyUnused => "platform_specific_dependency_unused",
            ConformanceTest::PlatformSpecificDependencyUsed => "platform_specific_dependency_used",
            ConformanceTest::BuildOnlyDependency => "build_only_dependency",
            ConformanceTest::AuthorizationRequired => "authorization_required",
        }
    }

    /// The user name and the password that the registry is to ask for, if it
    /// is to ask for any.
    pub fn setup(self) -> (login: Option<(&'static str, &'static str)>)
        ensures
            login.deep_view() == self.login(),
    {
        match self {
            ConformanceTest::AuthorizationRequired => Some(
                scenarios::authorization_required_setup(),
            ),
            _ => None,
        }
    }

    /// Whether the steps of the test depend on the current target.
    pub fn depends_on_target(self) -> (depends: bool)
        ensures
            depends <==> self is PlatformSpecificDependencyUsed,
            !depends ==> forall|target: Seq<char>, other: Seq<char>, url: Seq<char>|
                self.script(target, url) == self.script(other, url),
    {
        matches!(self, ConformanceTest::PlatformSpecificDependencyUsed)
    }

    /// The steps that the test takes.
    pub fn steps(self, scratch: &ScratchSpace, current_target: &str, registry_url: &str) -> (steps:
        Vec<Step>)
        ensures
            steps.deep_view() == self.script(current_target@, registry_url@),
    {
        match self {
            ConformanceTest::NameLength1 => scenarios::name_length_1(scratch, registry_url),
            ConformanceTest::NameLength2 => scenarios::name_length_2(scratch, registry_url),
            ConformanceTest::NameLength3 => scenarios::name_length_3(scratch, registry_url),
            ConformanceTest::NameLength4 => scenarios::name_length_4(scratch, registry_url),
            ConformanceTest::MultipleSiblingDependencies => scenarios::multiple_sibling_dependencies(scratch, registry_url),
            ConformanceTest::MultipleHierarchicalDependencies => scenarios::multiple_hierarchical_dependencies(scratch, registry_url),
            ConformanceTest::CrossRegistryDependencies => scenarios::cross_registry_dependencies(scratch, registry_url),
            ConformanceTest::CratesIoDependenciesUnify => scenarios::crates_io_dependencies_unify(scratch, registry_url),
            ConformanceTest::MultipleVersions => scenarios::multiple_versions(scratch, registry_url),
            ConformanceTest::ConflictingLinks => scenarios::conflicting_links(scratch, registry_url),
            ConformanceTest::MinimumVersion => scenarios::minimum_version(scratch, registry_url),
            ConformanceTest::OptionalDependencyUnused => scenarios::optional_dependency_unused(scratch, registry_url),
            ConformanceTest::OptionalDependencyUsedImplicit => scenarios::optional_dependency_used_implicit(scratch, registry_url),
            ConformanceTest::OptionalDependencyUsedImplicitRenamed => scenarios::optional_dependency_used_implicit_renamed(scratch, registry_url),
            ConformanceTest::OptionalDependencyUsedExplicit => scenarios::optional_dependency_used_explicit(scratch, registry_url),
            ConformanceTest::PlatformSpecificDependencyUnused => scenarios::platform_specific_dependency_unused(scratch, registry_url),
            ConformanceTest::PlatformSpecificDependencyUsed => scenarios::platform_specific_dependency_used(
                scratch,
                registry_url,
                current_target,
            ),
            ConformanceTest::BuildOnlyDependency => scenarios::build_only_dependency(scratch, registry_url),
            ConformanceTest::AuthorizationRequired => scenarios::authorization_required(scratch, registry_url),
        }
    }
}

/// Every test is in the list, once.
pub proof fn every_test_is_listed_once(test: ConformanceTest)
    ensures
        all_tests().contains(test),
        forall|i: int, j: int|
            0 <= i < all_tests().len() && 0 <= j < all_tests().len() && all_tests()[i] == test
                && all_tests()[j] == test ==> i == j,
{
    let index = match test {
        ConformanceTest::NameLength1 => 0int,
        ConformanceTest::NameLength2 => 1int,
        ConformanceTest::NameLength3 => 2int,
        ConformanceTest::NameLength4 => 3int,
        ConformanceTest::MultipleSiblingDependencies => 4int,
        ConformanceTest::MultipleHierarchicalDependencies => 5int,
        ConformanceTest::CrossRegistryDependencies => 6int,
        ConformanceTest::CratesIoDependenciesUnify => 7int,
        ConformanceTest::MultipleVersions => 8int,
        ConformanceTest::ConflictingLinks => 9int,
        ConformanceTest::MinimumVersion => 10int,
        ConformanceTest::OptionalDependencyUnused => 11int,
        ConformanceTest::OptionalDependencyUsedImplicit => 12int,
        ConformanceTest::OptionalDependencyUsedImplicitRenamed => 13int,
        ConformanceTest::OptionalDependencyUsedExplicit => 14int,
        ConformanceTest::PlatformSpecificDependencyUnused => 15int,
        ConformanceTest::PlatformSpecificDependencyUsed => 16int,
        ConformanceTest::BuildOnlyDependency => 17int,
        ConformanceTest::AuthorizationRequired => 18int,
    };
    assert(all_tests()[index] == test);
}

/// Different tests have different names.
pub proof fn names_tell_tests_apart(a: ConformanceTest, b: ConformanceTest)
    requires
        a.title() == b.title(),
    ensures
        a == b,
{
    reveal_strlit("name_length_1");
    reveal_strlit("name_length_2");
    reveal_strlit("name_length_3");
    reveal_strlit("name_length_4");
    reveal_strlit("multiple_sibling_dependencies");
    reveal_strlit("multiple_hierarchical_dependencies");
    reveal_strlit("cross_registry_dependencies");
    reveal_strlit("crates_io_dependencies_unify");
    reveal_strlit("multiple_versions");
    reveal_strlit("conflicting_links");
    reveal_strlit("minimum_version");
    reveal_strlit("optional_dependency_unused");
    reveal_strlit("optional_dependency_used_implicit");
    reveal_strlit("optional_dependency_used_implicit_renamed");
    reveal_strlit("optional_dependency_used_explicit");
    reveal_strlit("platform_specific_dependency_unused");
    reveal_strlit("platform_specific_dependency_used");
    reveal_strlit("build_only_dependency");
    reveal_strlit("authorization_required");
    assert("name_length_1"@.len() == 13);
    assert("name_length_2"@.len() == 13);
    assert("name_length_3"@.len() == 13);
    assert("name_length_4"@.len() == 13);
    assert("multiple_sibling_dependencies"@.len() == 29);
    assert("multiple_hierarchical_dependencies"@.len() == 34);
    assert("cross_registry_dependencies"@.len() == 27);
    assert("crates_io_dependencies_unify"@.len() == 28);
    assert("multiple_versions"@.len() == 17);
    assert("conflicting_links"@.len() == 17);
    assert("minimum_version"@.len() == 15);
    assert("optional_dependency_unused"@.len() == 26);
    assert("optional_dependency_used_implicit"@.len() == 33);
    assert("optional_dependency_used_implicit_renamed"@.len() == 41);
    assert("optional_dependency_used_explicit"@.len() == 33);
    assert("platform_specific_dependency_unused"@.len() == 35);
    assert("platform_specific_dependency_used"@.len() == 33);
    assert("build_only_dependency"@.len() == 21);
    assert("authorization_required"@.len() == 22);
    assert("name_length_1"@[12] != "name_length_2"@[12]);
    assert("name_length_1"@[12] != "name_length_3"@[12]);
    assert("name_length_1"@[12] != "name_length_4"@[12]);
    assert("name_length_2"@[12] != "name_length_3"@[12]);
    assert("name_length_2"@[12] != "name_length_4"@[12]);
    assert("name_length_3"@[12] != "name_length_4"@[12]);
    assert("multiple_versions"@[0] != "conflicting_links"@[0]);
    assert("optional_dependency_used_implicit"@[25] != "optional_dependency_used_explicit"@[25]);
    assert("optional_dependency_used_implicit"@[0] != "platform_specific_dependency_used"@[0]);
    assert("optional_dependency_used_explicit"@[0] != "platform_specific_dependency_used"@[0]);
}

} // verus!
