//! Which conformance tests are to run.
use vstd::prelude::*;

use crate::conformance_tests::ConformanceTest;
#[allow(unused_imports)]
use crate::conformance_tests::all_tests;

verus! {

/// The error type of the `regex` crate.
#[verifier::external_type_specification]
#[verifier::external_body]
pub struct ExRegexError(regex::Error);

/// Whether the regular expression matches somewhere in the text, where it is
/// one that can be compiled.
pub uninterp spec fn regex_is_match(pattern: Seq<char>, text: Seq<char>) -> bool;

/// Whether there is a machine on which `Regex::new` refuses the pattern.
pub uninterp spec fn regex_may_be_refused(pattern: Seq<char>) -> bool;

/// Whether the pattern is short and made of ASCII letters, digits and
/// underscores alone.
pub open spec fn is_plain_word(pattern: Seq<char>) -> bool {
    &&& pattern.len() <= 100
    &&& forall|i: int| 0 <= i < pattern.len() ==> is_word_char(#[trigger] pattern[i])
}

/// Whether the character is an ASCII letter, a digit or an underscore.
pub open spec fn is_word_char(c: char) -> bool {
    ||| 'a' <= c && c <= 'z'
    ||| 'A' <= c && c <= 'Z'
    ||| '0' <= c && c <= '9'
    ||| c == '_'
}

/// Whether the word is a part of the text.
pub open spec fn occurs_in(word: Seq<char>, text: Seq<char>) -> bool {
    exists|start: int| #[trigger] occurs_at(word, text, start)
}

/// Whether the word is the part of the text that begins at the position.
pub open spec fn occurs_at(word: Seq<char>, text: Seq<char>, start: int) -> bool {
    0 <= start <= text.len() - word.len() && text.subrange(start, start + word.len()) == word
}

/// Compiles a regular expression with `Regex::new` of the `regex` crate and
/// searches the text with `Regex::is_match`. The answer depends on the pattern
/// and the text alone. The pattern `.*` can be compiled, and matches any text,
/// since it matches nothing at all. A short pattern of ASCII letters, digits
/// and underscores can be compiled, and matches where it is a part of the text.
/// An error means that the pattern can be refused. Which other patterns are
/// refused is not said here: it depends also on how large the compiled form
/// is, which differs between machines.
#[verifier::external_body]
fn search(pattern: &str, text: &str) -> (found: Result<bool, regex::Error>)
    ensures
        found matches Ok(matched) ==> matched == regex_is_match(pattern@, text@),
        found is Err ==> regex_may_be_refused(pattern@),
        pattern@ == ".*"@ ==> found is Ok && found->Ok_0,
        is_plain_word(pattern@) ==> found is Ok && found->Ok_0 == occurs_in(pattern@, text@),
{
    match regex::Regex::new(pattern) {
        Ok(regex) => Ok(regex.is_match(text)),
        Err(error) => Err(error),
    }
}

/// Why no tests could be selected.
#[derive(Debug)]
pub enum SelectionError {
    /// The pattern is not a regular expression, or too large a one.
    Pattern(regex::Error),
}

/// A test, and whether it is to run.
#[derive(Debug, Clone, Copy, PartialEq, Eq, Structural)]
pub struct PlannedTest {
    pub test: ConformanceTest,
    pub should_run: bool,
}

/// The pattern by which tests are selected: the one that is given, or one that
/// matches every name.
pub open spec fn pattern_text(pattern: Option<&str>) -> Seq<char> {
    match pattern {
        Some(pattern) => pattern@,
        None => ".*"@,
    }
}

/// The plan for all tests, given which of them are selected, or why none could
/// be.
pub fn plan_tests(selected: Result<Vec<bool>, regex::Error>) -> (plan: Result<
    Vec<PlannedTest>,
    SelectionError,
>)
    requires
        selected matches Ok(selected) ==> selected@.len() == all_tests().len(),
    ensures
        selected matches Err(error) ==> plan == Err::<Vec<PlannedTest>, SelectionError>(
            SelectionError::Pattern(error),
        ),
        selected matches Ok(selected) ==> {
            &&& plan matches Ok(plan)
            &&& plan@.len() == all_tests().len()
            &&& forall|i: int|
                0 <= i < plan@.len() ==> (#[trigger] plan@[i]).test == all_tests()[i]
                    && plan@[i].should_run == selected@[i]
        },
{
    let selected = match selected {
        Ok(selected) => selected,
        Err(error) => return Err(SelectionError::Pattern(error)),
    };
    let tests = ConformanceTest::all();
    let mut plan: Vec<PlannedTest> = Vec::new();
    let mut i: usize = 0;
    while i < tests.len()
        invariant
            tests@ == all_tests(),
            selected@.len() == tests@.len(),
            i <= tests@.len(),
            plan@.len() == i,
            forall|j: int|
                0 <= j < i ==> (#[trigger] plan@[j]).test == all_tests()[j] && plan@[j].should_run
                    == selected@[j],
        decreases tests@.len() - i,
    {
        plan.push(PlannedTest { test: tests[i], should_run: selected[i] });
        i += 1;
    }
    Ok(plan)
}

/// Whether the test is selected by the pattern, which is known exactly of `.*`
/// and of plain words.
pub open spec fn is_selection(pattern: Seq<char>, test: ConformanceTest, selected: bool) -> bool {
    &&& selected == regex_is_match(pattern, test.title())
    &&& pattern == ".*"@ ==> selected
    &&& is_plain_word(pattern) ==> selected == occurs_in(pattern, test.title())
}

/// Whether the pattern matches the names of the tests, one after the other.
fn search_names(pattern: &str) -> (selected: Result<Vec<bool>, regex::Error>)
    ensures
        selected is Err ==> regex_may_be_refused(pattern@),
        pattern@ == ".*"@ || is_plain_word(pattern@) ==> selected is Ok,
        selected matches Ok(selected) ==> {
            &&& selected@.len() == all_tests().len()
            &&& forall|i: int|
                0 <= i < selected@.len() ==> is_selection(
                    pattern@,
                    all_tests()[i],
                    #[trigger] selected@[i],
                )
        },
{
    let tests = ConformanceTest::all();
    let mut selected: Vec<bool> = Vec::new();
    let mut i: usize = 0;
    while i < tests.len()
        invariant
            tests@ == all_tests(),
            i <= tests@.len(),
            selected@.len() == i,
            forall|j: int|
                0 <= j < i ==> is_selection(pattern@, all_tests()[j], #[trigger] selected@[j]),
        decreases tests@.len() - i,
    {
        match search(pattern, tests[i].name()) {
            Ok(matched) => selected.push(matched),
            Err(error) => return Err(error),
        }
        i += 1;
    }
    Ok(selected)
}

/// Selects the tests whose names the pattern matches, all of them if there is
/// no pattern. There is always a plan if there is no pattern, and if it is a
/// plain word; otherwise there is none only if the pattern is refused.
pub fn select_tests(pattern: Option<&str>) -> (plan: Result<Vec<PlannedTest>, SelectionError>)
    ensures
        pattern is None ==> plan is Ok,
        is_plain_word(pattern_text(pattern)) ==> plan is Ok,
        plan is Err ==> regex_may_be_refused(pattern_text(pattern)),
        plan matches Ok(plan) ==> {
            &&& plan@.len() == all_tests().len()
            &&& forall|i: int|
                0 <= i < plan@.len() ==> {
                    &&& (#[trigger] plan@[i]).test == all_tests()[i]
                    &&& is_selection(pattern_text(pattern), plan@[i].test, plan@[i].should_run)
                    &&& pattern is None ==> plan@[i].should_run
                }
        },
{
    let text = match pattern {
        Some(pattern) => pattern,
        None => ".*",
    };
    plan_tests(search_names(text))
}

/// A word occurs in every text that holds it, and a text in which it occurs is
/// made of what stands before it, the word, and what stands behind it.
pub proof fn words_occur_where_they_stand(
    before: Seq<char>,
    word: Seq<char>,
    after: Seq<char>,
    text: Seq<char>,
)
    ensures
        occurs_in(word, before + word + after),
        occurs_in(word, text) ==> exists|front: Seq<char>, back: Seq<char>|
            text == #[trigger] (front + word + back),
{
    let whole = before + word + after;
    let start = before.len() as int;
    assert(whole.subrange(start, start + word.len()) =~= word);
    assert(occurs_at(word, whole, start));
    if occurs_in(word, text) {
        let at = choose|at: int| #[trigger] occurs_at(word, text, at);
        let front = text.take(at);
        let back = text.skip(at + word.len());
        assert(text =~= front + word + back) by {
            assert forall|i: int| 0 <= i < text.len() implies text[i] == (front + word + back)[i] by {
                if at <= i < at + word.len() {
                    assert(text.subrange(at, at + word.len())[i - at] == text[i]);
                }
            }
        }
    }
}

/// A pattern of up to a hundred ASCII letters, digits and underscores is a plain
/// word, and no other pattern is.
pub proof fn plain_words_are_short_and_simple(pattern: Seq<char>)
    ensures
        is_plain_word(pattern) <==> {
            &&& pattern.len() <= 100
            &&& forall|i: int|
                0 <= i < pattern.len() ==> {
                    ||| 'a' <= #[trigger] pattern[i] && pattern[i] <= 'z'
                    ||| 'A' <= pattern[i] && pattern[i] <= 'Z'
                    ||| '0' <= pattern[i] && pattern[i] <= '9'
                    ||| pattern[i] == '_'
                }
        },
{
}

/// A test is selected by the pattern that was given and by no other, and by one
/// that matches everything if none was given. A plain word selects the tests in
/// whose names it stands.
pub proof fn patterns_select_by_name(
    given: &str,
    pattern: Seq<char>,
    test: ConformanceTest,
    selected: bool,
    front: Seq<char>,
    back: Seq<char>,
)
    requires
        is_selection(pattern, test, selected),
    ensures
        pattern_text(Some(given)) == given@,
        pattern_text(None) == ".*"@,
        selected == regex_is_match(pattern, test.title()),
        pattern == ".*"@ ==> selected,
        is_plain_word(pattern) && test.title() == front + pattern + back ==> selected,
        is_plain_word(pattern) && selected ==> exists|before: Seq<char>, after: Seq<char>|
            test.title() == #[trigger] (before + pattern + after),
{
    words_occur_where_they_stand(front, pattern, back, test.title());
}

/// The name of a test is a plain word, and selects the test.
pub proof fn a_test_is_selected_by_its_name(test: ConformanceTest)
    ensures
        is_plain_word(test.title()),
        forall|selected: bool|
            #[trigger] is_selection(test.title(), test, selected) ==> selected,
{
    let name = test.title();
    reveal_strlit("name_length_1");
    reveal_strlit("name_length_2");
    reveal_strlit("name_length_3");
    reveal_strlit("name_length_4");
    reveal_strlit("multiple_sibling_dependencies");
    reveal_strlit("multiple_hierarchical_dependencies");
    reveal_strlit("cross_registry_dependencies");
    reveal_strlit("crates_io_dependencies_unify");
    reveal_strlit("multiple_versions");
    reveal_strlit("conflicting_links");
    reveal_strlit("minimum_version");
    reveal_strlit("optional_dependency_unused");
    reveal_strlit("optional_dependency_used_implicit");
    reveal_strlit("optional_dependency_used_implicit_renamed");
    reveal_strlit("optional_dependency_used_explicit");
    reveal_strlit("platform_specific_dependency_unused");
    reveal_strlit("platform_specific_dependency_used");
    reveal_strlit("build_only_dependency");
    reveal_strlit("authorization_required");
    assert(is_plain_word(name));
    assert(name.subrange(0, name.len() as int) =~= name);
    assert(occurs_at(name, name, 0));
}

} // verus!
