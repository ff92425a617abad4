use registry_conformance::{plan_tests, select_tests, ConformanceTest, SelectionError};

fn selected(pattern: Option<&str>) -> Vec<&'static str> {
    select_tests(pattern)
        .unwrap()
        .iter()
        .filter(|planned| planned.should_run)
        .map(|planned| planned.test.name())
        .collect()
}

#[test]
fn without_a_pattern_all_tests_run() {
    let names: Vec<&str> = ConformanceTest::all().iter().map(|test| test.name()).collect();
    assert_eq!(names.len(), 19);
    assert_eq!(names[0], "name_length_1");
    assert_eq!(names[18], "authorization_required");
    assert_eq!(selected(None), names);
}

#[test]
fn a_pattern_selects_by_name() {
    assert_eq!(
        selected(Some("name_length")),
        ["name_length_1", "name_length_2", "name_length_3", "name_length_4"]
    );
    assert_eq!(selected(Some("_[13]$")), ["name_length_1", "name_length_3"]);
    assert_eq!(selected(Some("^platform.*_used$")), ["platform_specific_dependency_used"]);
    assert!(selected(Some("nothing like this")).is_empty());
}

#[test]
fn a_plain_word_selects_where_it_occurs() {
    assert_eq!(selected(Some("")).len(), 19);
    assert_eq!(
        selected(Some("sibling")),
        ["multiple_sibling_dependencies"]
    );
    assert_eq!(selected(Some("length_3")), ["name_length_3"]);
    assert_eq!(selected(Some("used_implicit")).len(), 2);
    assert!(selected(Some("SIBLING")).is_empty());
    assert!(selected(Some("name_length_12")).is_empty());
    assert!(selected(Some(&"x".repeat(100))).is_empty());
}

#[test]
fn a_test_can_be_selected_by_its_name() {
    for test in ConformanceTest::all() {
        assert!(selected(Some(test.name())).contains(&test.name()));
    }
}

#[test]
fn skipped_tests_stay_in_the_plan() {
    let plan = select_tests(Some("^authorization")).unwrap();
    assert_eq!(plan.len(), 19);
    assert_eq!(plan[4].test, ConformanceTest::MultipleSiblingDependencies);
    assert!(!plan[4].should_run);
    assert!(plan[18].should_run);
}

#[test]
fn a_bad_pattern_is_an_error() {
    let Err(SelectionError::Pattern(error)) = select_tests(Some("foo(bar")) else {
        panic!("the pattern should not compile");
    };
    assert!(matches!(error, regex::Error::Syntax(_)));
    assert!(select_tests(Some(r"\w{100}{100}{100}")).is_err());
}

#[test]
fn the_plan_follows_the_selection() {
    let mut chosen = vec![false; 19];
    chosen[10] = true;
    let plan = plan_tests(Ok(chosen)).unwrap();
    assert_eq!(plan.len(), 19);
    for (i, planned) in plan.iter().enumerate() {
        assert_eq!(planned.test, ConformanceTest::all()[i]);
        assert_eq!(planned.should_run, i == 10);
    }
    assert_eq!(plan[10].test.name(), "minimum_version");
}

#[test]
fn there_is_no_plan_without_a_selection() {
    let error = regex::Error::CompiledTooBig(5);
    let Err(SelectionError::Pattern(error)) = plan_tests(Err(error)) else {
        panic!("there should be no plan");
    };
    assert_eq!(error, regex::Error::CompiledTooBig(5));
}

#[test]
fn names_are_different() {
    let tests = ConformanceTest::all();
    for (i, a) in tests.iter().enumerate() {
        for b in &tests[i + 1..] {
            assert_ne!(a.name(), b.name());
        }
    }
}
