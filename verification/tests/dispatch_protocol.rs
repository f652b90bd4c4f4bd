//! End-to-end behaviour of the dispatch and recovery protocol, run against
//! a small simulated browser: it receives the rendered scripts, plays the
//! part of the injected library over a fake page, and reports results the
//! way a script-execution channel would.

use thirtyfour_testing_library_ext::{
    build_query_script, is_library_not_found, normalize_query, playground_url_result, By,
    LibraryRecovery, Method, RecoveryAction, TextMatch,
};

#[derive(Clone, Debug, PartialEq)]
struct FakeElement {
    id: usize,
    parent: Option<usize>,
    role: &'static str,
    name: &'static str,
    text: &'static str,
}

#[derive(Debug, PartialEq)]
enum ScriptValue {
    Text(String),
    Handles(Vec<usize>),
}

struct FakeBrowser {
    page: Vec<FakeElement>,
    library_loaded: bool,
    injection_works: bool,
    injections: usize,
    executions: usize,
}

const GUARD: &str = "if (!window.__TL__) return 'Testing Library not found'; ";

impl FakeBrowser {
    fn new(page: Vec<FakeElement>, library_loaded: bool) -> Self {
        FakeBrowser { page, library_loaded, injection_works: true, injections: 0, executions: 0 }
    }

    fn inject_library(&mut self) {
        self.injections += 1;
        if self.injection_works {
            self.library_loaded = true;
        }
    }

    fn element(&self, id: usize) -> &FakeElement {
        self.page.iter().find(|e| e.id == id).unwrap()
    }

    fn is_descendant_of(&self, id: usize, root: usize) -> bool {
        let mut cur = self.element(id).parent;
        while let Some(p) = cur {
            if p == root {
                return true;
            }
            cur = self.element(p).parent;
        }
        false
    }

    /// Execute a rendered query script against the fake page.
    fn execute(&mut self, script: &str, scope: Option<usize>) -> Result<ScriptValue, String> {
        self.executions += 1;
        assert!(script.starts_with(GUARD), "every script carries the library guard");
        if !self.library_loaded {
            return Ok(ScriptValue::Text("Testing Library not found".to_string()));
        }
        let mut body = &script[GUARD.len()..];
        if body.starts_with("window.__TL__.configure(") {
            let end = body.find("); ").unwrap();
            body = &body[end + 3..];
        }
        let (call, null_filter) = if body.starts_with("return [") {
            (&body["return [".len()..body.len() - "].filter(n => n);".len()], true)
        } else {
            (&body["return ".len()..body.len() - 1], false)
        };
        let call = call.strip_prefix("window.__TL__.").unwrap();
        let open = call.find('(').unwrap();
        let method_name = &call[..open];
        let args = &call[open + 1..call.len() - 1];
        let (container, rest) = args.split_once(", ").unwrap();
        let container_ids: Vec<usize> = match container {
            "document" => self.page.iter().map(|e| e.id).collect(),
            "arguments[0]" => {
                let root = scope.expect("scoped script needs a scope argument");
                self.page.iter().map(|e| e.id).filter(|i| self.is_descendant_of(*i, root)).collect()
            }
            other => panic!("unexpected container {other}"),
        };
        let (value, options): (String, Option<&str>) = if rest.starts_with('\'') {
            let close = rest[1..].find('\'').unwrap() + 1;
            let v = rest[1..close].to_string();
            (v, rest[close + 1..].strip_prefix(", "))
        } else {
            match rest.find(", {") {
                Some(i) => (rest[..i].to_string(), Some(&rest[i + 2..])),
                None => (rest.to_string(), None),
            }
        };
        let matched = self.matching(method_name, &value, options, &container_ids);
        if method_name.starts_with("getBy") || method_name.starts_with("findBy") {
            match matched.len() {
                1 => Ok(ScriptValue::Handles(matched)),
                0 => Err(format!("unable to find an element matching {value}")),
                _ => Err(format!("found multiple elements matching {value}")),
            }
        } else if method_name.starts_with("getAllBy") || method_name.starts_with("findAllBy") {
            if matched.is_empty() {
                Err(format!("unable to find any element matching {value}"))
            } else {
                Ok(ScriptValue::Handles(matched))
            }
        } else if method_name.starts_with("queryBy") {
            assert!(null_filter, "the query family wraps its null result");
            match matched.len() {
                0 | 1 => Ok(ScriptValue::Handles(matched)),
                _ => Err(format!("found multiple elements matching {value}")),
            }
        } else {
            Ok(ScriptValue::Handles(matched))
        }
    }

    fn matching(
        &self,
        method_name: &str,
        value: &str,
        options: Option<&str>,
        container: &[usize],
    ) -> Vec<usize> {
        container
            .iter()
            .copied()
            .filter(|id| {
                let e = self.element(*id);
                let kind_matches = if method_name.ends_with("ByRole") || method_name.contains("ByRole") {
                    e.role == value
                } else {
                    e.text == value
                };
                kind_matches && self.name_option_matches(e, options)
            })
            .collect()
    }

    fn name_option_matches(&self, e: &FakeElement, options: Option<&str>) -> bool {
        let Some(options) = options else {
            return true;
        };
        if let Some(rest) = options.strip_prefix("{\"name\":\"") {
            let close = rest.find('"').unwrap();
            e.name == &rest[..close]
        } else if let Some(rest) = options.strip_prefix("{\"name\":/") {
            let close = rest.rfind('/').unwrap();
            let re = regex::Regex::new(&rest[..close]).unwrap();
            re.is_match(e.name)
        } else {
            true
        }
    }
}

/// The driver loop: execute, and follow the recovery state machine.
fn run_with_recovery(
    browser: &mut FakeBrowser,
    script: &str,
    scope: Option<usize>,
) -> Result<ScriptValue, String> {
    let mut recovery = LibraryRecovery::new();
    loop {
        let result = browser.execute(script, scope)?;
        let is_sentinel = match &result {
            ScriptValue::Text(s) => is_library_not_found(s),
            _ => false,
        };
        match recovery.on_result(is_sentinel) {
            RecoveryAction::Accept => return Ok(result),
            RecoveryAction::Reinject => browser.inject_library(),
        }
    }
}

fn run_query(
    browser: &mut FakeBrowser,
    method: Method,
    selector: By,
    scope: Option<usize>,
) -> Result<ScriptValue, String> {
    let script = build_query_script(method, &selector, &None, scope.is_some());
    run_with_recovery(browser, &script, scope)
}

fn sim_get(browser: &mut FakeBrowser, selector: By, scope: Option<usize>) -> Result<usize, String> {
    match run_query(browser, Method::Get, selector, scope)? {
        ScriptValue::Handles(v) if v.len() == 1 => Ok(v[0]),
        other => Err(format!("unexpected result {other:?}")),
    }
}

fn sim_get_all(browser: &mut FakeBrowser, selector: By) -> Result<Vec<usize>, String> {
    match run_query(browser, Method::GetAll, selector, None)? {
        ScriptValue::Handles(v) => Ok(v),
        other => Err(format!("unexpected result {other:?}")),
    }
}

fn sim_query(browser: &mut FakeBrowser, selector: By) -> Result<Option<usize>, String> {
    match run_query(browser, Method::Query, selector, None)? {
        ScriptValue::Handles(v) => Ok(normalize_query(v)),
        other => Err(format!("unexpected result {other:?}")),
    }
}

fn sim_query_all(browser: &mut FakeBrowser, selector: By) -> Result<Vec<usize>, String> {
    match run_query(browser, Method::QueryAll, selector, None)? {
        ScriptValue::Handles(v) => Ok(v),
        other => Err(format!("unexpected result {other:?}")),
    }
}

fn simple_page() -> Vec<FakeElement> {
    vec![
        FakeElement { id: 1, parent: None, role: "button", name: "OK", text: "OK" },
        FakeElement { id: 2, parent: None, role: "heading", name: "", text: "Welcome" },
    ]
}

#[test]
fn test_query_absent_is_none_and_get_absent_is_error() {
    let mut browser = FakeBrowser::new(simple_page(), true);
    assert_eq!(sim_query(&mut browser, By::text("X").into()), Ok(None));
    assert!(sim_get(&mut browser, By::text("X").into(), None).is_err());
    assert_eq!(sim_query_all(&mut browser, By::text("X").into()), Ok(vec![]));
    assert!(sim_get_all(&mut browser, By::text("X").into()).is_err());
}

#[test]
fn test_tooltip_scenario() {
    let page = vec![
        FakeElement { id: 1, parent: None, role: "tooltip", name: "", text: "Tooltip text" },
        FakeElement { id: 2, parent: None, role: "button", name: "OK", text: "OK" },
    ];
    let mut browser = FakeBrowser::new(page, true);

    let found = sim_query_all(&mut browser, By::role("tooltip").into()).unwrap();
    assert_eq!(found.len(), 1);
    assert_eq!(browser.element(found[0]).text, "Tooltip text");

    assert_eq!(sim_query(&mut browser, By::role("item").into()), Ok(None));
    assert!(sim_get(&mut browser, By::role("item").into(), None).is_err());
}

#[test]
fn test_button_exact_name_scenario() {
    let matching_page = vec![FakeElement {
        id: 1,
        parent: None,
        role: "button",
        name: "Submit Form",
        text: "Submit Form",
    }];
    let mut browser = FakeBrowser::new(matching_page, true);
    let selector: By = By::role("button").name("Submit Form").into();
    assert_eq!(sim_get(&mut browser, selector.clone(), None), Ok(1));

    let partial_page = vec![FakeElement {
        id: 1,
        parent: None,
        role: "button",
        name: "Submit For",
        text: "Submit For",
    }];
    let mut browser = FakeBrowser::new(partial_page, true);
    assert!(sim_get(&mut browser, selector, None).is_err());
}

#[test]
fn test_button_regex_name_scenario() {
    let page = vec![FakeElement {
        id: 1,
        parent: None,
        role: "button",
        name: "Save Document",
        text: "Save Document",
    }];
    let mut browser = FakeBrowser::new(page, true);
    let name_match = TextMatch::from("/Save.*Document/");
    assert!(name_match.is_regex());
    let selector: By = By::role("button").name("/Save.*Document/").into();
    assert_eq!(sim_get(&mut browser, selector, None), Ok(1));
}

#[test]
fn test_scoping_scenario() {
    let page = vec![
        FakeElement { id: 1, parent: None, role: "generic", name: "", text: "Some text" },
        FakeElement { id: 2, parent: None, role: "generic", name: "parent", text: "" },
        FakeElement { id: 3, parent: Some(2), role: "generic", name: "", text: "Some text" },
    ];
    let mut browser = FakeBrowser::new(page, true);

    // Whole document: two matches, so the singular getter fails.
    assert!(sim_get(&mut browser, By::text("Some text").into(), None).is_err());

    // Scoped to the container: exactly the nested match.
    assert_eq!(sim_get(&mut browser, By::text("Some text").into(), Some(2)), Ok(3));
}

#[test]
fn test_library_recovery_injects_once_and_returns_retry_result() {
    let mut browser = FakeBrowser::new(simple_page(), false);
    let result = sim_get(&mut browser, By::text("Welcome").into(), None);
    assert_eq!(result, Ok(2));
    assert_eq!(browser.injections, 1);
    assert_eq!(browser.executions, 2);
}

#[test]
fn test_library_recovery_does_not_loop_when_injection_fails() {
    let mut browser = FakeBrowser::new(simple_page(), false);
    browser.injection_works = false;
    let result = run_query(&mut browser, Method::Get, By::text("Welcome").into(), None).unwrap();
    assert_eq!(result, ScriptValue::Text("Testing Library not found".to_string()));
    assert_eq!(browser.injections, 1);
    assert_eq!(browser.executions, 2);
}

#[test]
fn test_recovery_state_machine_actions() {
    let mut recovery = LibraryRecovery::new();
    assert_eq!(recovery.on_result(true), RecoveryAction::Reinject);
    assert_eq!(recovery.on_result(true), RecoveryAction::Accept);
    assert_eq!(recovery.on_result(false), RecoveryAction::Accept);

    let mut quiet = LibraryRecovery::new();
    assert_eq!(quiet.on_result(false), RecoveryAction::Accept);
}

#[test]
fn test_playground_url_result() {
    assert_eq!(
        playground_url_result(Some("https://testing-playground.com/#abc".to_string())),
        Ok("https://testing-playground.com/#abc".to_string())
    );
    assert_eq!(
        playground_url_result(None),
        Err("logTestingPlaygroundURL returned non-string value".to_string())
    );
}
