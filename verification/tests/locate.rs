use mimir_bridge::locate::{
    bridge_environment, detect_bridge_path, detect_mimir_bridge, find_python, Base, BridgeSearch,
    PythonStep, Step,
};

/// Runs a search over some files, with the directories above the working directory.
fn run(mut search: BridgeSearch, dirs: &[&str], home: Option<&str>, files: &[&str]) -> Option<String> {
    let mut at = 0;
    let path = |at: usize, base: Base, parts: &Vec<String>| match base {
        Base::Here => format!("{}/{}", dirs[at], parts.join("/")),
        Base::Home => format!("{}/{}", home.unwrap(), parts.join("/")),
    };
    loop {
        match search.step() {
            Step::Probe(place) => {
                let file = path(at, place.base, &place.parts);
                search.advance(files.contains(&file.as_str()));
            }
            Step::Climb => {
                let can = at + 1 < dirs.len();
                if can {
                    at += 1;
                }
                search.advance(can);
            }
            Step::AskHome => search.advance(home.is_some()),
            Step::Done(found) => return found.map(|place| path(at, place.base, &place.parts)),
        }
    }
}

const DIRS: [&str; 3] = ["/w/p/q", "/w/p", "/w"];

#[test]
fn beside_the_marker() {
    let files = ["/w/p/.mimir/config.json", "/w/p/mimir_bridge.py", "/w/p/scripts/mimir_bridge.py"];
    assert_eq!(
        run(detect_bridge_path(), &DIRS, Some("/h"), &files),
        Some("/w/p/mimir_bridge.py".to_string())
    );
    let files = ["/w/p/.mimir/config.json", "/w/p/scripts/mimir_bridge.py"];
    assert_eq!(
        run(detect_mimir_bridge(), &DIRS, None, &files),
        Some("/w/p/scripts/mimir_bridge.py".to_string())
    );
}

#[test]
fn nearest_marker_decides() {
    let files = [
        "/w/p/.mimir/config.json",
        "/w/.mimir/config.json",
        "/w/mimir_bridge.py",
        "/h/Documents/Mimir/mimir_bridge.py",
    ];
    assert_eq!(
        run(detect_bridge_path(), &DIRS, Some("/h"), &files),
        Some("/h/Documents/Mimir/mimir_bridge.py".to_string())
    );
    assert_eq!(run(detect_bridge_path(), &DIRS, None, &files), None);
}

#[test]
fn script_without_a_marker_is_not_found() {
    let files = ["/w/p/q/mimir_bridge.py", "/w/mimir_bridge.py"];
    assert_eq!(run(detect_bridge_path(), &DIRS, Some("/h"), &files), None);
}

#[test]
fn common_locations_in_order() {
    let files = ["/h/.local/share/mimir/mimir_bridge.py"];
    let found = Some("/h/.local/share/mimir/mimir_bridge.py".to_string());
    assert_eq!(run(detect_bridge_path(), &DIRS, Some("/h"), &files), found);
    assert_eq!(run(detect_mimir_bridge(), &DIRS, Some("/h"), &files), found);
    let files = [
        "/h/.local/share/mimir/mimir_bridge.py",
        "/h/Documents/Mimir/mimir_bridge.py",
        "/h/Documents/Mimir/scripts/mimir_bridge.py",
    ];
    assert_eq!(
        run(detect_bridge_path(), &DIRS, Some("/h"), &files),
        Some("/h/Documents/Mimir/mimir_bridge.py".to_string())
    );
    assert_eq!(
        run(detect_mimir_bridge(), &DIRS, Some("/h"), &files),
        Some("/h/Documents/Mimir/mimir_bridge.py".to_string())
    );
    let files = ["/h/Documents/Mimir/scripts/mimir_bridge.py"];
    assert_eq!(run(detect_bridge_path(), &DIRS, Some("/h"), &files), None);
    assert_eq!(run(detect_mimir_bridge(), &DIRS, Some("/h"), &files), None);
}

#[test]
fn nothing_anywhere() {
    assert_eq!(run(detect_bridge_path(), &DIRS, Some("/h"), &[]), None);
    assert_eq!(run(detect_mimir_bridge(), &["/"], None, &[]), None);
}

#[test]
fn a_search_that_is_over_stays_over() {
    let mut search = detect_bridge_path();
    for answer in [true, true, false, true, false] {
        search.advance(answer);
    }
    match search.step() {
        Step::Done(Some(place)) => {
            assert_eq!(place.base, Base::Here);
            assert_eq!(place.parts, vec!["mimir_bridge.py".to_string()]);
        }
        _ => panic!(),
    }
}

fn python(answers: &[bool]) -> (bool, String) {
    match find_python(&answers.to_vec()) {
        PythonStep::Try(command) => (false, command),
        PythonStep::Use(command) => (true, command),
    }
}

#[test]
fn python_search() {
    assert_eq!(python(&[]), (false, "python3".to_string()));
    assert_eq!(python(&[true]), (true, "python3".to_string()));
    assert_eq!(python(&[false]), (false, "python".to_string()));
    assert_eq!(python(&[false, true]), (true, "python".to_string()));
    assert_eq!(python(&[false, false]), (true, "python3".to_string()));
    assert_eq!(python(&[true, false, true]), (true, "python3".to_string()));
    assert_eq!(python(&[false, true, true]), (true, "python".to_string()));
}

fn pair(name: &str, value: &str) -> (String, String) {
    (name.to_string(), value.to_string())
}

#[test]
fn environment_of_the_bridge() {
    assert_eq!(
        bridge_environment(Some("/w"), Some("r"), Some("a")),
        vec![pair("PROJECT_ROOT", "/w"), pair("OPENROUTER_API_KEY", "r")]
    );
    assert_eq!(
        bridge_environment(None, None, Some("a")),
        vec![pair("OPENAI_API_KEY", "a")]
    );
    assert_eq!(bridge_environment(Some("/w"), None, None), vec![pair("PROJECT_ROOT", "/w")]);
    assert!(bridge_environment(None, None, None).is_empty());
}
