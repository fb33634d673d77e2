use nimbra_edge::operator::{
    colorize, component_rows, get_edge_resource, kubectl_arguments, render_status, status,
    use_color, Component, Condition, Kubectl, NimbraEdge, NimbraEdgeStatus, Version,
};

fn text(s: &str) -> Option<String> {
    Some(s.to_string())
}

fn component(name: &str, status: &str, message: Option<&str>) -> Component {
    Component {
        name: name.to_string(),
        status: status.to_string(),
        message: message.map(|m| m.to_string()),
    }
}

fn empty_status() -> NimbraEdgeStatus {
    NimbraEdgeStatus {
        phase: None,
        last_reconciled_at: None,
        version: None,
        components: vec![],
        conditions: vec![],
    }
}

fn shown(status_value: NimbraEdgeStatus, color: bool) -> String {
    status(Ok(NimbraEdge { status: Some(status_value) }), color).unwrap()
}

#[test]
fn colorize_without_color_changes_nothing() {
    assert_eq!(colorize("Ready", false), "Ready");
    assert_eq!(colorize("Error", false), "Error");
    assert_eq!(colorize("", false), "");
}

#[test]
fn colorize_good_is_green() {
    assert_eq!(colorize("Ready", true), "\x1b[32mReady\x1b[0m");
    assert_eq!(colorize("AllHealthy", true), "\x1b[32mAllHealthy\x1b[0m");
}

#[test]
fn colorize_bad_is_red() {
    for s in ["Error", "ValidationFailed", "PermanentError", "BillingFailed"] {
        assert_eq!(colorize(s, true), format!("\x1b[31m{}\x1b[0m", s));
    }
}

#[test]
fn colorize_other_is_yellow() {
    for s in ["Installing", "ready", "", "Ready ", "Errör"] {
        assert_eq!(colorize(s, true), format!("\x1b[33m{}\x1b[0m", s));
    }
}

#[test]
fn colorize_keeps_the_status_between_escapes() {
    let colored = colorize("Installing", true);
    assert_eq!(colored.len(), "Installing".len() + 9);
    assert_eq!(&colored[5..colored.len() - 4], "Installing");
}

#[test]
fn color_choice() {
    assert!(use_color("always", false));
    assert!(use_color("always", true));
    assert!(!use_color("never", true));
    assert!(!use_color("never", false));
    assert!(use_color("auto", true));
    assert!(!use_color("auto", false));
}

#[test]
fn nothing_known_shows_only_the_phase() {
    assert_eq!(shown(empty_status(), false), "Phase:            Unknown\n");
    assert_eq!(shown(empty_status(), true), "Phase:            \x1b[33mUnknown\x1b[0m\n");
}

#[test]
fn summary_in_full() {
    let s = NimbraEdgeStatus {
        phase: text("Ready"),
        last_reconciled_at: text("2025-01-02T03:04:05Z"),
        version: Some(Version {
            desired: text("2.0.0"),
            installed: text("1.9.0"),
            previous: text("1.8.0"),
        }),
        components: vec![],
        conditions: vec![],
    };
    assert_eq!(
        shown(s, false),
        "Phase:            Ready\n\
         Version:          1.9.0\n\
         Desired version:  2.0.0\n\
         Previous version: 1.8.0\n\
         Last reconciled:  2025-01-02T03:04:05Z\n"
    );
}

#[test]
fn desired_version_is_shown_only_where_it_differs() {
    let version = |desired: Option<String>, installed: Option<String>| NimbraEdgeStatus {
        version: Some(Version { desired, installed, previous: None }),
        ..empty_status()
    };
    assert_eq!(
        shown(version(text("1"), text("1")), false),
        "Phase:            Unknown\nVersion:          1\n"
    );
    assert_eq!(
        shown(version(None, None), false),
        "Phase:            Unknown\nVersion:          unknown\n"
    );
    assert_eq!(
        shown(version(None, text("1")), false),
        "Phase:            Unknown\nVersion:          1\nDesired version:  unknown\n"
    );
    assert_eq!(
        shown(version(text("1"), None), false),
        "Phase:            Unknown\nVersion:          unknown\nDesired version:  1\n"
    );
}

#[test]
fn conditions_line_up_and_keep_their_order() {
    let condition = |t: &str, reason: Option<&str>, message: Option<&str>| Condition {
        condition_type: t.to_string(),
        status: "True".to_string(),
        reason: reason.map(|r| r.to_string()),
        message: message.map(|m| m.to_string()),
    };
    let s = NimbraEdgeStatus {
        conditions: vec![
            condition("Ready", Some("AllHealthy"), Some("all is well")),
            condition("Größe", None, None),
            condition("ExactlySeventeenC", None, None),
            condition("ALongerTypeThanTheColumn", Some("X"), None),
        ],
        ..empty_status()
    };
    assert_eq!(
        render_status(&s, "", false),
        "Phase:            Unknown\n\
         Ready:            True (AllHealthy)\n\
         \x20                 all is well\n\
         Größe:            True\n\
         ExactlySeventeenC:True\n\
         ALongerTypeThanTheColumn:True (X)\n"
    );
    assert_eq!(
        render_status(&s, "", true).lines().nth(1).unwrap(),
        "Ready:            True (\x1b[32mAllHealthy\x1b[0m)"
    );
}

#[test]
fn rows_without_messages_have_no_message_heading() {
    let rows = component_rows(&vec![component("api", "Ready", None)], false);
    assert_eq!(rows, vec![vec!["Name", "Status"], vec!["api", "Ready"]]);
}

#[test]
fn rows_of_no_components_are_the_heading() {
    assert_eq!(component_rows(&vec![], true), vec![vec!["Name", "Status"]]);
}

#[test]
fn rows_pad_the_status_to_the_longest() {
    let components = vec![
        component("api", "Ready", Some("up")),
        component("db", "Initialising", Some("waiting")),
        component("ui", "Ready", None),
    ];
    assert_eq!(
        component_rows(&components, false),
        vec![
            vec!["Name", "Status        Message"],
            vec!["api", "Ready         up"],
            vec!["db", "Initialising  waiting"],
            vec!["ui", "Ready"],
        ]
    );
}

#[test]
fn rows_count_characters_not_bytes() {
    let components = vec![component("a", "größer", Some("m")), component("b", "ok", Some("n"))];
    assert_eq!(
        component_rows(&components, false),
        vec![
            vec!["Name", "Status  Message"],
            vec!["a", "größer  m"],
            vec!["b", "ok      n"],
        ]
    );
}

#[test]
fn color_changes_only_the_last_column_of_the_rows() {
    let components =
        vec![component("api", "Ready", Some("up")), component("db", "Error", None)];
    let plain = component_rows(&components, false);
    let colored = component_rows(&components, true);
    assert_eq!(colored[0], plain[0]);
    assert_eq!(colored[1], vec!["api", "\x1b[32mReady\x1b[0m   up"]);
    assert_eq!(colored[2], vec!["db", "\x1b[31mError\x1b[0m"]);
    assert_eq!(plain[1], vec!["api", "Ready   up"]);
    assert_eq!(plain[2], vec!["db", "Error"]);
}

#[test]
fn components_are_laid_out_as_a_table() {
    let s = NimbraEdgeStatus {
        phase: text("Ready"),
        components: vec![component("api", "Ready", None), component("db", "Error", Some("down"))],
        ..empty_status()
    };
    assert_eq!(
        shown(s, false),
        "Phase:            Ready\n\
         \n\
         Components:\n\
         \x20Name  Status  Message \n\
         \x20api   Ready           \n\
         \x20db    Error   down    \n"
    );
}

#[test]
fn messages_line_up_in_a_colored_table() {
    let s = NimbraEdgeStatus {
        components: vec![
            component("api", "Ready", Some("first")),
            component("db", "Pending", Some("second")),
        ],
        ..empty_status()
    };
    let output = shown(s, true).replace("\x1b[32m", "").replace("\x1b[33m", "").replace("\x1b[0m", "");
    let lines: Vec<&str> = output.lines().collect();
    let at = lines[3].find("Message").unwrap();
    assert_eq!(lines[4].find("first").unwrap(), at);
    assert_eq!(lines[5].find("second").unwrap(), at);
}

#[test]
fn table_text_is_put_below_its_heading() {
    let s = NimbraEdgeStatus { components: vec![component("a", "b", None)], ..empty_status() };
    assert_eq!(
        render_status(&s, "the table", false),
        "Phase:            Unknown\n\nComponents:\nthe table\n"
    );
    assert_eq!(render_status(&empty_status(), "the table", false), "Phase:            Unknown\n");
}

#[test]
fn resource_without_status() {
    let exit = status(Ok(NimbraEdge { status: None }), false).unwrap_err();
    assert_eq!(exit.message, "The NimbraEdge resource has no status yet\n");
    assert_eq!(exit.code, 1);
}

#[test]
fn resource_that_cannot_be_parsed() {
    let exit = status(Err("expected value".to_string()), false).unwrap_err();
    assert_eq!(exit.message, "Failed to parse the NimbraEdge resource: expected value\n");
    assert_eq!(exit.code, 1);
}

#[test]
fn kubectl_is_asked_for_the_resource() {
    assert_eq!(
        kubectl_arguments(),
        vec!["get", "-n", "edge", "nimbraedges.nimbra.io", "edge", "-o", "json"]
    );
}

fn ran(success: bool, code: Option<i32>, stdout: &[u8], stderr: &[u8]) -> Kubectl {
    Kubectl::Ran { success, code, stdout: stdout.to_vec(), stderr: stderr.to_vec() }
}

#[test]
fn kubectl_that_succeeds_gives_its_output() {
    assert_eq!(
        get_edge_resource(&ran(true, Some(0), "{\"größe\":1}".as_bytes(), b"warning")).unwrap(),
        "{\"größe\":1}"
    );
    assert_eq!(get_edge_resource(&ran(true, Some(0), b"a\xffb", b"")).unwrap(), "a\u{fffd}b");
}

#[test]
fn kubectl_that_fails_passes_on_its_error() {
    let exit = get_edge_resource(&ran(false, Some(3), b"out", b"not found\n")).unwrap_err();
    assert_eq!((exit.message.as_str(), exit.code), ("not found\n", 3));
    let exit = get_edge_resource(&ran(false, None, b"", b"killed\xfe")).unwrap_err();
    assert_eq!((exit.message.as_str(), exit.code), ("killed\u{fffd}", 1));
}

#[test]
fn kubectl_that_cannot_be_run() {
    let exit = get_edge_resource(&Kubectl::NotRun("No such file".to_string())).unwrap_err();
    assert_eq!(
        (exit.message.as_str(), exit.code),
        ("Failed to run kubectl: No such file\n", 1)
    );
}

/// `text` without its escapes.
fn stripped(text: &str) -> String {
    let mut rest = text;
    let mut bare = String::new();
    while let Some(at) = rest.find('\x1b') {
        bare.push_str(&rest[..at]);
        rest = &rest[at..];
        rest = &rest[rest.find('m').unwrap() + 1..];
    }
    bare.push_str(rest);
    bare
}

/// The lines of `text` without the spaces at their ends.
fn tidy(text: &str) -> Vec<&str> {
    text.split('\n').map(|line| line.trim_end_matches(' ')).collect()
}

fn eventful_status() -> NimbraEdgeStatus {
    NimbraEdgeStatus {
        phase: text("Error"),
        last_reconciled_at: text("today"),
        version: Some(Version { desired: text("2"), installed: text("1"), previous: None }),
        components: vec![
            component("api\nserver", "Ready", Some("one\r\ntwo\nthree\n")),
            component("db", "Pending\nstill", None),
            component("größe", "BillingFailed", Some("")),
            component("", "", Some("m")),
        ],
        conditions: vec![
            Condition {
                condition_type: "Ready".to_string(),
                status: "False".to_string(),
                reason: text("ValidationFailed"),
                message: text("no\nlicense "),
            },
            Condition {
                condition_type: "Other".to_string(),
                status: "True".to_string(),
                reason: text("AllHealthy"),
                message: None,
            },
        ],
    }
}

#[test]
fn color_is_only_color() {
    let colored = shown(eventful_status(), true);
    let plain = shown(eventful_status(), false);
    assert!(!plain.contains('\x1b'));
    assert!(colored.contains("\x1b[31mError\x1b[0m"));
    assert_eq!(tidy(&stripped(&colored)), tidy(&plain));
    let table = plain.find("Components:").unwrap();
    assert_eq!(stripped(&colored)[..table], plain[..table]);
}

#[test]
fn color_is_only_color_without_components() {
    let status = || NimbraEdgeStatus { components: vec![], ..eventful_status() };
    assert_eq!(stripped(&shown(status(), true)), shown(status(), false));
}

#[test]
fn cells_without_escapes_are_those_without_color() {
    let components = eventful_status().components;
    let colored = component_rows(&components, true);
    let plain = component_rows(&components, false);
    assert_eq!(colored.len(), 5);
    for (c, p) in colored.iter().zip(&plain) {
        assert_eq!(c.iter().map(|cell| stripped(cell)).collect::<Vec<String>>(), *p);
    }
}

#[test]
fn lines_of_a_cell_stand_below_each_other() {
    let s = NimbraEdgeStatus {
        components: vec![
            component("a\nbb", "Ready", Some("x\ny")),
            component("c", "Ready", Some("x\ny")),
            component("d\ne", "Ready", None),
        ],
        ..empty_status()
    };
    let lines = [
        " Name  Status  Message ",
        " a     Ready   x       ",
        " bb    y               ",
        " c     Ready   x       ",
        "       y               ",
        " d     Ready           ",
        " e                     ",
    ];
    assert_eq!(
        shown(s, false),
        format!("Phase:            Unknown\n\nComponents:\n{}\n", lines.join("\n"))
    );
}

#[test]
fn escapes_widen_only_the_last_column() {
    let s = || NimbraEdgeStatus { components: vec![component("a", "Ready", None)], ..empty_status() };
    let colored = shown(s(), true);
    let plain = shown(s(), false);
    let row = |output: &str| output.lines().last().unwrap().to_string();
    assert_eq!(row(&plain), " a     Ready  ");
    assert!(row(&colored).starts_with(" a     \x1b[32mReady\x1b[0m "));
}

#[test]
fn table_shows_each_component_in_its_order() {
    let names = ["delta", "alpha", "charlie"];
    let s = NimbraEdgeStatus {
        components: names.iter().map(|name| component(name, "Ready", None)).collect(),
        ..empty_status()
    };
    let output = shown(s, false);
    let rows: Vec<Vec<&str>> =
        output.lines().skip(4).map(|line| line.split_whitespace().collect()).collect();
    assert_eq!(
        rows,
        vec![vec!["delta", "Ready"], vec!["alpha", "Ready"], vec!["charlie", "Ready"]]
    );
}
