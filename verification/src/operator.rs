//! `operator status`: the state of the NimbraEdge resource, as text.

use vstd::prelude::*;
use vstd::utf8::{decode_utf8, valid_utf8};

use crate::color_laws::{
    lemma_only_color, lemma_same_first_column, only_color, status_escape_free,
};
use crate::table::{layout, same_first_column, shows, table_text};
use crate::text::{blanks, optional_text, pad_right, padded, same};

verus! {

/// The NimbraEdge resource.
#[derive(Debug)]
pub struct NimbraEdge {
    pub status: Option<NimbraEdgeStatus>,
}

/// What the operator reports of the installation.
#[derive(Debug)]
pub struct NimbraEdgeStatus {
    pub phase: Option<String>,
    pub last_reconciled_at: Option<String>,
    pub version: Option<Version>,
    pub components: Vec<Component>,
    pub conditions: Vec<Condition>,
}

/// The versions that the operator knows of.
#[derive(Debug)]
pub struct Version {
    pub desired: Option<String>,
    pub installed: Option<String>,
    pub previous: Option<String>,
}

/// One component of the installation.
#[derive(Debug)]
pub struct Component {
    pub name: String,
    pub status: String,
    pub message: Option<String>,
}

/// One condition of the installation.
#[derive(Debug)]
pub struct Condition {
    pub condition_type: String,
    pub status: String,
    pub reason: Option<String>,
    pub message: Option<String>,
}

/// A command that ends early: what it writes to standard error, and its exit
/// code.
#[derive(Debug)]
pub struct Exit {
    pub message: String,
    pub code: i32,
}

/// What came of running `kubectl`.
#[derive(Debug)]
pub enum Kubectl {
    /// It could not be run; the reason.
    NotRun(String),
    /// It ran.
    Ran { success: bool, code: Option<i32>, stdout: Vec<u8>, stderr: Vec<u8> },
}

/// The first column of the status output has this many characters.
pub const LABEL_WIDTH: usize = 18;

/// Whether a status says that all is well. A status is a phase, the status of a
/// component or the reason of a condition, as the operator names them.
pub open spec fn says_good(status: Seq<char>) -> bool {
    status == "Ready"@ || status == "AllHealthy"@
}

/// Whether a status says that something has failed.
pub open spec fn says_bad(status: Seq<char>) -> bool {
    status == "Error"@ || status == "ValidationFailed"@ || status == "PermanentError"@ || status
        == "BillingFailed"@
}

/// The escape that turns on the color of a status: green, red or yellow.
pub open spec fn color_on(status: Seq<char>) -> Seq<char> {
    if says_good(status) {
        "\x1b[32m"@
    } else if says_bad(status) {
        "\x1b[31m"@
    } else {
        "\x1b[33m"@
    }
}

/// The escape that turns colors off.
pub open spec fn color_off() -> Seq<char> {
    "\x1b[0m"@
}

/// A status as it is shown.
pub open spec fn shown(status: Seq<char>, color: bool) -> Seq<char> {
    if color {
        color_on(status) + status + color_off()
    } else {
        status
    }
}

/// Whether the output is colored, for a value of `--color` and an output that
/// is or is not a terminal.
pub open spec fn colored(choice: Seq<char>, terminal: bool) -> bool {
    if terminal {
        choice != "never"@
    } else {
        choice == "always"@
    }
}

/// Whether the output is colored, for a value of `--color` and an output that
/// is or is not a terminal.
pub fn use_color(choice: &str, terminal: bool) -> (color: bool)
    ensures
        color == (choice@ == "always"@ || (choice@ != "never"@ && terminal)),
        color == colored(choice@, terminal),
{
    proof {
        reveal_strlit("always");
        reveal_strlit("never");
        assert("always"@.len() != "never"@.len());
    }
    if same(choice, "always") {
        true
    } else if same(choice, "never") {
        false
    } else {
        terminal
    }
}

/// A status as it is shown: in green, red or yellow where colors are wanted.
pub fn colorize(status: &str, color: bool) -> (r: String)
    ensures
        r@ == shown(status@, color),
{
    if !color {
        return status.to_owned();
    }
    let on = if same(status, "Ready") || same(status, "AllHealthy") {
        "\x1b[32m"
    } else if same(status, "Error") || same(status, "ValidationFailed") || same(
        status,
        "PermanentError",
    ) || same(status, "BillingFailed") {
        "\x1b[31m"
    } else {
        "\x1b[33m"
    };
    on.to_owned().concat(status).concat("\x1b[0m")
}

/// The text of `s`, or `default` where there is none.
pub open spec fn text_or(s: Option<String>, default: Seq<char>) -> Seq<char> {
    match s {
        Some(s) => s@,
        None => default,
    }
}

/// A line made of a label and a value.
pub open spec fn labeled(label: Seq<char>, value: Seq<char>) -> Seq<char> {
    label + value + "\n"@
}

/// The line that shows the phase.
pub open spec fn phase_line(status: NimbraEdgeStatus, color: bool) -> Seq<char> {
    labeled("Phase:            "@, shown(text_or(status.phase, "Unknown"@), color))
}

/// The lines that show the versions: the installed one, the desired one where
/// it differs, and the previous one where there was one.
pub open spec fn version_lines(version: Version) -> Seq<char> {
    labeled("Version:          "@, text_or(version.installed, "unknown"@)) + (if optional_text(
        version.desired,
    ) != optional_text(version.installed) {
        labeled("Desired version:  "@, text_or(version.desired, "unknown"@))
    } else {
        Seq::empty()
    }) + (match version.previous {
        Some(previous) => labeled("Previous version: "@, previous@),
        None => Seq::empty(),
    })
}

/// The lines that come before the conditions.
pub open spec fn summary_lines(status: NimbraEdgeStatus, color: bool) -> Seq<char> {
    phase_line(status, color) + (match status.version {
        Some(version) => version_lines(version),
        None => Seq::empty(),
    }) + (match status.last_reconciled_at {
        Some(at) => labeled("Last reconciled:  "@, at@),
        None => Seq::empty(),
    })
}

/// The lines that show one condition: its type and status, with its reason in
/// parentheses, and below them its message.
pub open spec fn condition_lines(condition: Condition, color: bool) -> Seq<char> {
    padded(condition.condition_type@ + ":"@, LABEL_WIDTH as int) + condition.status@ + (
    match condition.reason {
        Some(reason) => " ("@ + shown(reason@, color) + ")"@,
        None => Seq::empty(),
    }) + "\n"@ + (match condition.message {
        Some(message) => labeled(blanks(LABEL_WIDTH as int), message@),
        None => Seq::empty(),
    })
}

/// The lines that show the conditions, in their order.
pub open spec fn conditions_lines(conditions: Seq<Condition>, color: bool) -> Seq<char>
    decreases conditions.len(),
{
    if conditions.len() == 0 {
        Seq::empty()
    } else {
        conditions_lines(conditions.drop_last(), color) + condition_lines(conditions.last(), color)
    }
}

/// The number of characters of the longest status, the heading included.
pub open spec fn status_width(components: Seq<Component>) -> int
    decreases components.len(),
{
    if components.len() == 0 {
        "Status"@.len() as int
    } else {
        let width = status_width(components.drop_last());
        let len = components.last().status@.len() as int;
        if len > width {
            len
        } else {
            width
        }
    }
}

/// The cell that holds a status and, behind the widest status, a message. The
/// escapes of the shown status do not count toward its width.
pub open spec fn cell(
    status: Seq<char>,
    shown: Seq<char>,
    message: Option<Seq<char>>,
    width: int,
) -> Seq<char> {
    match message {
        Some(message) => shown + blanks(width - status.len()) + "  "@ + message,
        None => shown,
    }
}

/// Whether some component has a message.
pub open spec fn any_message(components: Seq<Component>) -> bool {
    exists|i: int| 0 <= i < components.len() && (#[trigger] components[i]).message is Some
}

/// The record that heads the table of components. The message column is headed
/// only where there is a message.
pub open spec fn heading(components: Seq<Component>) -> Seq<Seq<char>> {
    seq![
        "Name"@,
        cell(
            "Status"@,
            "Status"@,
            if any_message(components) {
                Some("Message"@)
            } else {
                None
            },
            status_width(components),
        ),
    ]
}

/// The record of one component.
pub open spec fn component_record(component: Component, width: int, color: bool) -> Seq<
    Seq<char>,
> {
    seq![
        component.name@,
        cell(
            component.status@,
            shown(component.status@, color),
            optional_text(component.message),
            width,
        ),
    ]
}

/// The records of the table of components: the heading, then one for each
/// component, in their order.
pub open spec fn component_records(components: Seq<Component>, color: bool) -> Seq<
    Seq<Seq<char>>,
> {
    seq![heading(components)] + Seq::new(
        components.len(),
        |i: int| component_record(components[i], status_width(components), color),
    )
}

/// The lines that show the components around their table.
pub open spec fn components_lines(components: Seq<Component>, table: Seq<char>) -> Seq<char> {
    if components.len() == 0 {
        Seq::empty()
    } else {
        "\nComponents:\n"@ + table + "\n"@
    }
}

/// What is shown of a status, given the text of the table of components.
pub open spec fn status_text(status: NimbraEdgeStatus, table: Seq<char>, color: bool) -> Seq<
    char,
> {
    summary_lines(status, color) + conditions_lines(status.conditions@, color) + components_lines(
        status.components@,
        table,
    )
}

/// Adds a line made of a label and a value.
fn push_labeled(text: &mut String, label: &str, value: &str)
    ensures
        final(text)@ == old(text)@ + labeled(label@, value@),
{
    text.append(label);
    text.append(value);
    text.append("\n");
    assert(text@ =~= old(text)@ + labeled(label@, value@));
}

/// The text of `s`, or `default` where there is none.
fn str_or<'a>(s: &'a Option<String>, default: &'a str) -> (r: &'a str)
    ensures
        r@ == text_or(*s, default@),
{
    match s {
        Some(s) => s.as_str(),
        None => default,
    }
}

/// Whether two optional strings hold the same text.
fn same_optional(a: &Option<String>, b: &Option<String>) -> (r: bool)
    ensures
        r == (optional_text(*a) == optional_text(*b)),
{
    match (a, b) {
        (Some(a), Some(b)) => same(a.as_str(), b.as_str()),
        (None, None) => true,
        _ => false,
    }
}

/// Adds the lines that show the versions.
fn push_version(text: &mut String, version: &Version)
    ensures
        final(text)@ == old(text)@ + version_lines(*version),
{
    push_labeled(text, "Version:          ", str_or(&version.installed, "unknown"));
    if !same_optional(&version.desired, &version.installed) {
        push_labeled(text, "Desired version:  ", str_or(&version.desired, "unknown"));
    }
    if let Some(previous) = &version.previous {
        push_labeled(text, "Previous version: ", previous.as_str());
    }
    assert(text@ =~= old(text)@ + version_lines(*version));
}

/// The lines that come before the conditions.
fn summary(status: &NimbraEdgeStatus, color: bool) -> (text: String)
    ensures
        text@ == summary_lines(*status, color),
{
    let mut text: String = String::new();
    let phase = colorize(str_or(&status.phase, "Unknown"), color);
    push_labeled(&mut text, "Phase:            ", phase.as_str());
    if let Some(version) = &status.version {
        push_version(&mut text, version);
    }
    if let Some(last_reconciled) = &status.last_reconciled_at {
        push_labeled(&mut text, "Last reconciled:  ", last_reconciled.as_str());
    }
    assert(text@ =~= summary_lines(*status, color));
    text
}

/// Adds the lines that show one condition.
fn push_condition(text: &mut String, condition: &Condition, color: bool)
    ensures
        final(text)@ == old(text)@ + condition_lines(*condition, color),
{
    let label = condition.condition_type.clone().concat(":");
    text.append(pad_right(label.as_str(), LABEL_WIDTH).as_str());
    text.append(condition.status.as_str());
    if let Some(reason) = &condition.reason {
        text.append(" (");
        text.append(colorize(reason.as_str(), color).as_str());
        text.append(")");
    }
    text.append("\n");
    if let Some(message) = &condition.message {
        let indent = pad_right("", LABEL_WIDTH);
        proof {
            reveal_strlit("");
            assert(indent@ =~= blanks(LABEL_WIDTH as int));
        }
        push_labeled(text, indent.as_str(), message.as_str());
    }
    assert(text@ =~= old(text)@ + condition_lines(*condition, color));
}

/// Adds the lines that show the conditions.
fn push_conditions(text: &mut String, conditions: &Vec<Condition>, color: bool)
    ensures
        final(text)@ == old(text)@ + conditions_lines(conditions@, color),
{
    let ghost before = text@;
    let mut i: usize = 0;
    assert(text@ =~= before + conditions_lines(conditions@.take(0), color));
    while i < conditions.len()
        invariant
            i <= conditions.len(),
            text@ == before + conditions_lines(conditions@.take(i as int), color),
        decreases conditions.len() - i,
    {
        push_condition(text, &conditions[i], color);
        assert(conditions@.take(i + 1).drop_last() =~= conditions@.take(i as int));
        assert(text@ =~= before + conditions_lines(conditions@.take(i + 1), color));
        i = i + 1;
    }
    assert(conditions@.take(conditions.len() as int) =~= conditions@);
}

/// The number of characters of the longest status, the heading included.
fn width_of_statuses(components: &Vec<Component>) -> (width: usize)
    ensures
        width == status_width(components@),
        forall|i: int|
            0 <= i < components@.len() ==> (#[trigger] components@[i]).status@.len() <= width,
        "Status"@.len() <= width,
{
    let mut width: usize = "Status".unicode_len();
    let mut i: usize = 0;
    while i < components.len()
        invariant
            i <= components.len(),
            width == status_width(components@.take(i as int)),
            forall|j: int| 0 <= j < i ==> (#[trigger] components@[j]).status@.len() <= width,
            "Status"@.len() <= width,
        decreases components.len() - i,
    {
        let len: usize = components[i].status.as_str().unicode_len();
        assert(components@.take(i + 1).drop_last() =~= components@.take(i as int));
        if len > width {
            width = len;
        }
        i = i + 1;
    }
    assert(components@.take(components.len() as int) =~= components@);
    width
}

/// Whether some component has a message.
fn has_message(components: &Vec<Component>) -> (r: bool)
    ensures
        r == any_message(components@),
{
    let mut i: usize = 0;
    while i < components.len()
        invariant
            i <= components.len(),
            forall|j: int| 0 <= j < i ==> (#[trigger] components@[j]).message is None,
        decreases components.len() - i,
    {
        if components[i].message.is_some() {
            return true;
        }
        i = i + 1;
    }
    false
}

/// The cell that holds a status and, behind the widest status, a message.
fn status_cell(status: &str, colored: String, message: Option<&str>, width: usize) -> (r: String)
    requires
        status@.len() <= width,
    ensures
        r@ == cell(
            status@,
            colored@,
            match message {
                Some(message) => Some(message@),
                None => None,
            },
            width as int,
        ),
{
    match message {
        Some(message) => {
            let gap = pad_right("", width - status.unicode_len());
            proof {
                reveal_strlit("");
                assert(gap@ =~= blanks(width - status@.len()));
            }
            colored.concat(gap.as_str()).concat("  ").concat(message)
        },
        None => colored,
    }
}

/// A record of two cells.
fn pair(first: String, second: String) -> (record: Vec<String>)
    ensures
        record.deep_view() == seq![first@, second@],
{
    let mut record: Vec<String> = Vec::new();
    record.push(first);
    record.push(second);
    assert(record.deep_view() =~= seq![first@, second@]);
    record
}

/// The records of the table of components: the heading, then one for each
/// component. The message shares a column with the status, padded by hand, so
/// that the color escapes always end up in the last column, where they cannot
/// upset the column widths.
pub fn component_rows(components: &Vec<Component>, color: bool) -> (rows: Vec<Vec<String>>)
    ensures
        rows.deep_view() == component_records(components@, color),
{
    let width = width_of_statuses(components);
    let heading_message = if has_message(components) {
        Some("Message")
    } else {
        None
    };
    let mut rows: Vec<Vec<String>> = Vec::new();
    rows.push(
        pair("Name".to_owned(), status_cell("Status", "Status".to_owned(), heading_message, width)),
    );
    assert(rows.deep_view() =~= component_records(components@, color).take(1));
    let mut i: usize = 0;
    while i < components.len()
        invariant
            i <= components.len(),
            width == status_width(components@),
            forall|j: int|
                0 <= j < components@.len() ==> (#[trigger] components@[j]).status@.len() <= width,
            rows.deep_view() == component_records(components@, color).take(i + 1),
        decreases components.len() - i,
    {
        let component = &components[i];
        let message = match &component.message {
            Some(message) => Some(message.as_str()),
            None => None,
        };
        let colored = colorize(component.status.as_str(), color);
        let row = pair(
            component.name.clone(),
            status_cell(component.status.as_str(), colored, message, width),
        );
        let ghost records = component_records(components@, color);
        assert(row.deep_view() =~= records[i + 1]);
        let ghost before = rows.deep_view();
        rows.push(row);
        assert(rows.deep_view() =~= before.push(row.deep_view()));
        assert(records.take(i + 2) =~= records.take(i + 1).push(records[i + 1]));
        i = i + 1;
    }
    assert(component_records(components@, color).take(components.len() + 1)
        =~= component_records(components@, color));
    rows
}

/// What is shown of a status, given the text of the table of components.
pub fn render_status(status: &NimbraEdgeStatus, table: &str, color: bool) -> (text: String)
    ensures
        text@ == status_text(*status, table@, color),
{
    let mut text = summary(status, color);
    push_conditions(&mut text, &status.conditions, color);
    if !status.components.is_empty() {
        text.append("\nComponents:\n");
        text.append(table);
        text.append("\n");
    }
    assert(text@ =~= status_text(*status, table@, color));
    text
}

/// What a command ends with: what it writes to standard output, or what it writes
/// to standard error and its exit code.
pub open spec fn ending(r: Result<String, Exit>) -> Result<Seq<char>, (Seq<char>, i32)> {
    match r {
        Ok(text) => Ok(text@),
        Err(exit) => Err((exit.message@, exit.code)),
    }
}

/// What `operator status` ends with, given the text of the table of components.
pub open spec fn status_ending(
    resource: Result<NimbraEdge, String>,
    table: Seq<char>,
    color: bool,
) -> Result<Seq<char>, (Seq<char>, i32)> {
    match resource {
        Ok(edge) => match edge.status {
            Some(status) => Ok(status_text(status, table, color)),
            None => Err(("The NimbraEdge resource has no status yet\n"@, 1)),
        },
        Err(error) => Err(("Failed to parse the NimbraEdge resource: "@ + error@ + "\n"@, 1)),
    }
}

/// What reading the resource ends with, given what came of running `kubectl`.
pub open spec fn kubectl_ending(output: Kubectl) -> Result<Seq<char>, (Seq<char>, i32)> {
    match output {
        Kubectl::NotRun(error) => Err(("Failed to run kubectl: "@ + error@ + "\n"@, 1)),
        Kubectl::Ran { success: true, stdout, .. } => Ok(lossy_text(stdout@)),
        Kubectl::Ran { success: false, code: Some(code), stderr, .. } => Err(
            (lossy_text(stderr@), code),
        ),
        Kubectl::Ran { success: false, code: None, stderr, .. } => Err((lossy_text(stderr@), 1)),
    }
}

/// What `operator status` writes to standard output for the resource as it was
/// read, or how it ends where there is nothing to show. The table shows the
/// records of the components in their order. Where no text of the resource holds
/// an escape, color is only color.
pub fn status(resource: Result<NimbraEdge, String>, color: bool) -> (r: Result<String, Exit>)
    ensures
        match resource {
            Ok(edge) => match edge.status {
                Some(status) => r is Ok && r->Ok_0@ == status_text(
                    status,
                    table_text(component_records(status.components@, color)),
                    color,
                ),
                None => r is Err && r->Err_0.code == 1 && r->Err_0.message@
                    == "The NimbraEdge resource has no status yet\n"@,
            },
            Err(error) => r is Err && r->Err_0.code == 1 && r->Err_0.message@
                == "Failed to parse the NimbraEdge resource: "@ + error@ + "\n"@,
        },
        resource matches Ok(edge) ==> edge.status matches Some(status) ==> ending(r)
            == status_ending(
            resource,
            table_text(component_records(status.components@, color)),
            color,
        ),
        forall|table: Seq<char>|
            (resource is Ok ==> resource->Ok_0.status is None) ==> ending(r)
                == #[trigger] status_ending(resource, table, color),
        resource matches Ok(edge) ==> edge.status matches Some(status) ==> (status.components@.len()
            > 0 ==> shows(
            component_records(status.components@, color),
            table_text(component_records(status.components@, color)),
        )),
        resource matches Ok(edge) ==> edge.status matches Some(status) ==> (status_escape_free(
            status,
        ) ==> only_color(
            status,
            table_text(component_records(status.components@, color)),
            table_text(component_records(status.components@, false)),
            r->Ok_0@,
            color,
        )),
{
    match resource {
        Ok(edge) => match edge.status {
            Some(status) => {
                let table = if status.components.is_empty() {
                    String::new()
                } else {
                    let rows = component_rows(&status.components, color);
                    assert(same_first_column(rows.deep_view(), rows.deep_view()));
                    layout(rows, 2)
                };
                let text = render_status(&status, table.as_str(), color);
                proof {
                    if status_escape_free(status) {
                        lemma_same_first_column(status.components@, color);
                        lemma_only_color(
                            status,
                            color,
                            table_text(component_records(status.components@, color)),
                            table_text(component_records(status.components@, false)),
                        );
                    }
                }
                Ok(text)
            },
            None => Err(
                Exit {
                    message: "The NimbraEdge resource has no status yet\n".to_owned(),
                    code: 1,
                },
            ),
        },
        Err(error) => Err(
            Exit {
                message: "Failed to parse the NimbraEdge resource: ".to_owned().concat(
                    error.as_str(),
                ).concat("\n"),
                code: 1,
            },
        ),
    }
}

/// The text that a sequence of bytes stands for once each piece that is not
/// UTF-8 is replaced.
pub uninterp spec fn lossy_text(bytes: Seq<u8>) -> Seq<char>;

/// `String::from_utf8_lossy` decodes bytes that are UTF-8, and replaces what is
/// not; how much of an invalid sequence one replacement stands for is left to
/// the name.
#[verifier::external_body]
fn from_utf8_lossy(bytes: &Vec<u8>) -> (text: String)
    ensures
        text@ == lossy_text(bytes@),
        valid_utf8(bytes@) ==> text@ == decode_utf8(bytes@),
{
    String::from_utf8_lossy(bytes).into_owned()
}

/// The arguments with which `kubectl` prints the NimbraEdge resource as JSON.
pub fn kubectl_arguments() -> (arguments: Vec<&'static str>)
    ensures
        arguments.deep_view() == seq![
            "get"@,
            "-n"@,
            "edge"@,
            "nimbraedges.nimbra.io"@,
            "edge"@,
            "-o"@,
            "json"@,
        ],
{
    let arguments = vec!["get", "-n", "edge", "nimbraedges.nimbra.io", "edge", "-o", "json"];
    assert(arguments.deep_view() =~= seq![
        "get"@,
        "-n"@,
        "edge"@,
        "nimbraedges.nimbra.io"@,
        "edge"@,
        "-o"@,
        "json"@,
    ]);
    arguments
}

/// The NimbraEdge resource as `kubectl` printed it. Where `kubectl` failed, the
/// command ends with its exit code and passes on what it wrote to standard
/// error.
pub fn get_edge_resource(output: &Kubectl) -> (r: Result<String, Exit>)
    ensures
        match *output {
            Kubectl::NotRun(error) => r is Err && r->Err_0.code == 1 && r->Err_0.message@
                == "Failed to run kubectl: "@ + error@ + "\n"@,
            Kubectl::Ran { success, code, stdout, stderr } => if success {
                r is Ok && r->Ok_0@ == lossy_text(stdout@)
            } else {
                r is Err && r->Err_0.message@ == lossy_text(stderr@) && r->Err_0.code == (
                match code {
                    Some(code) => code,
                    None => 1,
                })
            },
        },
        ending(r) == kubectl_ending(*output),
        output matches Kubectl::Ran { success: true, stdout, .. } ==> valid_utf8(stdout@)
            ==> r->Ok_0@ == decode_utf8(stdout@),
        output matches Kubectl::Ran { success: false, stderr, .. } ==> valid_utf8(stderr@)
            ==> r->Err_0.message@ == decode_utf8(stderr@),
{
    match output {
        Kubectl::NotRun(error) => Err(
            Exit {
                message: "Failed to run kubectl: ".to_owned().concat(error.as_str()).concat("\n"),
                code: 1,
            },
        ),
        Kubectl::Ran { success, code, stdout, stderr } => if *success {
            Ok(from_utf8_lossy(stdout))
        } else {
            Err(
                Exit {
                    message: from_utf8_lossy(stderr),
                    code: match code {
                        Some(code) => *code,
                        None => 1,
                    },
                },
            )
        },
    }
}

} // verus!
