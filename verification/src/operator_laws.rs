//! What holds of every status output.

use vstd::prelude::*;

use crate::lines::{lemma_lines_break, lemma_single_line, lines, single_line};
use crate::operator::{
    any_message, cell, color_off, color_on, colored, component_record, component_records,
    condition_lines, conditions_lines, ending, heading, kubectl_ending, lossy_text, shown,
    status_ending, status_text, status_width, summary_lines, text_or, version_lines, Component,
    Condition, Exit, Kubectl, NimbraEdge, NimbraEdgeStatus, Version, LABEL_WIDTH,
};
use crate::text::{blanks, optional_text, padded};

verus! {

/// Color only puts escapes around a status: behind the escape that turns the
/// color on stands the status, and behind it the escape that turns it off.
pub proof fn law_color_keeps_the_status(status: Seq<char>)
    ensures
        shown(status, false) == status,
        shown(status, true).len() == status.len() + 9,
        shown(status, true).subrange(5, status.len() + 5int) == status,
        color_on(status).len() == 5,
        color_off().len() == 4,
{
    reveal_strlit("\x1b[31m");
    reveal_strlit("\x1b[32m");
    reveal_strlit("\x1b[33m");
    reveal_strlit("\x1b[0m");
    assert(shown(status, true).subrange(5, status.len() + 5int) =~= status);
}

/// The labels of the summary all take up the first column.
pub proof fn law_labels_fill_their_column()
    ensures
        "Phase:            "@.len() == LABEL_WIDTH,
        "Version:          "@.len() == LABEL_WIDTH,
        "Desired version:  "@.len() == LABEL_WIDTH,
        "Previous version: "@.len() == LABEL_WIDTH,
        "Last reconciled:  "@.len() == LABEL_WIDTH,
{
    reveal_strlit("Phase:            ");
    reveal_strlit("Version:          ");
    reveal_strlit("Desired version:  ");
    reveal_strlit("Previous version: ");
    reveal_strlit("Last reconciled:  ");
}

/// The status of a condition stands in the same column as the values of the
/// summary, unless the condition's type is too long for that.
pub proof fn law_conditions_line_up(condition: Condition, color: bool)
    requires
        condition.condition_type@.len() < LABEL_WIDTH,
    ensures
        condition.status@.is_prefix_of(
            condition_lines(condition, color).skip(LABEL_WIDTH as int),
        ),
{
    reveal_strlit(":");
    let label = padded(condition.condition_type@ + ":"@, LABEL_WIDTH as int);
    assert(label.len() == LABEL_WIDTH);
    let status = condition.status@;
    let lines = condition_lines(condition, color);
    assert(lines.skip(LABEL_WIDTH as int).take(status.len() as int) =~= status);
}

/// The width of the statuses is that of the longest: none is longer, and one of
/// them, or the heading, is that long.
pub proof fn law_width_is_that_of_the_longest(components: Seq<Component>)
    ensures
        "Status"@.len() <= status_width(components),
        forall|i: int|
            0 <= i < components.len() ==> (#[trigger] components[i]).status@.len() <= status_width(
                components,
            ),
        status_width(components) == "Status"@.len() || exists|i: int|
            0 <= i < components.len() && (#[trigger] components[i]).status@.len() == status_width(
                components,
            ),
    decreases components.len(),
{
    if components.len() > 0 {
        let rest = components.drop_last();
        law_width_is_that_of_the_longest(rest);
        assert forall|i: int| 0 <= i < components.len() implies (
        #[trigger] components[i]).status@.len() <= status_width(components) by {
            if i < rest.len() {
                assert(rest[i] == components[i]);
            }
        }
        if status_width(components) == status_width(rest) {
            if status_width(rest) != "Status"@.len() {
                let i = choose|i: int|
                    0 <= i < rest.len() && (#[trigger] rest[i]).status@.len() == status_width(rest);
                assert(components[i] == rest[i]);
            }
        } else {
            assert(components[components.len() - 1].status@.len() == status_width(components));
        }
    }
}

/// The number of characters that escapes add to a shown status.
pub open spec fn escapes(color: bool) -> int {
    if color {
        9
    } else {
        0
    }
}

/// The messages line up: escapes aside, each starts in the same place of its
/// cell, two characters behind the longest status, and so does their heading.
pub proof fn law_messages_line_up(components: Seq<Component>, i: int, color: bool)
    requires
        0 <= i < components.len(),
        components[i].message is Some,
    ensures
        ({
            let at = status_width(components) + 2;
            let records = component_records(components, color);
            &&& records[0][1].skip(at) == "Message"@
            &&& records[i + 1][1].skip(at + escapes(color)) == components[i].message->0@
        }),
{
    law_width_is_that_of_the_longest(components);
    law_color_keeps_the_status(components[i].status@);
    let width = status_width(components);
    let records = component_records(components, color);
    assert(any_message(components));
    assert(records[0] == heading(components));
    assert(records[i + 1] == component_record(components[i], width, color));
    lemma_cell_message("Status"@, "Status"@, "Message"@, width);
    lemma_cell_message(
        components[i].status@,
        shown(components[i].status@, color),
        components[i].message->0@,
        width,
    );
}

proof fn lemma_cell_message(status: Seq<char>, shown: Seq<char>, message: Seq<char>, width: int)
    requires
        status.len() <= width,
    ensures
        cell(status, shown, Some(message), width).skip(shown.len() + width - status.len() + 2)
            == message,
{
    reveal_strlit("  ");
    assert(blanks(width - status.len()).len() == width - status.len());
    assert(cell(status, shown, Some(message), width).skip(shown.len() + width - status.len() + 2)
        =~= message);
}

/// Color changes nothing but the last column, and there it only puts escapes
/// around the status: the width of the first column stays as it is without
/// color.
pub proof fn law_color_stays_in_the_last_column(components: Seq<Component>, i: int)
    requires
        0 <= i < components.len(),
    ensures
        ({
            let plain = component_records(components, false);
            let colored = component_records(components, true);
            let status = components[i].status@;
            &&& plain.len() == colored.len() == components.len() + 1
            &&& colored[0] == plain[0]
            &&& colored[i + 1].len() == plain[i + 1].len() == 2
            &&& plain[i + 1][0] == components[i].name@
            &&& colored[i + 1][0] == components[i].name@
            &&& colored[i + 1][1] == shown(status, true) + plain[i + 1][1].skip(status.len() as int)
        }),
{
    let width = status_width(components);
    let status = components[i].status@;
    let plain = component_record(components[i], width, false);
    let colored = component_record(components[i], width, true);
    assert(colored[1] =~= shown(status, true) + plain[1].skip(status.len() as int)) by {
        match optional_text(components[i].message) {
            Some(message) => {},
            None => {
                assert(status.skip(status.len() as int) =~= Seq::<char>::empty());
            },
        }
    }
}

/// `always` colors every output, `never` none, and anything else the output to a
/// terminal alone.
pub proof fn law_choice_decides_the_color(choice: Seq<char>, terminal: bool)
    ensures
        choice == "always"@ ==> colored(choice, terminal),
        choice == "never"@ ==> !colored(choice, terminal),
        choice != "always"@ && choice != "never"@ ==> colored(choice, terminal) == terminal,
{
    reveal_strlit("always");
    reveal_strlit("never");
    assert("always"@.len() != "never"@.len());
}

/// The color of a status says how it is: green for the two that are good, red for
/// the four that are bad, and yellow for every other text.
pub proof fn law_color_says_how_a_status_is(status: Seq<char>)
    ensures
        ({
            let good = status == "Ready"@ || status == "AllHealthy"@;
            let bad = status == "Error"@ || status == "ValidationFailed"@ || status
                == "PermanentError"@ || status == "BillingFailed"@;
            &&& good ==> shown(status, true) == "\x1b[32m"@ + status + "\x1b[0m"@
            &&& bad ==> shown(status, true) == "\x1b[31m"@ + status + "\x1b[0m"@
            &&& !good && !bad ==> shown(status, true) == "\x1b[33m"@ + status + "\x1b[0m"@
            &&& shown(status, false) == status
        }),
{
    reveal_strlit("Ready");
    reveal_strlit("AllHealthy");
    reveal_strlit("Error");
    reveal_strlit("ValidationFailed");
    reveal_strlit("PermanentError");
    reveal_strlit("BillingFailed");
    assert("Ready"@[0] == 'R');
    assert("AllHealthy"@[0] == 'A');
    assert("Error"@[0] == 'E');
    assert("ValidationFailed"@[0] == 'V');
    assert("PermanentError"@[0] == 'P');
    assert("BillingFailed"@[0] == 'B');
}

/// A previous version is shown in a line of its own behind the other versions,
/// whatever those are, and its absence takes away that line alone.
pub proof fn law_previous_version_is_shown_last(version: Version, previous: String)
    requires
        version.previous == Some(previous),
    ensures
        version_lines(version) == version_lines(Version { previous: None, ..version })
            + "Previous version: "@ + previous@ + "\n"@,
{
    assert(version_lines(version) =~= version_lines(Version { previous: None, ..version })
        + "Previous version: "@ + previous@ + "\n"@);
}

/// The desired version is shown behind the installed one exactly where the two
/// differ, one of them being unknown included.
pub proof fn law_desired_version_is_shown_where_it_differs(version: Version)
    requires
        version.previous is None,
    ensures
        ({
            let installed = Version { desired: version.installed, ..version };
            let same = match (version.desired, version.installed) {
                (Some(desired), Some(installed)) => desired@ == installed@,
                (None, None) => true,
                _ => false,
            };
            &&& same ==> version_lines(version) == version_lines(installed)
            &&& !same && version.desired is Some ==> version_lines(version) == version_lines(
                installed,
            ) + "Desired version:  "@ + version.desired->0@ + "\n"@
            &&& !same && version.desired is None ==> version_lines(version) == version_lines(
                installed,
            ) + "Desired version:  unknown\n"@
        }),
{
    reveal_strlit("Desired version:  unknown\n");
    reveal_strlit("Desired version:  ");
    reveal_strlit("unknown");
    reveal_strlit("\n");
    let installed = Version { desired: version.installed, ..version };
    assert("Desired version:  unknown\n"@ =~= "Desired version:  "@ + "unknown"@ + "\n"@);
    assert(version.desired is Some && optional_text(version.desired) != optional_text(
        version.installed,
    ) ==> version_lines(version) =~= version_lines(installed) + "Desired version:  "@
        + version.desired->0@ + "\n"@);
}

/// An installed version that is also the desired one is shown in a single line.
pub proof fn law_installed_version_is_shown(version: Version)
    requires
        version.previous is None,
        version.desired == version.installed,
    ensures
        version.installed matches Some(installed) ==> version_lines(version)
            == "Version:          "@ + installed@ + "\n"@,
        version.installed is None ==> version_lines(version) == "Version:          unknown\n"@,
{
    reveal_strlit("Version:          unknown\n");
    reveal_strlit("Version:          ");
    reveal_strlit("unknown");
    reveal_strlit("\n");
    assert("Version:          unknown\n"@ =~= "Version:          "@ + "unknown"@ + "\n"@);
    let line = "Version:          "@ + (match version.installed {
        Some(installed) => installed@,
        None => "unknown"@,
    }) + "\n"@;
    assert(version_lines(version) =~= line);
}

/// Where there is no previous version, no line is labeled as one.
pub proof fn law_no_line_for_a_missing_previous_version(version: Version, k: int)
    requires
        version.previous is None,
        version.installed is Some ==> single_line(version.installed->0@),
        version.desired is Some ==> single_line(version.desired->0@),
        0 <= k < lines(version_lines(version)).len(),
    ensures
        !"Previous version: "@.is_prefix_of(lines(version_lines(version))[k]),
{
    reveal_strlit("Version:          ");
    reveal_strlit("Desired version:  ");
    reveal_strlit("Previous version: ");
    reveal_strlit("unknown");
    reveal_strlit("\n");
    let none = Seq::<char>::empty();
    let first = "Version:          "@ + text_or(version.installed, "unknown"@);
    let second = "Desired version:  "@ + text_or(version.desired, "unknown"@);
    assert("\n"@ =~= seq!['\n']);
    lemma_single_line(first);
    lemma_single_line(second);
    lemma_single_line(none);
    if optional_text(version.desired) != optional_text(version.installed) {
        assert(version_lines(version) =~= first + seq!['\n'] + (second + seq!['\n'] + none));
        lemma_lines_break(second, none);
        lemma_lines_break(first, second + seq!['\n'] + none);
    } else {
        assert(version_lines(version) =~= first + seq!['\n'] + none);
        lemma_lines_break(first, none);
    }
    let line = lines(version_lines(version))[k];
    assert(line == first || line == second || line == none);
    assert("Previous version: "@[0] == 'P');
}

/// Without versions and a time, the summary is the phase in its color, and
/// `Unknown` where there is none.
pub proof fn law_phase_is_shown_first(status: NimbraEdgeStatus, color: bool)
    requires
        status.version is None,
        status.last_reconciled_at is None,
    ensures
        status.phase matches Some(phase) ==> summary_lines(status, color) == "Phase:            "@
            + shown(phase@, color) + "\n"@,
        status.phase is None ==> summary_lines(status, color) == "Phase:            "@ + shown(
            "Unknown"@,
            color,
        ) + "\n"@,
{
    let phase = match status.phase {
        Some(phase) => phase@,
        None => "Unknown"@,
    };
    assert(summary_lines(status, color) =~= "Phase:            "@ + shown(phase, color) + "\n"@);
}

/// The versions follow the phase, and the time of the last reconciliation follows
/// both, each wherever it is known.
pub proof fn law_versions_and_time_follow_the_phase(status: NimbraEdgeStatus, color: bool)
    ensures
        ({
            let timeless = NimbraEdgeStatus { last_reconciled_at: None, ..status };
            let phase = NimbraEdgeStatus { version: None, ..timeless };
            &&& status.last_reconciled_at matches Some(at) ==> summary_lines(status, color)
                == summary_lines(timeless, color) + "Last reconciled:  "@ + at@ + "\n"@
            &&& status.version matches Some(version) ==> summary_lines(timeless, color)
                == summary_lines(phase, color) + version_lines(version)
        }),
{
    let timeless = NimbraEdgeStatus { last_reconciled_at: None, ..status };
    let phase = NimbraEdgeStatus { version: None, ..timeless };
    if let Some(at) = status.last_reconciled_at {
        assert(summary_lines(status, color) =~= summary_lines(timeless, color)
            + "Last reconciled:  "@ + at@ + "\n"@);
    }
    if let Some(version) = status.version {
        assert(summary_lines(timeless, color) =~= summary_lines(phase, color) + version_lines(
            version,
        ));
    }
}

/// A message of a condition is shown whole, behind the condition's other lines and
/// behind as many spaces as a label takes up. Its absence takes away that line
/// alone.
pub proof fn law_message_of_a_condition_is_shown(
    condition: Condition,
    message: String,
    color: bool,
)
    requires
        condition.message == Some(message),
    ensures
        condition_lines(condition, color) == condition_lines(
            Condition { message: None, ..condition },
            color,
        ) + "                  "@ + message@ + "\n"@,
{
    reveal_strlit("                  ");
    assert("                  "@ =~= blanks(LABEL_WIDTH as int));
    assert(condition_lines(condition, color) =~= condition_lines(
        Condition { message: None, ..condition },
        color,
    ) + "                  "@ + message@ + "\n"@);
}

/// Without a message a condition is one line: its type as a label, its status and,
/// where there is a reason, the reason in its color and in parentheses.
pub proof fn law_condition_is_shown_with_its_reason(condition: Condition, color: bool)
    requires
        condition.message is None,
    ensures
        ({
            let label = padded(condition.condition_type@ + ":"@, 18);
            &&& condition.reason is None ==> condition_lines(condition, color) == label
                + condition.status@ + "\n"@
            &&& condition.reason matches Some(reason) ==> condition_lines(condition, color) == label
                + condition.status@ + " ("@ + shown(reason@, color) + ")"@ + "\n"@
        }),
{
    let label = padded(condition.condition_type@ + ":"@, 18);
    if condition.reason is None {
        assert(condition_lines(condition, color) =~= label + condition.status@ + "\n"@);
    }
    if let Some(reason) = condition.reason {
        assert(condition_lines(condition, color) =~= label + condition.status@ + " ("@ + shown(
            reason@,
            color,
        ) + ")"@ + "\n"@);
    }
}

/// Where no text of it holds a line break, a condition takes up one line, and one
/// more exactly where it has a message.
pub proof fn law_condition_takes_a_line_and_one_for_its_message(condition: Condition)
    requires
        single_line(condition.condition_type@),
        single_line(condition.status@),
        condition.reason is Some ==> single_line(condition.reason->0@),
        condition.message is Some ==> single_line(condition.message->0@),
    ensures
        lines(condition_lines(condition, false)).len() == 2 + if condition.message is Some {
            1int
        } else {
            0int
        },
{
    reveal_strlit(":");
    reveal_strlit(" (");
    reveal_strlit(")");
    reveal_strlit("\n");
    assert("\n"@ =~= seq!['\n']);
    let none = Seq::<char>::empty();
    let head = padded(condition.condition_type@ + ":"@, LABEL_WIDTH as int) + condition.status@ + (
    match condition.reason {
        Some(reason) => " ("@ + reason@ + ")"@,
        None => none,
    });
    assert(single_line(head));
    lemma_single_line(head);
    lemma_single_line(none);
    match condition.message {
        Some(message) => {
            let second = blanks(LABEL_WIDTH as int) + message@;
            lemma_single_line(second);
            assert(condition_lines(condition, false) =~= head + seq!['\n'] + (second + seq!['\n']
                + none));
            lemma_lines_break(second, none);
            lemma_lines_break(head, second + seq!['\n'] + none);
        },
        None => {
            assert(condition_lines(condition, false) =~= head + seq!['\n'] + none);
            lemma_lines_break(head, none);
        },
    }
}

/// Every condition is shown, in its place: the lines of a list of conditions are
/// those of its parts, and those of a single condition are its own.
pub proof fn law_conditions_are_shown_one_by_one(
    a: Seq<Condition>,
    b: Seq<Condition>,
    condition: Condition,
    color: bool,
)
    ensures
        conditions_lines(a + b, color) == conditions_lines(a, color) + conditions_lines(b, color),
        conditions_lines(seq![condition], color) == condition_lines(condition, color),
    decreases b.len(),
{
    let one = seq![condition];
    assert(one.drop_last() =~= Seq::empty());
    assert(one.last() == condition);
    assert(conditions_lines(one.drop_last(), color) =~= Seq::<char>::empty());
    assert(conditions_lines(one, color) =~= condition_lines(condition, color));
    if b.len() == 0 {
        assert(a + b =~= a);
        assert(conditions_lines(a + b, color) =~= conditions_lines(a, color) + conditions_lines(
            b,
            color,
        ));
    } else {
        law_conditions_are_shown_one_by_one(a, b.drop_last(), condition, color);
        assert((a + b).drop_last() =~= a + b.drop_last());
        assert((a + b).last() == b.last());
        assert(conditions_lines(a + b, color) =~= conditions_lines(a, color) + conditions_lines(
            b,
            color,
        ));
    }
}

/// The row of a component holds its name as it is. Its other cell is the status in
/// its color, alone where there is no message; a message stands behind it whole,
/// behind as many spaces as put it two characters behind the longest status.
pub proof fn law_row_holds_the_component(components: Seq<Component>, i: int, color: bool)
    requires
        0 <= i < components.len(),
    ensures
        ({
            let rows = component_records(components, color);
            let component = components[i];
            let gap = status_width(components) + 2 - component.status@.len();
            &&& rows.len() == components.len() + 1
            &&& rows[i + 1].len() == 2
            &&& rows[i + 1][0] == component.name@
            &&& component.message is None ==> rows[i + 1][1] == shown(component.status@, color)
            &&& component.message matches Some(message) ==> rows[i + 1][1] == shown(
                component.status@,
                color,
            ) + Seq::new(gap as nat, |j: int| ' ') + message@
        }),
{
    reveal_strlit("  ");
    law_width_is_that_of_the_longest(components);
    let rows = component_records(components, color);
    let component = components[i];
    let width = status_width(components);
    let gap = width + 2 - component.status@.len();
    assert(component.status@.len() <= width);
    assert(rows[i + 1] == component_record(component, width, color));
    if let Some(message) = component.message {
        assert(rows[i + 1][1] =~= shown(component.status@, color) + Seq::new(
            gap as nat,
            |j: int| ' ',
        ) + message@);
    }
}

/// The table is headed by `Name` and `Status`, and by `Message` exactly where some
/// component has one.
pub proof fn law_heading_names_the_columns(components: Seq<Component>, color: bool)
    ensures
        ({
            let heading = component_records(components, color)[0];
            let gap = status_width(components) + 2 - 6;
            let messages = exists|i: int|
                0 <= i < components.len() && (#[trigger] components[i]).message is Some;
            &&& heading.len() == 2
            &&& heading[0] == "Name"@
            &&& !messages ==> heading[1] == "Status"@
            &&& messages ==> heading[1] == "Status"@ + Seq::new(gap as nat, |j: int| ' ')
                + "Message"@
        }),
{
    reveal_strlit("  ");
    reveal_strlit("Status");
    law_width_is_that_of_the_longest(components);
    let gap = status_width(components) + 2 - 6;
    let row = component_records(components, color)[0];
    assert(row == heading(components));
    if any_message(components) {
        assert(row[1] =~= "Status"@ + Seq::new(gap as nat, |j: int| ' ') + "Message"@);
    }
}

/// What is known of a status is shown in its order: the summary, the conditions
/// and, under a heading of their own, the components wherever there are any. The
/// errors are told in a line, and end the command with code 1.
pub proof fn law_status_is_shown_in_its_order(
    resource: Result<NimbraEdge, String>,
    table: Seq<char>,
    color: bool,
)
    ensures
        resource matches Err(error) ==> status_ending(resource, table, color) == Err::<Seq<char>, _>(
            ("Failed to parse the NimbraEdge resource: "@ + error@ + "\n"@, 1i32),
        ),
        resource matches Ok(edge) ==> match edge.status {
            None => status_ending(resource, table, color) == Err::<Seq<char>, _>(
                ("The NimbraEdge resource has no status yet\n"@, 1i32),
            ),
            Some(status) => {
                let known = summary_lines(status, color) + conditions_lines(
                    status.conditions@,
                    color,
                );
                status_ending(resource, table, color) == Ok::<_, (Seq<char>, i32)>(
                    if status.components@.len() == 0 {
                        known
                    } else {
                        known + "\nComponents:\n"@ + table + "\n"@
                    },
                )
            },
        },
{
    if let Ok(edge) = resource {
        if let Some(status) = edge.status {
            let known = summary_lines(status, color) + conditions_lines(status.conditions@, color);
            assert(status_text(status, table, color) =~= if status.components@.len() == 0 {
                known
            } else {
                known + "\nComponents:\n"@ + table + "\n"@
            });
        }
    }
}

/// What `kubectl` prints is the resource where `kubectl` succeeds. Where it fails,
/// its words and its exit code are passed on, and 1 where it has no code.
pub proof fn law_kubectl_is_passed_on(output: Kubectl)
    ensures
        match output {
            Kubectl::NotRun(error) => kubectl_ending(output) == Err::<Seq<char>, _>(
                ("Failed to run kubectl: "@ + error@ + "\n"@, 1i32),
            ),
            Kubectl::Ran { success, code, stdout, stderr } => {
                let result = kubectl_ending(output);
                &&& result is Ok <==> success
                &&& success ==> result->Ok_0 == lossy_text(stdout@)
                &&& !success ==> result->Err_0.0 == lossy_text(stderr@)
                &&& !success && code is Some ==> result->Err_0.1 == code->0
                &&& !success && code is None ==> result->Err_0.1 == 1
            },
        },
{
}

/// How a command ends is kept as it stands.
pub proof fn law_ending_is_kept(r: Result<String, Exit>)
    ensures
        ending(r) is Ok <==> r is Ok,
        r matches Ok(text) ==> ending(r)->Ok_0 == text@,
        r matches Err(exit) ==> ending(r)->Err_0.0 == exit.message@ && ending(r)->Err_0.1
            == exit.code,
{
}

} // verus!
