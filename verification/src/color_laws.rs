//! Color is only color: without its escapes a colored status output is the one
//! without color.

use vstd::prelude::*;

use crate::escape::{
    behind_escape, esc, escape_free, lemma_behind_escape_is_shorter, lemma_escape_free,
    lemma_lines_escape_free, lemma_lines_of_escape, lemma_lines_of_escape_free,
    lemma_lines_strip_concat, lemma_strips_concat, lemma_uncolored, lines_strip_to, strips_to,
    uncolored,
};
use crate::lines::{
    joined_lines, lemma_joined_lines, lemma_lines_are_single, lemma_tidied_between,
    lemma_trailing_blanks, lines, single_line, tidied,
};
use crate::operator::{
    color_off, color_on, component_record, component_records, components_lines, condition_lines,
    conditions_lines, heading, labeled, phase_line, shown, status_text, status_width,
    summary_lines, text_or, version_lines, Component, Condition, NimbraEdgeStatus, Version,
    LABEL_WIDTH,
};
use crate::table::{
    first_column_alike, laid_out, line_of, record_lines, same_first_column, table_lines,
};
use crate::text::{blanks, optional_text, padded, without_trailing};

verus! {

/// Whether an optional string holds no escape.
pub open spec fn optional_escape_free(s: Option<String>) -> bool {
    s matches Some(s) ==> escape_free(s@)
}

/// Whether no text of a component holds an escape.
pub open spec fn component_escape_free(component: Component) -> bool {
    escape_free(component.name@) && escape_free(component.status@) && optional_escape_free(
        component.message,
    )
}

/// Whether no text of a condition holds an escape.
pub open spec fn condition_escape_free(condition: Condition) -> bool {
    escape_free(condition.condition_type@) && escape_free(condition.status@)
        && optional_escape_free(condition.reason) && optional_escape_free(condition.message)
}

/// Whether no version holds an escape.
pub open spec fn version_escape_free(version: Version) -> bool {
    optional_escape_free(version.desired) && optional_escape_free(version.installed)
        && optional_escape_free(version.previous)
}

/// Whether no text of a status holds an escape.
pub open spec fn status_escape_free(status: NimbraEdgeStatus) -> bool {
    &&& optional_escape_free(status.phase)
    &&& optional_escape_free(status.last_reconciled_at)
    &&& status.version matches Some(version) ==> version_escape_free(version)
    &&& forall|i: int|
        0 <= i < status.components@.len() ==> component_escape_free(
            #[trigger] status.components@[i],
        )
    &&& forall|i: int|
        0 <= i < status.conditions@.len() ==> condition_escape_free(
            #[trigger] status.conditions@[i],
        )
}

proof fn lemma_behind(e: Seq<char>, rest: Seq<char>)
    requires
        e.len() > 0,
        e.last() == 'm',
        forall|i: int| 0 <= i < e.len() - 1 ==> e[i] != 'm',
    ensures
        behind_escape(e + rest) == rest,
    decreases e.len(),
{
    if e.len() == 1 {
        assert((e + rest).drop_first() =~= rest);
    } else {
        assert(e[0] != 'm');
        assert((e + rest).drop_first() =~= e.drop_first() + rest);
        lemma_behind(e.drop_first(), rest);
    }
}

proof fn lemma_escape(e: Seq<char>)
    requires
        e.len() > 1,
        e[0] == esc(),
        e.last() == 'm',
        forall|i: int| 1 <= i < e.len() - 1 ==> e[i] != 'm',
    ensures
        strips_to(e, Seq::empty()),
{
    assert forall|rest: Seq<char>| #[trigger]
        uncolored(e + rest) == Seq::<char>::empty() + uncolored(rest) by {
        assert((e + rest).drop_first() =~= e.drop_first() + rest);
        lemma_behind(e.drop_first(), rest);
        assert(Seq::<char>::empty() + uncolored(rest) =~= uncolored(rest));
    }
}

proof fn lemma_color_escapes(status: Seq<char>)
    ensures
        strips_to(color_on(status), Seq::empty()),
        strips_to(color_off(), Seq::empty()),
        single_line(color_on(status)),
        single_line(color_off()),
{
    reveal_strlit("\x1b[31m");
    reveal_strlit("\x1b[32m");
    reveal_strlit("\x1b[33m");
    reveal_strlit("\x1b[0m");
    lemma_escape(color_on(status));
    lemma_escape(color_off());
}

/// A shown status without its escapes is the status.
pub proof fn lemma_shown(status: Seq<char>, color: bool)
    requires
        escape_free(status),
    ensures
        strips_to(shown(status, color), status),
        lines_strip_to(shown(status, color), status),
{
    lemma_escape_free(status);
    lemma_lines_of_escape_free(status);
    if color {
        let none = Seq::<char>::empty();
        lemma_color_escapes(status);
        lemma_strips_concat(color_on(status), none, status, status);
        lemma_strips_concat(color_on(status) + status, none + status, color_off(), none);
        lemma_lines_of_escape(color_on(status));
        lemma_lines_of_escape(color_off());
        lemma_lines_strip_concat(color_on(status), none, status, status);
        lemma_lines_strip_concat(color_on(status) + status, none + status, color_off(), none);
        assert(none + status + none =~= status);
    }
}

proof fn lemma_labeled(label: Seq<char>, value: Seq<char>, plain: Seq<char>)
    requires
        escape_free(label),
        strips_to(value, plain),
    ensures
        strips_to(labeled(label, value), labeled(label, plain)),
{
    reveal_strlit("\n");
    lemma_escape_free(label);
    lemma_escape_free("\n"@);
    lemma_strips_concat(label, label, value, plain);
    lemma_strips_concat(label + value, label + plain, "\n"@, "\n"@);
}

proof fn lemma_labeled_text(label: Seq<char>, value: Seq<char>)
    requires
        escape_free(label),
        escape_free(value),
    ensures
        strips_to(labeled(label, value), labeled(label, value)),
{
    lemma_escape_free(value);
    lemma_labeled(label, value, value);
}

proof fn lemma_version_lines(version: Version)
    requires
        version_escape_free(version),
    ensures
        strips_to(version_lines(version), version_lines(version)),
{
    reveal_strlit("Version:          ");
    reveal_strlit("Desired version:  ");
    reveal_strlit("Previous version: ");
    reveal_strlit("unknown");
    let none = Seq::<char>::empty();
    lemma_escape_free(none);
    let installed = labeled("Version:          "@, text_or(version.installed, "unknown"@));
    lemma_labeled_text("Version:          "@, text_or(version.installed, "unknown"@));
    let desired = if optional_text(version.desired) != optional_text(version.installed) {
        labeled("Desired version:  "@, text_or(version.desired, "unknown"@))
    } else {
        none
    };
    lemma_labeled_text("Desired version:  "@, text_or(version.desired, "unknown"@));
    let previous = match version.previous {
        Some(previous) => labeled("Previous version: "@, previous@),
        None => none,
    };
    if let Some(previous) = version.previous {
        lemma_labeled_text("Previous version: "@, previous@);
    }
    lemma_strips_concat(installed, installed, desired, desired);
    lemma_strips_concat(installed + desired, installed + desired, previous, previous);
}

proof fn lemma_summary_lines(status: NimbraEdgeStatus, color: bool)
    requires
        status_escape_free(status),
    ensures
        strips_to(summary_lines(status, color), summary_lines(status, false)),
{
    reveal_strlit("Phase:            ");
    reveal_strlit("Last reconciled:  ");
    reveal_strlit("Unknown");
    let none = Seq::<char>::empty();
    lemma_escape_free(none);
    let phase = text_or(status.phase, "Unknown"@);
    lemma_shown(phase, color);
    lemma_labeled("Phase:            "@, shown(phase, color), phase);
    let version = match status.version {
        Some(version) => version_lines(version),
        None => none,
    };
    if let Some(version) = status.version {
        lemma_version_lines(version);
    }
    let reconciled = match status.last_reconciled_at {
        Some(at) => labeled("Last reconciled:  "@, at@),
        None => none,
    };
    if let Some(at) = status.last_reconciled_at {
        lemma_labeled_text("Last reconciled:  "@, at@);
    }
    lemma_strips_concat(phase_line(status, color), phase_line(status, false), version, version);
    lemma_strips_concat(
        phase_line(status, color) + version,
        phase_line(status, false) + version,
        reconciled,
        reconciled,
    );
}

proof fn lemma_condition_lines(condition: Condition, color: bool)
    requires
        condition_escape_free(condition),
    ensures
        strips_to(condition_lines(condition, color), condition_lines(condition, false)),
{
    reveal_strlit(":");
    reveal_strlit(" (");
    reveal_strlit(")");
    reveal_strlit("\n");
    let none = Seq::<char>::empty();
    lemma_escape_free(none);
    let label = padded(condition.condition_type@ + ":"@, LABEL_WIDTH as int);
    let head = label + condition.status@;
    assert(escape_free(head));
    lemma_escape_free(head);
    let reason = |color: bool|
        match condition.reason {
            Some(reason) => " ("@ + shown(reason@, color) + ")"@,
            None => none,
        };
    if let Some(text) = condition.reason {
        lemma_shown(text@, color);
        lemma_escape_free(" ("@);
        lemma_escape_free(")"@);
        lemma_strips_concat(" ("@, " ("@, shown(text@, color), text@);
        lemma_strips_concat(" ("@ + shown(text@, color), " ("@ + text@, ")"@, ")"@);
    }
    lemma_strips_concat(head, head, reason(color), reason(false));
    lemma_escape_free("\n"@);
    lemma_strips_concat(head + reason(color), head + reason(false), "\n"@, "\n"@);
    let message = match condition.message {
        Some(message) => labeled(blanks(LABEL_WIDTH as int), message@),
        None => none,
    };
    if let Some(text) = condition.message {
        lemma_labeled_text(blanks(LABEL_WIDTH as int), text@);
    }
    lemma_strips_concat(
        head + reason(color) + "\n"@,
        head + reason(false) + "\n"@,
        message,
        message,
    );
}

proof fn lemma_conditions_lines(conditions: Seq<Condition>, color: bool)
    requires
        forall|i: int|
            0 <= i < conditions.len() ==> condition_escape_free(#[trigger] conditions[i]),
    ensures
        strips_to(conditions_lines(conditions, color), conditions_lines(conditions, false)),
    decreases conditions.len(),
{
    if conditions.len() == 0 {
        lemma_escape_free(Seq::empty());
    } else {
        let front = conditions.drop_last();
        assert forall|i: int| 0 <= i < front.len() implies condition_escape_free(
            #[trigger] front[i],
        ) by {
            assert(front[i] == conditions[i]);
        }
        lemma_conditions_lines(front, color);
        assert(condition_escape_free(conditions[conditions.len() - 1]));
        lemma_condition_lines(conditions.last(), color);
        lemma_strips_concat(
            conditions_lines(front, color),
            conditions_lines(front, false),
            condition_lines(conditions.last(), color),
            condition_lines(conditions.last(), false),
        );
    }
}

/// Without its escapes, the colored summary is the one without color.
pub proof fn law_summary_without_escapes(status: NimbraEdgeStatus)
    requires
        status_escape_free(status),
    ensures
        uncolored(summary_lines(status, true)) == summary_lines(status, false),
{
    lemma_summary_lines(status, true);
    lemma_uncolored(summary_lines(status, true), summary_lines(status, false));
}

/// Without their escapes, the colored conditions are those without color.
pub proof fn law_conditions_without_escapes(conditions: Seq<Condition>)
    requires
        forall|i: int|
            0 <= i < conditions.len() ==> condition_escape_free(#[trigger] conditions[i]),
    ensures
        uncolored(conditions_lines(conditions, true)) == conditions_lines(conditions, false),
{
    lemma_conditions_lines(conditions, true);
    lemma_uncolored(conditions_lines(conditions, true), conditions_lines(conditions, false));
}

proof fn lemma_cell(component: Component, width: int, color: bool)
    requires
        component_escape_free(component),
    ensures
        ({
            let colored = component_record(component, width, color);
            let plain = component_record(component, width, false);
            strips_to(colored[1], plain[1]) && lines_strip_to(colored[1], plain[1])
        }),
{
    reveal_strlit("  ");
    let status = component.status@;
    lemma_shown(status, color);
    if let Some(message) = component.message {
        let gap = blanks(width - status.len());
        let rest = gap + "  "@ + message@;
        assert(escape_free(rest));
        lemma_escape_free(rest);
        lemma_lines_of_escape_free(rest);
        lemma_strips_concat(shown(status, color), status, rest, rest);
        lemma_lines_strip_concat(shown(status, color), status, rest, rest);
        assert(shown(status, color) + gap + "  "@ + message@ =~= shown(status, color) + rest);
        assert(status + gap + "  "@ + message@ =~= status + rest);
    }
}

proof fn lemma_heading(components: Seq<Component>)
    ensures
        escape_free(heading(components)[0]),
        escape_free(heading(components)[1]),
{
    reveal_strlit("Name");
    reveal_strlit("Status");
    reveal_strlit("Message");
    reveal_strlit("  ");
}

/// What a record of the colored table has in common with that of the plain one.
spec fn alike(colored: Seq<Seq<char>>, plain: Seq<Seq<char>>) -> bool {
    &&& colored.len() == 2
    &&& plain.len() == 2
    &&& colored[0] == plain[0]
    &&& escape_free(plain[0])
    &&& strips_to(colored[1], plain[1])
    &&& lines_strip_to(colored[1], plain[1])
}

proof fn lemma_records(components: Seq<Component>, color: bool)
    requires
        forall|i: int|
            0 <= i < components.len() ==> component_escape_free(#[trigger] components[i]),
    ensures
        ({
            let colored = component_records(components, color);
            let plain = component_records(components, false);
            &&& colored.len() == plain.len()
            &&& forall|i: int| 0 <= i < plain.len() ==> alike(#[trigger] colored[i], plain[i])
            &&& same_first_column(colored, plain)
        }),
{
    let colored = component_records(components, color);
    let plain = component_records(components, false);
    let width = status_width(components);
    assert forall|i: int| 0 <= i < plain.len() implies alike(#[trigger] colored[i], plain[i]) by {
        if i == 0 {
            lemma_heading(components);
            lemma_escape_free(heading(components)[1]);
            lemma_lines_of_escape_free(heading(components)[1]);
        } else {
            assert(component_escape_free(components[i - 1]));
            lemma_cell(components[i - 1], width, color);
            assert(colored[i] == component_record(components[i - 1], width, color));
            assert(plain[i] == component_record(components[i - 1], width, false));
        }
    }
    assert forall|i: int| 0 <= i < colored.len() implies (#[trigger] colored[i])[0] == plain[i][0]
        && lines(colored[i][1]).len() == lines(plain[i][1]).len() by {
        assert(alike(colored[i], plain[i]));
    }
    assert forall|i: int| 0 <= i < plain.len() implies (#[trigger] plain[i]).len() == 2 by {
        assert(alike(colored[i], plain[i]));
    }
    assert forall|i: int| 0 <= i < colored.len() implies (#[trigger] colored[i]).len() == 2 by {
        assert(alike(colored[i], plain[i]));
    }
}

/// Without its escapes, each cell of the colored records is that of the records
/// without color.
pub proof fn law_cells_without_escapes(components: Seq<Component>, i: int, column: int)
    requires
        forall|i: int|
            0 <= i < components.len() ==> component_escape_free(#[trigger] components[i]),
        0 <= i <= components.len(),
        0 <= column < 2,
    ensures
        uncolored(component_records(components, true)[i][column]) == component_records(
            components,
            false,
        )[i][column],
{
    lemma_records(components, true);
    let colored = component_records(components, true)[i];
    let plain = component_records(components, false)[i];
    assert(alike(colored, plain));
    lemma_escape_free(plain[0]);
    lemma_uncolored(plain[0], plain[0]);
    lemma_uncolored(colored[1], plain[1]);
}

/// What a line of the colored table has in common with that of the plain one.
spec fn line_alike(colored: (Seq<char>, Seq<char>), plain: (Seq<char>, Seq<char>)) -> bool {
    &&& colored.0 == plain.0
    &&& escape_free(plain.0)
    &&& single_line(plain.0)
    &&& single_line(plain.1)
    &&& strips_to(colored.1, plain.1)
}

proof fn lemma_line_of(s: Seq<char>, k: int)
    ensures
        single_line(line_of(s, k)),
        escape_free(s) ==> escape_free(line_of(s, k)),
{
    lemma_lines_are_single(s);
    if 0 <= k < lines(s).len() {
        assert(single_line(lines(s)[k]));
        if escape_free(s) {
            lemma_lines_escape_free(s);
            assert(escape_free(lines(s)[k]));
        }
    }
}

proof fn lemma_record_lines(colored: Seq<Seq<char>>, plain: Seq<Seq<char>>)
    requires
        alike(colored, plain),
    ensures
        record_lines(colored).len() == record_lines(plain).len(),
        forall|k: int|
            0 <= k < record_lines(plain).len() ==> line_alike(
                #[trigger] record_lines(colored)[k],
                record_lines(plain)[k],
            ),
{
    assert forall|k: int| 0 <= k < record_lines(plain).len() implies line_alike(
        #[trigger] record_lines(colored)[k],
        record_lines(plain)[k],
    ) by {
        lemma_line_of(plain[0], k);
        lemma_line_of(plain[1], k);
        lemma_escape_free(Seq::empty());
        if k < lines(plain[1]).len() {
            assert(strips_to(lines(colored[1])[k], lines(plain[1])[k]));
        }
    }
}

proof fn lemma_table_lines(colored: Seq<Seq<Seq<char>>>, plain: Seq<Seq<Seq<char>>>)
    requires
        colored.len() == plain.len(),
        forall|i: int| 0 <= i < plain.len() ==> alike(#[trigger] colored[i], plain[i]),
    ensures
        table_lines(colored).len() == table_lines(plain).len(),
        forall|k: int|
            0 <= k < table_lines(plain).len() ==> line_alike(
                #[trigger] table_lines(colored)[k],
                table_lines(plain)[k],
            ),
    decreases plain.len(),
{
    if plain.len() > 0 {
        let c = colored.drop_last();
        let p = plain.drop_last();
        assert forall|i: int| 0 <= i < p.len() implies alike(#[trigger] c[i], p[i]) by {
            assert(alike(colored[i], plain[i]));
        }
        lemma_table_lines(c, p);
        assert(alike(colored[colored.len() - 1], plain[plain.len() - 1]));
        lemma_record_lines(colored.last(), plain.last());
        assert forall|k: int| 0 <= k < table_lines(plain).len() implies line_alike(
            #[trigger] table_lines(colored)[k],
            table_lines(plain)[k],
        ) by {
            let n = table_lines(p).len();
            if k < n {
                assert(table_lines(colored)[k] == table_lines(c)[k]);
                assert(table_lines(plain)[k] == table_lines(p)[k]);
            } else {
                assert(table_lines(colored)[k] == record_lines(colored.last())[k - n]);
                assert(table_lines(plain)[k] == record_lines(plain.last())[k - n]);
            }
        }
    }
}

proof fn lemma_joined_strip(colored: Seq<Seq<char>>, plain: Seq<Seq<char>>)
    requires
        colored.len() == plain.len(),
        forall|k: int| 0 <= k < plain.len() ==> strips_to(#[trigger] colored[k], plain[k]),
    ensures
        strips_to(joined_lines(colored), joined_lines(plain)),
    decreases plain.len(),
{
    if plain.len() == 0 {
        lemma_escape_free(Seq::empty());
    } else if plain.len() == 1 {
        assert(strips_to(colored[0], plain[0]));
    } else {
        let c = colored.drop_last();
        let p = plain.drop_last();
        assert forall|k: int| 0 <= k < p.len() implies strips_to(#[trigger] c[k], p[k]) by {
            assert(strips_to(colored[k], plain[k]));
        }
        lemma_joined_strip(c, p);
        let n = plain.len() - 1;
        assert(strips_to(colored[n], plain[n]));
        lemma_escape_free(seq!['\n']);
        lemma_strips_concat(joined_lines(c), joined_lines(p), seq!['\n'], seq!['\n']);
        lemma_strips_concat(
            joined_lines(c) + seq!['\n'],
            joined_lines(p) + seq!['\n'],
            colored[n],
            plain[n],
        );
    }
}

proof fn lemma_laid_out_strip(
    colored: Seq<(Seq<char>, Seq<char>)>,
    plain: Seq<(Seq<char>, Seq<char>)>,
    gaps: Seq<int>,
    tails: Seq<int>,
)
    requires
        colored.len() == plain.len(),
        forall|k: int| 0 <= k < plain.len() ==> line_alike(#[trigger] colored[k], plain[k]),
    ensures
        strips_to(laid_out(colored, gaps, tails), laid_out(plain, gaps, tails)),
{
    let cs = Seq::new(
        colored.len(),
        |k: int| blanks(1) + colored[k].0 + blanks(gaps[k]) + colored[k].1 + blanks(tails[k]),
    );
    let ps = Seq::new(
        plain.len(),
        |k: int| blanks(1) + plain[k].0 + blanks(gaps[k]) + plain[k].1 + blanks(tails[k]),
    );
    assert forall|k: int| 0 <= k < ps.len() implies strips_to(#[trigger] cs[k], ps[k]) by {
        assert(line_alike(colored[k], plain[k]));
        let head = blanks(1) + plain[k].0 + blanks(gaps[k]);
        assert(escape_free(head));
        lemma_escape_free(head);
        lemma_escape_free(blanks(tails[k]));
        lemma_strips_concat(head, head, colored[k].1, plain[k].1);
        lemma_strips_concat(
            head + colored[k].1,
            head + plain[k].1,
            blanks(tails[k]),
            blanks(tails[k]),
        );
    }
    lemma_joined_strip(cs, ps);
}

proof fn lemma_laid_out_tidied(
    cells: Seq<(Seq<char>, Seq<char>)>,
    gaps: Seq<int>,
    a: Seq<int>,
    b: Seq<int>,
)
    requires
        forall|k: int|
            0 <= k < cells.len() ==> single_line((#[trigger] cells[k]).0) && single_line(cells[k].1),
    ensures
        tidied(laid_out(cells, gaps, a)) == tidied(laid_out(cells, gaps, b)),
{
    if cells.len() == 0 {
        assert(laid_out(cells, gaps, a) == laid_out(cells, gaps, b));
    } else {
        lemma_laid_out_lines(cells, gaps, a);
        lemma_laid_out_lines(cells, gaps, b);
        assert(tidied(laid_out(cells, gaps, a)) =~= tidied(laid_out(cells, gaps, b)));
    }
}

proof fn lemma_laid_out_lines(
    cells: Seq<(Seq<char>, Seq<char>)>,
    gaps: Seq<int>,
    tails: Seq<int>,
)
    requires
        cells.len() > 0,
        forall|k: int|
            0 <= k < cells.len() ==> single_line((#[trigger] cells[k]).0) && single_line(cells[k].1),
    ensures
        tidied(laid_out(cells, gaps, tails)).len() == cells.len(),
        forall|k: int|
            0 <= k < cells.len() ==> #[trigger] tidied(laid_out(cells, gaps, tails))[k]
                == without_trailing(blanks(1) + cells[k].0 + blanks(gaps[k]) + cells[k].1, ' '),
{
    let ls = Seq::new(
        cells.len(),
        |k: int| blanks(1) + cells[k].0 + blanks(gaps[k]) + cells[k].1 + blanks(tails[k]),
    );
    assert forall|k: int| 0 <= k < ls.len() implies single_line(#[trigger] ls[k]) by {
        assert(single_line(cells[k].0) && single_line(cells[k].1));
    }
    lemma_joined_lines(ls);
    assert forall|k: int| 0 <= k < cells.len() implies #[trigger] tidied(
        laid_out(cells, gaps, tails),
    )[k] == without_trailing(blanks(1) + cells[k].0 + blanks(gaps[k]) + cells[k].1, ' ') by {
        assert(lines(laid_out(cells, gaps, tails))[k] == ls[k]);
        lemma_trailing_blanks(
            blanks(1) + cells[k].0 + blanks(gaps[k]) + cells[k].1,
            tails[k],
        );
    }
}

/// Without its escapes, the colored table is the one without color, but for
/// spaces at the ends of lines.
pub proof fn lemma_table_without_escapes(
    components: Seq<Component>,
    color: bool,
    colored: Seq<char>,
    plain: Seq<char>,
)
    requires
        forall|i: int|
            0 <= i < components.len() ==> component_escape_free(#[trigger] components[i]),
        first_column_alike(
            component_records(components, color),
            colored,
            component_records(components, false),
            plain,
        ),
    ensures
        strips_to(colored, uncolored(colored)),
        tidied(uncolored(colored)) == tidied(plain),
        !color ==> uncolored(colored) == colored,
{
    let rc = component_records(components, color);
    let rp = component_records(components, false);
    lemma_records(components, color);
    lemma_table_lines(rc, rp);
    let lc = table_lines(rc);
    let lp = table_lines(rp);
    let (gaps, tails_c, tails_p) = choose|gaps: Seq<int>, tails_c: Seq<int>, tails_p: Seq<int>|
        colored == #[trigger] laid_out(table_lines(rc), gaps, tails_c) && plain
            == #[trigger] laid_out(table_lines(rp), gaps, tails_p);
    lemma_laid_out_strip(lc, lp, gaps, tails_c);
    lemma_uncolored(colored, laid_out(lp, gaps, tails_c));
    assert forall|k: int| 0 <= k < lp.len() implies single_line((#[trigger] lp[k]).0)
        && single_line(lp[k].1) by {
        assert(line_alike(lc[k], lp[k]));
    }
    lemma_laid_out_tidied(lp, gaps, tails_c, tails_p);
}

/// The colored table has the first column of the plain one.
pub proof fn lemma_same_first_column(components: Seq<Component>, color: bool)
    requires
        forall|i: int|
            0 <= i < components.len() ==> component_escape_free(#[trigger] components[i]),
    ensures
        same_first_column(
            component_records(components, color),
            component_records(components, false),
        ),
{
    lemma_records(components, color);
}

/// Color is only color. An output without color holds no escape. An output with
/// color, without its escapes, has the same text around the table as the one
/// without color, and the same table but for spaces at the ends of its lines.
pub open spec fn only_color(
    status: NimbraEdgeStatus,
    table: Seq<char>,
    plain_table: Seq<char>,
    text: Seq<char>,
    color: bool,
) -> bool {
    &&& !color ==> escape_free(text)
    &&& uncolored(text) == status_text(status, uncolored(table), false)
    &&& status.components@.len() > 0 ==> tidied(uncolored(table)) == tidied(plain_table)
    &&& tidied(uncolored(text)) == tidied(status_text(status, plain_table, false))
}

/// What comes before the components.
spec fn lead(status: NimbraEdgeStatus, color: bool) -> Seq<char> {
    summary_lines(status, color) + conditions_lines(status.conditions@, color)
}

proof fn lemma_lead(status: NimbraEdgeStatus, color: bool)
    requires
        status_escape_free(status),
    ensures
        strips_to(lead(status, color), lead(status, false)),
{
    lemma_summary_lines(status, color);
    lemma_conditions_lines(status.conditions@, color);
    lemma_strips_concat(
        summary_lines(status, color),
        summary_lines(status, false),
        conditions_lines(status.conditions@, color),
        conditions_lines(status.conditions@, false),
    );
}

proof fn lemma_components_lines(components: Seq<Component>, colored: Seq<char>, plain: Seq<char>)
    requires
        components.len() > 0 ==> strips_to(colored, plain),
    ensures
        strips_to(components_lines(components, colored), components_lines(components, plain)),
{
    if components.len() == 0 {
        lemma_escape_free(Seq::empty());
    } else {
        let title = "\nComponents:\n"@;
        reveal_strlit("\nComponents:\n");
        reveal_strlit("\n");
        lemma_escape_free(title);
        lemma_escape_free("\n"@);
        lemma_strips_concat(title, title, colored, plain);
        lemma_strips_concat(title + colored, title + plain, "\n"@, "\n"@);
    }
}

proof fn lemma_tidied_status(status: NimbraEdgeStatus, a: Seq<char>, b: Seq<char>)
    requires
        status.components@.len() > 0 ==> tidied(a) == tidied(b),
    ensures
        tidied(status_text(status, a, false)) == tidied(status_text(status, b, false)),
{
    if status.components@.len() > 0 {
        reveal_strlit("\nComponents:\n");
        reveal_strlit("\n");
        let before = lead(status, false) + "\nComponents:\n"@.drop_last();
        lemma_tidied_between(before, a, b);
        assert(status_text(status, a, false) =~= before + seq!['\n'] + a + seq!['\n']);
        assert(status_text(status, b, false) =~= before + seq!['\n'] + b + seq!['\n']);
    }
}

/// Color is only color, whatever table the components are shown in that keeps
/// their first column alike.
pub proof fn lemma_only_color(
    status: NimbraEdgeStatus,
    color: bool,
    colored: Seq<char>,
    plain: Seq<char>,
)
    requires
        status_escape_free(status),
        status.components@.len() > 0 ==> first_column_alike(
            component_records(status.components@, color),
            colored,
            component_records(status.components@, false),
            plain,
        ),
    ensures
        only_color(status, colored, plain, status_text(status, colored, color), color),
{
    let components = status.components@;
    let bare = uncolored(colored);
    if components.len() > 0 {
        lemma_table_without_escapes(components, color, colored, plain);
    }
    lemma_lead(status, color);
    lemma_components_lines(components, colored, bare);
    lemma_strips_concat(
        lead(status, color),
        lead(status, false),
        components_lines(components, colored),
        components_lines(components, bare),
    );
    lemma_uncolored(status_text(status, colored, color), status_text(status, bare, false));
    lemma_tidied_status(status, bare, plain);
    law_uncolored_is_escape_free(status_text(status, colored, color));
}

/// A text without its escapes holds none.
pub proof fn law_uncolored_is_escape_free(s: Seq<char>)
    ensures
        escape_free(uncolored(s)),
    decreases s.len(),
{
    if s.len() > 0 {
        if s.first() == esc() {
            lemma_behind_escape_is_shorter(s.drop_first());
            law_uncolored_is_escape_free(behind_escape(s.drop_first()));
        } else {
            law_uncolored_is_escape_free(s.drop_first());
        }
    }
}

} // verus!
