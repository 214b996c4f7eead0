//! Rendering short status messages for tool output.

use vstd::prelude::*;

verus! {

/// An error message, marked as such.
pub fn format_error(error: &str) -> (r: String)
    ensures
        r@ == "\u{274c} Chyba: "@ + error@,
{
    let mut out = "\u{274c} Chyba: ".to_owned();
    out.append(error);
    out
}

/// A success message, marked as such.
pub fn format_success(message: &str) -> (r: String)
    ensures
        r@ == "\u{2705} "@ + message@,
{
    let mut out = "\u{2705} ".to_owned();
    out.append(message);
    out
}

/// An informational message, marked as such.
pub fn format_info(message: &str) -> (r: String)
    ensures
        r@ == "\u{2139}\u{fe0f} "@ + message@,
{
    let mut out = "\u{2139}\u{fe0f} ".to_owned();
    out.append(message);
    out
}

/// A warning, marked as such.
pub fn format_warning(message: &str) -> (r: String)
    ensures
        r@ == "\u{26a0}\u{fe0f} "@ + message@,
{
    let mut out = "\u{26a0}\u{fe0f} ".to_owned();
    out.append(message);
    out
}

} // verus!

// ===== entity rendering =====

verus! {

use crate::models::{Project, ProjectM, ProjectStatus, Issue, IssueM, User, UserM, TimeEntry,
    TimeEntryM};
use crate::text::{push_char, dec_int};
use crate::dates::{spec_parse_ymd, spec_format_dotted, spec_parse_datetime, spec_format_datetime};

/// An optional labelled line: the label, the text and a line break when the
/// text is present, nothing otherwise.
pub open spec fn opt_line(label: Seq<char>, v: Option<Seq<char>>) -> Seq<char> {
    match v {
        Some(t) => label + t + seq!['\n'],
        None => Seq::empty(),
    }
}

fn push_opt_line(out: &mut String, label: &str, v: &Option<String>)
    ensures
        final(out)@ == old(out)@ + opt_line(label@, crate::ops::ostr(*v)),
{
    match v {
        Some(t) => {
            out.append(label);
            out.append(t.as_str());
            push_char(out, '\n');
            proof {
                assert(out@ =~= old(out)@ + opt_line(label@, crate::ops::ostr(*v)));
            }
        },
        None => {
            proof {
                assert(out@ =~= old(out)@ + opt_line(label@, crate::ops::ostr(*v)));
            }
        },
    }
}

/// A timestamp's display text: the dotted form when the raw text is a full
/// timestamp, the raw text itself otherwise.
#[verifier::opaque]
pub open spec fn datetime_text(raw: Seq<char>) -> Seq<char> {
    match spec_parse_datetime(raw) {
        Some(t) => spec_format_datetime(t),
        None => raw,
    }
}

fn push_datetime_text(out: &mut String, raw: &String)
    ensures
        final(out)@ == old(out)@ + datetime_text(raw@),
{
    proof {
        reveal(datetime_text);
    }
    match crate::dates::parse_datetime(raw.as_str()) {
        Some(t) => {
            let rendered = crate::dates::format_datetime(&t);
            out.append(rendered.as_str());
        },
        None => {
            out.append(raw.as_str());
        },
    }
}

/// A date's display text: the dotted form when the raw text is a strict
/// date, the raw text itself otherwise.
#[verifier::opaque]
pub open spec fn date_text(raw: Seq<char>) -> Seq<char> {
    match spec_parse_ymd(raw, '-') {
        Some(d) => spec_format_dotted(d),
        None => raw,
    }
}

fn push_date_text(out: &mut String, raw: &String)
    ensures
        final(out)@ == old(out)@ + date_text(raw@),
{
    proof {
        reveal(date_text);
    }
    match crate::dates::parse_date(raw.as_str()) {
        Ok(d) => {
            let rendered = crate::dates::format_date_czech(&d);
            out.append(rendered.as_str());
        },
        Err(_) => {
            out.append(raw.as_str());
        },
    }
}

/// A project status's display word.
pub open spec fn project_status_text(s: ProjectStatus) -> Seq<char> {
    match s {
        ProjectStatus::Active => "Aktivní"@,
        ProjectStatus::Closed => "Uzavřený"@,
        ProjectStatus::Archived => "Archivovaný"@,
        ProjectStatus::Planned => "Plánovaný"@,
        ProjectStatus::Deleted => "Smazaný"@,
        ProjectStatus::Unknown(id) => "Neznámý ("@ + dec_int(id as int) + ")"@,
    }
}

fn push_project_status(out: &mut String, s: &ProjectStatus)
    ensures
        final(out)@ == old(out)@ + project_status_text(*s),
{
    match s {
        ProjectStatus::Active => out.append("Aktivní"),
        ProjectStatus::Closed => out.append("Uzavřený"),
        ProjectStatus::Archived => out.append("Archivovaný"),
        ProjectStatus::Planned => out.append("Plánovaný"),
        ProjectStatus::Deleted => out.append("Smazaný"),
        ProjectStatus::Unknown(id) => {
            out.append("Neznámý (");
            crate::text::append_i64(out, *id as i64);
            out.append(")");
            proof {
                assert(out@ =~= old(out)@ + project_status_text(*s));
            }
        },
    }
}

/// The display text of a project.
pub open spec fn spec_format_project(m: ProjectM) -> Seq<char> {
    "Projekt #"@ + dec_int(m.id as int) + ": "@ + m.name + "\n  Status: "@ + project_status_text(
        m.status,
    ) + seq!['\n'] + opt_line("  Popis: "@, m.description) + opt_line(
        "  Identifikátor: "@,
        m.identifier,
    ) + opt_line("  Domovská stránka: "@, m.homepage) + (match m.parent {
        Some(par) => "  Nadřazený projekt: "@ + par.name + " (ID: "@ + dec_int(par.id as int)
            + ")"@ + seq!['\n'],
        None => Seq::<char>::empty(),
    }) + (match m.created_on {
        Some(raw) => "  Vytvořeno: "@ + datetime_text(raw) + seq!['\n'],
        None => Seq::<char>::empty(),
    })
}

/// Renders a project for human-readable tool output.
#[verifier::rlimit(100)]
pub fn format_project(project: &Project) -> (r: String)
    ensures
        r@ == spec_format_project(project.vm()),
{
    let mut out = "Projekt #".to_owned();
    crate::text::append_i64(&mut out, project.id as i64);
    out.append(": ");
    out.append(project.name.as_str());
    out.append("\n  Status: ");
    push_project_status(&mut out, &project.status);
    push_char(&mut out, '\n');
    push_opt_line(&mut out, "  Popis: ", &project.description);
    push_opt_line(&mut out, "  Identifikátor: ", &project.identifier);
    push_opt_line(&mut out, "  Domovská stránka: ", &project.homepage);
    match &project.parent {
        Some(par) => {
            out.append("  Nadřazený projekt: ");
            out.append(par.name.as_str());
            out.append(" (ID: ");
            crate::text::append_i64(&mut out, par.id as i64);
            out.append(")");
            push_char(&mut out, '\n');
        },
        None => {},
    }
    match &project.created_on {
        Some(raw) => {
            out.append("  Vytvořeno: ");
            push_datetime_text(&mut out, raw);
            push_char(&mut out, '\n');
        },
        None => {},
    }
    proof {
        assert(out@ =~= spec_format_project(project.vm()));
    }
    out
}

/// A user status number's display word.
pub open spec fn user_status_text(s: Option<i32>) -> Seq<char> {
    match s {
        Some(v) => if v == 1 {
            "Aktivní"@
        } else if v == 2 {
            "Registrovaný"@
        } else if v == 3 {
            "Zablokovaný"@
        } else {
            "Neznámý"@
        },
        None => "Neznámý"@,
    }
}

/// A text with its default for absence.
pub open spec fn or_na(v: Option<Seq<char>>) -> Seq<char> {
    match v {
        Some(t) => t,
        None => "N/A"@,
    }
}

fn push_user_status(out: &mut String, s: &Option<i32>)
    ensures
        final(out)@ == old(out)@ + user_status_text(*s),
{
    match s {
        Some(v) => {
            if *v == 1 {
                out.append("Aktivní");
            } else if *v == 2 {
                out.append("Registrovaný");
            } else if *v == 3 {
                out.append("Zablokovaný");
            } else {
                out.append("Neznámý");
            }
        },
        None => out.append("Neznámý"),
    }
}

fn push_or_na(out: &mut String, v: &Option<String>)
    ensures
        final(out)@ == old(out)@ + or_na(crate::ops::ostr(*v)),
{
    match v {
        Some(t) => out.append(t.as_str()),
        None => out.append("N/A"),
    }
}

/// The display text of a user.
pub open spec fn spec_format_user(m: UserM) -> Seq<char> {
    "Uživatel #"@ + dec_int(m.id as int) + ": "@ + or_na(m.firstname) + seq![' '] + or_na(
        m.lastname,
    ) + "\n  Status: "@ + user_status_text(m.status) + seq!['\n'] + opt_line(
        "  Přihlašovací jméno: "@,
        m.login,
    ) + opt_line("  Email: "@, m.mail) + (if m.admin == Some(true) {
        "  Role: Administrátor"@ + seq!['\n']
    } else {
        Seq::<char>::empty()
    }) + (match m.created_on {
        Some(raw) => "  Vytvořeno: "@ + datetime_text(raw) + seq!['\n'],
        None => Seq::<char>::empty(),
    }) + (match m.last_login_on {
        Some(raw) => "  Poslední přihlášení: "@ + datetime_text(raw) + seq!['\n'],
        None => Seq::<char>::empty(),
    })
}

/// Renders a user for human-readable tool output.
#[verifier::rlimit(100)]
#[verifier::spinoff_prover]
pub fn format_user(user: &User) -> (r: String)
    ensures
        r@ == spec_format_user(user.vm()),
{
    let mut out = "Uživatel #".to_owned();
    crate::text::append_i64(&mut out, user.id as i64);
    out.append(": ");
    push_or_na(&mut out, &user.firstname);
    push_char(&mut out, ' ');
    push_or_na(&mut out, &user.lastname);
    out.append("\n  Status: ");
    push_user_status(&mut out, &user.status);
    push_char(&mut out, '\n');
    proof {
        assert(out@ =~= "Uživatel #"@ + dec_int(user.vm().id as int) + ": "@ + or_na(
            user.vm().firstname,
        ) + seq![' '] + or_na(user.vm().lastname) + "\n  Status: "@ + user_status_text(
            user.vm().status,
        ) + seq!['\n']);
    }
    push_opt_line(&mut out, "  Přihlašovací jméno: ", &user.login);
    push_opt_line(&mut out, "  Email: ", &user.mail);
    if user.admin == Some(true) {
        out.append("  Role: Administrátor");
        push_char(&mut out, '\n');
    }
    match &user.created_on {
        Some(raw) => {
            out.append("  Vytvořeno: ");
            push_datetime_text(&mut out, raw);
            push_char(&mut out, '\n');
        },
        None => {},
    }
    match &user.last_login_on {
        Some(raw) => {
            out.append("  Poslední přihlášení: ");
            push_datetime_text(&mut out, raw);
            push_char(&mut out, '\n');
        },
        None => {},
    }
    proof {
        assert(out@ =~= spec_format_user(user.vm()));
    }
    out
}

} // verus!

// ===== issues and time entries =====

verus! {

/// A description cut to its first two hundred characters, marked with an
/// ellipsis when something was cut.
pub open spec fn truncated(t: Seq<char>) -> Seq<char> {
    if t.len() > 200 {
        t.subrange(0, 200) + "..."@
    } else {
        t
    }
}

fn push_truncated(out: &mut String, t: &String)
    ensures
        final(out)@ == old(out)@ + truncated(t@),
{
    if t.as_str().unicode_len() > 200 {
        let head = t.as_str().substring_char(0, 200);
        out.append(head);
        out.append("...");
        proof {
            assert(out@ =~= old(out)@ + truncated(t@));
        }
    } else {
        out.append(t.as_str());
    }
}

/// The display text of an issue; the hours amount is shown as the lexeme
/// the upstream sent.
pub open spec fn spec_format_issue(m: IssueM) -> Seq<char> {
    "Úkol #"@ + dec_int(m.id as int) + ": "@ + m.subject + "\n  Projekt: "@ + m.project.name
        + "\n  Tracker: "@ + m.tracker.name + "\n  Status: "@ + m.status.name + "\n  Priorita: "@
        + m.priority.name + seq!['\n'] + issue_detail_lines(m)
}

/// The optional detail lines of an issue's display text.
pub open spec fn issue_detail_lines(m: IssueM) -> Seq<char> {
    issue_people_lines(m) + issue_progress_lines(m)
}

/// The description, author, assignee and estimate lines.
pub open spec fn issue_people_lines(m: IssueM) -> Seq<char> {
    (match m.description {
        Some(d) => "  Popis: "@ + truncated(d) + seq!['\n'],
        None => Seq::<char>::empty(),
    }) + (match m.author {
        Some(a) => "  Autor: "@ + a.name + seq!['\n'],
        None => Seq::<char>::empty(),
    }) + (match m.assigned_to {
        Some(a) => "  Přiřazeno: "@ + a.name + seq!['\n'],
        None => Seq::<char>::empty(),
    }) + opt_line("  Odhadované hodiny: "@, m.estimated_hours)
}

/// The completion and date lines.
pub open spec fn issue_progress_lines(m: IssueM) -> Seq<char> {
    (match m.done_ratio {
        Some(ratio) => "  Dokončeno: "@ + dec_int(ratio as int) + "%"@ + seq!['\n'],
        None => Seq::<char>::empty(),
    }) + (match m.start_date {
        Some(raw) => "  Datum zahájení: "@ + date_text(raw) + seq!['\n'],
        None => Seq::<char>::empty(),
    }) + (match m.due_date {
        Some(raw) => "  Termín dokončení: "@ + date_text(raw) + seq!['\n'],
        None => Seq::<char>::empty(),
    }) + (match m.created_on {
        Some(raw) => "  Vytvořeno: "@ + datetime_text(raw) + seq!['\n'],
        None => Seq::<char>::empty(),
    })
}

/// Renders an issue for human-readable tool output.
#[verifier::rlimit(100)]
#[verifier::spinoff_prover]
pub fn format_issue(issue: &Issue) -> (r: String)
    ensures
        r@ == spec_format_issue(issue.vm()),
{
    let mut out = "Úkol #".to_owned();
    crate::text::append_i64(&mut out, issue.id as i64);
    out.append(": ");
    out.append(issue.subject.as_str());
    out.append("\n  Projekt: ");
    out.append(issue.project.name.as_str());
    out.append("\n  Tracker: ");
    out.append(issue.tracker.name.as_str());
    out.append("\n  Status: ");
    out.append(issue.status.name.as_str());
    out.append("\n  Priorita: ");
    out.append(issue.priority.name.as_str());
    push_char(&mut out, '\n');
    proof {
        assert(out@ =~= "Úkol #"@ + dec_int(issue.vm().id as int) + ": "@ + issue.vm().subject
            + "\n  Projekt: "@ + issue.vm().project.name + "\n  Tracker: "@
            + issue.vm().tracker.name + "\n  Status: "@ + issue.vm().status.name
            + "\n  Priorita: "@ + issue.vm().priority.name + seq!['\n']);
    }
    push_issue_detail_lines(&mut out, issue);
    proof {
        assert(out@ =~= spec_format_issue(issue.vm()));
    }
    out
}

#[verifier::rlimit(100)]
#[verifier::spinoff_prover]
fn push_issue_detail_lines(out: &mut String, issue: &Issue)
    ensures
        final(out)@ == old(out)@ + issue_detail_lines(issue.vm()),
{
    push_issue_people_lines(out, issue);
    push_issue_progress_lines(out, issue);
}

#[verifier::rlimit(100)]
#[verifier::spinoff_prover]
fn push_issue_people_lines(out: &mut String, issue: &Issue)
    ensures
        final(out)@ == old(out)@ + issue_people_lines(issue.vm()),
{
    match &issue.description {
        Some(d) => {
            out.append("  Popis: ");
            push_truncated(out, d);
            push_char(out, '\n');
        },
        None => {},
    }
    match &issue.author {
        Some(a) => {
            out.append("  Autor: ");
            out.append(a.name.as_str());
            push_char(out, '\n');
        },
        None => {},
    }
    match &issue.assigned_to {
        Some(a) => {
            out.append("  Přiřazeno: ");
            out.append(a.name.as_str());
            push_char(out, '\n');
        },
        None => {},
    }
    push_opt_line(out, "  Odhadované hodiny: ", &issue.estimated_hours);
    proof {
        assert(out@ =~= old(out)@ + issue_people_lines(issue.vm()));
    }
}

#[verifier::rlimit(100)]
#[verifier::spinoff_prover]
fn push_issue_progress_lines(out: &mut String, issue: &Issue)
    ensures
        final(out)@ == old(out)@ + issue_progress_lines(issue.vm()),
{
    match issue.done_ratio {
        Some(ratio) => {
            out.append("  Dokončeno: ");
            crate::text::append_i64(out, ratio as i64);
            out.append("%");
            push_char(out, '\n');
        },
        None => {},
    }
    match &issue.start_date {
        Some(raw) => {
            out.append("  Datum zahájení: ");
            push_date_text(out, raw);
            push_char(out, '\n');
        },
        None => {},
    }
    match &issue.due_date {
        Some(raw) => {
            out.append("  Termín dokončení: ");
            push_date_text(out, raw);
            push_char(out, '\n');
        },
        None => {},
    }
    match &issue.created_on {
        Some(raw) => {
            out.append("  Vytvořeno: ");
            push_datetime_text(out, raw);
            push_char(out, '\n');
        },
        None => {},
    }
    proof {
        assert(out@ =~= old(out)@ + issue_progress_lines(issue.vm()));
    }
}

/// The display text of a time entry; the hours amount is shown as the
/// lexeme the upstream sent.
pub open spec fn spec_format_time_entry(m: TimeEntryM) -> Seq<char> {
    "Časový záznam #"@ + dec_int(m.id as int) + ": "@ + m.hours + " hodin\n  Projekt: "@
        + m.project.name + "\n  Aktivita: "@ + m.activity.name + "\n  Datum: "@ + date_text(
        m.spent_on,
    ) + "\n  Uživatel: "@ + m.user.name + seq!['\n'] + (match m.issue {
        Some(iid) => "  Úkol: #"@ + dec_int(iid as int) + seq!['\n'],
        None => Seq::<char>::empty(),
    }) + opt_line("  Komentář: "@, m.comments) + (match m.created_on {
        Some(raw) => "  Vytvořeno: "@ + datetime_text(raw) + seq!['\n'],
        None => Seq::<char>::empty(),
    })
}

/// Renders a time entry for human-readable tool output.
#[verifier::rlimit(100)]
#[verifier::spinoff_prover]
pub fn format_time_entry(time_entry: &TimeEntry) -> (r: String)
    ensures
        r@ == spec_format_time_entry(time_entry.vm()),
{
    let mut out = "Časový záznam #".to_owned();
    crate::text::append_i64(&mut out, time_entry.id as i64);
    out.append(": ");
    out.append(time_entry.hours.as_str());
    out.append(" hodin\n  Projekt: ");
    out.append(time_entry.project.name.as_str());
    out.append("\n  Aktivita: ");
    out.append(time_entry.activity.name.as_str());
    out.append("\n  Datum: ");
    push_date_text(&mut out, &time_entry.spent_on);
    out.append("\n  Uživatel: ");
    out.append(time_entry.user.name.as_str());
    push_char(&mut out, '\n');
    proof {
        assert(out@ =~= "Časový záznam #"@ + dec_int(time_entry.vm().id as int) + ": "@
            + time_entry.vm().hours + " hodin\n  Projekt: "@ + time_entry.vm().project.name
            + "\n  Aktivita: "@ + time_entry.vm().activity.name + "\n  Datum: "@ + date_text(
            time_entry.vm().spent_on,
        ) + "\n  Uživatel: "@ + time_entry.vm().user.name + seq!['\n']);
    }
    match &time_entry.issue {
        Some(iref) => {
            out.append("  Úkol: #");
            crate::text::append_i64(&mut out, iref.id as i64);
            push_char(&mut out, '\n');
        },
        None => {},
    }
    push_opt_line(&mut out, "  Komentář: ", &time_entry.comments);
    match &time_entry.created_on {
        Some(raw) => {
            out.append("  Vytvořeno: ");
            push_datetime_text(&mut out, raw);
            push_char(&mut out, '\n');
        },
        None => {},
    }
    proof {
        assert(out@ =~= spec_format_time_entry(time_entry.vm()));
    }
    out
}

} // verus!
