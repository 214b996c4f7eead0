use easyproject_mcp_server::formatting::{
    format_error, format_success, format_project, format_issue, format_user, format_time_entry,
};
use easyproject_mcp_server::models::{
    Project, ProjectStatus, Issue, IssueStatus, Priority, Tracker, ProjectReference, User,
    UserReference, TimeEntry, TimeEntryActivity, IssueReference,
};

#[test]
fn message_prefixes_match_the_fixed_texts() {
    assert_eq!(format_error("selhalo"), "❌ Chyba: selhalo");
    assert_eq!(format_success("hotovo"), "✅ hotovo");
}

#[test]
fn project_rendering_is_exact() {
    let project = Project {
        id: 7,
        name: "Alpha".to_string(),
        description: Some("Popis projektu".to_string()),
        identifier: Some("alpha".to_string()),
        homepage: None,
        status: ProjectStatus::Active,
        is_public: Some(true),
        parent: None,
        created_on: Some("2023-12-25T10:30:00Z".to_string()),
        updated_on: None,
    };
    assert_eq!(
        format_project(&project),
        "Projekt #7: Alpha\n  Status: Aktivní\n  Popis: Popis projektu\n  Identifikátor: alpha\n  Vytvořeno: 25.12.2023 10:30:00 UTC\n"
    );
}

#[test]
fn issue_rendering_is_exact() {
    let issue = Issue {
        id: 5,
        subject: "Posekat trávník".to_string(),
        description: None,
        project: ProjectReference { id: 1, name: "Alpha".to_string() },
        tracker: Tracker { id: 2, name: "Úloha".to_string() },
        status: IssueStatus { id: 3, name: "Nový".to_string(), is_closed: Some(false) },
        priority: Priority { id: 4, name: "Normální".to_string() },
        author: None,
        assigned_to: Some(UserReference { id: 9, name: "Jan Novák".to_string() }),
        category: None,
        fixed_version: None,
        parent: None,
        estimated_hours: Some("7.5".to_string()),
        done_ratio: Some(40),
        start_date: None,
        due_date: Some("2024-01-19".to_string()),
        created_on: None,
    };
    assert_eq!(
        format_issue(&issue),
        "Úkol #5: Posekat trávník\n  Projekt: Alpha\n  Tracker: Úloha\n  Status: Nový\n  Priorita: Normální\n  Přiřazeno: Jan Novák\n  Odhadované hodiny: 7.5\n  Dokončeno: 40%\n  Termín dokončení: 19.01.2024\n"
    );
}

#[test]
fn user_rendering_is_exact() {
    let user = User {
        id: 3,
        login: Some("jnovak".to_string()),
        admin: Some(true),
        firstname: Some("Jan".to_string()),
        lastname: None,
        mail: Some("jan@firma.cz".to_string()),
        status: Some(1),
        created_on: None,
        last_login_on: None,
    };
    assert_eq!(
        format_user(&user),
        "Uživatel #3: Jan N/A\n  Status: Aktivní\n  Přihlašovací jméno: jnovak\n  Email: jan@firma.cz\n  Role: Administrátor\n"
    );
}

#[test]
fn time_entry_rendering_is_exact() {
    let entry = TimeEntry {
        id: 11,
        project: ProjectReference { id: 1, name: "Alpha".to_string() },
        issue: Some(IssueReference { id: 5 }),
        user: UserReference { id: 3, name: "Jan Novák".to_string() },
        activity: TimeEntryActivity { id: 8, name: "Vývoj".to_string() },
        hours: "2.5".to_string(),
        comments: None,
        spent_on: "2024-01-15".to_string(),
        created_on: None,
    };
    assert_eq!(
        format_time_entry(&entry),
        "Časový záznam #11: 2.5 hodin\n  Projekt: Alpha\n  Aktivita: Vývoj\n  Datum: 15.01.2024\n  Uživatel: Jan Novák\n  Úkol: #5\n"
    );
}

#[test]
fn long_descriptions_are_truncated_with_an_ellipsis() {
    let mut long = String::new();
    for _ in 0..250 {
        long.push('x');
    }
    let issue = Issue {
        id: 1,
        subject: "A".to_string(),
        description: Some(long),
        project: ProjectReference { id: 1, name: "P".to_string() },
        tracker: Tracker { id: 1, name: "T".to_string() },
        status: IssueStatus { id: 1, name: "S".to_string(), is_closed: None },
        priority: Priority { id: 1, name: "N".to_string() },
        author: None,
        assigned_to: None,
        category: None,
        fixed_version: None,
        parent: None,
        estimated_hours: None,
        done_ratio: None,
        start_date: None,
        due_date: None,
        created_on: None,
    };
    let text = format_issue(&issue);
    assert!(text.contains(&format!("  Popis: {}...\n", "x".repeat(200))));
}
