//! The tool registry: a declarative table of the tools this server offers,
//! grouped by category and gated by the per-category configuration flags.
//! Each tool is announced with its name, its description, and an object
//! schema whose properties describe the accepted arguments; the schema
//! texts are data, decoded once at registration by the library's own
//! parser.  Dispatch is by name; the registry never changes after
//! construction.

use vstd::prelude::*;
use crate::json::JsonValue;
use crate::protocol::{Tool, ToolInputSchema};
use crate::config::ToolsConfig;

verus! {

broadcast use vstd::std_specs::vec::group_vec_axioms, vstd::seq::group_seq_axioms;

/// The registered tool names, in registration order.
pub open spec fn names_model(tools: Seq<Tool>) -> Seq<Seq<char>> {
    tools.map_values(|t: Tool| t.name@)
}

/// Every announced schema is an object schema that admits no undeclared
/// members and defers its required-member list to the properties.
pub open spec fn tool_shape_ok(t: Tool) -> bool {
    &&& t.input_schema.schema_type@ == "object"@
    &&& t.input_schema.required is None
    &&& t.input_schema.additional_properties == Some(false)
}

/// Every tool in the list is announced in that shape.
pub open spec fn tools_shape_ok(tools: Seq<Tool>) -> bool {
    forall|i: int| 0 <= i < tools.len() ==> tool_shape_ok(#[trigger] tools[i])
}

/// The names the registry holds for a configuration: each category
/// contributes its tools exactly when it is enabled.
pub open spec fn spec_registry_names(cfg: ToolsConfig) -> Seq<Seq<char>> {
    (if cfg.projects.enabled {
        seq![
            "list_projects"@,
            "get_project"@,
            "create_project"@,
            "update_project"@,
            "delete_project"@,
        ]
    } else {
        Seq::<Seq<char>>::empty()
    }) + (if cfg.issues.enabled {
        seq![
            "list_issues"@,
            "get_issue"@,
            "create_issue"@,
            "update_issue"@,
            "assign_issue"@,
            "complete_task"@,
            "get_issue_enumerations"@,
        ]
    } else {
        Seq::<Seq<char>>::empty()
    }) + (if cfg.users.enabled {
        seq!["list_users"@, "get_user"@, "get_user_workload"@]
    } else {
        Seq::<Seq<char>>::empty()
    }) + (if cfg.time_entries.enabled {
        seq![
            "list_time_entries"@,
            "get_time_entry"@,
            "create_time_entry"@,
            "update_time_entry"@,
            "delete_time_entry"@,
            "log_time"@,
        ]
    } else {
        Seq::<Seq<char>>::empty()
    }) + (if cfg.reports.enabled {
        seq!["generate_project_report"@, "get_dashboard_data"@]
    } else {
        Seq::<Seq<char>>::empty()
    }) + (if cfg.milestones.enabled {
        seq![
            "list_milestones"@,
            "get_milestone"@,
            "create_milestone"@,
            "update_milestone"@,
            "delete_milestone"@,
        ]
    } else {
        Seq::<Seq<char>>::empty()
    })
}

/// Whether a name is among the registered names.
pub open spec fn spec_has_name(names: Seq<Seq<char>>, name: Seq<char>) -> bool {
    exists|i: int| 0 <= i < names.len() && names[i] == name
}

/// The tool registry.
pub struct ToolRegistry {
    pub tools: Vec<Tool>,
}

fn reg(tools: &mut Vec<Tool>, name: &str, description: &str, properties: Option<JsonValue>)
    ensures
        names_model(final(tools)@) == names_model(old(tools)@).push(name@),
        tools_shape_ok(old(tools)@) ==> tools_shape_ok(final(tools)@),
{
    let t = Tool {
        name: name.to_owned(),
        description: description.to_owned(),
        input_schema: ToolInputSchema {
            schema_type: "object".to_owned(),
            properties,
            required: None,
            additional_properties: Some(false),
        },
    };
    tools.push(t);
    proof {
        assert(names_model(tools@) =~= names_model(old(tools)@).push(name@));
        if tools_shape_ok(old(tools)@) {
            assert forall|i: int| 0 <= i < tools@.len() implies tool_shape_ok(
                #[trigger] tools@[i],
            ) by {
                if i < tools@.len() - 1 {
                    assert(tools@[i] == old(tools)@[i]);
                }
            }
        }
    }
}

/// Appends the extras property (the parameter listing requested extras) to
/// a parsed schema; the property's name is assembled by `extras_key_string`.
fn with_extras(props: Option<JsonValue>, extras_text: &str) -> (r: Option<JsonValue>) {
    match props {
        Some(v) => match v {
            JsonValue::Obj(mut fields) => {
                match crate::json::parse_json_text(extras_text) {
                    Some(e) => {
                        fields.push((crate::request::extras_key_string(), e));
                    },
                    None => {},
                }
                Some(JsonValue::Obj(fields))
            },
            other => Some(other),
        },
        None => None,
    }
}

impl ToolRegistry {
    /// The registered names.
    pub open spec fn names(self) -> Seq<Seq<char>> {
        names_model(self.tools@)
    }

    /// Whether a tool with this name is registered.
    pub open spec fn spec_has(self, name: Seq<char>) -> bool {
        spec_has_name(self.names(), name)
    }

    /// Builds the registry from the per-category configuration flags: a
    /// declarative table, one entry per tool, in a fixed order, each with
    /// its argument schema.
    pub fn new(cfg: &ToolsConfig) -> (r: ToolRegistry)
        ensures
            r.names() == spec_registry_names(*cfg),
            tools_shape_ok(r.tools@),
    {
        let mut tools: Vec<Tool> = Vec::new();
        reg_projects(&mut tools, cfg);
        reg_issues(&mut tools, cfg);
        reg_users(&mut tools, cfg);
        reg_time_entries(&mut tools, cfg);
        reg_reports(&mut tools, cfg);
        reg_milestones(&mut tools, cfg);
        let r = ToolRegistry { tools };
        proof {
            assert(r.names() =~= spec_registry_names(*cfg));
        }
        r
    }

    /// How many tools are registered.
    pub fn tool_count(&self) -> (r: usize)
        ensures
            r == self.names().len(),
    {
        self.tools.len()
    }

    /// Whether a tool with this name is registered.
    pub fn has_tool(&self, tool_name: &str) -> (r: bool)
        ensures
            r == self.spec_has(tool_name@),
    {
        let needle = tool_name.to_owned();
        let mut i: usize = 0;
        while i < self.tools.len()
            invariant
                i <= self.tools@.len(),
                needle@ == tool_name@,
                forall|j: int| 0 <= j < i ==> (#[trigger] self.names()[j]) != tool_name@,
            decreases self.tools@.len() - i,
        {
            if self.tools[i].name.eq(&needle) {
                proof {
                    assert(self.names()[i as int] == tool_name@);
                }
                return true;
            }
            proof {
                assert(self.names()[i as int] == self.tools@[i as int].name@);
            }
            i = i + 1;
        }
        false
    }

    /// The registered tools, for announcement.
    pub fn list_tools(&self) -> (r: &Vec<Tool>)
        ensures
            r == &self.tools,
    {
        &self.tools
    }
}

fn reg_projects(tools: &mut Vec<Tool>, cfg: &ToolsConfig)
    ensures
        names_model(final(tools)@) == names_model(old(tools)@) + (if cfg.projects.enabled {
            seq![
                "list_projects"@,
                "get_project"@,
                "create_project"@,
                "update_project"@,
                "delete_project"@,
            ]
        } else {
            Seq::<Seq<char>>::empty()
        }),
        tools_shape_ok(old(tools)@) ==> tools_shape_ok(final(tools)@),
{
    if cfg.projects.enabled {
        reg(
            tools,
            "list_projects",
            "Získá seznam všech projektů v EasyProject systému s možností fulltextového vyhledávání, filtrování a řazení. \
        \n\nPoužití: Pro vyhledání projektů podle názvu nebo identifikátoru použijte parametr 'search'. \
        \nPříklad: search='Webový projekt' najde všechny projekty obsahující tento text v názvu nebo identifikátoru.",
            crate::json::parse_json_text(r#"{"limit": {"type": "integer", "description": "Maximální počet projektů k vrácení (výchozí: 25, maximum: 100)", "minimum": 1, "maximum": 100}, "offset": {"type": "integer", "description": "Počet projektů k přeskočení pro stránkování", "minimum": 0}, "include_archived": {"type": "boolean", "description": "Zda zahrnout archivované projekty (výchozí: false)"}, "search": {"type": "string", "description": "Fulltextové vyhledávání v názvech a identifikátorech projektů (např. 'webový projekt')"}, "sort": {"type": "string", "description": "Řazení výsledků (např. 'name' nebo 'created_on:desc'). Formát: 'pole' nebo 'pole:desc'"}}"#),
        );
        reg(
            tools,
            "get_project",
            "Získá detail konkrétního projektu podle ID",
            with_extras(crate::json::parse_json_text(r#"{"id": {"type": "integer", "description": "ID projektu"}}"#), r#"{"type": "array", "description": "Dodatečné informace k zahrnutí (trackers, issue_categories, enabled_modules, atd.)", "items": {"type": "string", "enum": ["trackers", "issue_categories", "issue_custom_fields", "enabled_modules", "completed_percent", "journals", "easy_stakeholders"]}}"#),
        );
        reg(
            tools,
            "create_project",
            "Vytvoří nový projekt v EasyProject systému",
            crate::json::parse_json_text(r#"{"name": {"type": "string", "description": "Název projektu (povinné)"}, "description": {"type": "string", "description": "Popis projektu"}, "identifier": {"type": "string", "description": "Unikátní identifikátor projektu"}, "homepage": {"type": "string", "description": "URL domovské stránky projektu"}, "is_public": {"type": "boolean", "description": "Zda je projekt veřejný"}, "parent_id": {"type": "integer", "description": "ID nadřazeného projektu"}, "inherit_members": {"type": "boolean", "description": "Zda dědit členy z nadřazeného projektu"}, "tracker_ids": {"type": "array", "description": "Seznam ID trackerů povolených v projektu", "items": {"type": "integer"}}, "enabled_module_names": {"type": "array", "description": "Seznam názvů povolených modulů", "items": {"type": "string"}}}"#),
        );
        reg(
            tools,
            "update_project",
            "Aktualizuje existující projekt v EasyProject systému",
            crate::json::parse_json_text(r#"{"id": {"type": "integer", "description": "ID projektu k aktualizaci (povinné)"}, "name": {"type": "string", "description": "Nový název projektu"}, "description": {"type": "string", "description": "Nový popis projektu"}, "identifier": {"type": "string", "description": "Nový identifikátor projektu"}, "homepage": {"type": "string", "description": "Nová URL domovské stránky"}, "is_public": {"type": "boolean", "description": "Zda je projekt veřejný"}, "parent_id": {"type": "integer", "description": "ID nového nadřazeného projektu"}, "inherit_members": {"type": "boolean", "description": "Zda dědit členy z nadřazeného projektu"}, "tracker_ids": {"type": "array", "description": "Seznam ID trackerů povolených v projektu", "items": {"type": "integer"}}, "enabled_module_names": {"type": "array", "description": "Seznam názvů povolených modulů", "items": {"type": "string"}}}"#),
        );
        reg(
            tools,
            "delete_project",
            "Smaže projekt z EasyProject systému (POZOR: Tato operace je nevratná!)",
            crate::json::parse_json_text(r#"{"id": {"type": "integer", "description": "ID projektu k smazání (povinné)"}}"#),
        );
        proof {
            assert(names_model(tools@) =~= names_model(old(tools)@) + seq![
                "list_projects"@,
                "get_project"@,
                "create_project"@,
                "update_project"@,
                "delete_project"@,
            ]);
        }
    } else {
        proof {
            assert(names_model(tools@) =~= names_model(old(tools)@) + Seq::<Seq<char>>::empty());
        }
    }
}

fn reg_issues(tools: &mut Vec<Tool>, cfg: &ToolsConfig)
    ensures
        names_model(final(tools)@) == names_model(old(tools)@) + (if cfg.issues.enabled {
            seq![
                "list_issues"@,
                "get_issue"@,
                "create_issue"@,
                "update_issue"@,
                "assign_issue"@,
                "complete_task"@,
                "get_issue_enumerations"@,
            ]
        } else {
            Seq::<Seq<char>>::empty()
        }),
        tools_shape_ok(old(tools)@) ==> tools_shape_ok(final(tools)@),
{
    if cfg.issues.enabled {
        reg(
            tools,
            "list_issues",
            "Získá seznam úkolů (issues) s možností filtrování podle projektu a stránkování",
            with_extras(crate::json::parse_json_text(r#"{"project_id": {"type": "integer", "description": "ID projektu pro filtrování úkolů"}, "limit": {"type": "integer", "description": "Maximální počet úkolů k vrácení (výchozí: 25, maximum: 100)", "minimum": 1, "maximum": 100}, "offset": {"type": "integer", "description": "Počet úkolů k přeskočení pro stránkování", "minimum": 0}}"#), r#"{"type": "array", "description": "Dodatečné informace k zahrnutí", "items": {"type": "string", "enum": ["attachments", "relations", "total_estimated_time", "spent_time", "checklists"]}}"#),
        );
        reg(
            tools,
            "get_issue",
            "Získá detail konkrétního úkolu podle ID",
            with_extras(crate::json::parse_json_text(r#"{"id": {"type": "integer", "description": "ID úkolu"}}"#), r#"{"type": "array", "description": "Dodatečné informace k zahrnutí", "items": {"type": "string", "enum": ["attachments", "relations", "total_estimated_time", "spent_time", "checklists"]}}"#),
        );
        reg(
            tools,
            "create_issue",
            "Vytvoří nový úkol v EasyProject systému",
            crate::json::parse_json_text(r#"{"project_id": {"type": "integer", "description": "ID projektu (povinné)"}, "tracker_id": {"type": "integer", "description": "ID trackeru (povinné)"}, "status_id": {"type": "integer", "description": "ID statusu (povinné)"}, "priority_id": {"type": "integer", "description": "ID priority (povinné)"}, "subject": {"type": "string", "description": "Název úkolu (povinné)"}, "description": {"type": "string", "description": "Popis úkolu"}, "category_id": {"type": "integer", "description": "ID kategorie"}, "fixed_version_id": {"type": "integer", "description": "ID verze/milníku"}, "assigned_to_id": {"type": "integer", "description": "ID uživatele, kterému je úkol přiřazen"}, "parent_issue_id": {"type": "integer", "description": "ID nadřazeného úkolu"}, "estimated_hours": {"type": "number", "description": "Odhadované hodiny"}, "start_date": {"type": "string", "format": "date", "description": "Datum zahájení (YYYY-MM-DD)"}, "due_date": {"type": "string", "format": "date", "description": "Termín dokončení (YYYY-MM-DD)"}, "done_ratio": {"type": "integer", "description": "Procento dokončení (0-100)", "minimum": 0, "maximum": 100}}"#),
        );
        reg(
            tools,
            "update_issue",
            "Aktualizuje existující úkol v EasyProject systému",
            crate::json::parse_json_text(r#"{"id": {"type": "integer", "description": "ID úkolu k aktualizaci (povinné)"}, "subject": {"type": "string", "description": "Nový název úkolu"}, "description": {"type": "string", "description": "Nový popis úkolu"}, "status_id": {"type": "integer", "description": "Nové ID statusu"}, "priority_id": {"type": "integer", "description": "Nové ID priority"}, "assigned_to_id": {"type": "integer", "description": "ID uživatele, kterému přiřadit úkol"}, "done_ratio": {"type": "integer", "description": "Nové procento dokončení (0-100)", "minimum": 0, "maximum": 100}, "estimated_hours": {"type": "number", "description": "Nové odhadované hodiny"}, "start_date": {"type": "string", "format": "date", "description": "Nové datum zahájení (YYYY-MM-DD)"}, "due_date": {"type": "string", "format": "date", "description": "Nový termín dokončení (YYYY-MM-DD)"}}"#),
        );
        reg(
            tools,
            "assign_issue",
            "Přiřadí úkol konkrétnímu uživateli",
            crate::json::parse_json_text(r#"{"id": {"type": "integer", "description": "ID úkolu k přiřazení (povinné)"}, "assigned_to_id": {"type": "integer", "description": "ID uživatele, kterému přiřadit úkol (povinné)"}}"#),
        );
        reg(
            tools,
            "complete_task",
            "Označí úkol jako dokončený (nastaví done_ratio na 100%)",
            crate::json::parse_json_text(r#"{"id": {"type": "integer", "description": "ID úkolu k označení jako dokončený (povinné)"}, "done_ratio": {"type": "integer", "description": "Procento dokončení (výchozí: 100)", "minimum": 0, "maximum": 100, "default": 100}}"#),
        );
        reg(
            tools,
            "get_issue_enumerations",
            "Získá číselníky (status, priority, tracker) pro použití při filtrování úkolů. \
        \n\nTool INTERNĚ skenuje všechny issues pomocí paginace a vrací pouze kompaktní seznam ID a názvů. \
        Žádné velké datové množiny nejsou vraceny do LLM kontextu. \
        \n\nVyužití: Zavolejte před použitím list_issues s filtry status_id, priority_id nebo tracker_id.",
            crate::json::parse_json_text(r#"{"project_id": {"type": "integer", "description": "Volitelné ID projektu pro získání specifických číselníků tohoto projektu"}}"#),
        );
        proof {
            assert(names_model(tools@) =~= names_model(old(tools)@) + seq![
                "list_issues"@,
                "get_issue"@,
                "create_issue"@,
                "update_issue"@,
                "assign_issue"@,
                "complete_task"@,
                "get_issue_enumerations"@,
            ]);
        }
    } else {
        proof {
            assert(names_model(tools@) =~= names_model(old(tools)@) + Seq::<Seq<char>>::empty());
        }
    }
}

fn reg_users(tools: &mut Vec<Tool>, cfg: &ToolsConfig)
    ensures
        names_model(final(tools)@) == names_model(old(tools)@) + (if cfg.users.enabled {
            seq!["list_users"@, "get_user"@, "get_user_workload"@]
        } else {
            Seq::<Seq<char>>::empty()
        }),
        tools_shape_ok(old(tools)@) ==> tools_shape_ok(final(tools)@),
{
    if cfg.users.enabled {
        reg(
            tools,
            "list_users",
            "Získá seznam všech uživatelů v EasyProject systému s možností fulltextového vyhledávání a filtrování. \
        \n\nPoužití: Pro vyhledání uživatelů podle jména nebo emailu použijte parametr 'search'. \
        Pro filtrování podle stavu použijte 'status' (např. 'active' pro aktivní uživatele). \
        \nPříklad: search='Jan Novák' najde všechny uživatele obsahující tento text ve jménu.",
            crate::json::parse_json_text(r#"{"limit": {"type": "integer", "description": "Maximální počet uživatelů k vrácení (výchozí: 25, maximum: 100)", "minimum": 1, "maximum": 100}, "offset": {"type": "integer", "description": "Počet uživatelů k přeskočení pro stránkování", "minimum": 0}, "search": {"type": "string", "description": "Fulltextové vyhledávání ve jménech a emailech uživatelů (např. 'Jan Novák' nebo 'jan@firma.cz')"}, "sort": {"type": "string", "description": "Řazení výsledků (např. 'lastname' nebo 'created_on:desc'). Formát: 'pole' nebo 'pole:desc'"}, "status": {"type": "string", "description": "Filtrování podle stavu uživatele", "enum": ["active", "locked", "registered"]}}"#),
        );
        reg(
            tools,
            "get_user",
            "Získá detail konkrétního uživatele podle ID",
            crate::json::parse_json_text(r#"{"id": {"type": "integer", "description": "ID uživatele"}}"#),
        );
        reg(
            tools,
            "get_user_workload",
            "Získá pracovní vytížení uživatele - přehled přiřazených úkolů a odpracovaných hodin",
            crate::json::parse_json_text(r#"{"id": {"type": "integer", "description": "ID uživatele"}, "from_date": {"type": "string", "pattern": "^\\d{4}-\\d{2}-\\d{2}$", "description": "Datum od pro filtrování časových záznamů (formát: YYYY-MM-DD)"}, "to_date": {"type": "string", "pattern": "^\\d{4}-\\d{2}-\\d{2}$", "description": "Datum do pro filtrování časových záznamů (formát: YYYY-MM-DD)"}}"#),
        );
        proof {
            assert(names_model(tools@) =~= names_model(old(tools)@) + seq!["list_users"@, "get_user"@, "get_user_workload"@]);
        }
    } else {
        proof {
            assert(names_model(tools@) =~= names_model(old(tools)@) + Seq::<Seq<char>>::empty());
        }
    }
}

fn reg_time_entries(tools: &mut Vec<Tool>, cfg: &ToolsConfig)
    ensures
        names_model(final(tools)@) == names_model(old(tools)@) + (if cfg.time_entries.enabled {
            seq![
                "list_time_entries"@,
                "get_time_entry"@,
                "create_time_entry"@,
                "update_time_entry"@,
                "delete_time_entry"@,
                "log_time"@,
            ]
        } else {
            Seq::<Seq<char>>::empty()
        }),
        tools_shape_ok(old(tools)@) ==> tools_shape_ok(final(tools)@),
{
    if cfg.time_entries.enabled {
        reg(
            tools,
            "list_time_entries",
            "Získá seznam časových záznamů s možností filtrování podle projektu, úkolu, uživatele a data",
            crate::json::parse_json_text(r#"{"limit": {"type": "integer", "description": "Maximální počet záznamů k vrácení (výchozí: 25, maximum: 100)", "minimum": 1, "maximum": 100}, "offset": {"type": "integer", "description": "Počet záznamů k přeskočení pro stránkování", "minimum": 0}, "project_id": {"type": "integer", "description": "ID projektu pro filtrování"}, "issue_id": {"type": "integer", "description": "ID úkolu pro filtrování"}, "user_id": {"type": "integer", "description": "ID uživatele pro filtrování"}, "from_date": {"type": "string", "pattern": "^\\d{4}-\\d{2}-\\d{2}$", "description": "Datum od (formát: YYYY-MM-DD)"}, "to_date": {"type": "string", "pattern": "^\\d{4}-\\d{2}-\\d{2}$", "description": "Datum do (formát: YYYY-MM-DD)"}}"#),
        );
        reg(
            tools,
            "get_time_entry",
            "Získá detail konkrétního časového záznamu podle ID",
            crate::json::parse_json_text(r#"{"id": {"type": "integer", "description": "ID časového záznamu"}}"#),
        );
        reg(
            tools,
            "create_time_entry",
            "Vytvoří nový časový záznam pro projekt nebo úkol",
            crate::json::parse_json_text(r#"{"hours": {"type": "number", "description": "Počet odpracovaných hodin", "minimum": 0.01, "maximum": 24.0}, "activity_id": {"type": "integer", "description": "ID aktivity"}, "spent_on": {"type": "string", "pattern": "^\\d{4}-\\d{2}-\\d{2}$", "description": "Datum práce (formát: YYYY-MM-DD)"}, "issue_id": {"type": "integer", "description": "ID úkolu (alternativně k project_id)"}, "project_id": {"type": "integer", "description": "ID projektu (alternativně k issue_id)"}, "comments": {"type": "string", "description": "Komentář k časovému záznamu"}}"#),
        );
        reg(
            tools,
            "update_time_entry",
            "Aktualizuje existující časový záznam",
            crate::json::parse_json_text(r#"{"id": {"type": "integer", "description": "ID časového záznamu"}, "hours": {"type": "number", "description": "Počet odpracovaných hodin", "minimum": 0.01, "maximum": 24.0}, "activity_id": {"type": "integer", "description": "ID aktivity"}, "spent_on": {"type": "string", "pattern": "^\\d{4}-\\d{2}-\\d{2}$", "description": "Datum práce (formát: YYYY-MM-DD)"}, "issue_id": {"type": "integer", "description": "ID úkolu"}, "project_id": {"type": "integer", "description": "ID projektu"}, "comments": {"type": "string", "description": "Komentář k časovému záznamu"}}"#),
        );
        reg(
            tools,
            "delete_time_entry",
            "Smaže časový záznam",
            crate::json::parse_json_text(r#"{"id": {"type": "integer", "description": "ID časového záznamu ke smazání"}}"#),
        );
        reg(
            tools,
            "log_time",
            "Rychle zaloguje čas na projekt nebo úkol (výchozí datum je dnes)",
            crate::json::parse_json_text(r#"{"hours": {"type": "number", "description": "Počet odpracovaných hodin", "minimum": 0.01, "maximum": 24.0}, "activity_id": {"type": "integer", "description": "ID aktivity"}, "issue_id": {"type": "integer", "description": "ID úkolu (alternativně k project_id)"}, "project_id": {"type": "integer", "description": "ID projektu (alternativně k issue_id)"}, "comments": {"type": "string", "description": "Komentář k časovému záznamu"}, "date": {"type": "string", "pattern": "^\\d{4}-\\d{2}-\\d{2}$", "description": "Datum práce (formát: YYYY-MM-DD, výchozí: dnes)"}}"#),
        );
        proof {
            assert(names_model(tools@) =~= names_model(old(tools)@) + seq![
                "list_time_entries"@,
                "get_time_entry"@,
                "create_time_entry"@,
                "update_time_entry"@,
                "delete_time_entry"@,
                "log_time"@,
            ]);
        }
    } else {
        proof {
            assert(names_model(tools@) =~= names_model(old(tools)@) + Seq::<Seq<char>>::empty());
        }
    }
}

fn reg_reports(tools: &mut Vec<Tool>, cfg: &ToolsConfig)
    ensures
        names_model(final(tools)@) == names_model(old(tools)@) + (if cfg.reports.enabled {
            seq!["generate_project_report"@, "get_dashboard_data"@]
        } else {
            Seq::<Seq<char>>::empty()
        }),
        tools_shape_ok(old(tools)@) ==> tools_shape_ok(final(tools)@),
{
    if cfg.reports.enabled {
        reg(
            tools,
            "generate_project_report",
            "Generuje detailní sestavu k projektu včetně statistik úkolů, času a uživatelů",
            crate::json::parse_json_text(r#"{"project_id": {"type": "integer", "description": "ID projektu pro generování sestavy (povinné)"}, "from_date": {"type": "string", "pattern": "^\\d{4}-\\d{2}-\\d{2}$", "description": "Datum od pro filtrování dat (formát: YYYY-MM-DD)"}, "to_date": {"type": "string", "pattern": "^\\d{4}-\\d{2}-\\d{2}$", "description": "Datum do pro filtrování dat (formát: YYYY-MM-DD)"}, "include_time_entries": {"type": "boolean", "description": "Zahrnout časové záznamy do sestavy (výchozí: true)", "default": true}, "include_issues": {"type": "boolean", "description": "Zahrnout úkoly do sestavy (výchozí: true)", "default": true}, "include_users": {"type": "boolean", "description": "Zahrnout přehled uživatelů do sestavy (výchozí: true)", "default": true}}"#),
        );
        reg(
            tools,
            "get_dashboard_data",
            "Získá agregovaná data pro dashboard - přehled projektů, úkolů a časových záznamů",
            crate::json::parse_json_text(r#"{"project_ids": {"type": "array", "description": "Seznam ID projektů pro filtrování (nepovinné)", "items": {"type": "integer"}}, "user_id": {"type": "integer", "description": "ID uživatele pro filtrování (nepovinné)"}, "from_date": {"type": "string", "pattern": "^\\d{4}-\\d{2}-\\d{2}$", "description": "Datum od pro filtrování dat (formát: YYYY-MM-DD)"}, "to_date": {"type": "string", "pattern": "^\\d{4}-\\d{2}-\\d{2}$", "description": "Datum do pro filtrování dat (formát: YYYY-MM-DD)"}}"#),
        );
        proof {
            assert(names_model(tools@) =~= names_model(old(tools)@) + seq!["generate_project_report"@, "get_dashboard_data"@]);
        }
    } else {
        proof {
            assert(names_model(tools@) =~= names_model(old(tools)@) + Seq::<Seq<char>>::empty());
        }
    }
}

fn reg_milestones(tools: &mut Vec<Tool>, cfg: &ToolsConfig)
    ensures
        names_model(final(tools)@) == names_model(old(tools)@) + (if cfg.milestones.enabled {
            seq![
                "list_milestones"@,
                "get_milestone"@,
                "create_milestone"@,
                "update_milestone"@,
                "delete_milestone"@,
            ]
        } else {
            Seq::<Seq<char>>::empty()
        }),
        tools_shape_ok(old(tools)@) ==> tools_shape_ok(final(tools)@),
{
    if cfg.milestones.enabled {
        reg(
            tools,
            "list_milestones",
            "Získá seznam všech milníků (versions) v EasyProject systému s možností filtrování",
            crate::json::parse_json_text(r#"{"limit": {"type": "integer", "description": "Maximální počet milníků k vrácení (výchozí: 25, maximum: 100)", "minimum": 1, "maximum": 100}, "offset": {"type": "integer", "description": "Počet milníků k přeskočení pro stránkování", "minimum": 0}, "project_id": {"type": "integer", "description": "ID projektu pro filtrování milníků"}, "status": {"type": "string", "description": "Status milníku pro filtrování", "enum": ["open", "locked", "closed"]}, "easy_query_q": {"type": "string", "description": "Volný text pro vyhledávání v milnících"}}"#),
        );
        reg(
            tools,
            "get_milestone",
            "Získá detail konkrétního milníku podle ID",
            crate::json::parse_json_text(r#"{"id": {"type": "integer", "description": "ID milníku"}}"#),
        );
        reg(
            tools,
            "create_milestone",
            "Vytvoří nový milník v zadaném projektu",
            crate::json::parse_json_text(r#"{"project_id": {"type": "integer", "description": "ID projektu, kde se má milník vytvořit"}, "name": {"type": "string", "description": "Název milníku"}, "description": {"type": "string", "description": "Popis milníku"}, "effective_date": {"type": "string", "format": "date", "description": "Datum začátku milníku (YYYY-MM-DD)"}, "due_date": {"type": "string", "format": "date", "description": "Datum ukončení milníku (YYYY-MM-DD)"}, "status": {"type": "string", "description": "Status milníku", "enum": ["open", "locked", "closed"]}, "sharing": {"type": "string", "description": "Nastavení sdílení milníku", "enum": ["none", "descendants", "hierarchy", "tree", "system"]}, "default_project_version": {"type": "boolean", "description": "Zda je toto výchozí verze projektu"}, "easy_external_id": {"type": "string", "description": "Externí ID pro integraci s jinými systémy"}}"#),
        );
        reg(
            tools,
            "update_milestone",
            "Aktualizuje existující milník",
            crate::json::parse_json_text(r#"{"id": {"type": "integer", "description": "ID milníku k aktualizaci"}, "name": {"type": "string", "description": "Nový název milníku"}, "description": {"type": "string", "description": "Nový popis milníku"}, "effective_date": {"type": "string", "format": "date", "description": "Nové datum začátku milníku (YYYY-MM-DD)"}, "due_date": {"type": "string", "format": "date", "description": "Nové datum ukončení milníku (YYYY-MM-DD)"}, "status": {"type": "string", "description": "Nový status milníku", "enum": ["open", "locked", "closed"]}, "sharing": {"type": "string", "description": "Nové nastavení sdílení milníku", "enum": ["none", "descendants", "hierarchy", "tree", "system"]}, "default_project_version": {"type": "boolean", "description": "Zda je toto výchozí verze projektu"}, "easy_external_id": {"type": "string", "description": "Nové vnější ID"}}"#),
        );
        reg(
            tools,
            "delete_milestone",
            "Smaže existující milník",
            crate::json::parse_json_text(r#"{"id": {"type": "integer", "description": "ID milníku k smazání"}}"#),
        );
        proof {
            assert(names_model(tools@) =~= names_model(old(tools)@) + seq![
                "list_milestones"@,
                "get_milestone"@,
                "create_milestone"@,
                "update_milestone"@,
                "delete_milestone"@,
            ]);
        }
    } else {
        proof {
            assert(names_model(tools@) =~= names_model(old(tools)@) + Seq::<Seq<char>>::empty());
        }
    }
}

} // verus!
