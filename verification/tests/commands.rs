use context_store::commands::{
    context_dir, get_default_context, handle_default, handle_del, handle_edit, handle_list,
    handle_new, plan_new_context, unreadable_directory, Action, ContextDir, Output, Payload, Plan,
};
use context_store::context::{DefaultContext, WashContext};
use context_store::error::ErrorKind;
use context_store::names::list_names;
use context_store::sanitize::sanitize_file_name;
use context_store::select::{select_context, selection_prompt};

fn entries_of(items: &[&str]) -> Vec<String> {
    items.iter().map(|s| s.to_string()).collect()
}

fn succeeded(text: &str) -> Output {
    Output { text: text.to_string(), payload: Payload::Success { success: true } }
}

/// Carries out a plan on a directory held in memory.
fn perform(plan: &Plan, entries: &mut Vec<String>, index: &mut Option<DefaultContext>) {
    match &plan.action {
        Action::WriteIndex(ix) => {
            if !entries.contains(&"index.json".to_string()) {
                entries.push("index.json".to_string());
            }
            *index = Some(ix.clone());
        }
        Action::RemoveFile(file) => entries.retain(|e| e != file),
        Action::WriteContext { file, .. } => {
            if !entries.contains(file) {
                entries.push(file.clone());
            }
        }
        Action::EditFile(_) => {}
    }
}

#[test]
fn list_marks_the_default_in_text_only() {
    let entries = entries_of(&["prod.json", "index.json", "staging.json"]);
    let index = Some(DefaultContext::new("staging".to_string()));
    let out = handle_list("/home/u/.tool/contexts", &entries, &index);
    assert_eq!(
        out.text,
        "====== Contexts found in /home/u/.tool/contexts ======\nprod\nstaging (default)"
    );
    assert_eq!(out.text.matches("(default)").count(), 1);
    assert_eq!(
        out.payload,
        Payload::Contexts {
            contexts: entries_of(&["prod", "staging"]),
            default: "staging".to_string()
        }
    );
}

#[test]
fn list_without_an_index_marks_nothing() {
    let entries = entries_of(&["prod.json", "staging.json"]);
    let out = handle_list("ctx", &entries, &None);
    assert_eq!(out.text, "====== Contexts found in ctx ======\nprod\nstaging");
    assert_eq!(
        out.payload,
        Payload::Contexts { contexts: entries_of(&["prod", "staging"]), default: "N/A".to_string() }
    );
}

#[test]
fn list_of_an_empty_directory_has_only_the_heading() {
    let out = handle_list("ctx", &Vec::new(), &None);
    assert_eq!(out.text, "====== Contexts found in ctx ======\n");
    assert_eq!(
        out.payload,
        Payload::Contexts { contexts: Vec::new(), default: "N/A".to_string() }
    );
}

#[test]
fn list_gives_a_dangling_default_as_it_stands() {
    let entries = entries_of(&["prod.json"]);
    let index = Some(DefaultContext::new("gone".to_string()));
    let out = handle_list("ctx", &entries, &index);
    assert_eq!(out.text, "====== Contexts found in ctx ======\nprod");
    assert_eq!(
        out.payload,
        Payload::Contexts { contexts: entries_of(&["prod"]), default: "gone".to_string() }
    );
}

#[test]
fn default_is_set_to_a_stored_name() {
    let entries = entries_of(&["prod.json", "staging.json"]);
    let plan = handle_default(&entries, Some("staging".to_string()), None).unwrap();
    assert_eq!(plan.action, Action::WriteIndex(DefaultContext::new("staging".to_string())));
    assert_eq!(plan.output, succeeded("Set new context successfully"));
}

#[test]
fn default_rejects_an_unknown_name() {
    let entries = entries_of(&["prod.json", "staging.json", "index.json", "notes.txt"]);
    for name in ["dev", "", "index", "notes", "prod.json", "PROD"] {
        let err = handle_default(&entries, Some(name.to_string()), None).unwrap_err();
        assert_eq!(err.kind, ErrorKind::NotFound);
        assert_eq!(err.message, "Failed to set new default, context supplied was not found");
    }
}

#[test]
fn default_takes_the_selected_name() {
    let entries = entries_of(&["index.json", "prod.json", "staging.json"]);
    let plan = handle_default(&entries, None, Some(1)).unwrap();
    assert_eq!(plan.action, Action::WriteIndex(DefaultContext::new("staging".to_string())));
    let plan = handle_default(&entries, None, Some(0)).unwrap();
    assert_eq!(plan.action, Action::WriteIndex(DefaultContext::new("prod".to_string())));
}

#[test]
fn default_without_a_selection_is_not_found() {
    let entries = entries_of(&["prod.json"]);
    assert_eq!(handle_default(&entries, None, None).unwrap_err().kind, ErrorKind::NotFound);
    assert_eq!(handle_default(&entries, None, Some(1)).unwrap_err().kind, ErrorKind::NotFound);
    assert_eq!(handle_default(&Vec::new(), None, Some(0)).unwrap_err().kind, ErrorKind::NotFound);
}

#[test]
fn a_given_name_wins_over_a_selection() {
    let entries = entries_of(&["prod.json", "staging.json"]);
    let plan = handle_default(&entries, Some("prod".to_string()), Some(1)).unwrap();
    assert_eq!(plan.action, Action::WriteIndex(DefaultContext::new("prod".to_string())));
}

#[test]
fn delete_removes_exactly_one_file() {
    let mut entries = entries_of(&["staging.json", "prod.json"]);
    let mut index = None;
    let plan = handle_del(&entries, Some("staging".to_string()), None).unwrap();
    assert_eq!(plan.action, Action::RemoveFile("staging.json".to_string()));
    assert_eq!(plan.output, succeeded("Removed file successfully"));
    perform(&plan, &mut entries, &mut index);
    assert_eq!(list_names(&entries), entries_of(&["prod"]));
}

#[test]
fn delete_rejects_an_unknown_name() {
    let entries = entries_of(&["staging.json", "index.json"]);
    for name in ["prod", "index", ""] {
        let err = handle_del(&entries, Some(name.to_string()), None).unwrap_err();
        assert_eq!(err.kind, ErrorKind::NotFound);
        assert_eq!(err.message, "Failed to delete, no context found");
    }
    assert_eq!(handle_del(&entries, None, None).unwrap_err().kind, ErrorKind::NotFound);
}

#[test]
fn delete_takes_the_selected_name() {
    let entries = entries_of(&["staging.json", "prod.json"]);
    let plan = handle_del(&entries, None, Some(1)).unwrap();
    assert_eq!(plan.action, Action::RemoveFile("prod.json".to_string()));
}

#[test]
fn new_writes_the_default_record() {
    let plan = handle_new("dev");
    assert_eq!(
        plan.action,
        Action::WriteContext { file: "dev.json".to_string(), record: WashContext::default() }
    );
    assert_eq!(plan.output, succeeded("Created context dev.json with default values"));
}

#[test]
fn new_sanitizes_the_file_name() {
    let plan = handle_new("../etc/passwd");
    match &plan.action {
        Action::WriteContext { file, record } => {
            assert_eq!(file, ".._etc_passwd.json");
            assert_eq!(record, &WashContext::default());
            for c in ['/', '\\', '?', '<', '>', ':', '*', '|', '"'] {
                assert!(!file.contains(c));
            }
        }
        other => panic!("unexpected action {:?}", other),
    }
    assert_eq!(plan.output, succeeded("Created context .._etc_passwd.json with default values"));
}

#[test]
fn sanitizing_replaces_reserved_and_control_characters() {
    assert_eq!(sanitize_file_name("a/b\\c?d<e>f:g*h|i\"j.json"), "a_b_c_d_e_f_g_h_i_j.json");
    assert_eq!(sanitize_file_name("line\nbreak\u{0}.json"), "line_break_.json");
    assert_eq!(sanitize_file_name("plain.json"), "plain.json");
    assert_eq!(sanitize_file_name(".."), "_");
    assert_eq!(sanitize_file_name("con.json"), "_");
    assert_eq!(sanitize_file_name("trailing. "), "trailing_");
    assert_eq!(sanitize_file_name("a\u{85}b\u{9f}c"), "a_b_c");
}

#[test]
fn sanitizing_cuts_long_names() {
    let long = "x".repeat(300);
    let safe = sanitize_file_name(&long);
    assert_eq!(safe, "x".repeat(255));
}

#[test]
fn new_twice_plans_the_same_write() {
    let mut entries = Vec::new();
    let mut index = None;
    let first = handle_new("dev");
    perform(&first, &mut entries, &mut index);
    let second = handle_new("dev");
    perform(&second, &mut entries, &mut index);
    assert_eq!(first, second);
    assert_eq!(entries, entries_of(&["dev.json"]));
    match second.action {
        Action::WriteContext { record, .. } => assert_eq!(record, WashContext::default()),
        other => panic!("unexpected action {:?}", other),
    }
}

#[test]
fn edit_opens_an_existing_context() {
    let entries = entries_of(&["dev.json"]);
    let plan = handle_edit(&entries, Some("dev".to_string()), true, None).unwrap();
    assert_eq!(plan.action, Action::EditFile("dev.json".to_string()));
    assert_eq!(plan.output, succeeded("Finished editing context successfully"));
}

#[test]
fn edit_rejects_a_missing_context() {
    let entries = entries_of(&["dev.json"]);
    let err = handle_edit(&entries, Some("prod".to_string()), false, Some(0)).unwrap_err();
    assert_eq!(err.kind, ErrorKind::NotFound);
    assert_eq!(err.message, "Unable to find context supplied, please ensure it exists");
}

#[test]
fn edit_takes_the_selected_name() {
    let entries = entries_of(&["index.json", "dev.json", "prod.json"]);
    let plan = handle_edit(&entries, None, false, Some(1)).unwrap();
    assert_eq!(plan.action, Action::EditFile("prod.json".to_string()));
    let err = handle_edit(&entries, None, true, None).unwrap_err();
    assert_eq!(err.kind, ErrorKind::NotFound);
    let err = handle_edit(&entries, None, true, Some(2)).unwrap_err();
    assert_eq!(err.kind, ErrorKind::NotFound);
}

#[test]
fn select_context_gives_the_chosen_name() {
    let contexts = entries_of(&["dev.json", "prod.json"]);
    assert_eq!(select_context(&contexts, Some(0)), Some("dev".to_string()));
    assert_eq!(select_context(&contexts, Some(1)), Some("prod".to_string()));
    assert_eq!(select_context(&contexts, Some(2)), None);
    assert_eq!(select_context(&contexts, None), None);
    assert_eq!(select_context(&Vec::new(), Some(0)), None);
}

#[test]
fn selection_prompt_offers_every_name() {
    let contexts = entries_of(&["dev.json", "prod.json"]);
    let index = Some(DefaultContext::new("prod".to_string()));
    let entry = selection_prompt(&contexts, index, "Select a default context:");
    assert_eq!(entry.choices, entries_of(&["dev", "prod"]));
    assert_eq!(entry.default, Some("prod".to_string()));
    assert_eq!(entry.message, "Select a default context:");
    let entry = selection_prompt(&contexts, None, "Select a context to delete:");
    assert_eq!(entry.default, None);
}

#[test]
fn context_dir_prefers_the_given_directory() {
    assert_eq!(
        context_dir(Some("/tmp/ctx".to_string()), Some("/home/u".to_string())),
        Ok(ContextDir::Given("/tmp/ctx".to_string()))
    );
    assert_eq!(
        context_dir(Some("/tmp/ctx".to_string()), None),
        Ok(ContextDir::Given("/tmp/ctx".to_string()))
    );
}

#[test]
fn context_dir_falls_back_to_the_home_directory() {
    assert_eq!(
        context_dir(None, Some("/home/u".to_string())),
        Ok(ContextDir::UnderHome {
            home: "/home/u".to_string(),
            below: ".tool/contexts".to_string()
        })
    );
}

#[test]
fn context_dir_without_a_home_is_not_found() {
    let err = context_dir(None, None).unwrap_err();
    assert_eq!(err.kind, ErrorKind::NotFound);
    assert_eq!(
        err.message,
        "Context directory not found, please set $HOME or $WASH_CONTEXTS for managed contexts"
    );
}

#[test]
fn unreadable_directory_names_the_directory() {
    let err = unreadable_directory("No such file or directory (os error 2)", "/tmp/ctx");
    assert_eq!(err.kind, ErrorKind::NotFound);
    assert_eq!(
        err.message,
        "Error: No such file or directory (os error 2), please ensure directory /tmp/ctx exists"
    );
}

#[test]
fn default_context_is_loaded_from_the_file_of_its_name() {
    assert_eq!(get_default_context(&DefaultContext::new("dev".to_string())), "dev.json");
}

#[test]
fn end_to_end_scenario() {
    let mut entries: Vec<String> = Vec::new();
    let mut index: Option<DefaultContext> = None;

    let plan = handle_new("dev");
    perform(&plan, &mut entries, &mut index);
    assert_eq!(list_names(&entries), entries_of(&["dev"]));

    let plan = handle_default(&entries, Some("dev".to_string()), None).unwrap();
    perform(&plan, &mut entries, &mut index);
    assert_eq!(index, Some(DefaultContext::new("dev".to_string())));
    assert_eq!(list_names(&entries), entries_of(&["dev"]));

    let plan = handle_del(&entries, Some("dev".to_string()), None).unwrap();
    perform(&plan, &mut entries, &mut index);
    assert_eq!(list_names(&entries), Vec::<String>::new());
    assert_eq!(index, Some(DefaultContext::new("dev".to_string())));

    let out = handle_list("ctx", &entries, &index);
    assert_eq!(
        out.payload,
        Payload::Contexts { contexts: Vec::new(), default: "dev".to_string() }
    );
    let err = handle_default(&entries, Some("dev".to_string()), None).unwrap_err();
    assert_eq!(err.kind, ErrorKind::NotFound);
}

#[test]
fn plan_for_a_file_names_it() {
    let plan = plan_new_context("a_b.json".to_string());
    assert_eq!(
        plan.action,
        Action::WriteContext { file: "a_b.json".to_string(), record: WashContext::default() }
    );
    assert_eq!(plan.output, succeeded("Created context a_b.json with default values"));
    assert_eq!(plan, handle_new("a/b"));
}

fn created_file(name: &str) -> String {
    match handle_new(name).action {
        Action::WriteContext { file, .. } => file,
        other => panic!("unexpected action {:?}", other),
    }
}

#[test]
fn new_puts_the_extension_behind_the_safe_name() {
    assert_eq!(created_file("con"), "_.json");
    assert_eq!(created_file("AUX"), "_.json");
    assert_eq!(created_file("a."), "a_.json");
    assert_eq!(created_file(".."), "_.json");
    assert_eq!(created_file("dev.json"), "dev.json.json");
    let long = "x".repeat(300);
    assert_eq!(created_file(&long), format!("{}.json", "x".repeat(255)));
}

#[test]
fn new_replaces_each_reserved_character_by_an_underscore() {
    assert_eq!(
        created_file("a/b\\c:d*e?f\"g<h>i|j\u{1}k\u{9f}l"),
        "a_b_c_d_e_f_g_h_i_j_k_l.json"
    );
    assert_eq!(created_file("//"), "__.json");
    assert_eq!(created_file("console"), "console.json");
    assert_eq!(created_file("with space"), "with space.json");
    let longest_settled = "y".repeat(63);
    assert_eq!(created_file(&longest_settled), format!("{}.json", longest_settled));
}

#[test]
fn new_context_is_listed_under_its_safe_name() {
    for (name, safe) in [("dev", "dev"), ("con", "_"), ("a/b", "a_b"), ("a.", "a_")] {
        let mut entries = entries_of(&["index.json", "other.json"]);
        let mut index = None;
        let plan = handle_new(name);
        perform(&plan, &mut entries, &mut index);
        assert_eq!(list_names(&entries), entries_of(&["other", safe]));
        let long = "z".repeat(300);
        let plan = handle_new(&long);
        perform(&plan, &mut entries, &mut index);
        assert!(list_names(&entries).contains(&"z".repeat(255)));
    }
}
