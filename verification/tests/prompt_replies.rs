use cache_rewrite::prompt::{
    PromptRecord, activate_prompt, create_prompt, delete_prompt, get_prompt, list_prompts,
    update_prompt,
};

fn record(id: &str, name: &str) -> PromptRecord {
    PromptRecord { id: id.to_string(), name: name.to_string() }
}

#[test]
fn list_replies_with_records_or_internal_error() {
    let ok = list_prompts(Ok(vec![record("p1", "first"), record("p2", "second")]));
    assert_eq!(ok.status, 200);
    assert_eq!(ok.records.len(), 2);
    assert_eq!(ok.records[0], record("p1", "first"));

    let err = list_prompts(Err("store unreachable".to_string()));
    assert_eq!(err.status, 500);
    assert_eq!(err.message, "store unreachable");
    assert!(err.records.is_empty());
}

#[test]
fn create_replies_with_identity_or_internal_error() {
    let ok = create_prompt(Ok(record("p9", "fresh")));
    assert_eq!(ok.status, 200);
    assert_eq!(ok.message, "Prompt created");
    assert_eq!(ok.id.as_deref(), Some("p9"));
    assert_eq!(ok.name.as_deref(), Some("fresh"));

    let err = create_prompt(Err("boom".to_string()));
    assert_eq!(err.status, 500);
    assert_eq!(err.message, "boom");
    assert_eq!(err.id, None);
}

#[test]
fn get_replies_with_identity_or_not_found() {
    let ok = get_prompt(Ok(record("p1", "first")));
    assert_eq!(ok.status, 200);
    assert_eq!(ok.message, "Prompt retrieved");
    assert_eq!(ok.id.as_deref(), Some("p1"));

    let err = get_prompt(Err("no such prompt".to_string()));
    assert_eq!(err.status, 404);
    assert_eq!(err.message, "no such prompt");
    assert_eq!(err.name, None);
}

#[test]
fn update_replies_with_identity_or_bad_request() {
    let ok = update_prompt(Ok(record("p1", "renamed")));
    assert_eq!(ok.status, 200);
    assert_eq!(ok.message, "Prompt updated");
    assert_eq!(ok.name.as_deref(), Some("renamed"));

    let err = update_prompt(Err("empty name".to_string()));
    assert_eq!(err.status, 400);
    assert_eq!(err.message, "empty name");
}

#[test]
fn delete_replies_with_no_content_or_not_found() {
    let ok = delete_prompt(Ok(()));
    assert_eq!(ok.status, 204);
    assert_eq!(ok.message, "");

    let err = delete_prompt(Err("no such prompt".to_string()));
    assert_eq!(err.status, 404);
    assert_eq!(err.message, "no such prompt");
}

#[test]
fn activate_replies_with_confirmation_or_bad_request() {
    let ok = activate_prompt(Ok(()));
    assert_eq!(ok.status, 200);
    assert_eq!(ok.message, "Prompt activated successfully");

    let err = activate_prompt(Err("already active".to_string()));
    assert_eq!(err.status, 400);
    assert_eq!(err.message, "already active");
}
