use enclave_auth::orchestration::{
    apply_triggers, has_sufficient_credit, model_parts, next_step, resolve_prompt, Step,
};

#[test]
fn credit_gate() {
    assert!(!has_sufficient_credit(-5));
    assert!(!has_sufficient_credit(0));
    assert!(has_sufficient_credit(1));
    assert!(has_sufficient_credit(100));
}

#[test]
fn prompt_falls_back_to_original() {
    assert_eq!(resolve_prompt("a cat", None), "a cat");
    assert_eq!(
        resolve_prompt("a cat", Some(String::from("a fluffy cat"))),
        "a fluffy cat"
    );
}

#[test]
fn triggers_are_attached() {
    assert_eq!(apply_triggers("a cat", None, None), "a cat");
    assert_eq!(apply_triggers("a cat", Some("pixel art"), None), "pixel art, a cat");
    assert_eq!(apply_triggers("a cat", None, Some("4k")), "a cat 4k");
    assert_eq!(
        apply_triggers("a cat", Some("pixel art"), Some("4k")),
        "pixel art, a cat 4k"
    );
}

#[test]
fn model_parts_from_hub_url() {
    let (creator, name) = model_parts("https://huggingface.co/author/model");
    assert_eq!(creator, "author");
    assert_eq!(name, "model");
}

#[test]
fn model_parts_short_path_is_unknown() {
    let (creator, name) = model_parts("author/model");
    assert_eq!(creator, "unknown");
    assert_eq!(name, "unknown");
    let (creator, name) = model_parts("");
    assert_eq!(creator, "unknown");
    assert_eq!(name, "unknown");
}

#[test]
fn model_parts_minimal_and_trailing() {
    let (creator, name) = model_parts("a/b/c/d");
    assert_eq!(creator, "c");
    assert_eq!(name, "d");
    let (creator, name) = model_parts("https://huggingface.co/author/");
    assert_eq!(creator, "author");
    assert_eq!(name, "");
}

#[test]
fn model_parts_non_ascii_segments() {
    let (creator, name) = model_parts("https://huggingface.co/süße-katze/modèle");
    assert_eq!(creator, "süße-katze");
    assert_eq!(name, "modèle");
}

#[test]
fn handler_steps_in_order() {
    assert_eq!(next_step(Step::VerifyRequest, true), Step::CheckCredit);
    assert_eq!(next_step(Step::CheckCredit, true), Step::RefinePrompt);
    assert_eq!(next_step(Step::RefinePrompt, true), Step::GenerateImage);
    assert_eq!(next_step(Step::GenerateImage, true), Step::DeductCredit);
    assert_eq!(next_step(Step::DeductCredit, true), Step::UploadImage);
    assert_eq!(next_step(Step::UploadImage, true), Step::SignResponse);
    assert_eq!(next_step(Step::SignResponse, true), Step::Done);
    assert_eq!(next_step(Step::Done, true), Step::Done);
}

#[test]
fn tolerated_and_terminal_failures() {
    // Refinement and upload failures are tolerated; the handler goes on.
    assert_eq!(next_step(Step::RefinePrompt, false), Step::GenerateImage);
    assert_eq!(next_step(Step::UploadImage, false), Step::SignResponse);
    // Every other failure ends the request.
    assert_eq!(next_step(Step::VerifyRequest, false), Step::Failed);
    assert_eq!(next_step(Step::CheckCredit, false), Step::Failed);
    assert_eq!(next_step(Step::GenerateImage, false), Step::Failed);
    assert_eq!(next_step(Step::DeductCredit, false), Step::Failed);
    assert_eq!(next_step(Step::SignResponse, false), Step::Failed);
    assert_eq!(next_step(Step::Failed, true), Step::Failed);
}
