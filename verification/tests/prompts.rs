//! The permission prompt.
use buffr::keys::PromptOutcome;
use buffr::prompts::{Decision, PendingPermission, Prompts, ResolveStep};

fn request(identity: u64, origin: &str) -> PendingPermission {
    PendingPermission {
        identity,
        resolve_id: Some(format!("r{identity}")),
        origin: origin.to_string(),
        capabilities: vec![1, 2],
        labels: vec!["camera".to_string(), "microphone".to_string()],
    }
}

#[test]
fn the_front_of_the_queue_is_shown() {
    let mut p = Prompts::new();
    assert!(!p.sync_permissions_prompt(Some(&vec![])));
    let queue = vec![request(1, "https://a"), request(2, "https://b"), request(3, "https://c")];
    assert!(p.sync_permissions_prompt(Some(&queue)));
    let shown = p.shown.as_ref().unwrap();
    assert_eq!((shown.identity, shown.origin.as_str(), shown.queue_len), (1, "https://a", 2));
    assert_eq!(shown.capabilities, vec!["camera", "microphone"]);
    assert!(!p.sync_permissions_prompt(Some(&queue)));
}

#[test]
fn a_withdrawn_request_is_replaced() {
    let mut p = Prompts::new();
    p.sync_permissions_prompt(Some(&vec![request(1, "https://a"), request(2, "https://b")]));
    assert!(p.sync_permissions_prompt(Some(&vec![request(2, "https://b")])));
    assert_eq!(p.shown.as_ref().unwrap().identity, 2);
    assert!(p.sync_permissions_prompt(Some(&vec![])));
    assert!(p.shown.is_none());
}

#[test]
fn without_an_engine_there_is_no_prompt() {
    let mut p = Prompts::new();
    assert!(!p.sync_permissions_prompt(None));
    p.sync_permissions_prompt(Some(&vec![request(1, "https://a")]));
    assert!(p.sync_permissions_prompt(None));
    assert!(p.shown.is_none());
    assert!(!p.clear_permissions_prompt());
}

#[test]
fn an_answer_reaches_what_was_shown() {
    let mut p = Prompts::new();
    let mut queue = vec![request(1, "https://a"), request(2, "https://b")];
    p.sync_permissions_prompt(Some(&queue));
    let step = p.resolve_permission(&mut queue, PromptOutcome::Allow { remember: true });
    match step {
        ResolveStep::Apply { request, store } => {
            assert_eq!(request.identity, 1);
            assert_eq!(store, Some(Decision::Allow));
        }
        ResolveStep::Stale => panic!("the request was at the front"),
    }
    assert_eq!(queue.len(), 1);
    assert_eq!(p.shown.as_ref().unwrap().identity, 2);
}

#[test]
fn a_stale_answer_is_discarded() {
    let mut p = Prompts::new();
    let mut queue = vec![request(1, "https://a")];
    p.sync_permissions_prompt(Some(&queue));
    queue = vec![request(2, "https://b")];
    let step = p.resolve_permission(&mut queue, PromptOutcome::Allow { remember: true });
    assert!(matches!(step, ResolveStep::Stale));
    assert_eq!(queue.len(), 1);
    assert_eq!(p.shown.as_ref().unwrap().identity, 2);
}

#[test]
fn only_remembered_answers_are_stored() {
    for (outcome, stored) in [
        (PromptOutcome::Allow { remember: false }, None),
        (PromptOutcome::Deny { remember: false }, None),
        (PromptOutcome::Deny { remember: true }, Some(Decision::Deny)),
        (PromptOutcome::Defer, None),
    ] {
        let mut p = Prompts::new();
        let mut queue = vec![request(1, "https://a")];
        p.sync_permissions_prompt(Some(&queue));
        let step = p.resolve_permission(&mut queue, outcome);
        assert!(matches!(step, ResolveStep::Apply { store, .. } if store == stored));
        assert!(p.shown.is_none());
    }
}
