use gemcore::common::{Chain, Latency};
use gemcore::node::{GemAddNodeFailure, GemAddNodePhase, GemAddNodeSession, GemNodeCheck};

fn ethereum() -> Chain {
    Chain::new("ethereum".to_string())
}

fn check() -> GemNodeCheck {
    GemNodeCheck {
        url: "https://node".to_string(),
        chain_id: None,
        latest_block_number: 1,
        is_in_sync: true,
        latency: Latency::from_milliseconds(10),
    }
}

#[test]
fn test_an_empty_url_is_idle_and_never_starts_a_check() {
    let session = GemAddNodeSession::new(ethereum()).on_input("   ".to_string());

    assert!(!session.checks_url());
    assert_eq!(session.on_checking().view_state().phase, GemAddNodePhase::Idle);
}

#[test]
fn test_a_new_url_clears_the_previous_answer() {
    let checked = GemAddNodeSession::new(ethereum()).on_input("https://node".to_string()).on_checked(check());
    assert!(checked.view_state().can_import);

    let retyped = checked.on_input("https://other".to_string());
    assert_eq!(retyped.view_state().phase, GemAddNodePhase::Idle);
    assert!(!retyped.view_state().can_import, "a url that was never checked cannot be imported");
}

#[test]
fn test_a_failure_replaces_the_answer_and_blocks_the_import() {
    let failed = GemAddNodeSession::new(ethereum())
        .on_input("https://node".to_string())
        .on_checked(check())
        .on_failed(GemAddNodeFailure::InvalidNetworkId);

    assert_eq!(
        failed.view_state().phase,
        GemAddNodePhase::Failed {
            failure: GemAddNodeFailure::InvalidNetworkId
        }
    );
    assert!(!failed.view_state().can_import);
}

#[test]
fn test_importing_leaves_the_screen_ready_for_the_next_url() {
    let imported = GemAddNodeSession::new(ethereum()).on_input("https://node".to_string()).on_checked(check()).on_imported();

    assert_eq!(imported, GemAddNodeSession::new(ethereum()));
}

#[test]
fn test_typed_url_is_trimmed_and_checking_shows() {
    let session = GemAddNodeSession::new(ethereum()).on_input("  https://node \n".to_string());
    assert_eq!(session.url, "https://node");
    assert!(session.checks_url());
    let checking = session.on_checking();
    assert_eq!(checking.view_state().phase, GemAddNodePhase::Checking);
    assert!(!checking.view_state().can_import);
}

#[test]
fn test_an_answer_makes_the_screen_ready() {
    let ready = GemAddNodeSession::new(ethereum()).on_input("https://node".to_string()).on_checking().on_checked(check());
    assert_eq!(ready.view_state().phase, GemAddNodePhase::Ready { check: check() });
    assert!(ready.view_state().can_import);
}

#[test]
fn test_a_url_of_other_whitespace_is_blank() {
    let session = GemAddNodeSession::new(ethereum()).on_input("\t\u{00A0}\u{3000}\n".to_string());
    assert_eq!(session.url, "");
    assert!(!session.checks_url());
}
