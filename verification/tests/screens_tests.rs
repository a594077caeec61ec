//! The screen state machines and the configuration and wallet helpers.

use lobster::agent_assets::{FileStatus, ValidationResult};
use lobster::client::ChainEventData;
use lobster::config::AppConfig;
use lobster::screens::create::{CreateScreen, CreateStep, AgentInfoField, UNIT_PLANCK};
use lobster::screens::prompt::{PromptScreen, PromptStep};
use lobster::screens::view::ViewScreen;
use lobster::wallet::WalletConfig;

fn fresh_config() -> AppConfig {
    AppConfig {
        server_url: "http://localhost:8080".to_string(),
        auth_token: None,
        agent_address: None,
        agent_name: None,
        custom_agent_dir: None,
    }
}

#[test]
fn config_auth_and_agent_flags() {
    let mut config = fresh_config();
    assert!(!config.is_authenticated());
    assert!(!config.has_agent());
    config.auth_token = Some("tok".to_string());
    config.agent_address = Some("addr".to_string());
    config.agent_name = Some("name".to_string());
    assert!(config.is_authenticated());
    assert!(config.has_agent());
    config.logout();
    assert!(!config.is_authenticated());
    assert!(!config.has_agent());
    assert_eq!(config.agent_name, None);
    assert_eq!(config.server_url, "http://localhost:8080");
}

#[test]
fn validation_requires_only_the_ship_file() {
    let all = ValidationResult::validate(true, true, true, true);
    assert!(all.is_valid());
    assert_eq!(all.ship_file, FileStatus::Present);

    let no_extras = ValidationResult::validate(true, false, false, false);
    assert!(no_extras.is_valid());
    assert_eq!(no_extras.soul_md, FileStatus::Missing);

    let no_ship = ValidationResult::validate(false, true, true, true);
    assert!(!no_ship.is_valid());
    assert_eq!(no_ship.ship_file, FileStatus::RequiredMissing);
}

#[test]
fn wallet_short_address_abbreviates_long_keys() {
    let wallet = WalletConfig {
        mnemonic: String::new(),
        public_key: "5GrwvaEF5zXb26Fz9rcQpDWS57CtERHpNehXCPcNoHGKutQY".to_string(),
    };
    assert_eq!(wallet.short_address(), "5GrwvaEF...GKutQY");

    let short = WalletConfig { mnemonic: String::new(), public_key: "5Grwva".to_string() };
    assert_eq!(short.short_address(), "5Grwva");
}

#[test]
fn create_screen_walks_the_happy_path() {
    let mut screen = CreateScreen::new();
    assert_eq!(screen.step, CreateStep::SelectAgentSource);
    assert!(screen.use_embedded);
    assert_eq!(screen.schedule_option, Some(600));
    assert_eq!(screen.value_planck, UNIT_PLANCK);

    screen.handle_moltbook_registered(
        "key".to_string(),
        "https://example.invalid/claim".to_string(),
        "CODE".to_string(),
    );
    assert_eq!(screen.step, CreateStep::WaitingClaim);
    assert_eq!(screen.moltbook_api_key.as_deref(), Some("key"));

    screen.handle_moltbook_claimed("agent-1".to_string());
    assert_eq!(screen.step, CreateStep::ReviewSoul);
    assert_eq!(screen.agent_id.as_deref(), Some("agent-1"));

    screen.handle_compile_done("0xc0de".to_string());
    assert_eq!(screen.step, CreateStep::Deploying);
    assert_eq!(screen.compiled_hex.as_deref(), Some("0xc0de"));

    screen.handle_deploy_done("5Address".to_string());
    assert_eq!(screen.step, CreateStep::Success);
    assert_eq!(screen.agent_address.as_deref(), Some("5Address"));
}

#[test]
fn create_screen_failure_paths_return_to_forms() {
    let mut screen = CreateScreen::new();
    screen.agent_name.push_str("crab");

    screen.handle_name_taken("taken");
    assert_eq!(screen.step, CreateStep::EnterAgentInfo);
    assert_eq!(screen.active_field, AgentInfoField::Name);
    assert_eq!(screen.name_error.as_deref(), Some("taken"));
    assert_eq!(screen.agent_name, "crab");

    screen.handle_registration_failed("boom");
    assert_eq!(screen.error.as_deref(), Some("boom"));

    screen.handle_compile_failed("syntax");
    assert_eq!(screen.step, CreateStep::ConfigureSchedule);
    assert_eq!(screen.error.as_deref(), Some("syntax"));

    screen.handle_deploy_failed("gas");
    assert_eq!(screen.step, CreateStep::Compiling);
    assert_eq!(screen.error.as_deref(), Some("gas"));
}

#[test]
fn create_screen_api_key_validation() {
    let mut screen = CreateScreen::new();
    screen.handle_api_key_validated(
        "key".to_string(),
        "crab".to_string(),
        "a crab".to_string(),
        false,
    );
    assert_eq!(screen.moltbook_api_key.as_deref(), Some("key"));
    assert_eq!(screen.agent_name, "crab");
    assert_eq!(screen.api_key_status.as_deref(), Some("Valid! Press Enter to continue."));

    screen.handle_api_key_validated("key".to_string(), "crab".to_string(), "d".to_string(), true);
    assert_eq!(
        screen.api_key_status.as_deref(),
        Some("Valid (already claimed)! Press Enter to continue.")
    );

    screen.handle_api_key_invalid("bad key");
    assert_eq!(screen.api_key_error.as_deref(), Some("bad key"));
    assert_eq!(screen.api_key_status, None);
    assert_eq!(screen.moltbook_api_key, None);
}

#[test]
fn create_screen_caches_source_validation() {
    let mut screen = CreateScreen::new();
    assert_eq!(screen.source_validation, None);
    let verdict = ValidationResult::validate(true, false, true, false);
    screen.validate_source(verdict.clone());
    assert_eq!(screen.source_validation, Some(verdict));
    assert_eq!(screen.step, CreateStep::SelectAgentSource);
}

#[test]
fn create_screen_reset_preserves_source_selection() {
    let mut screen = CreateScreen::new_with_config(Some("/tmp/agent".to_string()));
    assert!(!screen.use_embedded);
    screen.handle_moltbook_claimed("x".to_string());
    screen.reset();
    assert_eq!(screen.step, CreateStep::SelectAgentSource);
    assert_eq!(screen.agent_id, None);
    assert!(!screen.use_embedded);
    assert_eq!(screen.custom_dir_input, "/tmp/agent");
}

#[test]
fn balance_parses_to_planck_with_twelve_decimals() {
    let mut screen = CreateScreen::new();
    assert_eq!(screen.parse_balance_to_planck(), UNIT_PLANCK);

    screen.balance_input = "2".to_string();
    assert_eq!(screen.parse_balance_to_planck(), 2_000_000_000_000);

    screen.balance_input = "1.5".to_string();
    assert_eq!(screen.parse_balance_to_planck(), 1_500_000_000_000);

    screen.balance_input = "0.000000000001".to_string();
    assert_eq!(screen.parse_balance_to_planck(), 1);

    screen.balance_input = ".25".to_string();
    assert_eq!(screen.parse_balance_to_planck(), 250_000_000_000);

    screen.balance_input = "3.".to_string();
    assert_eq!(screen.parse_balance_to_planck(), 3_000_000_000_000);

    // Digits beyond the twelfth decimal place are cut, not rounded.
    screen.balance_input = "0.0000000000019".to_string();
    assert_eq!(screen.parse_balance_to_planck(), 1);
}

#[test]
fn balance_falls_back_on_malformed_input() {
    let mut screen = CreateScreen::new();
    screen.balance_input = "1.2.3".to_string();
    assert_eq!(screen.parse_balance_to_planck(), UNIT_PLANCK);
    screen.balance_input = ".".to_string();
    assert_eq!(screen.parse_balance_to_planck(), UNIT_PLANCK);
    screen.balance_input = "12a".to_string();
    assert_eq!(screen.parse_balance_to_planck(), UNIT_PLANCK);
}

#[test]
fn balance_saturates_at_the_largest_value() {
    let mut screen = CreateScreen::new();
    screen.balance_input = "9".repeat(40);
    assert_eq!(screen.parse_balance_to_planck(), u128::MAX);
}

#[test]
fn prompt_screen_tracks_run_lifecycle() {
    let mut screen = PromptScreen::new();
    assert_eq!(screen.step, PromptStep::EnterPrompt);
    assert!(screen.detailed_view);

    screen.handle_prompt_submitted(42);
    assert_eq!(screen.step, PromptStep::Running);
    assert_eq!(screen.run_id, Some(42));
    assert_eq!(screen.status_messages.last().map(|s| s.as_str()), Some("Submitted! Run ID: 42"));

    screen.handle_run_completed("done".to_string());
    assert_eq!(screen.step, PromptStep::Complete);
    assert_eq!(screen.final_output.as_deref(), Some("done"));

    let mut failed = PromptScreen::new();
    failed.handle_prompt_failed("timeout".to_string());
    assert_eq!(failed.step, PromptStep::Complete);
    assert_eq!(failed.error.as_deref(), Some("timeout"));
}

#[test]
fn prompt_screen_keeps_only_recent_status_lines() {
    let mut screen = PromptScreen::new();
    for i in 0..12 {
        screen.handle_status_message(format!("line {}", i));
    }
    assert_eq!(screen.status_messages.len(), 10);
    assert_eq!(screen.status_messages[0], "line 2");
    assert_eq!(screen.status_messages[9], "line 11");
}

#[test]
fn prompt_screen_accumulates_tools_without_duplicates() {
    let mut screen = PromptScreen::new();
    screen.handle_chain_event(ChainEventData::ToolsStarted {
        run_id: 1,
        tools: vec!["moltbook_get".to_string(), "http_get".to_string()],
    });
    screen.handle_chain_event(ChainEventData::ToolsStarted {
        run_id: 1,
        tools: vec!["moltbook_get".to_string(), "moltbook_post".to_string()],
    });
    let names: Vec<&str> = screen.tool_status.iter().map(|t| t.name.as_str()).collect();
    assert_eq!(names, vec!["moltbook_get", "http_get", "moltbook_post"]);
    assert!(screen.tool_status.iter().all(|t| !t.completed));

    screen.handle_chain_event(ChainEventData::ToolsCompleted {
        run_id: 1,
        tools: vec!["http_get".to_string()],
    });
    assert!(!screen.tool_status[0].completed);
    assert!(screen.tool_status[1].completed);
    assert!(!screen.tool_status[2].completed);
}

#[test]
fn prompt_screen_renders_event_status_lines() {
    let mut screen = PromptScreen::new();
    screen.handle_chain_event(ChainEventData::RunStarted {
        run_id: 1,
        agent_name: "crab".to_string(),
        caller: "me".to_string(),
    });
    assert_eq!(screen.status_messages.last().map(|s| s.as_str()), Some("Agent 'crab' started"));

    screen.handle_chain_event(ChainEventData::WaitingForInput {
        run_id: 1,
        reason: "question".to_string(),
        timeout_block: None,
    });
    assert_eq!(screen.status_messages.last().map(|s| s.as_str()), Some("Waiting: question"));

    screen.handle_chain_event(ChainEventData::Routing {
        run_id: 1,
        result: true,
        next_node: Some(7),
    });
    assert_eq!(
        screen.status_messages.last().map(|s| s.as_str()),
        Some("Routing: true -> node 7")
    );

    screen.handle_chain_event(ChainEventData::Completed { run_id: 1, output: "ok".to_string() });
    assert_eq!(screen.final_output.as_deref(), Some("ok"));

    screen.handle_chain_event(ChainEventData::Failed { run_id: 1, reason: "no".to_string() });
    assert_eq!(screen.error.as_deref(), Some("no"));
}

#[test]
fn prompt_screen_truncates_raw_event_data() {
    let mut screen = PromptScreen::new();
    let long = "x".repeat(60);
    screen.handle_chain_event(ChainEventData::Raw {
        variant: "odd".to_string(),
        data: long.clone(),
    });
    let expected = format!("[odd] {}...", &long[..50]);
    assert_eq!(screen.status_messages.last().map(|s| s.as_str()), Some(expected.as_str()));
}

#[test]
fn truncate_string_keeps_short_and_cuts_long() {
    assert_eq!(PromptScreen::truncate_string("hello", 10), "hello");
    assert_eq!(PromptScreen::truncate_string("hello world", 8), "hello...");
    assert_eq!(PromptScreen::truncate_string("abcdef", 2), "...");
}

#[test]
fn view_screen_loading_follows_agent_info() {
    let mut screen = ViewScreen::new();
    assert!(!screen.loading);
    screen.reset();
    assert!(screen.loading);

    screen.handle_posts(vec![]);
    assert!(screen.loading);

    screen.handle_agent_info(lobster::client::AgentInfo { chain_info: None, moltbook_info: None });
    assert!(!screen.loading);

    let mut errored = ViewScreen::new();
    errored.reset();
    errored.handle_fetch_error("down".to_string());
    assert!(!errored.loading);
    assert_eq!(errored.error.as_deref(), Some("down"));
}
