use pay_dcp::messages::{
    format_received_choice, next_steps, summary_lines, topup_required_body, topup_retry_command,
    NextSteps, ReceivedDisplay, SummaryLine,
};

#[test]
fn topup_required_body_uses_default_topup_command_for_default_account() {
    assert_eq!(
        topup_required_body("default"),
        "A top-up is required before making paid requests.\n$ pay topup"
    );
}

#[test]
fn topup_required_body_uses_named_account_topup_command() {
    assert_eq!(
        topup_required_body("test-2"),
        "A top-up is required before making paid requests.\n$ pay topup --account test-2"
    );
}

#[test]
fn topup_retry_command_names_only_non_default_accounts() {
    assert_eq!(topup_retry_command("default"), "pay topup");
    assert_eq!(topup_retry_command("dcp"), "pay topup --account dcp");
    assert_eq!(topup_retry_command("Default"), "pay topup --account Default");
    assert_eq!(topup_retry_command(""), "pay topup --account ");
}

#[test]
fn received_prefers_usdc_over_earlier_tokens() {
    let symbols = vec![Some("BONK".to_string()), None, Some("USDC".to_string())];
    assert_eq!(format_received_choice(&symbols, 5), ReceivedDisplay::Usdc(2));
}

#[test]
fn received_falls_back_to_first_token_with_its_symbol() {
    let symbols = vec![Some("BONK".to_string()), Some("JUP".to_string())];
    assert_eq!(
        format_received_choice(&symbols, 5),
        ReceivedDisplay::Token(0, "BONK".to_string())
    );
    let unnamed = vec![None, Some("JUP".to_string())];
    assert_eq!(
        format_received_choice(&unnamed, 0),
        ReceivedDisplay::Token(0, "tokens".to_string())
    );
}

#[test]
fn received_shows_sol_only_without_tokens() {
    assert_eq!(format_received_choice(&vec![], 1), ReceivedDisplay::Sol);
    assert_eq!(format_received_choice(&vec![], 0), ReceivedDisplay::Nothing);
}

#[test]
fn next_steps_after_funding_and_without() {
    assert_eq!(
        next_steps("default", Some("$1.00".to_string())),
        NextSteps::Funded { amount: Some("$1.00".to_string()) }
    );
    assert_eq!(
        next_steps("default", Some(String::new())),
        NextSteps::Funded { amount: None }
    );
    assert_eq!(
        next_steps("main", None),
        NextSteps::TopupRequired {
            body: "A top-up is required before making paid requests.\n$ pay topup --account main"
                .to_string()
        }
    );
}

#[test]
fn summary_after_funding_lists_every_line_in_order() {
    assert_eq!(
        summary_lines("work", "GNOME Keyring", Some("$1.00".to_string())),
        vec![
            SummaryLine::Blank,
            SummaryLine::Secured("GNOME Keyring".to_string()),
            SummaryLine::Funded("$1.00".to_string()),
            SummaryLine::Blank,
            SummaryLine::Ready,
            SummaryLine::Blank,
            SummaryLine::Command("$ pay codex".to_string()),
            SummaryLine::Blank,
        ]
    );
    assert_eq!(
        summary_lines("work", "DCP", Some(String::new())),
        vec![
            SummaryLine::Blank,
            SummaryLine::Secured("DCP".to_string()),
            SummaryLine::Blank,
            SummaryLine::Ready,
            SummaryLine::Blank,
            SummaryLine::Command("$ pay codex".to_string()),
            SummaryLine::Blank,
        ]
    );
}

#[test]
fn summary_without_funds_asks_for_a_topup() {
    assert_eq!(
        summary_lines("default", "Apple Keychain", None),
        vec![
            SummaryLine::Blank,
            SummaryLine::Secured("Apple Keychain".to_string()),
            SummaryLine::Blank,
            SummaryLine::TopupNotice("A top-up is required before making paid requests.\n$ pay topup".to_string()),
            SummaryLine::Blank,
        ]
    );
}
