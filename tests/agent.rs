use agent_pipeline::agent::{AgentState, BasicAgent, Message};
use agent_pipeline::command::{agent_label, confirmation_choice, PrintCommand, TextColor};
use agent_pipeline::validator::{any_unreachable, prune_urls, ProbeOutcome};

#[test]
fn test_print_agent_message() {
    let agent_pos = "AI";
    let agent_statement = "Hello, I am an AI agent";
    let expected_output = format!("{}{}\n", agent_label(agent_pos), agent_statement);
    assert_eq!(expected_output, "Agent: AI: Hello, I am an AI agent\n");
}

#[test]
fn statement_colors_follow_command() {
    assert_eq!(PrintCommand::AICall.statement_color(), TextColor::Cyan);
    assert_eq!(PrintCommand::UnitTest.statement_color(), TextColor::Magenta);
    assert_eq!(PrintCommand::Issue.statement_color(), TextColor::Red);
    assert_eq!(PrintCommand::Issue.position_color(), TextColor::Green);
}

#[test]
fn basic_agent_lifecycle() {
    let mut agent = BasicAgent::new("goal".to_string(), "Writer".to_string());
    assert_eq!(*agent.get_state(), AgentState::Discovery);
    assert_eq!(agent.get_objective(), "goal");
    assert_eq!(agent.get_position(), "Writer");
    agent.update_state(AgentState::Working);
    assert_eq!(*agent.get_state(), AgentState::Working);
    agent.remember(Message::new("user", "hi".to_string()));
    assert_eq!(agent.get_memory().len(), 1);
    assert_eq!(agent.get_memory()[0].content, "hi");
}

#[test]
fn duplicate_url_condemned_once_is_removed_everywhere() {
    let urls: Vec<String> = vec!["https://x.test".into(), "https://y.test".into(), "https://x.test".into()];
    let outcomes = vec![ProbeOutcome::TransportFailed, ProbeOutcome::Status(200), ProbeOutcome::Status(301)];
    assert_eq!(prune_urls(&urls, &outcomes), vec!["https://y.test".to_string()]);
}

#[test]
fn empty_list_stays_empty() {
    assert_eq!(prune_urls(&vec![], &vec![]), Vec::<String>::new());
    assert!(!any_unreachable(&vec![]));
    assert!(any_unreachable(&vec![ProbeOutcome::TransportFailed, ProbeOutcome::Status(503)]));
    assert!(!any_unreachable(&vec![ProbeOutcome::TransportFailed, ProbeOutcome::Status(200)]));
}

#[test]
fn confirmation_answers() {
    for a in ["1", "ok", "y"] {
        assert_eq!(confirmation_choice(a), Some(true));
    }
    for a in ["2", "no", "n"] {
        assert_eq!(confirmation_choice(a), Some(false));
    }
    assert_eq!(confirmation_choice("maybe"), None);
    assert_eq!(confirmation_choice(""), None);
}
