use zzz::zellij_service::RecordingService;
use std::cell::RefCell;
use zzz::codec::decode_message;
use zzz::{
    CommunicationError, CoordinationMessage, MessageRouter, PaneId, PaneInfo, PaneRole,
    WorkflowPhase, ZellijService,
};

struct MockZellijService {
    sent_messages: RefCell<Vec<(String, PaneId)>>,
    piped_messages: RefCell<Vec<(String, String)>>,
}

impl MockZellijService {
    fn new() -> Self {
        MockZellijService {
            sent_messages: RefCell::new(Vec::new()),
            piped_messages: RefCell::new(Vec::new()),
        }
    }

    fn get_sent_messages(&self) -> Vec<(String, PaneId)> {
        self.sent_messages.borrow().clone()
    }
}

impl ZellijService for MockZellijService {
    fn write_chars_to_pane_id(&mut self, message: &str, pane_id: PaneId) {
        self.sent_messages.borrow_mut().push((message.to_string(), pane_id));
    }

    fn pipe_message_to_plugin(&mut self, message: &str, target: &str) {
        self.piped_messages.borrow_mut().push((message.to_string(), target.to_string()));
    }
}

fn create_mock_pane_info(id: u32, title: &str, is_plugin: bool) -> PaneInfo {
    PaneInfo { id, is_plugin, title: title.to_string() }
}

fn create_mock_pane_manifest() -> Vec<PaneInfo> {
    vec![
        create_mock_pane_info(1, "Overseer AI Assistant", true),
        create_mock_pane_info(2, "Commander Terminal", false),
        create_mock_pane_info(3, "Task List Manager", true),
        create_mock_pane_info(4, "Code Review Panel", true),
        create_mock_pane_info(5, "Main Editor", false),
    ]
}

fn create_empty_pane_manifest() -> Vec<PaneInfo> {
    Vec::new()
}

#[test]
fn test_new_router() {
    let mock_service = MockZellijService::new();
    let router = MessageRouter::new(mock_service);

    assert_eq!(router.get_registered_roles().len(), 0);
}

#[test]
fn test_register_pane() {
    let mock_service = MockZellijService::new();
    let mut router = MessageRouter::new(mock_service);

    let pane_id = PaneId::Terminal(42);
    router.register_pane(PaneRole::Overseer, pane_id);

    assert_eq!(router.get_pane_id(&PaneRole::Overseer), Some(pane_id));
    assert!(router.is_role_registered(&PaneRole::Overseer));
    assert!(!router.is_role_registered(&PaneRole::Commander));
}

#[test]
fn test_get_registered_roles() {
    let mock_service = MockZellijService::new();
    let mut router = MessageRouter::new(mock_service);

    router.register_pane(PaneRole::Overseer, PaneId::Terminal(1));
    router.register_pane(PaneRole::Commander, PaneId::Plugin(2));

    let roles = router.get_registered_roles();
    assert_eq!(roles.len(), 2);
    assert!(roles.contains(&PaneRole::Overseer));
    assert!(roles.contains(&PaneRole::Commander));
}

#[test]
fn test_match_pane_name_to_role() {
    assert_eq!(
        MessageRouter::<MockZellijService>::match_pane_name_to_role("Overseer AI Assistant"),
        Some(PaneRole::Overseer)
    );
    assert_eq!(
        MessageRouter::<MockZellijService>::match_pane_name_to_role("Commander Terminal"),
        Some(PaneRole::Commander)
    );
    assert_eq!(
        MessageRouter::<MockZellijService>::match_pane_name_to_role("Task List Manager"),
        Some(PaneRole::TaskList)
    );
    assert_eq!(
        MessageRouter::<MockZellijService>::match_pane_name_to_role("Code Review Panel"),
        Some(PaneRole::Review)
    );
    assert_eq!(
        MessageRouter::<MockZellijService>::match_pane_name_to_role("Main Editor"),
        Some(PaneRole::Editor)
    );
    assert_eq!(
        MessageRouter::<MockZellijService>::match_pane_name_to_role("Random Pane"),
        None
    );
}

#[test]
fn test_discover_panes_with_manifest() {
    let mock_service = MockZellijService::new();
    let mut router = MessageRouter::new(mock_service);
    let manifest = create_mock_pane_manifest();

    let result = router.discover_panes_with_manifest(&manifest);
    assert!(result.is_ok());

    assert!(router.is_role_registered(&PaneRole::Overseer));
    assert!(router.is_role_registered(&PaneRole::Commander));
    assert!(router.is_role_registered(&PaneRole::TaskList));
    assert!(router.is_role_registered(&PaneRole::Review));
    assert!(router.is_role_registered(&PaneRole::Editor));

    assert_eq!(router.get_pane_id(&PaneRole::Overseer), Some(PaneId::Plugin(1)));
    assert_eq!(router.get_pane_id(&PaneRole::Commander), Some(PaneId::Terminal(2)));
    assert_eq!(router.get_pane_id(&PaneRole::TaskList), Some(PaneId::Plugin(3)));
    assert_eq!(router.get_pane_id(&PaneRole::Review), Some(PaneId::Plugin(4)));
    assert_eq!(router.get_pane_id(&PaneRole::Editor), Some(PaneId::Terminal(5)));
}

#[test]
fn test_discover_panes_empty_manifest() {
    let mock_service = MockZellijService::new();
    let mut router = MessageRouter::new(mock_service);
    let manifest = create_empty_pane_manifest();

    let result = router.discover_panes_with_manifest(&manifest);
    assert!(result.is_err());

    if let Err(CommunicationError::PaneDiscoveryFailed(msg)) = result {
        assert!(msg.contains("No matching panes found"));
    } else {
        panic!("Expected PaneDiscoveryFailed error");
    }
    assert!(router.get_registered_roles().is_empty());
}

#[test]
fn test_route_message_to_role() {
    let mock_service = MockZellijService::new();
    let mut router = MessageRouter::new(mock_service);

    let pane_id = PaneId::Terminal(42);
    router.register_pane(PaneRole::Overseer, pane_id);

    let message = CoordinationMessage::StartPlanning {
        task_id: 123,
        task_description: "Test task".to_string(),
    };

    let result = router.route_message_to_role(&message, PaneRole::Overseer);
    assert!(result.is_ok());

    let sent_messages = router.get_zellij_service().get_sent_messages();
    assert_eq!(sent_messages.len(), 1);

    let (sent_message, sent_pane_id) = &sent_messages[0];
    assert_eq!(*sent_pane_id, pane_id);

    let parsed_message = decode_message(sent_message).unwrap();
    if let CoordinationMessage::StartPlanning { task_id, task_description } = parsed_message {
        assert_eq!(task_id, 123);
        assert_eq!(task_description, "Test task");
    } else {
        panic!("Message was not serialized correctly");
    }
}

#[test]
fn test_route_message_to_unregistered_role() {
    let mock_service = MockZellijService::new();
    let mut router = MessageRouter::new(mock_service);

    let message = CoordinationMessage::StartImplementation;
    let result = router.route_message_to_role(&message, PaneRole::Commander);

    assert!(result.is_err());
    if let Err(CommunicationError::PaneNotFound(role)) = result {
        assert_eq!(role, PaneRole::Commander);
    } else {
        panic!("Expected PaneNotFound error");
    }
}

#[test]
fn test_route_message_to_roles() {
    let mock_service = MockZellijService::new();
    let mut router = MessageRouter::new(mock_service);

    router.register_pane(PaneRole::Overseer, PaneId::Plugin(1));
    router.register_pane(PaneRole::Commander, PaneId::Terminal(2));

    let message = CoordinationMessage::AllTasksComplete;
    let target_roles = [PaneRole::Overseer, PaneRole::Commander, PaneRole::TaskList];

    let results = router.route_message_to_roles(&message, &target_roles);
    assert_eq!(results.len(), 3);

    let overseer_result = results.iter().find(|(role, _)| *role == PaneRole::Overseer).unwrap();
    assert!(overseer_result.1.is_ok());

    let commander_result = results.iter().find(|(role, _)| *role == PaneRole::Commander).unwrap();
    assert!(commander_result.1.is_ok());

    let tasklist_result = results.iter().find(|(role, _)| *role == PaneRole::TaskList).unwrap();
    assert!(tasklist_result.1.is_err());

    let sent_messages = router.get_zellij_service().get_sent_messages();
    assert_eq!(sent_messages.len(), 2);
}

#[test]
fn test_broadcast_to_all() {
    let mock_service = MockZellijService::new();
    let mut router = MessageRouter::new(mock_service);

    router.register_pane(PaneRole::Overseer, PaneId::Plugin(1));
    router.register_pane(PaneRole::Commander, PaneId::Terminal(2));
    router.register_pane(PaneRole::Editor, PaneId::Terminal(3));

    let message = CoordinationMessage::PhaseTransition {
        from: WorkflowPhase::Initializing,
        to: WorkflowPhase::PlanningInProgress,
    };

    let results = router.broadcast_to_all(&message);
    assert_eq!(results.len(), 3);

    for (_, result) in &results {
        assert!(result.is_ok());
    }

    let sent_messages = router.get_zellij_service().get_sent_messages();
    assert_eq!(sent_messages.len(), 3);

    for (sent_message, _) in &sent_messages {
        let parsed = decode_message(sent_message).unwrap();
        if let CoordinationMessage::PhaseTransition { from, to } = parsed {
            assert_eq!(from, WorkflowPhase::Initializing);
            assert_eq!(to, WorkflowPhase::PlanningInProgress);
        } else {
            panic!("Unexpected message type");
        }
    }
}

#[test]
fn route_to_empty_registry_writes_nothing() {
    let mut router = MessageRouter::new(MockZellijService::new());
    let result = router.route_message_to_role(&CoordinationMessage::StartReview, PaneRole::TaskList);
    assert!(matches!(result, Err(CommunicationError::PaneNotFound(PaneRole::TaskList))));
    assert!(router.get_zellij_service().get_sent_messages().is_empty());
}

#[test]
fn fan_out_outcomes_do_not_depend_on_order() {
    let orders = [
        [PaneRole::Overseer, PaneRole::Commander, PaneRole::TaskList],
        [PaneRole::TaskList, PaneRole::Overseer, PaneRole::Commander],
        [PaneRole::Commander, PaneRole::TaskList, PaneRole::Overseer],
    ];
    for order in orders {
        let mut router = MessageRouter::new(MockZellijService::new());
        router.register_pane(PaneRole::Overseer, PaneId::Plugin(1));
        router.register_pane(PaneRole::Commander, PaneId::Terminal(2));
        let results = router.route_message_to_roles(&CoordinationMessage::AllTasksComplete, &order);
        assert_eq!(results.len(), 3);
        for (i, (role, result)) in results.iter().enumerate() {
            assert_eq!(*role, order[i]);
            if *role == PaneRole::TaskList {
                assert!(matches!(result, Err(CommunicationError::PaneNotFound(PaneRole::TaskList))));
            } else {
                assert!(result.is_ok());
            }
        }
        let sent = router.get_zellij_service().get_sent_messages();
        assert_eq!(sent.len(), 2);
        for (text, _) in &sent {
            assert_eq!(text, "\"AllTasksComplete\"");
        }
    }
}

#[test]
fn discovery_last_match_wins_and_replaces_registry() {
    let mut router = MessageRouter::new(MockZellijService::new());
    router.register_pane(PaneRole::Editor, PaneId::Terminal(9));
    let panes = vec![
        create_mock_pane_info(1, "Overseer one", false),
        create_mock_pane_info(2, "unrelated", true),
        create_mock_pane_info(3, "OVERSEER two", true),
    ];
    assert!(router.discover_panes_with_manifest(&panes).is_ok());
    assert_eq!(router.get_pane_id(&PaneRole::Overseer), Some(PaneId::Plugin(3)));
    assert_eq!(router.get_registered_roles(), vec![PaneRole::Overseer]);
}

#[test]
fn failed_discovery_clears_registry() {
    let mut router = MessageRouter::new(MockZellijService::new());
    router.register_pane(PaneRole::Review, PaneId::Plugin(7));
    let panes = vec![create_mock_pane_info(1, "Random Pane", false)];
    assert!(matches!(
        router.discover_panes_with_manifest(&panes),
        Err(CommunicationError::PaneDiscoveryFailed(_))
    ));
    assert!(router.get_registered_roles().is_empty());
}

#[test]
fn task_list_spellings_and_priority() {
    type R = MessageRouter<MockZellijService>;
    assert_eq!(R::match_pane_name_to_role("my TaskList"), Some(PaneRole::TaskList));
    assert_eq!(R::match_pane_name_to_role("task-list"), Some(PaneRole::TaskList));
    assert_eq!(R::match_pane_name_to_role("Task_List"), Some(PaneRole::TaskList));
    assert_eq!(R::match_pane_name_to_role("review of overseer"), Some(PaneRole::Overseer));
    assert_eq!(R::match_pane_name_to_role("editor review"), Some(PaneRole::Review));
    assert_eq!(R::match_pane_name_to_role(""), None);
    assert_eq!(zzz::router::match_lowercased_name_to_role("Overseer"), None);
    assert_eq!(zzz::router::match_lowercased_name_to_role("overseer"), Some(PaneRole::Overseer));
}

#[test]
fn execute_command_writes_raw_text() {
    let mut router = MessageRouter::new(MockZellijService::new());
    router.register_pane(PaneRole::Commander, PaneId::Terminal(4));
    assert!(router.execute_command_in_role("ls -la\n", PaneRole::Commander).is_ok());
    assert!(matches!(
        router.execute_command_in_role("ls", PaneRole::Editor),
        Err(CommunicationError::PaneNotFound(PaneRole::Editor))
    ));
    assert_eq!(
        router.get_zellij_service().get_sent_messages(),
        vec![("ls -la\n".to_string(), PaneId::Terminal(4))]
    );
}

#[test]
fn registered_roles_follow_role_order() {
    let mut router = MessageRouter::new(MockZellijService::new());
    router.register_pane(PaneRole::Editor, PaneId::Terminal(5));
    router.register_pane(PaneRole::Overseer, PaneId::Plugin(1));
    router.register_pane(PaneRole::Editor, PaneId::Terminal(6));
    assert_eq!(router.get_registered_roles(), vec![PaneRole::Overseer, PaneRole::Editor]);
    assert_eq!(router.get_pane_id(&PaneRole::Editor), Some(PaneId::Terminal(6)));
}

#[test]
fn recording_service_sees_every_write() {
    let mut router = MessageRouter::new(RecordingService::new());
    router.register_pane(PaneRole::Overseer, PaneId::Plugin(1));
    router.register_pane(PaneRole::Editor, PaneId::Terminal(3));
    let results = router.broadcast_to_all(&CoordinationMessage::StartReview);
    assert_eq!(results.len(), 2);
    assert_eq!(
        router.get_zellij_service().sent_messages,
        vec![
            ("\"StartReview\"".to_string(), PaneId::Plugin(1)),
            ("\"StartReview\"".to_string(), PaneId::Terminal(3)),
        ]
    );
    assert!(router.get_zellij_service().piped_messages.is_empty());
}

#[test]
fn discovery_error_text() {
    let mut router = MessageRouter::new(MockZellijService::new());
    match router.discover_panes_with_manifest(&Vec::new()) {
        Err(CommunicationError::PaneDiscoveryFailed(msg)) => {
            assert_eq!(msg, "No matching panes found in current layout")
        }
        other => panic!("unexpected {:?}", other),
    }
    assert!(router.get_zellij_service().get_sent_messages().is_empty());
}
