use bitcoincore_zmq::Message;
use chain_ingest::engine::{
    authorize, gethash, Action, ConfigError, Controller, EngineError, Event, FeedError, Mode,
    ProcessedBlocks, WINDOW_CAPACITY,
};

fn hash(i: u64) -> String {
    format!("{:064x}", i)
}

fn window_of(hashes: &[&str]) -> ProcessedBlocks {
    ProcessedBlocks { blocks: hashes.iter().map(|h| h.to_string()).collect() }
}

fn listening(window: ProcessedBlocks) -> Controller {
    Controller { mode: Mode::Listen, cursor: 12, pending: None, proposal_ids: vec![42], window }
}

#[test]
fn an_empty_window_holds_nothing() {
    let window = ProcessedBlocks::default();
    assert_eq!(window.blocks, Vec::<String>::new());
    assert!(!window.contains("00aa"));
    assert!(!window.contains(""));
}

#[test]
fn the_window_holds_what_was_put_in() {
    let mut window = ProcessedBlocks::default();
    window.inject("00aa".to_string());
    window.inject("00bb".to_string());
    assert!(window.contains("00aa"));
    assert!(window.contains("00bb"));
    assert!(!window.contains("00cc"));
    assert!(!window.contains("00a"));
    assert_eq!(window.blocks, vec!["00aa".to_string(), "00bb".to_string()]);
}

#[test]
fn the_window_never_exceeds_its_capacity() {
    assert_eq!(WINDOW_CAPACITY, 1000);
    let mut window = ProcessedBlocks::default();
    for i in 0..2500u64 {
        window.inject(hash(i));
        assert!(window.blocks.len() <= 1000);
    }
    assert_eq!(window.blocks.len(), 1000);
}

#[test]
fn a_full_window_lets_its_oldest_hash_go() {
    let mut window = ProcessedBlocks::default();
    for i in 0..1000u64 {
        window.inject(hash(i));
    }
    assert_eq!(window.blocks.len(), 1000);
    assert!(window.contains(&hash(0)));
    window.inject(hash(1000));
    assert_eq!(window.blocks.len(), 1000);
    assert!(!window.contains(&hash(0)));
    assert!(window.contains(&hash(1)));
    assert!(window.contains(&hash(1000)));
    assert_eq!(window.blocks[0], hash(1));
    assert_eq!(window.blocks[999], hash(1000));
    window.inject(hash(1001));
    assert!(!window.contains(&hash(1)));
    assert_eq!(window.blocks[0], hash(2));
    for i in 0..998usize {
        assert_eq!(window.blocks[i], hash(i as u64 + 2));
    }
}

#[test]
fn a_window_beyond_its_capacity_keeps_its_newest_hashes() {
    let mut window = ProcessedBlocks { blocks: (0..1500u64).map(hash).collect() };
    window.trim();
    assert_eq!(window.blocks.len(), 1000);
    assert_eq!(window.blocks[0], hash(500));
    assert_eq!(window.blocks[999], hash(1499));
    let mut window = ProcessedBlocks { blocks: (0..1500u64).map(hash).collect() };
    window.inject(hash(1500));
    assert_eq!(window.blocks.len(), 1000);
    assert_eq!(window.blocks[0], hash(501));
    assert_eq!(window.blocks[999], hash(1500));
    let mut window = window_of(&["00aa", "00bb"]);
    window.trim();
    assert_eq!(window, window_of(&["00aa", "00bb"]));
}

#[test]
fn a_window_kept_beyond_its_capacity_is_cut_at_start() {
    let kept = ProcessedBlocks { blocks: (0..1001u64).map(hash).collect() };
    let (controller, action) = Controller::start(Some(7), Vec::new(), kept).unwrap();
    assert_eq!(action, Action::FetchHash(8));
    assert_eq!(controller.window.blocks.len(), 1000);
    assert_eq!(controller.window.blocks[0], hash(1));
    assert_eq!(controller.window.blocks[999], hash(1000));
}

#[test]
fn a_hash_block_message_gives_its_hash() {
    let mut data = [0u8; 32];
    for i in 0..32 {
        data[i] = i as u8;
    }
    let message = Message::from_parts(b"hashblock", &data, [0, 0, 0, 0]).unwrap();
    let expected: String = data.iter().map(|b| format!("{:02x}", b)).collect();
    assert_eq!(gethash::<FeedError>(Ok(message)), Ok(expected));
}

#[test]
fn a_message_of_another_kind_is_unexpected() {
    let data = [7u8; 32];
    let message = Message::from_parts(b"hashtx", &data, [1, 0, 0, 0]).unwrap();
    assert_eq!(gethash::<FeedError>(Ok(message)), Err(FeedError::UnexpectedMessage));
}

#[test]
fn a_failure_of_the_feed_is_a_transport_error() {
    assert_eq!(gethash(Err("connection lost")), Err(FeedError::Transport));
}

#[test]
fn an_endpoint_is_a_host_and_a_port() {
    let auth = authorize("127.0.0.1:51725", "user", "pass").unwrap();
    assert_eq!(auth.url(), "http://127.0.0.1:51725/");
    assert_eq!(auth.user(), "user");
    assert_eq!(auth.password(), "pass");
    assert_eq!(authorize("localhost:0", "", "").unwrap().url(), "http://localhost:0/");
    assert_eq!(authorize("h:+080", "", "").unwrap().url(), "http://h:80/");
}

#[test]
fn an_endpoint_without_exactly_one_colon_is_malformed() {
    assert_eq!(authorize("127.0.0.1", "u", "p").err(), Some(ConfigError::MalformedEndpoint));
    assert_eq!(authorize("a:1:2", "u", "p").err(), Some(ConfigError::MalformedEndpoint));
    assert_eq!(authorize("", "u", "p").err(), Some(ConfigError::MalformedEndpoint));
}

#[test]
fn a_port_that_is_no_port_number_is_malformed() {
    assert_eq!(authorize("host:", "u", "p").err(), Some(ConfigError::MalformedPort));
    assert_eq!(authorize("host:http", "u", "p").err(), Some(ConfigError::MalformedPort));
    assert_eq!(authorize("host:65536", "u", "p").err(), Some(ConfigError::MalformedPort));
    assert_eq!(authorize("host:-1", "u", "p").err(), Some(ConfigError::MalformedPort));
    assert_eq!(authorize("host:65535", "u", "p").unwrap().url(), "http://host:65535/");
}

#[test]
fn an_empty_store_is_caught_up_from_height_zero() {
    let (controller, action) = Controller::start(None, Vec::new(), ProcessedBlocks::default()).unwrap();
    assert_eq!(action, Action::FetchHash(0));
    assert_eq!(controller.mode, Mode::Catchup);
    assert_eq!(controller.cursor, 0);
    assert_eq!(controller.pending, None);
}

#[test]
fn a_store_is_caught_up_from_the_height_after_its_top() {
    let window = window_of(&["00aa"]);
    let (controller, action) = Controller::start(Some(41), vec![7], window.clone()).unwrap();
    assert_eq!(action, Action::FetchHash(42));
    assert_eq!(
        controller,
        Controller { mode: Mode::Catchup, cursor: 42, pending: None, proposal_ids: vec![7], window }
    );
    let (_, action) = Controller::start(Some(0), Vec::new(), ProcessedBlocks::default()).unwrap();
    assert_eq!(action, Action::FetchHash(1));
}

#[test]
fn there_is_no_height_after_the_last() {
    assert_eq!(
        Controller::start(Some(u64::MAX), Vec::new(), ProcessedBlocks::default()),
        Err(EngineError::HeightOverflow)
    );
    let controller = Controller {
        mode: Mode::Catchup,
        cursor: u64::MAX,
        pending: Some(hash(1)),
        proposal_ids: Vec::new(),
        window: ProcessedBlocks::default(),
    };
    assert_eq!(controller.step(Event::Scanned(None)), Err(EngineError::HeightOverflow));
}

#[test]
fn catching_up_scans_the_heights_in_order() {
    let (mut controller, mut action) =
        Controller::start(None, Vec::new(), ProcessedBlocks::default()).unwrap();
    let mut scanned: Vec<u64> = Vec::new();
    for n in 0..25u64 {
        let asked = match action {
            Action::FetchHash(height) => height,
            other => panic!("{:?}", other),
        };
        assert_eq!(asked, n);
        let (busy, next) = controller.step(Event::HeightAnswer(Some(hash(asked)))).unwrap();
        assert_eq!(next, Action::Scan(hash(asked)));
        assert_eq!(busy.pending, Some(hash(asked)));
        scanned.push(asked);
        let (done, next) = busy.step(Event::Scanned(None)).unwrap();
        assert_eq!(done.cursor, n + 1);
        assert_eq!(done.pending, None);
        assert_eq!(done.mode, Mode::Catchup);
        controller = done;
        action = next;
    }
    assert_eq!(action, Action::FetchHash(25));
    assert_eq!(scanned, (0..25u64).collect::<Vec<u64>>());
    assert_eq!(controller.window, ProcessedBlocks::default());
}

#[test]
fn a_new_proposal_replaces_the_known_proposals() {
    let (controller, _) = Controller::start(Some(9), vec![42], ProcessedBlocks::default()).unwrap();
    let (busy, _) = controller.step(Event::HeightAnswer(Some(hash(10)))).unwrap();
    let (done, action) = busy.step(Event::Scanned(Some(vec![42, 43]))).unwrap();
    assert_eq!(done.proposal_ids, vec![42, 43]);
    assert_eq!(action, Action::FetchHash(11));
    let (busy, _) = done.step(Event::HeightAnswer(Some(hash(11)))).unwrap();
    let (done, _) = busy.step(Event::Scanned(None)).unwrap();
    assert_eq!(done.proposal_ids, vec![42, 43]);
}

#[test]
fn a_height_that_does_not_exist_yet_ends_the_catching_up() {
    let (controller, _) = Controller::start(Some(9), vec![42], window_of(&["00aa"])).unwrap();
    let (controller, action) = controller.step(Event::HeightAnswer(None)).unwrap();
    assert_eq!(action, Action::Await);
    assert_eq!(
        controller,
        Controller {
            mode: Mode::Listen,
            cursor: 10,
            pending: None,
            proposal_ids: vec![42],
            window: window_of(&["00aa"]),
        }
    );
}

#[test]
fn a_new_hash_of_the_feed_is_scanned_and_enters_the_window() {
    let controller = listening(window_of(&["00aa"]));
    let (busy, action) = controller.step(Event::Notification("00bb".to_string())).unwrap();
    assert_eq!(action, Action::Scan("00bb".to_string()));
    assert_eq!(busy.pending, Some("00bb".to_string()));
    assert_eq!(busy.window, window_of(&["00aa"]));
    let (done, action) = busy.step(Event::Scanned(None)).unwrap();
    assert_eq!(action, Action::PersistWindow);
    assert_eq!(done, listening(window_of(&["00aa", "00bb"])));
}

#[test]
fn the_same_hash_twice_in_succession_is_scanned_once() {
    let mut controller = listening(ProcessedBlocks::default());
    let mut scans = 0;
    for _ in 0..2 {
        let (next, action) = controller.step(Event::Notification("00bb".to_string())).unwrap();
        controller = next;
        match action {
            Action::Scan(_) => {
                scans += 1;
                let (next, action) = controller.step(Event::Scanned(None)).unwrap();
                assert_eq!(action, Action::PersistWindow);
                controller = next;
            }
            Action::Await => {}
            other => panic!("{:?}", other),
        }
    }
    assert_eq!(scans, 1);
    assert_eq!(controller.window.blocks, vec!["00bb".to_string()]);
}

#[test]
fn a_hash_that_the_window_holds_is_dropped() {
    let controller = listening(window_of(&["00aa", "00bb"]));
    let (same, action) = controller.step(Event::Notification("00aa".to_string())).unwrap();
    assert_eq!(action, Action::Await);
    assert_eq!(same, listening(window_of(&["00aa", "00bb"])));
}

#[test]
fn a_hash_that_has_left_the_window_is_scanned_again() {
    let mut controller = listening(ProcessedBlocks::default());
    for i in 0..1001u64 {
        let (busy, action) = controller.step(Event::Notification(hash(i))).unwrap();
        assert_eq!(action, Action::Scan(hash(i)));
        let (done, _) = busy.step(Event::Scanned(None)).unwrap();
        controller = done;
    }
    assert_eq!(controller.window.blocks.len(), 1000);
    let (_, action) = controller.clone().step(Event::Notification(hash(1))).unwrap();
    assert_eq!(action, Action::Await);
    let (_, action) = controller.step(Event::Notification(hash(0))).unwrap();
    assert_eq!(action, Action::Scan(hash(0)));
}

#[test]
fn an_event_at_the_wrong_time_is_an_error() {
    let (catching, _) = Controller::start(None, Vec::new(), ProcessedBlocks::default()).unwrap();
    assert_eq!(
        catching.clone().step(Event::Notification(hash(1))),
        Err(EngineError::UnexpectedEvent)
    );
    assert_eq!(catching.clone().step(Event::Scanned(None)), Err(EngineError::UnexpectedEvent));
    let (busy, _) = catching.step(Event::HeightAnswer(Some(hash(0)))).unwrap();
    assert_eq!(
        busy.clone().step(Event::HeightAnswer(Some(hash(1)))),
        Err(EngineError::UnexpectedEvent)
    );
    assert_eq!(busy.step(Event::HeightAnswer(None)), Err(EngineError::UnexpectedEvent));
    let waiting = listening(ProcessedBlocks::default());
    assert_eq!(waiting.clone().step(Event::HeightAnswer(None)), Err(EngineError::UnexpectedEvent));
    assert_eq!(waiting.clone().step(Event::Scanned(None)), Err(EngineError::UnexpectedEvent));
    let (busy, _) = waiting.step(Event::Notification(hash(5))).unwrap();
    assert_eq!(busy.step(Event::Notification(hash(6))), Err(EngineError::UnexpectedEvent));
}
