use forge_backend::forge_output::{ForgeOutput, ForgeTransaction, ForgeTransactionDetails};
use forge_backend::guidelines::{doc_links_of, raw_doc_url, ProtocolGuidelinesProcessor};
use forge_backend::models::{FixRequest, ForgeRequest, Turn};
use forge_backend::pipeline::{
    Action, Effect, Event, OutputFile, Phase, Pipeline, Verdict, DEFAULT_CAPACITY, DEFAULT_SINK_CAPACITY,
};
use forge_backend::step::stream_event;
use forge_backend::registry::Registry;
use forge_backend::step::ForgeStep;

const REPLY: &str = "Sure.\n```solidity\ncontract Swap {}\n```\nInstall with:\n```bash\nforge install example/lib\n```\n";

fn request(session_id: Option<&str>) -> ForgeRequest {
    ForgeRequest {
        intent: "swap 1 ETH for USDC".to_string(),
        from_address: "0x0000000000000000000000000000000000000001".to_string(),
        rpc_url: None,
        session_id: session_id.map(|s| s.to_string()),
    }
}

fn titles(actions: &[Action]) -> Vec<String> {
    actions.iter().flat_map(|a| a.records.iter().map(|r| r.title.clone())).collect()
}

fn records(actions: &[Action]) -> Vec<(String, String)> {
    actions
        .iter()
        .flat_map(|a| a.records.iter().map(|r| (r.title.clone(), r.output.clone())))
        .collect()
}

fn run_until_output(reply: &str) -> (Pipeline, Vec<Action>) {
    let mut p = Pipeline::generation(&request(Some("abc")), String::new());
    let events = vec![
        Event::Started,
        Event::Completed,
        Event::WorkspaceCreated("/tmp/forge_abc_1".to_string()),
        Event::Completed,
        Event::Guidance(String::new()),
        Event::Generated { prompt: "make a swap".to_string(), response: reply.to_string() },
        Event::Completed,
        Event::Completed,
        Event::Completed,
        Event::Simulated { success: true, stdout: "ok".to_string(), stderr: String::new() },
    ];
    let actions = p.run_events(events);
    (p, actions)
}

fn verdicts(actions: &[Action]) -> Vec<Verdict> {
    actions
        .iter()
        .filter_map(|a| match a.effect {
            Effect::Finish(v) => Some(v),
            _ => None,
        })
        .collect()
}

#[test]
fn generation_scenario_in_order() {
    let (mut p, mut actions) = run_until_output(REPLY);
    assert_eq!(p.phase(), Phase::ReadingOutput);
    match &actions[0].effect {
        Effect::AcquirePermit => {}
        _ => panic!("a run starts by waiting for a permit"),
    }
    match &actions[1].effect {
        Effect::CreateWorkspace { prefix } => assert_eq!(prefix, "forge_abc_"),
        _ => panic!("then it creates its workspace"),
    }
    match &actions[6].effect {
        Effect::Install { component } => assert_eq!(component, "example/lib"),
        _ => panic!("the shell block's component is installed"),
    }
    match &actions[7].effect {
        Effect::WriteScript { source } => assert_eq!(source, "contract Swap {}"),
        _ => panic!("then the script is written"),
    }
    let tx = ForgeTransaction {
        hash: Some("0x1".to_string()),
        transaction_type: "CALL".to_string(),
        contract_name: None,
        contract_address: "0xRouter".to_string(),
        function: "exactInputSingle".to_string(),
        arguments: vec![],
        transaction: ForgeTransactionDetails {
            from: "0x01".to_string(),
            to: "0xRouter".to_string(),
            gas: "0x5208".to_string(),
            value: "0x1".to_string(),
            input: "0x".to_string(),
            nonce: "0x0".to_string(),
            chain_id: "0x1".to_string(),
        },
    };
    let out = ForgeOutput { transactions: vec![tx], timestamp: 0, chain: 1, commit: None };
    actions.push(p.advance(Event::Output(OutputFile::Parsed(out))));
    let t = titles(&actions);
    assert_eq!(
        t,
        vec![
            "Session",
            "Initializing Forge",
            "Generating Code",
            "Installing Dependencies",
            "Writing Code",
            "Simulating Transactions",
            "Simulating Transactions",
            "Simulating Transactions",
        ]
    );
    let r = records(&actions);
    assert_eq!(r[0].1, "/tmp/forge_abc_1");
    assert_eq!(r[3].1, "Installing example/lib\n");
    assert_eq!(r[6].1, "STDOUT:\nok\n\nSTDERR:\n");
    assert_eq!(
        r[7].1,
        "[{\"to\":\"0xRouter\",\"function\":\"exactInputSingle\",\"arguments\":[],\"value\":\"0x1\",\"input_data\":\"0x\"}]"
    );
    assert_eq!(verdicts(&actions), vec![Verdict::Success]);
    assert_eq!(p.outcome(), Some(Verdict::Success));
}

#[test]
fn failed_simulation_reports_diagnostics_once() {
    let mut p = Pipeline::generation(&request(None), "id".to_string());
    let events = vec![
        Event::Started,
        Event::Completed,
        Event::WorkspaceCreated("/tmp/w".to_string()),
        Event::Completed,
        Event::Guidance(String::new()),
        Event::Generated { prompt: "p".to_string(), response: "```\ncontract X {}\n```".to_string() },
        Event::Completed,
        Event::Completed,
        Event::Simulated { success: false, stdout: "out".to_string(), stderr: "revert".to_string() },
        Event::Completed,
        Event::Completed,
    ];
    let actions = p.run_events(events);
    assert_eq!(actions.len(), 9);
    assert_eq!(verdicts(&actions), vec![Verdict::Failed]);
    let r = records(&actions);
    let errors: Vec<_> = r.iter().filter(|(t, _)| t == "Error").collect();
    assert_eq!(errors.len(), 1);
    assert_eq!(errors[0].1, "Forge script failed:\nSTDOUT:\nout\n\nSTDERR:\nrevert");
    assert_eq!(r.last().unwrap().0, "Error");
    let again = p.advance(Event::Completed);
    assert!(again.records.is_empty());
    assert!(matches!(again.effect, Effect::Finish(Verdict::Failed)));
}

#[test]
fn missing_output_file_is_success_with_no_transactions() {
    let (mut p, _) = run_until_output(REPLY);
    let a = p.advance(Event::Output(OutputFile::Missing));
    assert!(matches!(a.effect, Effect::Finish(Verdict::Success)));
    assert_eq!(a.records.len(), 1);
    assert_eq!(a.records[0].title, "Simulating Transactions");
    assert_eq!(a.records[0].output, "[]");
}

#[test]
fn malformed_output_file_is_one_parse_error() {
    let (mut p, _) = run_until_output(REPLY);
    let a = p.advance(Event::Output(OutputFile::Malformed("expected value".to_string())));
    assert!(matches!(a.effect, Effect::Finish(Verdict::Failed)));
    assert_eq!(a.records.len(), 1);
    assert_eq!(a.records[0].title, "Error");
    assert_eq!(a.records[0].output, "Failed to parse Forge output");
}

#[test]
fn reply_without_source_block_fails() {
    let (p, actions) = run_until_output("I cannot help with that.");
    assert_eq!(p.outcome(), Some(Verdict::Failed));
    let r = records(&actions);
    assert_eq!(r.last().unwrap(), &("Error".to_string(), "No Solidity code block found".to_string()));
    assert_eq!(verdicts(&actions), vec![Verdict::Failed]);
}

#[test]
fn workspace_failure_ends_run() {
    let mut p = Pipeline::start_generation(&request(None));
    let actions = p.run_events(vec![Event::Started, Event::Completed, Event::Failed("disk full".to_string())]);
    let r = records(&actions);
    assert_eq!(r, vec![("Error".to_string(), "Failed to create temp directory: disk full".to_string())]);
}

#[test]
fn fix_run_extends_session_and_resimulates() {
    let req = FixRequest { error: "compile error".to_string(), temp_dir: "/tmp/w1".to_string(), rpc_url: Some("http://node:8545".to_string()) };
    let mut p = Pipeline::fix(&req);
    let loaded = vec![
        Turn { role: "user".to_string(), content: "first prompt".to_string() },
        Turn { role: "assistant".to_string(), content: "first reply".to_string() },
    ];
    let mut actions = p.run_events(vec![Event::Started, Event::Completed, Event::SessionLoaded(loaded)]);
    match &actions[0].effect {
        Effect::LookupWorkspace { key } => assert_eq!(key, "/tmp/w1"),
        _ => panic!("a fix run looks its workspace up"),
    }
    match &actions[2].effect {
        Effect::RequestFix { error, history } => {
            assert_eq!(error, "compile error");
            assert_eq!(history.len(), 2);
        }
        _ => panic!("then asks for a fix"),
    }
    actions.push(p.advance(Event::Generated { prompt: "fix it".to_string(), response: "```solidity\ncontract Y {}\n```".to_string() }));
    match &actions[3].effect {
        Effect::SaveSession { turns } => {
            assert_eq!(turns.len(), 4);
            assert_eq!(turns[0].content, "first prompt");
            assert_eq!(turns[2].role, "user");
            assert_eq!(turns[2].content, "fix it");
            assert_eq!(turns[3].role, "assistant");
        }
        _ => panic!("then saves the longer session"),
    }
    actions.push(p.advance(Event::Completed));
    actions.push(p.advance(Event::Completed));
    match &actions[5].effect {
        Effect::Simulate { rpc_url } => assert_eq!(rpc_url, "http://node:8545"),
        _ => panic!("then simulates again"),
    }
}

#[test]
fn fix_run_with_unknown_session() {
    let req = FixRequest { error: "e".to_string(), temp_dir: "/nope".to_string(), rpc_url: None };
    let mut p = Pipeline::fix(&req);
    let actions = p.run_events(vec![Event::Started, Event::Failed(String::new())]);
    assert_eq!(records(&actions), vec![("Error".to_string(), "Session directory not found".to_string())]);
    assert_eq!(p.outcome(), Some(Verdict::Failed));
}

#[test]
fn default_rpc_url_is_local_node() {
    let (mut p, _) = {
        let mut p = Pipeline::generation(&request(Some("s")), String::new());
        let a = p.run_events(vec![
            Event::Started,
            Event::Completed,
            Event::WorkspaceCreated("/w".to_string()),
            Event::Completed,
            Event::Guidance(String::new()),
            Event::Generated { prompt: String::new(), response: "```x```".to_string() },
            Event::Completed,
        ]);
        (p, a)
    };
    let a = p.advance(Event::Completed);
    match a.effect {
        Effect::Simulate { rpc_url } => assert_eq!(rpc_url, "http://localhost:8545"),
        _ => panic!("expected a simulation"),
    }
}

#[test]
fn session_key_round_trip() {
    let mut reg: Registry<u32> = Registry::new();
    let mut p = Pipeline::generation(&request(Some("k")), String::new());
    let actions = p.run_events(vec![Event::Started, Event::Completed, Event::WorkspaceCreated("/tmp/forge_k_9".to_string())]);
    let key = actions[2].records[0].output.clone();
    assert_eq!(reg.insert(key.clone(), 7), None);
    assert_eq!(reg.insert("/tmp/other".to_string(), 8), None);
    assert_eq!(reg.lookup(&key), Some(&7));
    assert_eq!(reg.lookup("/tmp/missing"), None);
    assert_eq!(reg.insert(key.clone(), 9), Some(7));
    assert_eq!(reg.len(), 2);
    assert_eq!(reg.remove(&key), Some(9));
    assert_eq!(reg.lookup(&key), None);
    assert_eq!(reg.keys(), vec!["/tmp/other".to_string()]);
}

#[test]
fn limiter_admits_at_most_capacity() {
    let n = 3;
    let pool = std::sync::Arc::new(tokio::sync::Semaphore::new(n));
    let mut held = Vec::new();
    for _ in 0..n {
        held.push(pool.clone().try_acquire_owned().expect("a free permit"));
    }
    assert!(pool.clone().try_acquire_owned().is_err());
    let mut waiting = Pipeline::generation(&request(Some("late")), String::new());
    let first = waiting.advance(Event::Started);
    assert!(first.records.is_empty());
    assert!(matches!(first.effect, Effect::AcquirePermit));
    assert_eq!(waiting.phase(), Phase::AwaitingPermit);
    held.pop();
    assert!(pool.clone().try_acquire_owned().is_ok());
    assert_eq!(DEFAULT_CAPACITY, 100);
}

#[test]
fn sink_delivers_in_order_then_closes() {
    let rt = tokio::runtime::Builder::new_current_thread().build().unwrap();
    let frames = rt.block_on(async {
        let (tx, mut rx) = tokio::sync::mpsc::channel::<ForgeStep>(DEFAULT_SINK_CAPACITY);
        let (mut p, _) = run_until_output(REPLY);
        let a = p.advance(Event::Output(OutputFile::Missing));
        for r in [ForgeStep::new("Session", "/tmp/w"), ForgeStep::new("Writing Code", "x\n")].into_iter().chain(a.records) {
            tx.send(r).await.unwrap();
        }
        drop(tx);
        let mut frames = Vec::new();
        loop {
            let next = rx.recv().await;
            let f = stream_event(next.as_ref());
            frames.push((f.event, f.data));
            if next.is_none() {
                break;
            }
        }
        frames
    });
    assert_eq!(frames.len(), 4);
    assert_eq!(frames[0], (None, "{\"title\":\"Session\",\"output\":\"/tmp/w\"}".to_string()));
    assert_eq!(frames[1], (None, "{\"title\":\"Writing Code\",\"output\":\"x\\n\"}".to_string()));
    assert_eq!(frames[2], (None, "{\"title\":\"Simulating Transactions\",\"output\":\"[]\"}".to_string()));
    assert_eq!(frames[3], (Some("close".to_string()), "stream complete".to_string()));
}

fn processor() -> ProtocolGuidelinesProcessor {
    ProtocolGuidelinesProcessor::from_entries(
        "./guidelines".to_string(),
        vec![
            ("uniswap_v3".to_string(), "Use the router.".to_string()),
            ("aave_v3".to_string(), "Use the pool.".to_string()),
        ],
    )
}

#[test]
fn guidance_from_classifier_answer() {
    let p = processor();
    assert_eq!(p.available_protocols(), vec!["uniswap_v3".to_string(), "aave_v3".to_string()]);
    assert_eq!(p.guidance_from_answer("Here:\n  [\"aave_v3\", \"nope\", \"uniswap_v3\"]\n"), "Use the pool.\n\nUse the router.\n\n");
    assert_eq!(p.guidance_from_answer("no array"), "");
    assert_eq!(p.guidance_from_answer("[not json"), "");
    assert_eq!(p.guideline("aave_v3").map(|s| s.as_str()), Some("Use the pool."));
    assert_eq!(p.guidelines_dir(), "./guidelines");
}

#[test]
fn classification_prompt_lists_protocols() {
    let prompt = processor().classification_prompt("swap 1 ETH for USDC");
    assert!(prompt.starts_with("Based on this user input"));
    assert!(prompt.ends_with("The user input is: swap 1 ETH for USDC\nThe protocols are: uniswap_v3, aave_v3"));
}

#[test]
fn fresh_session_id_names_the_workspace() {
    let mut p = Pipeline::start_generation(&request(None));
    let actions = p.run_events(vec![Event::Started, Event::Completed]);
    match &actions[1].effect {
        Effect::CreateWorkspace { prefix } => {
            assert_eq!(prefix.len(), "forge_".len() + 36 + 1);
            assert!(prefix.starts_with("forge_") && prefix.ends_with('_'));
            assert_eq!(prefix.matches('-').count(), 4);
        }
        _ => panic!("a workspace is created after the permit"),
    }
}

#[test]
fn documentation_links_point_at_raw_text() {
    assert_eq!(
        raw_doc_url("https://github.com/Uniswap/docs/blob/main/README.md"),
        "https://raw.githubusercontent.com/Uniswap/docs/main/README.md"
    );
    assert_eq!(raw_doc_url("https://docs.aave.com/developers"), "https://docs.aave.com/developers");
}

#[test]
fn documentation_link_list_is_split_and_trimmed() {
    assert_eq!(doc_links_of(" a.md , b.md,c.md "), vec!["a.md".to_string(), "b.md".to_string(), "c.md".to_string()]);
    assert_eq!(doc_links_of(""), vec![String::new()]);
}
