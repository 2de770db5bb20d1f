use forge_backend::coalesce::{coalesce_lines, is_progress_line, LineCoalescer};
use forge_backend::fence::{extract_source, install_components, ExtractError};
use forge_backend::forge_output::{
    parse_forge_output, transactions_json, ForgeOutput, ForgeTransaction, ForgeTransactionDetails,
    TransactionDetails,
};
use forge_backend::install::{install_plan, ManifestMarkers, RunIn};
use forge_backend::step::{stream_event, ForgeStep};
use forge_backend::text::{split_str, str_eq, trim_str};

fn strings(v: &[&str]) -> Vec<String> {
    v.iter().map(|s| s.to_string()).collect()
}

#[test]
fn progress_burst_yields_two_records() {
    let mut lines = Vec::new();
    for i in 0..50 {
        lines.push(format!("Receiving objects: {:02}% ({}/50)", i * 2, i));
    }
    lines.push("done".to_string());
    let out = coalesce_lines(&lines);
    assert_eq!(out.len(), 2);
    assert_eq!(out[0], "Receiving objects: 98% (49/50)\n");
    assert_eq!(out[1], "done\n");
}

#[test]
fn progress_is_flushed_when_stream_ends() {
    let out = coalesce_lines(&strings(&["Cloning into 'lib'", "  Resolving deltas: 10%  ", "Resolving deltas: 100%"]));
    assert_eq!(out, strings(&["Cloning into 'lib'\n", "Resolving deltas: 100%\n"]));
}

#[test]
fn coalescer_emits_plain_lines_trimmed() {
    let mut c = LineCoalescer::new();
    assert_eq!(c.feed("  hello \r"), strings(&["hello\n"]));
    assert!(c.feed("Counting objects: 5%").is_empty());
    assert!(c.feed("Compressing objects: 7%").is_empty());
    assert_eq!(c.feed("next"), strings(&["Compressing objects: 7%\n", "next\n"]));
    assert!(c.finish().is_empty());
}

#[test]
fn progress_markers_are_recognised() {
    assert!(is_progress_line("remote: Counting objects: 100% (3/3), done."));
    assert!(is_progress_line("Receiving objects:  45%"));
    assert!(!is_progress_line("Receiving objects"));
    assert!(!is_progress_line(""));
}

#[test]
fn split_matches_std_split() {
    for (s, d) in [("a```b```c", "```"), ("```", "```"), ("", "\n"), ("x\ny\n", "\n"), ("aaaa", "aa")] {
        let ours = split_str(s, d);
        let theirs: Vec<String> = s.split(d).map(|x| x.to_string()).collect();
        assert_eq!(ours, theirs);
    }
    assert!(str_eq("abc", "abc"));
    assert!(!str_eq("abc", "abd"));
}

#[test]
fn source_is_first_block_without_language_tag() {
    let text = "Here it is:\n```solidity\n// SPDX\ncontract A {}\n```\nThanks";
    assert_eq!(extract_source(text), Ok("// SPDX\ncontract A {}".to_string()));
    let plain = "```\n  pragma solidity ^0.8.0;\n```";
    assert_eq!(extract_source(plain), Ok("pragma solidity ^0.8.0;".to_string()));
}

#[test]
fn missing_or_empty_source_block_is_an_error() {
    assert_eq!(extract_source("no code here"), Err(ExtractError::NoSourceBlock));
    assert_eq!(extract_source("```solidity\n   \n```"), Err(ExtractError::EmptySourceBlock));
    assert_eq!(ExtractError::NoSourceBlock.message(), "No Solidity code block found");
}

#[test]
fn unclosed_block_runs_to_end() {
    assert_eq!(extract_source("x ```solidity\ncontract B {}"), Ok("contract B {}".to_string()));
}

#[test]
fn install_directives_come_from_shell_block() {
    let text = "```solidity\ncontract C {}\n```\nThen run:\n```bash\nforge install example/lib\nforge install\n  forge install other/dep --no-commit\necho hi\n```\n";
    assert_eq!(install_components(text), strings(&["example/lib", "other/dep"]));
}

#[test]
fn install_directives_need_shell_marker() {
    let text = "```solidity\ncontract C {}\n```\n```text\nforge install example/lib\n```";
    assert!(install_components(text).is_empty());
    let no_directive = "```solidity\nc\n```\n```sh\nnpm test\n```";
    assert!(install_components(no_directive).is_empty());
    assert!(install_components("```solidity\nc\n```").is_empty());
}

#[test]
fn step_json_matches_wire_format() {
    let s = ForgeStep::new("Session", "/tmp/forge_\"x\"");
    assert_eq!(s.to_json(), "{\"title\":\"Session\",\"output\":\"/tmp/forge_\\\"x\\\"\"}");
    assert!(ForgeStep::new("Error", "boom").is_error());
    assert!(!s.is_error());
}

#[test]
fn stream_frames() {
    let s = ForgeStep::new("Writing Code", "Writing code...\n");
    let f = stream_event(Some(&s));
    assert!(f.event.is_none());
    assert_eq!(f.data, "{\"title\":\"Writing Code\",\"output\":\"Writing code...\\n\"}");
    let c = stream_event(None);
    assert_eq!(c.event.as_deref(), Some("close"));
    assert_eq!(c.data, "stream complete");
}

#[test]
fn text_output_transactions() {
    let out = "Compiling...\nContract call: to: 0xabc data: 0x01\nTransaction: data: 0x02 to: 0xdef\nnothing to: here data: x\nContract call: to: 0x1";
    let txs = parse_forge_output(out);
    assert_eq!(txs.len(), 2);
    assert_eq!(txs[0].to, "0xabc data: 0x01");
    assert_eq!(txs[0].data, "0x01");
    assert_eq!(txs[0].value, "0");
    assert_eq!(txs[1].to, "0xdef");
    assert_eq!(txs[1].data, "0x02 to: 0xdef");
}

fn sample_tx() -> ForgeTransaction {
    ForgeTransaction {
        hash: None,
        transaction_type: "CALL".to_string(),
        contract_name: None,
        contract_address: "0xRouter".to_string(),
        function: "swap(uint256)".to_string(),
        arguments: strings(&["1", "2"]),
        transaction: ForgeTransactionDetails {
            from: "0xme".to_string(),
            to: "0xRouter".to_string(),
            gas: "0x1".to_string(),
            value: "0x0de0b6b3a7640000".to_string(),
            input: "0xabcdef".to_string(),
            nonce: "0x0".to_string(),
            chain_id: "0x1".to_string(),
        },
    }
}

#[test]
fn transaction_details_json() {
    let o = ForgeOutput { transactions: vec![sample_tx()], timestamp: 1, chain: 1, commit: None };
    let ds = o.transaction_details();
    assert_eq!(ds.len(), 1);
    assert_eq!(
        transactions_json(&ds),
        "[{\"to\":\"0xRouter\",\"function\":\"swap(uint256)\",\"arguments\":[\"1\",\"2\"],\"value\":\"0x0de0b6b3a7640000\",\"input_data\":\"0xabcdef\"}]"
    );
    let empty: Vec<TransactionDetails> = Vec::new();
    assert_eq!(transactions_json(&empty), "[]");
}

#[test]
fn install_plan_follows_markers() {
    let none = ManifestMarkers { package_json: false, foundry_toml: false, remappings_txt: false };
    assert!(install_plan(none, "a/b").is_empty());
    let both = ManifestMarkers { package_json: true, foundry_toml: false, remappings_txt: true };
    let plan = install_plan(both, "a/b");
    assert_eq!(plan.len(), 2);
    assert_eq!(plan[0].program, "npm");
    assert_eq!(plan[0].args, strings(&["install"]));
    assert_eq!(plan[0].run_in, RunIn::Component);
    assert_eq!(plan[1].program, "forge");
    assert_eq!(plan[1].args, strings(&["install", "a/b", "--no-commit"]));
    assert_eq!(plan[1].run_in, RunIn::Workspace);
}

#[test]
fn trim_matches_std_trim() {
    for s in ["", "   ", " a b ", "\t\r\nx\u{a0}", "\u{3000}y\u{2028}", "\u{200b}z\u{200b}", "\u{85}q\u{1680}", "\u{2000}\u{200a}w\u{202f}\u{205f}"] {
        assert_eq!(trim_str(s), s.trim());
    }
}
