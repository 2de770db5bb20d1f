use forge_backend::explorer::{extract_contract_source, replace_all, unescape_source, wrap_source};
use forge_backend::models::ContractInfo;

fn info(source_code: &str, name: &str) -> ContractInfo {
    ContractInfo { source_code: source_code.to_string(), contract_name: name.to_string(), abi: String::new() }
}

#[test]
fn standard_json_payload_is_unwrapped() {
    assert_eq!(wrap_source("{{ \"a\": 1 }}"), "{\"a\": 1}");
    assert_eq!(wrap_source("{{{{\"a\":1}}}}"), "{\"a\":1}");
    assert_eq!(wrap_source("  \"b\":2 "), "{\"b\":2}");
}

#[test]
fn replace_matches_std_replace() {
    for (s, from, to) in [("a\\r\\nb\\r\\n", "\\r\\n", "\n"), ("xx", "x", "yy"), ("", "a", "b"), ("aaa", "aa", "b")] {
        assert_eq!(replace_all(s, from, to), s.replace(from, to));
    }
    assert_eq!(unescape_source("line\\r\\nsay \\\"hi\\\" \\\\ end"), "line\nsay \"hi\" \\ end");
}

#[test]
fn contract_source_is_found_by_file_name() {
    let payload = "{{\"language\":\"Solidity\",\"sources\":{\"lib/Other.sol\":{\"content\":\"x\"},\"src/Token.sol\":{\"content\":\"contract Token {}\\\\r\\\\n\"}},\"settings\":{}}}";
    assert_eq!(extract_contract_source(&info(payload, "Token")), Ok("contract Token {}\n".to_string()));
}

#[test]
fn contract_source_errors() {
    assert!(extract_contract_source(&info("not json", "T")).unwrap_err().starts_with("Failed to parse JSON: "));
    assert_eq!(extract_contract_source(&info("{{\"language\":\"Solidity\"}}", "T")), Err("No sources found".to_string()));
    assert_eq!(extract_contract_source(&info("{{\"sources\":[1]\n}}", "T")), Err("Sources is not an object".to_string()));
    assert_eq!(
        extract_contract_source(&info("{{\"sources\":{\"A.sol\":{\"content\":\"a\"}}\n}}", "T")),
        Err("Contract source not found".to_string())
    );
    assert_eq!(
        extract_contract_source(&info("{{\"sources\":{\"T.sol\":{\"keccak256\":\"0x\"}}\n}}", "T")),
        Err("No content found".to_string())
    );
}
