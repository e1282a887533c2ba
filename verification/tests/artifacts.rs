use contract_registry::abi::{load_abi, ContractArtifact};
use contract_registry::errors::RegistryError;

fn artifact(text: &str) -> ContractArtifact {
    ContractArtifact::new(text.to_owned())
}

const STAKE_ABI: &str = r#"[{"type":"function","name":"stake","inputs":[],"outputs":[],"stateMutability":"nonpayable"}]"#;

#[test]
fn bare_array_and_wrapped_artifact_agree() {
    let bare = artifact(STAKE_ABI);
    let wrapped = artifact(&format!(r#"{{"abi": {}, "bytecode": "0x6001"}}"#, STAKE_ABI));
    let a = load_abi(&bare).unwrap();
    let b = load_abi(&wrapped).unwrap();
    assert_eq!(a.canonical, b.canonical);
    assert_eq!(a.inner, b.inner);
    assert!(a.inner.function("stake").is_ok());
}

#[test]
fn wrapped_artifact_ignores_metadata() {
    let w1 = artifact(&format!(r#"{{"abi": {}, "bytecode": "0x6001"}}"#, STAKE_ABI));
    let w2 = artifact(&format!(r#"{{"abi": {}, "deployedBytecode": "0x", "extra": 3}}"#, STAKE_ABI));
    assert_eq!(load_abi(&w1).unwrap().canonical, load_abi(&w2).unwrap().canonical);
}

#[test]
fn empty_interface_array_loads() {
    let a = load_abi(&artifact("[]")).unwrap();
    assert!(a.inner.functions.is_empty());
}

#[test]
fn non_json_artifact_is_malformed_artifact() {
    assert_eq!(load_abi(&artifact("not json")).unwrap_err(), RegistryError::MalformedArtifact);
    assert_eq!(load_abi(&artifact("")).unwrap_err(), RegistryError::MalformedArtifact);
}

#[test]
fn object_without_abi_key_is_malformed_abi() {
    assert_eq!(
        load_abi(&artifact(r#"{"bytecode": "0x6001"}"#)).unwrap_err(),
        RegistryError::MalformedAbi
    );
}

#[test]
fn abi_section_that_is_no_interface_is_malformed_abi() {
    assert_eq!(
        load_abi(&artifact(r#"{"abi": {"not": "an array"}}"#)).unwrap_err(),
        RegistryError::MalformedAbi
    );
    assert_eq!(
        load_abi(&artifact(r#"{"abi": [{"type": "no such operation"}]}"#)).unwrap_err(),
        RegistryError::MalformedAbi
    );
}

#[test]
fn multibyte_type_strings_are_malformed_abi_not_a_panic() {
    let array = r#"[{"type":"function","name":"f","inputs":[{"name":"x","type":"é[]"}],"outputs":[]}]"#;
    assert_eq!(load_abi(&artifact(array)).unwrap_err(), RegistryError::MalformedAbi);
    let tuple = r#"[{"type":"function","name":"f","inputs":[{"name":"x","type":"(é)"}],"outputs":[]}]"#;
    assert_eq!(load_abi(&artifact(tuple)).unwrap_err(), RegistryError::MalformedAbi);
}

#[test]
fn unmatched_bracket_type_strings_are_malformed_abi_not_a_panic() {
    for t in ["]", "5]", "[]]", "5][]"] {
        let text = format!(
            r#"[{{"type":"function","name":"f","inputs":[{{"name":"x","type":"{}"}}],"outputs":[]}}]"#,
            t
        );
        assert_eq!(load_abi(&artifact(&text)).unwrap_err(), RegistryError::MalformedAbi);
    }
}

#[test]
fn deep_array_suffixes_are_malformed_abi_not_an_abort() {
    let deep = format!("uint8{}", "[]".repeat(100000));
    let text = format!(
        r#"[{{"type":"function","name":"f","inputs":[{{"name":"x","type":"{}"}}],"outputs":[]}}]"#,
        deep
    );
    assert_eq!(load_abi(&artifact(&text)).unwrap_err(), RegistryError::MalformedAbi);
}

#[test]
fn shallow_array_suffixes_still_load() {
    let text = r#"[{"type":"function","name":"f","inputs":[{"name":"x","type":"uint8[][3]"}],"outputs":[],"stateMutability":"view"}]"#;
    let a = load_abi(&artifact(text)).unwrap();
    assert!(a.inner.function("f").is_ok());
}

#[test]
fn escaped_strings_are_malformed_abi() {
    let text = r#"[{"type":"function","name":"a\"b","inputs":[],"outputs":[]}]"#;
    assert_eq!(load_abi(&artifact(text)).unwrap_err(), RegistryError::MalformedAbi);
}

#[test]
fn canonical_text_reparses_to_the_same_interface() {
    let a = load_abi(&artifact(STAKE_ABI)).unwrap();
    let again = load_abi(&ContractArtifact::new(a.canonical.clone())).unwrap();
    assert_eq!(a.inner, again.inner);
    assert_eq!(a.canonical, again.canonical);
}
