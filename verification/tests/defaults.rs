use idl_model::is_default;
use idl_model::IdlDependency;
use idl_model::IdlMetadata;
use idl_model::IdlSerialization;

#[test]
fn empty_and_zero_values_are_default() {
    assert!(is_default(&false));
    assert!(is_default(&0u32));
    assert!(is_default(&0usize));
    assert!(is_default(&String::new()));
    assert!(is_default(&Vec::<String>::new()));
    assert!(is_default(&Vec::<u8>::new()));
    assert!(is_default(&Option::<String>::None));
}

#[test]
fn populated_values_are_not_default() {
    assert!(!is_default(&true));
    assert!(!is_default(&7u32));
    assert!(!is_default(&1usize));
    assert!(!is_default(&"spl".to_string()));
    assert!(!is_default(&vec![0u8]));
    assert!(!is_default(&Some("devnet".to_string())));
}

#[test]
fn borsh_is_the_default_serialization() {
    assert!(is_default(&IdlSerialization::Borsh));
    assert!(!is_default(&IdlSerialization::Bytemuck));
    assert!(!is_default(&IdlSerialization::BytemuckUnsafe));
    assert!(!is_default(&IdlSerialization::Custom("zeroable".to_string())));
}

#[test]
fn default_constructors_produce_default_values() {
    assert_eq!(IdlSerialization::default(), IdlSerialization::Borsh);
    assert!(is_default(&IdlSerialization::default()));
    assert!(is_default(&IdlMetadata::default()));
    assert_eq!(IdlMetadata::default().name, "");
    assert_eq!(IdlMetadata::default().dependencies, Vec::new());
}

#[test]
fn metadata_default_requires_every_field_empty() {
    let empty = IdlMetadata {
        name: String::new(),
        version: String::new(),
        spec: String::new(),
        description: None,
        repository: None,
        dependencies: Vec::new(),
        contact: None,
        deployments: None,
    };
    assert!(is_default(&empty));

    let named = IdlMetadata { name: "counter".to_string(), ..empty };
    assert!(!is_default(&named));

    let with_dependency = IdlMetadata {
        name: String::new(),
        version: String::new(),
        spec: String::new(),
        description: None,
        repository: None,
        dependencies: vec![IdlDependency {
            name: "token".to_string(),
            version: "4.0.0".to_string(),
        }],
        contact: None,
        deployments: None,
    };
    assert!(!is_default(&with_dependency));
}
