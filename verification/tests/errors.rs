use chaos_operator::errors::DomainError;

#[test]
fn message_makes_a_generic_error() {
    assert_eq!(DomainError::message("boom"), DomainError::Message("boom".to_string()));
    assert_eq!(DomainError::message(""), DomainError::Message(String::new()));
}

#[test]
fn each_kind_keeps_its_text() {
    let errors = [
        (DomainError::message("a"), DomainError::Message("a".to_string())),
        (DomainError::validation("b"), DomainError::Validation("b".to_string())),
        (DomainError::capability("c"), DomainError::Capability("c".to_string())),
        (DomainError::state("d"), DomainError::State("d".to_string())),
        (DomainError::invalid_input("e"), DomainError::InvalidInput("e".to_string())),
    ];
    let texts = ["a", "b", "c", "d", "e"];
    for (i, (made, expected)) in errors.iter().enumerate() {
        assert_eq!(made, expected);
        assert_eq!(made.text(), texts[i]);
        assert_eq!(&made.duplicate(), made);
    }
    assert_ne!(DomainError::message("a"), DomainError::state("a"));
}
