use cedar_policy_validator::{
    render_warning, SourceInfo, SourceLocation, TypeErrorKind, TypeWarningKind,
    ValidationError, ValidationErrorKind, ValidationResult, ValidationWarning,
    ValidationWarningKind,
};

fn error(policy: &str, kind: ValidationErrorKind) -> ValidationError {
    ValidationError::with_policy_id(policy.to_string(), None, kind)
}

fn warning(policy: &str, kind: ValidationWarningKind) -> ValidationWarning {
    ValidationWarning::with_policy_id(policy.to_string(), None, kind)
}

#[test]
fn passes_iff_no_errors() {
    let empty = ValidationResult::new(vec![], vec![]);
    assert!(empty.validation_passed());
    assert_eq!(empty.validation_errors().iter().count(), 0);

    let failing = ValidationResult::new(
        vec![error("policy_zero", ValidationErrorKind::unspecified_entity("e".to_string()))],
        vec![],
    );
    assert!(!failing.validation_passed());
    assert_eq!(failing.validation_errors().iter().count(), 1);
}

#[test]
fn warnings_do_not_fail_validation() {
    for n in 1..5usize {
        let warnings: Vec<ValidationWarning> = (0..n)
            .map(|i| warning("policy_zero", ValidationWarningKind::MixedScriptIdentifier(format!("x{i}"))))
            .collect();
        let result = ValidationResult::new(vec![], warnings);
        assert!(result.validation_passed());
        assert_eq!(result.validation_warnings().len(), n);
    }
}

#[test]
fn decomposition_keeps_order() {
    let errors = vec![
        error("a", ValidationErrorKind::unspecified_entity("1".to_string())),
        error("b", ValidationErrorKind::invalid_action_application(true, false)),
        error("c", ValidationErrorKind::unrecognized_action_id("view".to_string(), None)),
    ];
    let warnings = vec![
        warning("a", ValidationWarningKind::BidiCharsInString("s".to_string())),
        warning("b", ValidationWarningKind::ConfusableIdentifier("i".to_string())),
    ];
    let result = ValidationResult::new(errors.clone(), warnings.clone());
    let seen_errors: Vec<ValidationError> = result.validation_errors().to_vec();
    let seen_warnings: Vec<ValidationWarning> = result.validation_warnings().to_vec();
    let (e, w) = result.into_errors_and_warnings();
    assert_eq!(e, errors);
    assert_eq!(w, warnings);
    assert_eq!(e, seen_errors);
    assert_eq!(w, seen_warnings);

    let rebuilt = ValidationResult::new(e.clone(), w.clone());
    let (e2, w2) = rebuilt.into_errors_and_warnings();
    assert_eq!((e2, w2), (e, w));
}

#[test]
fn entity_type_message_without_suggestion() {
    let a = ValidationErrorKind::unrecognized_entity_type("Widget".to_string(), None);
    let b = ValidationErrorKind::unrecognized_entity_type("Widget".to_string(), None);
    assert_eq!(a.to_string(), "unrecognized entity type `Widget`");
    assert_eq!(a.to_string(), b.to_string());
    assert_eq!(a.to_string(), a.to_string());
}

#[test]
fn entity_type_message_with_suggestion() {
    let plain = ValidationErrorKind::unrecognized_entity_type("Widget".to_string(), None);
    let hinted = ValidationErrorKind::unrecognized_entity_type(
        "Widget".to_string(),
        Some("Widgt".to_string()),
    );
    assert_eq!(
        hinted.to_string(),
        "unrecognized entity type `Widget`, did you mean `Widgt`?"
    );
    assert_eq!(
        hinted.to_string(),
        format!("{}, did you mean `Widgt`?", plain.to_string())
    );
}

#[test]
fn action_id_messages() {
    let plain = ValidationErrorKind::unrecognized_action_id("Action::\"read\"".to_string(), None);
    assert_eq!(plain.to_string(), "unrecognized action `Action::\"read\"`");
    let hinted = ValidationErrorKind::unrecognized_action_id(
        "Action::\"raed\"".to_string(),
        Some("Action::\"read\"".to_string()),
    );
    assert_eq!(
        hinted.to_string(),
        "unrecognized action `Action::\"raed\"`, did you mean `Action::\"read\"`?"
    );
}

#[test]
fn invalid_action_application_hints() {
    let base = "unable to find an applicable action given the policy head constraints";
    let principal = ". Note: Try replacing `==` with `in` in the principal clause";
    let resource = ". Note: Try replacing `==` with `in` in the resource clause";
    let render = |p, r| ValidationErrorKind::invalid_action_application(p, r).to_string();
    assert_eq!(render(false, false), base);
    assert_eq!(render(true, false), format!("{base}{principal}"));
    assert_eq!(render(false, true), format!("{base}{resource}"));
    assert_eq!(render(true, true), format!("{base}{principal}{resource}"));
}

#[test]
fn unspecified_entity_message() {
    let k = ValidationErrorKind::unspecified_entity("alice".to_string());
    assert_eq!(
        k.to_string(),
        "unspecified entity with eid `alice`. Unspecified entities cannot be used in policies"
    );
}

#[test]
fn type_error_message_is_verbatim() {
    assert!(TypeErrorKind::new(String::new()).is_none());
    let t = TypeErrorKind::new("unexpected type".to_string()).unwrap();
    let k = ValidationErrorKind::type_error(t.clone());
    assert_eq!(k.to_string(), "unexpected type");
    assert_eq!(k, ValidationErrorKind::TypeError(t));
}

#[test]
fn error_messages_are_never_empty() {
    let kinds = vec![
        ValidationErrorKind::unrecognized_entity_type(String::new(), None),
        ValidationErrorKind::unrecognized_action_id(String::new(), None),
        ValidationErrorKind::invalid_action_application(false, false),
        ValidationErrorKind::unspecified_entity(String::new()),
        ValidationErrorKind::type_error(TypeErrorKind::new("x".to_string()).unwrap()),
    ];
    for k in kinds {
        assert!(!k.to_string().is_empty());
    }
}

#[test]
fn warning_kind_messages() {
    let t = || "pаypal".to_string();
    assert_eq!(
        ValidationWarningKind::MixedScriptString(t()).to_string(),
        "string `\"pаypal\"` contains mixed scripts"
    );
    assert_eq!(
        ValidationWarningKind::BidiCharsInString(t()).to_string(),
        "string `\"pаypal\"` contains BIDI control characters"
    );
    assert_eq!(
        ValidationWarningKind::BidiCharsInIdentifier(t()).to_string(),
        "identifier `pаypal` contains BIDI control characters"
    );
    assert_eq!(
        ValidationWarningKind::MixedScriptIdentifier(t()).to_string(),
        "identifier `pаypal` contains mixed scripts"
    );
    assert_eq!(
        ValidationWarningKind::ConfusableIdentifier(t()).to_string(),
        "identifier `pаypal` contains characters that fall outside of the General Security Profile for Identifiers"
    );
    assert_eq!(
        ValidationWarningKind::TypeWarning(TypeWarningKind::new("shadowed".to_string()))
            .to_string(),
        "shadowed"
    );
}

#[test]
fn warning_sentence_names_policy() {
    let w = warning("policy0", ValidationWarningKind::MixedScriptIdentifier("x".to_string()));
    assert_eq!(
        w.to_string(),
        "validation warning on policy `policy0`: identifier `x` contains mixed scripts"
    );
}

#[test]
fn warning_sentence_escapes_policy_id() {
    let w = warning("a\"b\n", ValidationWarningKind::ConfusableIdentifier("y".to_string()));
    assert_eq!(
        w.to_string(),
        "validation warning on policy `a\\\"b\\n`: identifier `y` contains characters that fall outside of the General Security Profile for Identifiers"
    );
    assert_eq!(
        render_warning("shown", &ValidationWarningKind::BidiCharsInIdentifier("z".to_string())),
        "validation warning on policy `shown`: identifier `z` contains BIDI control characters"
    );
}

#[test]
fn locations_and_decomposition() {
    let span = SourceInfo::new(3, 9);
    let e = ValidationError::with_policy_id(
        "policy_one".to_string(),
        Some(span),
        ValidationErrorKind::invalid_action_application(false, false),
    );
    assert_eq!(e.location().policy_id(), "policy_one");
    assert_eq!(e.location().source_info(), &Some(span));
    assert_eq!(
        e.error_kind(),
        &ValidationErrorKind::invalid_action_application(false, false)
    );
    let (loc, kind) = e.into_location_and_error_kind();
    assert_eq!(loc, SourceLocation::new("policy_one".to_string(), Some(span)));
    assert_eq!(loc.into_source_info(), Some(SourceInfo { start: 3, end: 9 }));
    assert_eq!(kind, ValidationErrorKind::invalid_action_application(false, false));

    let w = ValidationWarning::with_policy_id(
        "policy_two".to_string(),
        None,
        ValidationWarningKind::MixedScriptString("s".to_string()),
    );
    assert_eq!(w.location().source_info(), &None);
    assert_eq!(w.kind(), &ValidationWarningKind::MixedScriptString("s".to_string()));
    let (loc, kind) = w.to_kind_and_location();
    assert_eq!(loc.policy_id(), "policy_two");
    assert_eq!(kind, ValidationWarningKind::MixedScriptString("s".to_string()));
}

#[test]
fn scenario_misspelled_entity_type() {
    let result = ValidationResult::new(
        vec![error(
            "policy0",
            ValidationErrorKind::unrecognized_entity_type(
                "User".to_string(),
                Some("Useer".to_string()),
            ),
        )],
        vec![],
    );
    assert!(!result.validation_passed());
    assert_eq!(result.validation_warnings().len(), 0);
    assert_eq!(result.validation_errors().len(), 1);
    match result.validation_errors()[0].error_kind() {
        ValidationErrorKind::UnrecognizedEntityType(d) => {
            assert_eq!(d.actual_entity_type, "User");
            assert_eq!(d.suggested_entity_type.as_deref(), Some("Useer"));
        }
        other => panic!("unexpected kind {other:?}"),
    }
}

#[test]
fn scenario_mixed_script_string() {
    let result = ValidationResult::new(
        vec![],
        vec![warning(
            "policy0",
            ValidationWarningKind::MixedScriptString("pаypal".to_string()),
        )],
    );
    assert!(result.validation_passed());
    assert_eq!(result.validation_errors().len(), 0);
    assert_eq!(result.validation_warnings().len(), 1);
    assert!(matches!(
        result.validation_warnings()[0].kind(),
        ValidationWarningKind::MixedScriptString(_)
    ));
}
