use vstd::prelude::*;

verus! {

/// A diagnostic reported by the type checker, carried here as the text that
/// the type checker gives it. That text is never empty.
#[derive(Debug, PartialEq, Eq)]
pub struct TypeErrorKind {
    message: String,
}

impl View for TypeErrorKind {
    type V = Seq<char>;

    closed spec fn view(&self) -> Seq<char> {
        self.message@
    }
}

impl Clone for TypeErrorKind {
    fn clone(&self) -> (r: TypeErrorKind)
        ensures
            r@ == self@,
    {
        proof {
            use_type_invariant(self);
        }
        TypeErrorKind { message: self.message.clone() }
    }
}

impl TypeErrorKind {
    #[verifier::type_invariant]
    spec fn well_formed(&self) -> bool {
        self.message@.len() > 0
    }

    /// Wraps the type checker's message; there is no such error with an empty
    /// message.
    pub fn new(message: String) -> (r: Option<TypeErrorKind>)
        ensures
            r is Some <==> message@.len() > 0,
            r matches Some(k) ==> k@ == message@,
    {
        if message.as_str().is_empty() {
            None
        } else {
            Some(TypeErrorKind { message })
        }
    }

    /// The message of the wrapped type error.
    pub fn to_string(&self) -> (r: String)
        ensures
            r@ == self@,
            r@.len() > 0,
    {
        proof {
            use_type_invariant(self);
        }
        self.message.clone()
    }
}

/// A warning reported by the type checker, carried here as its text.
#[derive(Debug, Clone, PartialEq, Eq)]
pub struct TypeWarningKind {
    message: String,
}

impl View for TypeWarningKind {
    type V = Seq<char>;

    closed spec fn view(&self) -> Seq<char> {
        self.message@
    }
}

impl TypeWarningKind {
    pub fn new(message: String) -> (r: TypeWarningKind)
        ensures
            r@ == message@,
    {
        TypeWarningKind { message }
    }

    /// The message of the wrapped type warning.
    pub fn to_string(&self) -> (r: String)
        ensures
            r@ == self@,
    {
        self.message.clone()
    }
}

/// Details of an entity type that the schema does not declare.
#[derive(Debug, Clone, PartialEq, Eq)]
pub struct UnrecognizedEntityType {
    /// The entity type seen in the policy.
    pub actual_entity_type: String,
    /// An entity type of the schema that the author may have meant.
    pub suggested_entity_type: Option<String>,
}

/// Details of an action that the schema does not declare.
#[derive(Debug, Clone, PartialEq, Eq)]
pub struct UnrecognizedActionId {
    /// The action id seen in the policy.
    pub actual_action_id: String,
    /// An action id of the schema that the author may have meant.
    pub suggested_action_id: Option<String>,
}

/// Details of a policy head that no action of the schema satisfies. Each flag
/// says whether replacing `==` with `in` in that clause would help.
#[derive(Debug, Clone, Copy, PartialEq, Eq, Structural)]
pub struct InvalidActionApplication {
    pub would_in_fix_principal: bool,
    pub would_in_fix_resource: bool,
}

/// Details of an entity of unspecified type that reached validation.
#[derive(Debug, Clone, PartialEq, Eq)]
pub struct UnspecifiedEntity {
    /// The eid of the unspecified entity.
    pub entity_id: String,
}

/// The fatal problems that validation can find in a policy.
#[derive(Debug, Clone, PartialEq, Eq)]
#[non_exhaustive]
pub enum ValidationErrorKind {
    /// A policy names an entity type that the schema does not declare.
    UnrecognizedEntityType(UnrecognizedEntityType),
    /// A policy names an action that the schema does not declare.
    UnrecognizedActionId(UnrecognizedActionId),
    /// No action of the schema can apply to a principal and a resource that
    /// satisfy the policy's head constraints.
    InvalidActionApplication(InvalidActionApplication),
    /// The type checker found an error.
    TypeError(TypeErrorKind),
    /// An entity of unspecified type was used in a policy.
    UnspecifiedEntity(UnspecifiedEntity),
}

/// The advisory problems that validation can find in a policy.
#[derive(Debug, Clone, PartialEq, Eq)]
#[non_exhaustive]
pub enum ValidationWarningKind {
    /// A string literal mixes scripts, whose characters may be confused.
    MixedScriptString(String),
    /// A string literal holds BIDI control characters.
    BidiCharsInString(String),
    /// An identifier holds BIDI control characters.
    BidiCharsInIdentifier(String),
    /// An identifier mixes scripts.
    MixedScriptIdentifier(String),
    /// An identifier holds characters outside the General Security Profile
    /// for Identifiers.
    ConfusableIdentifier(String),
    /// The type checker reported a warning.
    TypeWarning(TypeWarningKind),
}

/// The clause that offers a suggested name, if there is one.
pub open spec fn suggestion_clause(suggested: Option<String>) -> Seq<char> {
    match suggested {
        Some(s) => ", did you mean `"@ + s@ + "`?"@,
        None => Seq::empty(),
    }
}

pub open spec fn principal_hint(fix: bool) -> Seq<char> {
    if fix {
        ". Note: Try replacing `==` with `in` in the principal clause"@
    } else {
        Seq::empty()
    }
}

pub open spec fn resource_hint(fix: bool) -> Seq<char> {
    if fix {
        ". Note: Try replacing `==` with `in` in the resource clause"@
    } else {
        Seq::empty()
    }
}

pub open spec fn invalid_action_base() -> Seq<char> {
    "unable to find an applicable action given the policy head constraints"@
}

/// Appends the clause that offers `suggested`, if there is one.
fn push_suggestion(s: &mut String, suggested: &Option<String>)
    ensures
        final(s)@ =~= old(s)@ + suggestion_clause(*suggested),
{
    match suggested {
        Some(name) => {
            s.append(", did you mean `");
            s.append(name.as_str());
            s.append("`?");
        },
        None => {},
    }
}

impl ValidationErrorKind {
    /// The message of this error.
    pub open spec fn message(&self) -> Seq<char> {
        match self {
            ValidationErrorKind::UnrecognizedEntityType(d) => "unrecognized entity type `"@
                + d.actual_entity_type@ + "`"@ + suggestion_clause(d.suggested_entity_type),
            ValidationErrorKind::UnrecognizedActionId(d) => "unrecognized action `"@
                + d.actual_action_id@ + "`"@ + suggestion_clause(d.suggested_action_id),
            ValidationErrorKind::InvalidActionApplication(d) => invalid_action_base()
                + principal_hint(d.would_in_fix_principal) + resource_hint(
                d.would_in_fix_resource,
            ),
            ValidationErrorKind::TypeError(t) => t@,
            ValidationErrorKind::UnspecifiedEntity(d) => "unspecified entity with eid `"@
                + d.entity_id@ + "`. Unspecified entities cannot be used in policies"@,
        }
    }

    pub fn unrecognized_entity_type(
        actual_entity_type: String,
        suggested_entity_type: Option<String>,
    ) -> (r: ValidationErrorKind)
        ensures
            r == ValidationErrorKind::UnrecognizedEntityType(
                UnrecognizedEntityType { actual_entity_type, suggested_entity_type },
            ),
    {
        ValidationErrorKind::UnrecognizedEntityType(
            UnrecognizedEntityType { actual_entity_type, suggested_entity_type },
        )
    }

    pub fn unrecognized_action_id(
        actual_action_id: String,
        suggested_action_id: Option<String>,
    ) -> (r: ValidationErrorKind)
        ensures
            r == ValidationErrorKind::UnrecognizedActionId(
                UnrecognizedActionId { actual_action_id, suggested_action_id },
            ),
    {
        ValidationErrorKind::UnrecognizedActionId(
            UnrecognizedActionId { actual_action_id, suggested_action_id },
        )
    }

    pub fn invalid_action_application(
        would_in_fix_principal: bool,
        would_in_fix_resource: bool,
    ) -> (r: ValidationErrorKind)
        ensures
            r == ValidationErrorKind::InvalidActionApplication(
                InvalidActionApplication { would_in_fix_principal, would_in_fix_resource },
            ),
    {
        ValidationErrorKind::InvalidActionApplication(
            InvalidActionApplication { would_in_fix_principal, would_in_fix_resource },
        )
    }

    pub fn type_error(type_error: TypeErrorKind) -> (r: ValidationErrorKind)
        ensures
            r == ValidationErrorKind::TypeError(type_error),
    {
        ValidationErrorKind::TypeError(type_error)
    }

    pub fn unspecified_entity(entity_id: String) -> (r: ValidationErrorKind)
        ensures
            r == ValidationErrorKind::UnspecifiedEntity(UnspecifiedEntity { entity_id }),
    {
        ValidationErrorKind::UnspecifiedEntity(UnspecifiedEntity { entity_id })
    }

    /// Renders the message of this error, which is never empty.
    pub fn to_string(&self) -> (r: String)
        ensures
            r@ == self.message(),
            r@.len() > 0,
    {
        match self {
            ValidationErrorKind::UnrecognizedEntityType(d) => {
                proof {
                    reveal_strlit("unrecognized entity type `");
                }
                let mut s = String::from_str("unrecognized entity type `");
                s.append(d.actual_entity_type.as_str());
                s.append("`");
                push_suggestion(&mut s, &d.suggested_entity_type);
                s
            },
            ValidationErrorKind::UnrecognizedActionId(d) => {
                proof {
                    reveal_strlit("unrecognized action `");
                }
                let mut s = String::from_str("unrecognized action `");
                s.append(d.actual_action_id.as_str());
                s.append("`");
                push_suggestion(&mut s, &d.suggested_action_id);
                s
            },
            ValidationErrorKind::InvalidActionApplication(d) => {
                proof {
                    reveal_strlit(
                        "unable to find an applicable action given the policy head constraints",
                    );
                }
                let mut s = String::from_str(
                    "unable to find an applicable action given the policy head constraints",
                );
                if d.would_in_fix_principal {
                    s.append(". Note: Try replacing `==` with `in` in the principal clause");
                }
                if d.would_in_fix_resource {
                    s.append(". Note: Try replacing `==` with `in` in the resource clause");
                }
                assert(s@ =~= self.message());
                s
            },
            ValidationErrorKind::TypeError(t) => t.to_string(),
            ValidationErrorKind::UnspecifiedEntity(d) => {
                proof {
                    reveal_strlit("unspecified entity with eid `");
                }
                let mut s = String::from_str("unspecified entity with eid `");
                s.append(d.entity_id.as_str());
                s.append("`. Unspecified entities cannot be used in policies");
                s
            },
        }
    }
}

impl ValidationWarningKind {
    /// The message of this warning.
    pub open spec fn message(&self) -> Seq<char> {
        match self {
            ValidationWarningKind::MixedScriptString(t) => "string `\""@ + t@
                + "\"` contains mixed scripts"@,
            ValidationWarningKind::BidiCharsInString(t) => "string `\""@ + t@
                + "\"` contains BIDI control characters"@,
            ValidationWarningKind::BidiCharsInIdentifier(t) => "identifier `"@ + t@
                + "` contains BIDI control characters"@,
            ValidationWarningKind::MixedScriptIdentifier(t) => "identifier `"@ + t@
                + "` contains mixed scripts"@,
            ValidationWarningKind::ConfusableIdentifier(t) => "identifier `"@ + t@
                + "` contains characters that fall outside of the General Security Profile for Identifiers"@,
            ValidationWarningKind::TypeWarning(w) => w@,
        }
    }

    /// Renders the message of this warning.
    pub fn to_string(&self) -> (r: String)
        ensures
            r@ == self.message(),
    {
        match self {
            ValidationWarningKind::MixedScriptString(t) => {
                let mut s = String::from_str("string `\"");
                s.append(t.as_str());
                s.append("\"` contains mixed scripts");
                s
            },
            ValidationWarningKind::BidiCharsInString(t) => {
                let mut s = String::from_str("string `\"");
                s.append(t.as_str());
                s.append("\"` contains BIDI control characters");
                s
            },
            ValidationWarningKind::BidiCharsInIdentifier(t) => {
                let mut s = String::from_str("identifier `");
                s.append(t.as_str());
                s.append("` contains BIDI control characters");
                s
            },
            ValidationWarningKind::MixedScriptIdentifier(t) => {
                let mut s = String::from_str("identifier `");
                s.append(t.as_str());
                s.append("` contains mixed scripts");
                s
            },
            ValidationWarningKind::ConfusableIdentifier(t) => {
                let mut s = String::from_str("identifier `");
                s.append(t.as_str());
                s.append(
                    "` contains characters that fall outside of the General Security Profile for Identifiers",
                );
                s
            },
            ValidationWarningKind::TypeWarning(w) => w.to_string(),
        }
    }
}

/// An unrecognized entity type reads the same whenever its names read the same,
/// and a suggestion changes the message only by the clause it appends.
pub proof fn lemma_entity_type_message(a: UnrecognizedEntityType, b: UnrecognizedEntityType)
    requires
        a.actual_entity_type@ == b.actual_entity_type@,
    ensures
        (a.suggested_entity_type is None && b.suggested_entity_type is None)
            ==> ValidationErrorKind::UnrecognizedEntityType(a).message()
            == ValidationErrorKind::UnrecognizedEntityType(b).message(),
        a.suggested_entity_type is None ==> (b.suggested_entity_type matches Some(s)
            ==> ValidationErrorKind::UnrecognizedEntityType(b).message()
            == ValidationErrorKind::UnrecognizedEntityType(a).message() + ", did you mean `"@
            + s@ + "`?"@),
        a.suggested_entity_type matches Some(s) ==> (b.suggested_entity_type matches Some(t)
            ==> (s@ == t@ ==> ValidationErrorKind::UnrecognizedEntityType(a).message()
            == ValidationErrorKind::UnrecognizedEntityType(b).message())),
        a.suggested_entity_type is None ==> ValidationErrorKind::UnrecognizedEntityType(
            a,
        ).message() == "unrecognized entity type `"@ + a.actual_entity_type@ + "`"@,
{
    let ma = ValidationErrorKind::UnrecognizedEntityType(a).message();
    let mb = ValidationErrorKind::UnrecognizedEntityType(b).message();
    if a.suggested_entity_type is None {
        if let Some(s) = b.suggested_entity_type {
            assert(mb =~= ma + ", did you mean `"@ + s@ + "`?"@);
        }
        assert(ma =~= "unrecognized entity type `"@ + a.actual_entity_type@ + "`"@);
    }
}

/// The head-constraint hints: none, the principal's, the resource's, or both
/// with the principal's first.
pub proof fn lemma_invalid_action_hints(p: bool, r: bool)
    ensures
        ValidationErrorKind::InvalidActionApplication(
            InvalidActionApplication { would_in_fix_principal: p, would_in_fix_resource: r },
        ).message() == invalid_action_base() + (if p {
            ". Note: Try replacing `==` with `in` in the principal clause"@
        } else {
            Seq::<char>::empty()
        }) + (if r {
            ". Note: Try replacing `==` with `in` in the resource clause"@
        } else {
            Seq::<char>::empty()
        }),
        !p && !r ==> ValidationErrorKind::InvalidActionApplication(
            InvalidActionApplication { would_in_fix_principal: p, would_in_fix_resource: r },
        ).message() == invalid_action_base(),
{
    assert(invalid_action_base() + Seq::<char>::empty() + Seq::<char>::empty()
        =~= invalid_action_base());
}

} // verus!
