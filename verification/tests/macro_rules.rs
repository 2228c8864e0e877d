use coactor::macros::{
    command_arguments, constructor_state_type, parse_actor_attribute, pascal_case, return_types,
    take_command_attribute, type_ends_with, validate_activation, validate_command,
    validate_constructor, validate_deactivation, ArgumentShape, AttributeError, AttributeShape,
    AttributeToken, MethodShape, ParameterShape, ReturnShape, SegmentShape, ShapeError, TypeKind,
    TypeShape,
};

fn path(segments: Vec<(&str, Option<Vec<ArgumentShape>>)>) -> TypeShape {
    let tokens = segments.iter().map(|(name, _)| *name).collect::<Vec<_>>().concat();
    TypeShape {
        tokens,
        kind: TypeKind::Path {
            segments: segments
                .into_iter()
                .map(|(ident, arguments)| SegmentShape { ident: ident.into(), arguments })
                .collect(),
        },
    }
}

fn named(name: &str) -> TypeShape {
    path(vec![(name, None)])
}

fn generic(name: &str, arguments: Vec<TypeShape>) -> TypeShape {
    path(vec![(name, Some(arguments.into_iter().map(ArgumentShape::Type).collect()))])
}

fn unit() -> TypeShape {
    TypeShape { tokens: "()".into(), kind: TypeKind::Tuple { len: 0 } }
}

fn reference(mutable: bool, elem: TypeShape) -> TypeShape {
    TypeShape {
        tokens: format!("&{}", elem.tokens),
        kind: TypeKind::Reference { mutable, elem: Box::new(elem) },
    }
}

fn typed(name: &str, ty: TypeShape) -> ParameterShape {
    ParameterShape::Typed { name: Some(name.into()), ty }
}

fn command(more: Vec<ParameterShape>) -> MethodShape {
    let mut inputs = vec![
        ParameterShape::Receiver,
        typed("ctx", reference(false, path(vec![("coactor", None), ("CommandContext", None)]))),
    ];
    inputs.extend(more);
    MethodShape { public: true, asynchronous: true, inputs, output: None }
}

#[test]
fn types_are_known_by_their_last_segment() {
    assert!(type_ends_with(&path(vec![("a", None), ("B", None)]), "B"));
    assert!(!type_ends_with(&path(vec![("B", None), ("a", None)]), "B"));
    assert!(!type_ends_with(&unit(), "B"));
}

#[test]
fn commands_are_checked() {
    assert_eq!(validate_command(&command(vec![]), false), Ok(()));
    let mut hidden = command(vec![]);
    hidden.public = false;
    assert_eq!(validate_command(&hidden, false), Err(ShapeError::CommandNotPublic));
    let mut blocking = command(vec![]);
    blocking.asynchronous = false;
    assert_eq!(validate_command(&blocking, false), Err(ShapeError::CommandNotAsync));
    let mut mutable = command(vec![]);
    mutable.inputs[1] = typed("ctx", reference(true, named("CommandContext")));
    assert_eq!(validate_command(&mutable, false), Err(ShapeError::CommandWithoutContext));
    assert_eq!(validate_command(&command(vec![]), true), Err(ShapeError::RemoteCommandParameters));
    let remote = command(vec![typed("request", named("Request"))]);
    assert_eq!(validate_command(&remote, true), Ok(()));
    assert_eq!(ShapeError::CommandNotAsync.message(), "#[command] methods must be async");
    let arguments = command_arguments(&remote);
    assert_eq!(arguments.len(), 1);
    assert_eq!((arguments[0].0.as_str(), arguments[0].1.tokens.as_str()), ("request", "Request"));
}

#[test]
fn constructors_are_checked() {
    let constructor = |state: TypeShape| MethodShape {
        public: true,
        asynchronous: false,
        inputs: vec![typed("actor_id", named("ActorId")), typed("state", state)],
        output: Some(named("Self")),
    };
    let proper = constructor(generic("Arc", vec![named("State")]));
    assert_eq!(validate_constructor(&proper), Ok(()));
    assert_eq!(constructor_state_type(&proper).map(|ty| ty.tokens.as_str()), Ok("State"));
    let bare = constructor(named("State"));
    assert_eq!(constructor_state_type(&bare).err(), Some(ShapeError::ConstructorState));
    let two = constructor(generic("Arc", vec![named("A"), named("B")]));
    assert_eq!(constructor_state_type(&two).err(), Some(ShapeError::ConstructorState));
    let mut short = constructor(generic("Arc", vec![named("State")]));
    short.inputs.pop();
    assert_eq!(validate_constructor(&short), Err(ShapeError::Constructor));
    assert_eq!(constructor_state_type(&short).err(), Some(ShapeError::Constructor));
    let mut other = constructor(generic("Arc", vec![named("State")]));
    other.output = Some(named("Room"));
    assert_eq!(validate_constructor(&other), Err(ShapeError::Constructor));
}

#[test]
fn hooks_are_checked() {
    let activation = |inputs: usize, asynchronous: bool, output: Option<TypeShape>| MethodShape {
        public: false,
        asynchronous,
        inputs: (0..inputs).map(|_| ParameterShape::Receiver).collect(),
        output,
    };
    let fallible = || Some(generic("Result", vec![unit(), named("E")]));
    assert_eq!(validate_activation(&activation(1, true, fallible())), Ok(()));
    assert_eq!(validate_activation(&activation(1, false, fallible())), Err(ShapeError::ActivationNotAsync));
    assert_eq!(validate_activation(&activation(2, true, fallible())), Err(ShapeError::ActivationParameters));
    assert_eq!(validate_activation(&activation(1, true, None)), Err(ShapeError::ActivationResult));
    let value = Some(generic("Result", vec![named("u8"), named("E")]));
    assert_eq!(validate_activation(&activation(1, true, value)), Err(ShapeError::ActivationResult));
    let deactivation = |reason: &str, asynchronous: bool, output: Option<TypeShape>| MethodShape {
        public: false,
        asynchronous,
        inputs: vec![ParameterShape::Receiver, typed("reason", named(reason))],
        output,
    };
    let reason = "DeactivationReason";
    assert_eq!(validate_deactivation(&deactivation(reason, true, None)), Ok(()));
    assert_eq!(validate_deactivation(&deactivation(reason, false, None)), Err(ShapeError::DeactivationNotAsync));
    assert_eq!(validate_deactivation(&deactivation("Reason", true, None)), Err(ShapeError::DeactivationReason));
    assert_eq!(validate_deactivation(&deactivation(reason, true, fallible())), Err(ShapeError::DeactivationResult));
    assert_eq!(validate_deactivation(&activation(1, true, None)), Err(ShapeError::DeactivationParameters));
}

#[test]
fn return_types_are_split() {
    assert!(matches!(return_types(&None), ReturnShape::Unit));
    let plain = Some(named("u8"));
    assert!(matches!(return_types(&plain), ReturnShape::Plain(ty) if ty.tokens == "u8"));
    let fallible = Some(generic("Result", vec![named("u8"), named("E")]));
    match return_types(&fallible) {
        ReturnShape::Fallible { success, error } => {
            assert_eq!((success.tokens.as_str(), error.tokens.as_str()), ("u8", "E"));
        }
        _ => panic!("no result"),
    }
    let alias = Some(generic("Result", vec![named("u8")]));
    assert!(matches!(return_types(&alias), ReturnShape::Plain(_)));
}

#[test]
fn command_attributes_are_taken_off() {
    let attribute = |path: &[&str], bare: bool| AttributeShape {
        path: path.iter().map(|s| s.to_string()).collect(),
        bare,
    };
    let (remote, left) = take_command_attribute(vec![
        attribute(&["doc"], false),
        attribute(&["coactor", "command"], false),
        attribute(&["command"], true),
    ]);
    assert_eq!(remote, Some(true));
    assert_eq!(left.len(), 1);
    assert_eq!(left[0].path, vec!["doc"]);
    let (remote, _) = take_command_attribute(vec![attribute(&["command"], true)]);
    assert_eq!(remote, Some(false));
    let (remote, left) = take_command_attribute(vec![attribute(&["doc"], false)]);
    assert_eq!((remote, left.len()), (None, 1));
}

#[test]
fn command_types_are_named_in_pascal_case() {
    assert_eq!(pascal_case("send_message"), "SendMessage");
    assert_eq!(pascal_case("_a__b1_"), "AB1");
    assert_eq!(pascal_case("straße_ßa"), "StraßeSSa");
    assert_eq!(pascal_case(""), "");
}

#[test]
fn actor_attributes_name_their_actor() {
    let name = || AttributeToken::Ident("name".into());
    let text = || AttributeToken::Text("room".into());
    let parse = |tokens: Vec<AttributeToken>| parse_actor_attribute(&tokens);
    assert_eq!(parse(vec![name(), AttributeToken::Equals, text()]), Ok("room".to_string()));
    assert_eq!(parse(vec![]), Err(AttributeError::Missing));
    assert_eq!(parse(vec![text()]), Err(AttributeError::ExpectedIdentifier));
    assert_eq!(
        parse(vec![AttributeToken::Ident("id".into()), AttributeToken::Equals, text()]),
        Err(AttributeError::ExpectedName)
    );
    assert_eq!(parse(vec![name()]), Err(AttributeError::ExpectedEquals));
    assert_eq!(parse(vec![name(), AttributeToken::Equals]), Err(AttributeError::ExpectedText));
    assert_eq!(
        parse(vec![name(), AttributeToken::Equals, text(), AttributeToken::Other]),
        Err(AttributeError::UnexpectedInput)
    );
    assert_eq!(AttributeError::ExpectedName.message(), "expected `name = \"...\"`");
}
