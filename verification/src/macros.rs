//! The rules of the `#[actor]` and `#[command]` attributes.
//!
//! The host's macros hand over the shape of what they parsed; the rules say
//! whether it is accepted, and what it is made into.

use vstd::prelude::*;
use vstd::string::*;

use crate::text::characters;

verus! {

/// The shape of a type: its source text, and as much of its structure as the
/// rules look at.
pub struct TypeShape {
    pub tokens: String,
    pub kind: TypeKind,
}

/// The structure of a type.
pub enum TypeKind {
    Path { segments: Vec<SegmentShape> },
    Reference { mutable: bool, elem: Box<TypeShape> },
    Tuple { len: usize },
    Other,
}

/// One segment of a path.
pub struct SegmentShape {
    pub ident: String,
    pub arguments: Option<Vec<ArgumentShape>>,
}

/// One argument in angle brackets: a type, or anything else.
pub enum ArgumentShape {
    Type(TypeShape),
    Other,
}

/// One parameter of a method.
pub enum ParameterShape {
    Receiver,
    Typed { name: Option<String>, ty: TypeShape },
}

/// The shape of a method.
pub struct MethodShape {
    pub public: bool,
    pub asynchronous: bool,
    pub inputs: Vec<ParameterShape>,
    pub output: Option<TypeShape>,
}

/// The last segment of a type that is a path.
pub open spec fn last_segment(ty: TypeShape) -> Option<SegmentShape> {
    match ty.kind {
        TypeKind::Path { segments } => if segments@.len() > 0 {
            Some(segments@.last())
        } else {
            None
        },
        _ => None,
    }
}

/// A type is a path that ends with a name.
pub open spec fn ends_with(ty: TypeShape, name: Seq<char>) -> bool {
    last_segment(ty) matches Some(segment) && segment.ident@ == name
}

fn last_segment_of(ty: &TypeShape) -> (segment: Option<&SegmentShape>)
    ensures
        match segment {
            Some(segment) => last_segment(*ty) == Some(*segment),
            None => last_segment(*ty) is None,
        },
{
    match &ty.kind {
        TypeKind::Path { segments } => {
            let len: usize = segments.len();
            if len > 0 {
                Some(&segments[len - 1])
            } else {
                None
            }
        },
        _ => None,
    }
}

/// Whether a type is a path that ends with a name.
pub fn type_ends_with(ty: &TypeShape, name: &str) -> (ends: bool)
    ensures
        ends == ends_with(*ty, name@),
{
    match last_segment_of(ty) {
        Some(segment) => segment.ident == name.to_owned(),
        None => false,
    }
}

/// A method returns `Result<(), E>`.
pub open spec fn returns_result_of_unit(output: Option<TypeShape>) -> bool {
    &&& output matches Some(ty)
    &&& last_segment(ty) matches Some(segment)
    &&& segment.ident@ == "Result"@
    &&& segment.arguments matches Some(arguments)
    &&& arguments@.len() > 0
    &&& arguments@[0] matches ArgumentShape::Type(first)
    &&& first.kind == (TypeKind::Tuple { len: 0 })
}

/// Whether a method returns `Result<(), E>`.
pub fn is_result_of_unit(output: &Option<TypeShape>) -> (result: bool)
    ensures
        result == returns_result_of_unit(*output),
{
    let ty = match output {
        Some(ty) => ty,
        None => return false,
    };
    let segment = match last_segment_of(ty) {
        Some(segment) => segment,
        None => return false,
    };
    let arguments = match &segment.arguments {
        Some(arguments) => arguments,
        None => return false,
    };
    if segment.ident != "Result".to_owned() || arguments.len() == 0 {
        return false;
    }
    match &arguments[0] {
        ArgumentShape::Type(first) => match &first.kind {
            TypeKind::Tuple { len } => *len == 0,
            _ => false,
        },
        ArgumentShape::Other => false,
    }
}

/// The type of a parameter, if the method has that parameter and it is no
/// receiver.
pub open spec fn parameter_type(method: MethodShape, i: int) -> Option<TypeShape> {
    if 0 <= i < method.inputs@.len() {
        match method.inputs@[i] {
            ParameterShape::Typed { ty, .. } => Some(ty),
            ParameterShape::Receiver => None,
        }
    } else {
        None
    }
}

fn parameter_type_of(method: &MethodShape, i: usize) -> (ty: Option<&TypeShape>)
    ensures
        match ty {
            Some(ty) => parameter_type(*method, i as int) == Some(*ty),
            None => parameter_type(*method, i as int) is None,
        },
{
    if i < method.inputs.len() {
        match &method.inputs[i] {
            ParameterShape::Typed { ty, .. } => Some(ty),
            ParameterShape::Receiver => None,
        }
    } else {
        None
    }
}

/// The second parameter of a method is `&CommandContext`.
pub open spec fn takes_command_context(method: MethodShape) -> bool {
    &&& parameter_type(method, 1) matches Some(ty)
    &&& ty.kind matches TypeKind::Reference { mutable, elem }
    &&& !mutable
    &&& ends_with(*elem, "CommandContext"@)
}

/// Whether the second parameter of a method is `&CommandContext`.
pub fn has_command_context(method: &MethodShape) -> (has: bool)
    ensures
        has == takes_command_context(*method),
{
    match parameter_type_of(method, 1) {
        Some(ty) => match &ty.kind {
            TypeKind::Reference { mutable, elem } => !*mutable && type_ends_with(
                elem,
                "CommandContext",
            ),
            _ => false,
        },
        None => false,
    }
}

/// Why a method is not accepted.
#[derive(Clone, Copy, Debug, PartialEq, Eq, Structural)]
pub enum ShapeError {
    CommandNotPublic,
    CommandNotAsync,
    CommandWithoutContext,
    RemoteCommandParameters,
    Constructor,
    ConstructorState,
    ActivationNotAsync,
    ActivationParameters,
    ActivationResult,
    DeactivationNotAsync,
    DeactivationParameters,
    DeactivationReason,
    DeactivationResult,
}

impl ShapeError {
    /// What the error says.
    pub open spec fn text(self) -> Seq<char> {
        match self {
            ShapeError::CommandNotPublic => "#[command] methods must be public"@,
            ShapeError::CommandNotAsync => "#[command] methods must be async"@,
            ShapeError::CommandWithoutContext => "#[command] must take &CommandContext after &mut self"@,
            ShapeError::RemoteCommandParameters => "#[command(remote)] must take exactly one Protobuf request after &CommandContext"@,
            ShapeError::Constructor => "actor constructor must be pub fn new(actor_id: ActorId, app_state: Arc<AppState>) -> Self"@,
            ShapeError::ConstructorState => "actor constructor App State must use Arc<AppState>"@,
            ShapeError::ActivationNotAsync => "on_activate must be async"@,
            ShapeError::ActivationParameters => "on_activate must take only &mut self"@,
            ShapeError::ActivationResult => "on_activate must return Result<(), E>"@,
            ShapeError::DeactivationNotAsync => "on_deactivate must be async"@,
            ShapeError::DeactivationParameters => "on_deactivate must take &mut self and DeactivationReason"@,
            ShapeError::DeactivationReason => "on_deactivate must take DeactivationReason as its final parameter"@,
            ShapeError::DeactivationResult => "on_deactivate must not return a value or error"@,
        }
    }

    /// The error as text.
    pub fn message(&self) -> (message: &'static str)
        ensures
            message@ == self.text(),
    {
        match self {
            ShapeError::CommandNotPublic => "#[command] methods must be public",
            ShapeError::CommandNotAsync => "#[command] methods must be async",
            ShapeError::CommandWithoutContext => "#[command] must take &CommandContext after &mut self",
            ShapeError::RemoteCommandParameters => "#[command(remote)] must take exactly one Protobuf request after &CommandContext",
            ShapeError::Constructor => "actor constructor must be pub fn new(actor_id: ActorId, app_state: Arc<AppState>) -> Self",
            ShapeError::ConstructorState => "actor constructor App State must use Arc<AppState>",
            ShapeError::ActivationNotAsync => "on_activate must be async",
            ShapeError::ActivationParameters => "on_activate must take only &mut self",
            ShapeError::ActivationResult => "on_activate must return Result<(), E>",
            ShapeError::DeactivationNotAsync => "on_deactivate must be async",
            ShapeError::DeactivationParameters => "on_deactivate must take &mut self and DeactivationReason",
            ShapeError::DeactivationReason => "on_deactivate must take DeactivationReason as its final parameter",
            ShapeError::DeactivationResult => "on_deactivate must not return a value or error",
        }
    }
}

/// What is wrong with a command, if anything is.
pub open spec fn command_fault(command: MethodShape, remote: bool) -> Option<ShapeError> {
    if !command.public {
        Some(ShapeError::CommandNotPublic)
    } else if !command.asynchronous {
        Some(ShapeError::CommandNotAsync)
    } else if !takes_command_context(command) {
        Some(ShapeError::CommandWithoutContext)
    } else if remote && command.inputs@.len() != 3 {
        Some(ShapeError::RemoteCommandParameters)
    } else {
        None
    }
}

/// Checks a command.
pub fn validate_command(command: &MethodShape, remote: bool) -> (result: Result<(), ShapeError>)
    ensures
        match result {
            Ok(()) => command_fault(*command, remote) is None,
            Err(error) => command_fault(*command, remote) == Some(error),
        },
{
    if !command.public {
        return Err(ShapeError::CommandNotPublic);
    }
    if !command.asynchronous {
        return Err(ShapeError::CommandNotAsync);
    }
    if !has_command_context(command) {
        return Err(ShapeError::CommandWithoutContext);
    }
    if remote && command.inputs.len() != 3 {
        return Err(ShapeError::RemoteCommandParameters);
    }
    Ok(())
}

/// A type is the bare name `Self`.
pub open spec fn is_self_type(ty: TypeShape) -> bool {
    &&& ty.kind matches TypeKind::Path { segments }
    &&& segments@.len() == 1
    &&& segments@[0].ident@ == "Self"@
    &&& segments@[0].arguments is None
}

fn is_self(ty: &TypeShape) -> (is_self: bool)
    ensures
        is_self == is_self_type(*ty),
{
    match &ty.kind {
        TypeKind::Path { segments } => segments.len() == 1 && segments[0].ident
            == "Self".to_owned() && segments[0].arguments.is_none(),
        _ => false,
    }
}

/// A method is `pub fn new(actor_id: ActorId, app_state: ..) -> Self`.
pub open spec fn is_constructor(method: MethodShape) -> bool {
    &&& method.public
    &&& !method.asynchronous
    &&& method.inputs@.len() == 2
    &&& parameter_type(method, 0) matches Some(ty)
    &&& ends_with(ty, "ActorId"@)
    &&& method.output matches Some(output)
    &&& is_self_type(output)
}

/// Checks a constructor.
pub fn validate_constructor(method: &MethodShape) -> (result: Result<(), ShapeError>)
    ensures
        result is Ok == is_constructor(*method),
        result matches Err(error) ==> error == ShapeError::Constructor,
{
    if !method.public || method.asynchronous || method.inputs.len() != 2 {
        return Err(ShapeError::Constructor);
    }
    let named = match parameter_type_of(method, 0) {
        Some(ty) => type_ends_with(ty, "ActorId"),
        None => false,
    };
    let returns_self = match &method.output {
        Some(output) => is_self(output),
        None => false,
    };
    if named && returns_self {
        Ok(())
    } else {
        Err(ShapeError::Constructor)
    }
}

/// Checks `on_activate`.
pub fn validate_activation(method: &MethodShape) -> (result: Result<(), ShapeError>)
    ensures
        result == if !method.asynchronous {
            Err::<(), ShapeError>(ShapeError::ActivationNotAsync)
        } else if method.inputs@.len() != 1 {
            Err(ShapeError::ActivationParameters)
        } else if !returns_result_of_unit(method.output) {
            Err(ShapeError::ActivationResult)
        } else {
            Ok(())
        },
{
    if !method.asynchronous {
        return Err(ShapeError::ActivationNotAsync);
    }
    if method.inputs.len() != 1 {
        return Err(ShapeError::ActivationParameters);
    }
    if !is_result_of_unit(&method.output) {
        return Err(ShapeError::ActivationResult);
    }
    Ok(())
}

/// Checks `on_deactivate`.
pub fn validate_deactivation(method: &MethodShape) -> (result: Result<(), ShapeError>)
    ensures
        result == if !method.asynchronous {
            Err::<(), ShapeError>(ShapeError::DeactivationNotAsync)
        } else if method.inputs@.len() != 2 {
            Err(ShapeError::DeactivationParameters)
        } else if !(parameter_type(*method, 1) matches Some(ty) && ends_with(
            ty,
            "DeactivationReason"@,
        )) {
            Err(ShapeError::DeactivationReason)
        } else if method.output is Some {
            Err(ShapeError::DeactivationResult)
        } else {
            Ok(())
        },
{
    if !method.asynchronous {
        return Err(ShapeError::DeactivationNotAsync);
    }
    if method.inputs.len() != 2 {
        return Err(ShapeError::DeactivationParameters);
    }
    let reason = match parameter_type_of(method, 1) {
        Some(ty) => type_ends_with(ty, "DeactivationReason"),
        None => false,
    };
    if !reason {
        return Err(ShapeError::DeactivationReason);
    }
    if method.output.is_some() {
        return Err(ShapeError::DeactivationResult);
    }
    Ok(())
}

/// The App State of a constructor: the only argument of the `Arc` that its second
/// parameter is.
pub open spec fn state_type(constructor: MethodShape) -> Result<TypeShape, ShapeError> {
    match parameter_type(constructor, 1) {
        None => Err(ShapeError::Constructor),
        Some(ty) => match last_segment(ty) {
            None => Err(ShapeError::ConstructorState),
            Some(segment) => match segment.arguments {
                None => Err(ShapeError::ConstructorState),
                Some(arguments) => if segment.ident@ == "Arc"@ && arguments@.len() == 1 {
                    match arguments@[0] {
                        ArgumentShape::Type(state) => Ok(state),
                        ArgumentShape::Other => Err(ShapeError::ConstructorState),
                    }
                } else {
                    Err(ShapeError::ConstructorState)
                },
            },
        },
    }
}

/// The App State of a constructor.
pub fn constructor_state_type(constructor: &MethodShape) -> (state: Result<&TypeShape, ShapeError>)
    ensures
        match state {
            Ok(state) => state_type(*constructor) == Ok::<TypeShape, ShapeError>(*state),
            Err(error) => state_type(*constructor) == Err::<TypeShape, ShapeError>(error),
        },
{
    let ty = match parameter_type_of(constructor, 1) {
        Some(ty) => ty,
        None => return Err(ShapeError::Constructor),
    };
    let segment = match last_segment_of(ty) {
        Some(segment) => segment,
        None => return Err(ShapeError::ConstructorState),
    };
    let arguments = match &segment.arguments {
        Some(arguments) => arguments,
        None => return Err(ShapeError::ConstructorState),
    };
    if segment.ident != "Arc".to_owned() || arguments.len() != 1 {
        return Err(ShapeError::ConstructorState);
    }
    match &arguments[0] {
        ArgumentShape::Type(state) => Ok(state),
        ArgumentShape::Other => Err(ShapeError::ConstructorState),
    }
}

/// Every parameter after the first two is typed and has a plain name.
pub open spec fn arguments_are_named(command: MethodShape) -> bool {
    forall|i: int|
        2 <= i < command.inputs@.len() ==> (#[trigger] command.inputs@[i] matches ParameterShape::Typed {
            name: Some(_),
            ..
        })
}

/// The names and types of the parameters of a command after its context.
pub fn command_arguments(command: &MethodShape) -> (arguments: Vec<(&String, &TypeShape)>)
    requires
        arguments_are_named(*command),
    ensures
        arguments@.len() == if command.inputs@.len() > 2 {
            command.inputs@.len() - 2
        } else {
            0
        },
        forall|i: int|
            #![trigger arguments@[i]]
            0 <= i < arguments@.len() ==> (command.inputs@[i + 2] matches ParameterShape::Typed {
                name: Some(name),
                ty,
            } && *arguments@[i].0 == name && *arguments@[i].1 == ty),
{
    let mut arguments: Vec<(&String, &TypeShape)> = Vec::new();
    let mut i: usize = 2;
    while i < command.inputs.len()
        invariant
            2 <= i,
            command.inputs@.len() > 2 ==> i <= command.inputs@.len(),
            command.inputs@.len() <= 2 ==> i == 2,
            arguments@.len() == i - 2,
            arguments_are_named(*command),
            forall|j: int|
                #![trigger arguments@[j]]
                0 <= j < i - 2 ==> (command.inputs@[j + 2] matches ParameterShape::Typed {
                    name: Some(name),
                    ty,
                } && *arguments@[j].0 == name && *arguments@[j].1 == ty),
        decreases command.inputs@.len() - i,
    {
        assert(command.inputs@[i as int] matches ParameterShape::Typed { name: Some(_), .. });
        match &command.inputs[i] {
            ParameterShape::Typed { name: Some(name), ty } => {
                arguments.push((name, ty));
            },
            _ => {
                assert(false);
            },
        }
        i += 1;
    }
    arguments
}

/// The types among some arguments, in order.
pub open spec fn argument_types(arguments: Seq<ArgumentShape>) -> Seq<TypeShape>
    decreases arguments.len(),
{
    if arguments.len() == 0 {
        Seq::empty()
    } else {
        let earlier = argument_types(arguments.drop_last());
        match arguments.last() {
            ArgumentShape::Type(ty) => earlier.push(ty),
            ArgumentShape::Other => earlier,
        }
    }
}

/// What a method returns: a plain value, or a result with the types of its two
/// sides.
pub enum ReturnShape<'a> {
    /// Nothing at all.
    Unit,
    /// A plain value.
    Plain(&'a TypeShape),
    /// A result.
    Fallible { success: &'a TypeShape, error: &'a TypeShape },
}

/// The types of the two sides of a result, if a method returns one.
pub open spec fn result_types(ty: TypeShape) -> Option<(TypeShape, TypeShape)> {
    match last_segment(ty) {
        Some(segment) => match segment.arguments {
            Some(arguments) => {
                let types = argument_types(arguments@);
                if segment.ident@ == "Result"@ && types.len() == 2 {
                    Some((types[0], types[1]))
                } else {
                    None
                }
            },
            None => None,
        },
        None => None,
    }
}

/// What a method returns.
pub fn return_types(output: &Option<TypeShape>) -> (shape: ReturnShape<'_>)
    ensures
        match *output {
            None => shape is Unit,
            Some(ty) => match result_types(ty) {
                Some((success, error)) => shape matches ReturnShape::Fallible {
                    success: s,
                    error: e,
                } && *s == success && *e == error,
                None => shape matches ReturnShape::Plain(plain) && *plain == ty,
            },
        },
{
    let ty = match output {
        None => return ReturnShape::Unit,
        Some(ty) => ty,
    };
    let segment = match last_segment_of(ty) {
        Some(segment) => segment,
        None => return ReturnShape::Plain(ty),
    };
    let arguments = match &segment.arguments {
        Some(arguments) => arguments,
        None => return ReturnShape::Plain(ty),
    };
    if segment.ident != "Result".to_owned() {
        return ReturnShape::Plain(ty);
    }
    let mut types: Vec<&TypeShape> = Vec::new();
    let mut i: usize = 0;
    while i < arguments.len()
        invariant
            i <= arguments@.len(),
            types@.len() == argument_types(arguments@.take(i as int)).len(),
            forall|j: int|
                #![trigger types@[j]]
                0 <= j < types@.len() ==> *types@[j] == argument_types(arguments@.take(i as int))[j],
        decreases arguments@.len() - i,
    {
        assert(arguments@.take(i + 1).drop_last() =~= arguments@.take(i as int));
        match &arguments[i] {
            ArgumentShape::Type(ty) => {
                types.push(ty);
            },
            ArgumentShape::Other => {},
        }
        i += 1;
    }
    assert(arguments@.take(i as int) =~= arguments@);
    if types.len() == 2 {
        ReturnShape::Fallible { success: types[0], error: types[1] }
    } else {
        ReturnShape::Plain(ty)
    }
}

/// An attribute of a method: its path, and whether it has no arguments.
pub struct AttributeShape {
    pub path: Vec<String>,
    pub bare: bool,
}

/// An attribute whose path ends with `command`.
pub open spec fn is_command(attribute: AttributeShape) -> bool {
    attribute.path@.len() > 0 && attribute.path@.last()@ == "command"@
}

fn is_command_attribute(attribute: &AttributeShape) -> (is: bool)
    ensures
        is == is_command(*attribute),
{
    let len: usize = attribute.path.len();
    len > 0 && attribute.path[len - 1] == "command".to_owned()
}

/// Takes the `#[command]` attributes off a method. The answer is whether the
/// first of them has arguments, if there is one.
pub fn take_command_attribute(attributes: Vec<AttributeShape>) -> (taken: (
    Option<bool>,
    Vec<AttributeShape>,
))
    ensures
        taken.1@ == attributes@.filter(|a: AttributeShape| !is_command(a)),
        match taken.0 {
            Some(remote) => exists|i: int|
                #![trigger attributes@[i]]
                0 <= i < attributes@.len() && is_command(attributes@[i]) && remote
                    == !attributes@[i].bare && forall|j: int|
                    0 <= j < i ==> !is_command(#[trigger] attributes@[j]),
            None => forall|i: int|
                0 <= i < attributes@.len() ==> !is_command(#[trigger] attributes@[i]),
        },
{
    let ghost all = attributes@;
    let ghost keep = |a: AttributeShape| !is_command(a);
    let mut rest = attributes;
    let mut found: Option<bool> = None;
    let mut i: usize = 0;
    let ghost mut done: int = 0;
    let ghost mut hit: int = 0;
    reveal(Seq::filter);
    assert(all.take(0) =~= Seq::<AttributeShape>::empty());
    assert(all.skip(0) =~= all);
    assert(rest@.take(0) =~= all.take(0).filter(keep));
    while i < rest.len()
        invariant
            i <= rest@.len(),
            0 <= done <= all.len(),
            keep == (|a: AttributeShape| !is_command(a)),
            rest@.len() - i == all.len() - done,
            rest@.take(i as int) == all.take(done).filter(keep),
            rest@.skip(i as int) == all.skip(done),
            match found {
                Some(remote) => 0 <= hit < done && is_command(all[hit]) && remote == !all[hit].bare
                    && forall|j: int| 0 <= j < hit ==> !is_command(#[trigger] all[j]),
                None => forall|j: int| 0 <= j < done ==> !is_command(#[trigger] all[j]),
            },
        decreases rest@.len() - i,
    {
        let ghost step = rest@;
        assert(step[i as int] == step.skip(i as int)[0]);
        assert(step[i as int] == all[done]);
        assert(all.take(done + 1).drop_last() =~= all.take(done));
        reveal(Seq::filter);
        if is_command_attribute(&rest[i]) {
            if found.is_none() {
                found = Some(!rest[i].bare);
                proof {
                    hit = done;
                }
            }
            rest.remove(i);
            assert(rest@.take(i as int) =~= step.take(i as int));
            assert(rest@.skip(i as int) =~= all.skip(done + 1)) by {
                assert forall|j: int| 0 <= j < rest@.skip(i as int).len() implies (
                #[trigger] rest@.skip(i as int)[j]) == all.skip(done + 1)[j] by {
                    assert(step.skip(i as int)[j + 1] == all.skip(done)[j + 1]);
                }
            }
        } else {
            assert(step.take(i + 1) =~= step.take(i as int).push(step[i as int]));
            assert(rest@.skip(i + 1) =~= all.skip(done + 1)) by {
                assert forall|j: int| 0 <= j < rest@.skip(i + 1).len() implies (
                #[trigger] rest@.skip(i + 1)[j]) == all.skip(done + 1)[j] by {
                    assert(step.skip(i as int)[j + 1] == all.skip(done)[j + 1]);
                }
            }
            i += 1;
        }
        proof {
            done = done + 1;
        }
    }
    assert(rest@.take(i as int) =~= rest@);
    assert(all.take(done) =~= all);
    (found, rest)
}

/// The characters that a character turns into in uppercase.
pub uninterp spec fn uppercase_of(c: char) -> Seq<char>;

/// `char::to_uppercase`: the uppercase form of a character, named
/// `uppercase_of`. The form of an ASCII letter is the ASCII capital; other ASCII
/// characters are their own. Nothing more is said of the Unicode tables.
#[verifier::external_body]
pub(crate) fn uppercase(c: char) -> (upper: Vec<char>)
    ensures
        upper@ == uppercase_of(c),
        'a' <= c && c <= 'z' ==> upper@ == seq![((c as u8) - 32) as u8 as char],
        c <= '\u{7f}' && !('a' <= c && c <= 'z') ==> upper@ == seq![c],
{
    c.to_uppercase().collect()
}

/// The name in which each piece between underscores begins with a capital and the
/// underscores are gone. `capital` tells whether the next character does.
pub open spec fn pascal(name: Seq<char>, capital: bool) -> Seq<char>
    decreases name.len(),
{
    if name.len() == 0 {
        Seq::empty()
    } else if name[0] == '_' {
        pascal(name.drop_first(), true)
    } else if capital {
        uppercase_of(name[0]) + pascal(name.drop_first(), false)
    } else {
        seq![name[0]] + pascal(name.drop_first(), false)
    }
}

/// Puts one character of a name into its place. `upper` is its uppercase form.
/// The answer is whether the next character begins with a capital.
pub fn pascal_push(text: &mut String, c: char, capital: bool, upper: &Vec<char>) -> (next: bool)
    ensures
        next == (c == '_'),
        final(text)@ == old(text)@ + if c == '_' {
            Seq::<char>::empty()
        } else if capital {
            upper@
        } else {
            seq![c]
        },
{
    if c == '_' {
        assert(text@ =~= old(text)@ + Seq::<char>::empty());
        return true;
    }
    if capital {
        let mut i: usize = 0;
        assert(text@ =~= old(text)@ + upper@.take(0));
        while i < upper.len()
            invariant
                i <= upper@.len(),
                text@ == old(text)@ + upper@.take(i as int),
            decreases upper@.len() - i,
        {
            text.push(upper[i]);
            assert(upper@.take(i + 1) =~= upper@.take(i as int).push(upper@[i as int]));
            i += 1;
            assert(text@ =~= old(text)@ + upper@.take(i as int));
        }
        assert(upper@.take(i as int) =~= upper@);
    } else {
        text.push(c);
        assert(text@ =~= old(text)@ + seq![c]);
    }
    false
}

/// The name of the type that stands for a command.
pub fn pascal_case(name: &str) -> (text: String)
    ensures
        text@ == pascal(name@, true),
{
    let chars = characters(name);
    let mut text = String::new();
    let mut capital = true;
    let mut i: usize = 0;
    assert(chars@.skip(0) =~= chars@);
    assert(text@ + pascal(chars@, true) =~= pascal(chars@, true));
    while i < chars.len()
        invariant
            i <= chars@.len(),
            text@ + pascal(chars@.skip(i as int), capital) == pascal(chars@, true),
        decreases chars@.len() - i,
    {
        let c: char = chars[i];
        let ghost rest = chars@.skip(i as int);
        let ghost before = text@;
        assert(rest[0] == c);
        assert(rest.drop_first() =~= chars@.skip(i + 1));
        let upper = uppercase(c);
        let next = pascal_push(&mut text, c, capital, &upper);
        assert(text@ + pascal(chars@.skip(i + 1), next) =~= before + pascal(rest, capital));
        capital = next;
        i += 1;
    }
    assert(text@ + pascal(chars@.skip(i as int), capital) =~= text@);
    text
}

/// One token of the arguments of `#[actor]`.
pub enum AttributeToken {
    Ident(String),
    Equals,
    Text(String),
    Other,
}

/// Why the arguments of `#[actor]` are not accepted.
#[derive(Clone, Copy, Debug, PartialEq, Eq, Structural)]
pub enum AttributeError {
    /// There are none.
    Missing,
    /// They do not begin with a name.
    ExpectedIdentifier,
    /// They begin with another name than `name`.
    ExpectedName,
    /// No equals sign follows.
    ExpectedEquals,
    /// No text follows.
    ExpectedText,
    /// Something follows on the text.
    UnexpectedInput,
}

impl AttributeError {
    /// What the error says.
    pub open spec fn text(self) -> Seq<char> {
        match self {
            AttributeError::Missing => "#[actor] requires an explicit stable name: #[actor(name = \"...\")]"@,
            AttributeError::ExpectedIdentifier => "expected identifier"@,
            AttributeError::ExpectedName => "expected `name = \"...\"`"@,
            AttributeError::ExpectedEquals => "expected `=`"@,
            AttributeError::ExpectedText => "expected string literal"@,
            AttributeError::UnexpectedInput => "unexpected actor attribute input"@,
        }
    }

    /// The error as text.
    pub fn message(&self) -> (message: &'static str)
        ensures
            message@ == self.text(),
    {
        match self {
            AttributeError::Missing => "#[actor] requires an explicit stable name: #[actor(name = \"...\")]",
            AttributeError::ExpectedIdentifier => "expected identifier",
            AttributeError::ExpectedName => "expected `name = \"...\"`",
            AttributeError::ExpectedEquals => "expected `=`",
            AttributeError::ExpectedText => "expected string literal",
            AttributeError::UnexpectedInput => "unexpected actor attribute input",
        }
    }
}

/// What is wrong with the arguments of `#[actor]`, if anything is.
pub open spec fn attribute_fault(tokens: Seq<AttributeToken>) -> Option<AttributeError> {
    if tokens.len() == 0 {
        Some(AttributeError::Missing)
    } else if !(tokens[0] is Ident) {
        Some(AttributeError::ExpectedIdentifier)
    } else if !(tokens[0] matches AttributeToken::Ident(key) && key@ == "name"@) {
        Some(AttributeError::ExpectedName)
    } else if tokens.len() < 2 || !(tokens[1] is Equals) {
        Some(AttributeError::ExpectedEquals)
    } else if tokens.len() < 3 || !(tokens[2] is Text) {
        Some(AttributeError::ExpectedText)
    } else if tokens.len() > 3 {
        Some(AttributeError::UnexpectedInput)
    } else {
        None
    }
}

/// Reads the arguments of `#[actor]`: the stable name of the Actor Type.
pub fn parse_actor_attribute(tokens: &Vec<AttributeToken>) -> (name: Result<String, AttributeError>)
    ensures
        match name {
            Ok(name) => attribute_fault(tokens@) is None && (tokens@[2] matches AttributeToken::Text(
                text,
            ) && text@ == name@),
            Err(error) => attribute_fault(tokens@) == Some(error),
        },
{
    if tokens.len() == 0 {
        return Err(AttributeError::Missing);
    }
    match &tokens[0] {
        AttributeToken::Ident(key) => {
            if *key != "name".to_owned() {
                return Err(AttributeError::ExpectedName);
            }
        },
        _ => return Err(AttributeError::ExpectedIdentifier),
    }
    if tokens.len() < 2 {
        return Err(AttributeError::ExpectedEquals);
    }
    match &tokens[1] {
        AttributeToken::Equals => {},
        _ => return Err(AttributeError::ExpectedEquals),
    }
    if tokens.len() < 3 {
        return Err(AttributeError::ExpectedText);
    }
    match &tokens[2] {
        AttributeToken::Text(text) => {
            if tokens.len() > 3 {
                return Err(AttributeError::UnexpectedInput);
            }
            Ok(text.clone())
        },
        _ => Err(AttributeError::ExpectedText),
    }
}

/// A type ends with a name exactly if it is a path whose last segment is that name.
pub proof fn law_types_end_with_their_last_segment(ty: TypeShape, name: Seq<char>)
    ensures
        ends_with(ty, name) <==> ty.kind is Path && ty.kind->segments@.len() > 0
            && ty.kind->segments@.last().ident@ == name,
{
}

/// A command is accepted exactly if it is public, asynchronous, takes a shared reference to
/// its context after the receiver, and, if it is remote, one request after that. An error
/// names the first of these that fails.
pub proof fn law_accepted_commands(command: MethodShape, remote: bool)
    ensures
        ({
            let fault = command_fault(command, remote);
            let context = command.inputs@.len() > 1 && command.inputs@[1] is Typed && (
            command.inputs@[1]->ty.kind matches TypeKind::Reference { mutable, elem } && !mutable
                && ends_with(*elem, "CommandContext"@));
            &&& fault is None <==> command.public && command.asynchronous && context && (remote
                ==> command.inputs@.len() == 3)
            &&& fault == Some(ShapeError::CommandNotPublic) <==> !command.public
            &&& fault == Some(ShapeError::CommandNotAsync) <==> command.public
                && !command.asynchronous
            &&& fault == Some(ShapeError::CommandWithoutContext) <==> command.public
                && command.asynchronous && !context
            &&& fault == Some(ShapeError::RemoteCommandParameters) ==> remote
                && command.inputs@.len() != 3
        }),
{
}

/// A constructor is public, not asynchronous, takes an ID and a state, and returns `Self`.
pub proof fn law_constructors(method: MethodShape)
    ensures
        is_constructor(method) <==> method.public && !method.asynchronous && method.inputs@.len()
            == 2 && method.inputs@[0] is Typed && ends_with(
            method.inputs@[0]->ty,
            "ActorId"@,
        ) && method.output is Some && (method.output->0.kind matches TypeKind::Path { segments }
            && segments@.len() == 1 && segments@[0].ident@ == "Self"@ && segments@[0].arguments
            is None),
{
}

/// The App State is the one type in the `Arc` that the second parameter is; without a second
/// parameter the constructor is wrong, and with another type its state is.
pub proof fn law_the_state_is_in_an_arc(constructor: MethodShape)
    ensures
        ({
            let state = state_type(constructor);
            let typed = constructor.inputs@.len() > 1 && constructor.inputs@[1] is Typed;
            let ty = constructor.inputs@[1]->ty;
            &&& !typed ==> state == Err::<TypeShape, ShapeError>(ShapeError::Constructor)
            &&& typed && state is Err ==> state == Err::<TypeShape, ShapeError>(
                ShapeError::ConstructorState,
            )
            &&& state matches Ok(found) ==> {
                let segment = ty.kind->segments@.last();
                &&& typed && ends_with(ty, "Arc"@)
                &&& segment.arguments is Some && segment.arguments->0@.len() == 1
                &&& segment.arguments->0@[0] == ArgumentShape::Type(found)
            }
            &&& typed && ends_with(ty, "Arc"@) && ty.kind->segments@.last().arguments is Some
                && ty.kind->segments@.last().arguments->0@.len() == 1
                && ty.kind->segments@.last().arguments->0@[0] is Type ==> state is Ok
        }),
{
}

/// A method returns a result without a value exactly if its type ends with `Result` and the
/// first argument of that is the empty tuple.
pub proof fn law_results_of_unit(output: Option<TypeShape>)
    ensures
        returns_result_of_unit(output) <==> output is Some && ends_with(output->0, "Result"@)
            && output->0.kind->segments@.last().arguments is Some
            && output->0.kind->segments@.last().arguments->0@.len() > 0 && (
        output->0.kind->segments@.last().arguments->0@[0] matches ArgumentShape::Type(first)
            && first.kind == (TypeKind::Tuple { len: 0 })),
{
}

/// The types among arguments keep their order, and nothing else is kept.
pub proof fn law_argument_types_add_up(
    left: Seq<ArgumentShape>,
    right: Seq<ArgumentShape>,
    ty: TypeShape,
)
    ensures
        argument_types(left + right) == argument_types(left) + argument_types(right),
        argument_types(seq![ArgumentShape::Type(ty)]) == seq![ty],
        argument_types(seq![ArgumentShape::Other]) == Seq::<TypeShape>::empty(),
    decreases right.len(),
{
    reveal_with_fuel(argument_types, 2);
    assert(seq![ArgumentShape::Type(ty)].drop_last() =~= Seq::<ArgumentShape>::empty());
    assert(seq![ArgumentShape::Other].drop_last() =~= Seq::<ArgumentShape>::empty());
    if right.len() == 0 {
        assert(left + right =~= left);
    } else {
        law_argument_types_add_up(left, right.drop_last(), ty);
        assert((left + right).drop_last() =~= left + right.drop_last());
        assert((left + right).last() == right.last());
    }
}

/// A result of two types is read as such, the success first; any other name, or another
/// number of types, is a plain value.
pub proof fn law_results_have_two_sides(ty: TypeShape, success: TypeShape, error: TypeShape)
    ensures
        ends_with(ty, "Result"@) && ty.kind->segments@.last().arguments is Some
            && ty.kind->segments@.last().arguments->0@ == seq![
            ArgumentShape::Type(success),
            ArgumentShape::Type(error),
        ] ==> result_types(ty) == Some((success, error)),
        !ends_with(ty, "Result"@) ==> result_types(ty) is None,
        result_types(ty) is Some ==> ty.kind->segments@.last().arguments is Some && argument_types(
            ty.kind->segments@.last().arguments->0@,
        ).len() == 2,
{
    let both = seq![ArgumentShape::Type(success), ArgumentShape::Type(error)];
    law_argument_types_add_up(
        seq![ArgumentShape::Type(success)],
        seq![ArgumentShape::Type(error)],
        success,
    );
    law_argument_types_add_up(Seq::empty(), Seq::empty(), error);
    assert(both =~= seq![ArgumentShape::Type(success)] + seq![ArgumentShape::Type(error)]);
    assert(argument_types(both) =~= seq![success, error]);
}

/// An attribute is that of a command exactly if the last name of its path says so.
pub proof fn law_command_attributes(attribute: AttributeShape)
    ensures
        is_command(attribute) <==> attribute.path@.len() > 0 && attribute.path@[
            attribute.path@.len() - 1
        ]@ == "command"@,
{
}

/// Names are put together piece by piece: an underscore is dropped, and has the next piece
/// begin with a capital. A piece without underscores keeps its characters, the first of them
/// as a capital if asked for.
pub proof fn law_pascal_case(left: Seq<char>, right: Seq<char>, capital: bool)
    ensures
        pascal(left + seq!['_'] + right, capital) == pascal(left, capital) + pascal(right, true),
        !left.contains('_') && left.len() > 0 ==> pascal(left, false) == left && pascal(left, true)
            == uppercase_of(left[0]) + left.drop_first(),
        pascal(Seq::empty(), capital) == Seq::<char>::empty(),
    decreases left.len(),
{
    let whole = left + seq!['_'] + right;
    if left.len() == 0 {
        assert(whole[0] == '_');
        assert(whole.drop_first() =~= right);
        assert(pascal(whole, capital) =~= pascal(left, capital) + pascal(right, true));
    } else {
        let rest = left.drop_first();
        assert(whole[0] == left[0]);
        assert(whole.drop_first() =~= rest + seq!['_'] + right);
        law_pascal_case(rest, right, left[0] == '_');
        assert(pascal(whole, capital) =~= pascal(left, capital) + pascal(right, true));
        if !left.contains('_') {
            assert(left.contains(left[0]));
            assert(!rest.contains('_')) by {
                if rest.contains('_') {
                    let k = choose|k: int| 0 <= k < rest.len() && rest[k] == '_';
                    assert(left[k + 1] == '_');
                }
            }
            assert(left =~= seq![left[0]] + rest);
            if rest.len() == 0 {
                assert(pascal(rest, false) =~= rest);
            }
        }
    }
}

/// The arguments of an Actor are accepted exactly if they are `name = "..."`. An error says
/// how far they were.
pub proof fn law_actor_attributes(tokens: Seq<AttributeToken>)
    ensures
        attribute_fault(tokens) is None <==> tokens.len() == 3 && tokens[0] is Ident
            && tokens[0]->Ident_0@ == "name"@ && tokens[1] is Equals && tokens[2] is Text,
        tokens.len() == 0 ==> attribute_fault(tokens) == Some(AttributeError::Missing),
        tokens.len() > 0 && !(tokens[0] is Ident) ==> attribute_fault(tokens) == Some(
            AttributeError::ExpectedIdentifier,
        ),
        tokens.len() > 0 && tokens[0] is Ident && tokens[0]->Ident_0@ != "name"@
            ==> attribute_fault(tokens) == Some(AttributeError::ExpectedName),
        tokens.len() == 1 && tokens[0] is Ident && tokens[0]->Ident_0@ == "name"@
            ==> attribute_fault(tokens) == Some(AttributeError::ExpectedEquals),
        tokens.len() == 2 && tokens[0] is Ident && tokens[0]->Ident_0@ == "name"@ && tokens[1]
            is Equals ==> attribute_fault(tokens) == Some(AttributeError::ExpectedText),
        attribute_fault(tokens) == Some(AttributeError::UnexpectedInput) ==> tokens.len() > 3
            && tokens[2] is Text,
        tokens.len() > 3 ==> attribute_fault(tokens) is Some,
{
}

} // verus!
