//! Tool schemas, the arguments of an invocation, and the check of one
//! against the other.

use vstd::prelude::*;

verus! {

/// The type that a field of a tool's input takes.
#[derive(Clone, Copy, Debug, PartialEq, Eq, Structural)]
pub enum FieldType {
    Text,
    Integer,
    Boolean,
}

/// How a type is called where a schema is advertised.
pub open spec fn kind_name(kind: FieldType) -> Seq<char> {
    match kind {
        FieldType::Text => "string"@,
        FieldType::Integer => "integer"@,
        FieldType::Boolean => "boolean"@,
    }
}

impl FieldType {
    /// How this type is called where a schema is advertised.
    pub fn name(&self) -> (name: &'static str)
        ensures
            name@ == kind_name(*self),
    {
        match self {
            FieldType::Text => "string",
            FieldType::Integer => "integer",
            FieldType::Boolean => "boolean",
        }
    }
}

/// One field of a tool's input shape.
#[derive(Debug, PartialEq, Eq)]
pub struct FieldSpec {
    pub name: String,
    pub kind: FieldType,
    pub required: bool,
    pub description: String,
}

/// The mathematical model of a [`FieldSpec`].
pub struct FieldSpecView {
    pub name: Seq<char>,
    pub kind: FieldType,
    pub required: bool,
    pub description: Seq<char>,
}

impl View for FieldSpec {
    type V = FieldSpecView;

    open spec fn view(&self) -> FieldSpecView {
        FieldSpecView {
            name: self.name@,
            kind: self.kind,
            required: self.required,
            description: self.description@,
        }
    }
}

impl Clone for FieldSpec {
    fn clone(&self) -> (r: Self)
        ensures
            r@ == self@,
    {
        FieldSpec {
            name: self.name.clone(),
            kind: self.kind,
            required: self.required,
            description: self.description.clone(),
        }
    }
}

/// What a tool is called, what it is for, and the fields of its input.
#[derive(Debug, PartialEq, Eq)]
pub struct ToolSchema {
    pub name: String,
    pub description: String,
    pub fields: Vec<FieldSpec>,
}

/// The mathematical model of a [`ToolSchema`].
pub struct ToolSchemaView {
    pub name: Seq<char>,
    pub description: Seq<char>,
    pub fields: Seq<FieldSpecView>,
}

/// The models of a sequence of fields, in order.
pub open spec fn fields_view(fields: Seq<FieldSpec>) -> Seq<FieldSpecView> {
    fields.map_values(|field: FieldSpec| field@)
}

impl View for ToolSchema {
    type V = ToolSchemaView;

    open spec fn view(&self) -> ToolSchemaView {
        ToolSchemaView {
            name: self.name@,
            description: self.description@,
            fields: fields_view(self.fields@),
        }
    }
}

impl Clone for ToolSchema {
    fn clone(&self) -> (r: Self)
        ensures
            r@ == self@,
    {
        let mut fields: Vec<FieldSpec> = Vec::new();
        let mut i: usize = 0;
        while i < self.fields.len()
            invariant
                i <= self.fields.len(),
                fields@.len() == i,
                forall|k: int| 0 <= k < i ==> (#[trigger] fields@[k])@ == self.fields@[k]@,
            decreases self.fields.len() - i,
        {
            fields.push(self.fields[i].clone());
            i = i + 1;
        }
        assert(fields_view(fields@) =~= fields_view(self.fields@));
        ToolSchema {
            name: self.name.clone(),
            description: self.description.clone(),
            fields,
        }
    }
}

/// A value given for one field of an invocation.
#[derive(Debug, PartialEq, Eq)]
pub enum Value {
    Null,
    Boolean(bool),
    Integer(i64),
    Text(String),
    /// Any value that is none of the above, such as a list or a nested mapping.
    Other,
}

/// The mathematical model of a [`Value`].
pub enum ValueView {
    Null,
    Boolean(bool),
    Integer(int),
    Text(Seq<char>),
    Other,
}

impl View for Value {
    type V = ValueView;

    open spec fn view(&self) -> ValueView {
        match self {
            Value::Null => ValueView::Null,
            Value::Boolean(b) => ValueView::Boolean(*b),
            Value::Integer(n) => ValueView::Integer(*n as int),
            Value::Text(text) => ValueView::Text(text@),
            Value::Other => ValueView::Other,
        }
    }
}

/// One argument of an invocation: a field's name and the value given for it.
#[derive(Debug, PartialEq, Eq)]
pub struct Argument {
    pub name: String,
    pub value: Value,
}

/// The mathematical model of an [`Argument`].
pub struct ArgumentView {
    pub name: Seq<char>,
    pub value: ValueView,
}

impl View for Argument {
    type V = ArgumentView;

    open spec fn view(&self) -> ArgumentView {
        ArgumentView { name: self.name@, value: self.value@ }
    }
}

/// The models of a sequence of arguments, in order.
pub open spec fn arguments_view(arguments: Seq<Argument>) -> Seq<ArgumentView> {
    arguments.map_values(|argument: Argument| argument@)
}

/// Why an argument, or its absence, does not fit a schema.
#[derive(Clone, Copy, Debug, PartialEq, Eq, Structural)]
pub enum Fault {
    /// A required field has no argument.
    Missing,
    /// The value given is not of the field's type.
    WrongType,
    /// The schema has no field of this name.
    Unknown,
    /// The text given is empty where it must not be.
    Empty,
}

/// The arguments of an invocation do not fit: the field at fault, and why.
#[derive(Debug, PartialEq, Eq)]
pub struct InvalidArguments {
    pub field: String,
    pub reason: Fault,
}

/// The mathematical model of an [`InvalidArguments`].
pub struct InvalidArgumentsView {
    pub field: Seq<char>,
    pub reason: Fault,
}

impl View for InvalidArguments {
    type V = InvalidArgumentsView;

    open spec fn view(&self) -> InvalidArgumentsView {
        InvalidArgumentsView { field: self.field@, reason: self.reason }
    }
}

/// The value that `arguments` give for the field `name`: that of the first
/// argument of this name, if there is one.
pub open spec fn value_of(arguments: Seq<ArgumentView>, name: Seq<char>) -> Option<ValueView>
    decreases arguments.len(),
{
    if arguments.len() == 0 {
        None
    } else if arguments[0].name == name {
        Some(arguments[0].value)
    } else {
        value_of(arguments.skip(1), name)
    }
}

/// Whether `value` is of the type `kind`.
pub open spec fn fits(kind: FieldType, value: ValueView) -> bool {
    match kind {
        FieldType::Text => value is Text,
        FieldType::Integer => value is Integer,
        FieldType::Boolean => value is Boolean,
    }
}

/// What is wrong with `arguments` as far as `field` goes: a required field
/// must have a value, and a value that is given must be of the field's type.
pub open spec fn field_fault(field: FieldSpecView, arguments: Seq<ArgumentView>) -> Option<Fault> {
    match value_of(arguments, field.name) {
        None => if field.required {
            Some(Fault::Missing)
        } else {
            None
        },
        Some(value) => if fits(field.kind, value) {
            None
        } else {
            Some(Fault::WrongType)
        },
    }
}

/// The first of `fields`, in order, that `arguments` do not satisfy.
pub open spec fn first_field_fault(
    fields: Seq<FieldSpecView>,
    arguments: Seq<ArgumentView>,
) -> Option<InvalidArgumentsView>
    decreases fields.len(),
{
    if fields.len() == 0 {
        None
    } else {
        match field_fault(fields[0], arguments) {
            Some(reason) => Some(InvalidArgumentsView { field: fields[0].name, reason }),
            None => first_field_fault(fields.skip(1), arguments),
        }
    }
}

/// Whether one of `fields` is called `name`.
pub open spec fn has_field(fields: Seq<FieldSpecView>, name: Seq<char>) -> bool {
    exists|i: int| 0 <= i < fields.len() && #[trigger] fields[i].name == name
}

/// The first of `arguments`, in order, that names none of `fields`.
pub open spec fn first_unknown(
    fields: Seq<FieldSpecView>,
    arguments: Seq<ArgumentView>,
) -> Option<InvalidArgumentsView>
    decreases arguments.len(),
{
    if arguments.len() == 0 {
        None
    } else if !has_field(fields, arguments[0].name) {
        Some(InvalidArgumentsView { field: arguments[0].name, reason: Fault::Unknown })
    } else {
        first_unknown(fields, arguments.skip(1))
    }
}

/// What is wrong with `arguments` for a tool of this `schema`, if anything:
/// the first field that is not satisfied or, where every field is, the first
/// argument that the schema does not know.
pub open spec fn first_fault(
    schema: ToolSchemaView,
    arguments: Seq<ArgumentView>,
) -> Option<InvalidArgumentsView> {
    match first_field_fault(schema.fields, arguments) {
        Some(fault) => Some(fault),
        None => first_unknown(schema.fields, arguments),
    }
}

/// Whether `arguments` fit `schema`: every required field has a value, every
/// value given for a field is of its type, and every argument names a field.
pub open spec fn conforms(schema: ToolSchemaView, arguments: Seq<ArgumentView>) -> bool {
    &&& forall|i: int|
        0 <= i < schema.fields.len() ==> (#[trigger] field_fault(schema.fields[i], arguments))
            is None
    &&& forall|j: int|
        0 <= j < arguments.len() ==> has_field(schema.fields, #[trigger] arguments[j].name)
}

/// The value that `arguments` give for the field `name`.
pub fn find_value<'a>(arguments: &'a Vec<Argument>, name: &String) -> (r: Option<&'a Value>)
    ensures
        match r {
            Some(value) => value_of(arguments_view(arguments@), name@) == Some(value@),
            None => value_of(arguments_view(arguments@), name@) is None,
        },
{
    let ghost all = arguments_view(arguments@);
    assert(all.skip(0) =~= all);
    let mut i: usize = 0;
    while i < arguments.len()
        invariant
            i <= arguments.len(),
            all == arguments_view(arguments@),
            value_of(all, name@) == value_of(all.skip(i as int), name@),
        decreases arguments.len() - i,
    {
        let argument = &arguments[i];
        assert(all.skip(i as int)[0] == argument@);
        if argument.name == *name {
            return Some(&argument.value);
        }
        assert(all.skip(i as int).skip(1) =~= all.skip(i as int + 1));
        i = i + 1;
    }
    None
}

/// Whether `value` is of the type `kind`.
pub fn value_fits(kind: FieldType, value: &Value) -> (b: bool)
    ensures
        b == fits(kind, value@),
{
    match kind {
        FieldType::Text => match value {
            Value::Text(_) => true,
            _ => false,
        },
        FieldType::Integer => match value {
            Value::Integer(_) => true,
            _ => false,
        },
        FieldType::Boolean => match value {
            Value::Boolean(_) => true,
            _ => false,
        },
    }
}

impl ToolSchema {
    /// Whether this schema has a field called `name`.
    pub fn knows_field(&self, name: &String) -> (b: bool)
        ensures
            b == has_field(self@.fields, name@),
    {
        let mut i: usize = 0;
        while i < self.fields.len()
            invariant
                i <= self.fields.len(),
                forall|k: int| 0 <= k < i ==> (#[trigger] self@.fields[k]).name != name@,
            decreases self.fields.len() - i,
        {
            if self.fields[i].name == *name {
                assert(self@.fields[i as int].name == name@);
                return true;
            }
            i = i + 1;
        }
        false
    }

    /// Checks `arguments` against this schema. The fields are gone through in
    /// order, then the arguments; the first fault found is the one reported.
    pub fn validate(&self, arguments: &Vec<Argument>) -> (r: Result<(), InvalidArguments>)
        ensures
            match r {
                Ok(_) => first_fault(self@, arguments_view(arguments@)) is None,
                Err(fault) => first_fault(self@, arguments_view(arguments@)) == Some(fault@),
            },
    {
        let ghost fields = self@.fields;
        let ghost given = arguments_view(arguments@);
        assert(fields.skip(0) =~= fields);
        assert(given.skip(0) =~= given);
        let mut i: usize = 0;
        while i < self.fields.len()
            invariant
                i <= self.fields.len(),
                fields == self@.fields,
                given == arguments_view(arguments@),
                first_field_fault(fields, given) == first_field_fault(fields.skip(i as int), given),
            decreases self.fields.len() - i,
        {
            let field = &self.fields[i];
            assert(fields.skip(i as int)[0] == field@);
            assert(fields.skip(i as int).skip(1) =~= fields.skip(i as int + 1));
            match find_value(arguments, &field.name) {
                None => {
                    if field.required {
                        return Err(
                            InvalidArguments { field: field.name.clone(), reason: Fault::Missing },
                        );
                    }
                },
                Some(value) => {
                    if !value_fits(field.kind, value) {
                        return Err(
                            InvalidArguments {
                                field: field.name.clone(),
                                reason: Fault::WrongType,
                            },
                        );
                    }
                },
            }
            i = i + 1;
        }
        let mut j: usize = 0;
        while j < arguments.len()
            invariant
                j <= arguments.len(),
                fields == self@.fields,
                given == arguments_view(arguments@),
                first_field_fault(fields, given) is None,
                first_unknown(fields, given) == first_unknown(fields, given.skip(j as int)),
            decreases arguments.len() - j,
        {
            let argument = &arguments[j];
            assert(given.skip(j as int)[0] == argument@);
            assert(given.skip(j as int).skip(1) =~= given.skip(j as int + 1));
            if !self.knows_field(&argument.name) {
                return Err(
                    InvalidArguments { field: argument.name.clone(), reason: Fault::Unknown },
                );
            }
            j = j + 1;
        }
        Ok(())
    }
}

/// No field is at fault exactly where `first_field_fault` finds none.
pub proof fn lemma_no_field_fault(fields: Seq<FieldSpecView>, arguments: Seq<ArgumentView>)
    ensures
        first_field_fault(fields, arguments) is None <==> forall|i: int|
            0 <= i < fields.len() ==> (#[trigger] field_fault(fields[i], arguments)) is None,
    decreases fields.len(),
{
    if fields.len() > 0 {
        let rest = fields.skip(1);
        lemma_no_field_fault(rest, arguments);
        assert(forall|i: int| 0 <= i < rest.len() ==> rest[i] == fields[i + 1]);
        if first_field_fault(fields, arguments) is None {
            assert forall|i: int| 0 <= i < fields.len() implies (#[trigger] field_fault(
                fields[i],
                arguments,
            )) is None by {
                if i > 0 {
                    assert(rest[i - 1] == fields[i]);
                }
            }
        }
    }
}

/// Every argument names a field exactly where `first_unknown` finds none.
pub proof fn lemma_no_unknown(fields: Seq<FieldSpecView>, arguments: Seq<ArgumentView>)
    ensures
        first_unknown(fields, arguments) is None <==> forall|j: int|
            0 <= j < arguments.len() ==> has_field(fields, #[trigger] arguments[j].name),
    decreases arguments.len(),
{
    if arguments.len() > 0 {
        let rest = arguments.skip(1);
        lemma_no_unknown(fields, rest);
        assert(forall|j: int| 0 <= j < rest.len() ==> rest[j] == arguments[j + 1]);
        if first_unknown(fields, arguments) is None {
            assert forall|j: int| 0 <= j < arguments.len() implies has_field(
                fields,
                #[trigger] arguments[j].name,
            ) by {
                if j > 0 {
                    assert(rest[j - 1] == arguments[j]);
                }
            }
        }
    }
}

/// Validation finds no fault exactly in the arguments that fit the schema:
/// every required field has a value, every value given for a field is of its
/// type, and every argument names a field.
pub proof fn lemma_valid_iff_conforms(schema: ToolSchemaView, arguments: Seq<ArgumentView>)
    ensures
        first_fault(schema, arguments) is None <==> conforms(schema, arguments),
{
    lemma_no_field_fault(schema.fields, arguments);
    lemma_no_unknown(schema.fields, arguments);
}

/// A fault that validation reports is a fault: its field is a field of the
/// schema that the arguments do not satisfy, or it is the name of an
/// argument that the schema does not know.
pub proof fn lemma_fault_is_real(schema: ToolSchemaView, arguments: Seq<ArgumentView>)
    ensures
        first_fault(schema, arguments) matches Some(fault) ==> {
            ||| exists|i: int|
                0 <= i < schema.fields.len() && (#[trigger] schema.fields[i]).name == fault.field
                    && field_fault(schema.fields[i], arguments) == Some(fault.reason)
            ||| fault.reason == Fault::Unknown && !has_field(schema.fields, fault.field)
                && exists|j: int|
                0 <= j < arguments.len() && (#[trigger] arguments[j]).name == fault.field
        },
{
    lemma_field_fault_is_real(schema.fields, arguments);
    lemma_unknown_is_real(schema.fields, arguments);
}

proof fn lemma_field_fault_is_real(fields: Seq<FieldSpecView>, arguments: Seq<ArgumentView>)
    ensures
        first_field_fault(fields, arguments) matches Some(fault) ==> exists|i: int|
            0 <= i < fields.len() && (#[trigger] fields[i]).name == fault.field && field_fault(
                fields[i],
                arguments,
            ) == Some(fault.reason),
    decreases fields.len(),
{
    if fields.len() > 0 {
        if field_fault(fields[0], arguments) is None {
            let rest = fields.skip(1);
            lemma_field_fault_is_real(rest, arguments);
            if first_field_fault(rest, arguments) is Some {
                let fault = first_field_fault(rest, arguments)->Some_0;
                let i = choose|i: int|
                    0 <= i < rest.len() && (#[trigger] rest[i]).name == fault.field && field_fault(
                        rest[i],
                        arguments,
                    ) == Some(fault.reason);
                assert(fields[i + 1] == rest[i]);
            }
        } else {
            assert(fields[0].name == first_field_fault(fields, arguments)->Some_0.field);
        }
    }
}

proof fn lemma_unknown_is_real(fields: Seq<FieldSpecView>, arguments: Seq<ArgumentView>)
    ensures
        first_unknown(fields, arguments) matches Some(fault) ==> fault.reason == Fault::Unknown
            && !has_field(fields, fault.field) && exists|j: int|
            0 <= j < arguments.len() && (#[trigger] arguments[j]).name == fault.field,
    decreases arguments.len(),
{
    if arguments.len() > 0 {
        if has_field(fields, arguments[0].name) {
            let rest = arguments.skip(1);
            lemma_unknown_is_real(fields, rest);
            if first_unknown(fields, rest) is Some {
                let fault = first_unknown(fields, rest)->Some_0;
                let j = choose|j: int|
                    0 <= j < rest.len() && (#[trigger] rest[j]).name == fault.field;
                assert(arguments[j + 1] == rest[j]);
            }
        } else {
            assert(arguments[0].name == first_unknown(fields, arguments)->Some_0.field);
        }
    }
}

} // verus!
