use vstd::prelude::*;

verus! {

/// The type of a value that travels along a link.
#[derive(Clone, Copy, Debug, PartialEq, Eq, Structural)]
pub enum ValueKind {
    Flag,
    Byte,
    Word,
    /// A type that the host application defines, told apart by its number.
    Tagged(u32),
}

/// A value that travels along a link, together with its type.
#[derive(Clone, Copy, Debug, PartialEq, Eq, Structural)]
pub enum Value {
    Flag(bool),
    Byte(u8),
    Word(u64),
    /// Sixty-four bits of a host-defined type.
    Tagged(u32, u64),
}

/// What a connector carries to decide whether it may be linked to another.
///
/// A connector with an exchange carries the kind of the value it exchanges.
/// A connector without one carries a sentinel; the sentinels of the two
/// directions differ, so no input without an exchange ever equals an output
/// without one.
#[derive(Clone, Copy, Debug, PartialEq, Eq, Structural)]
pub enum TypeToken {
    EmptyInput,
    EmptyOutput,
    Of(ValueKind),
}

impl Value {
    pub open spec fn spec_kind(&self) -> ValueKind {
        match *self {
            Value::Flag(_) => ValueKind::Flag,
            Value::Byte(_) => ValueKind::Byte,
            Value::Word(_) => ValueKind::Word,
            Value::Tagged(tag, _) => ValueKind::Tagged(tag),
        }
    }

    pub open spec fn spec_type_token(&self) -> TypeToken {
        TypeToken::Of(self.spec_kind())
    }

    /// The kind of this value.
    #[verifier::when_used_as_spec(spec_kind)]
    pub fn kind(&self) -> (r: ValueKind)
        ensures
            r == self.spec_kind(),
    {
        match *self {
            Value::Flag(_) => ValueKind::Flag,
            Value::Byte(_) => ValueKind::Byte,
            Value::Word(_) => ValueKind::Word,
            Value::Tagged(tag, _) => ValueKind::Tagged(tag),
        }
    }

    /// The token of a connector that exchanges values of this value's kind.
    #[verifier::when_used_as_spec(spec_type_token)]
    pub fn type_token(&self) -> (r: TypeToken)
        ensures
            r == self.spec_type_token(),
    {
        TypeToken::Of(self.kind())
    }

    /// The byte inside a value of kind `Byte`.
    pub fn as_byte(&self) -> (r: u8)
        requires
            self.spec_kind() == ValueKind::Byte,
        ensures
            *self == Value::Byte(r),
    {
        match *self {
            Value::Byte(b) => b,
            _ => 0,
        }
    }
}

impl TypeToken {
    /// Whether this token belongs to a connector with an exchange.
    pub open spec fn spec_has_exchange(&self) -> bool {
        *self is Of
    }

    #[verifier::when_used_as_spec(spec_has_exchange)]
    pub fn has_exchange(&self) -> (r: bool)
        ensures
            r == self.spec_has_exchange(),
    {
        match *self {
            TypeToken::Of(_) => true,
            _ => false,
        }
    }
}

} // verus!
