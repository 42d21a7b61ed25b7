use vstd::prelude::*;
use vstd::string::*;

verus! {

/// The JSON types, as they are named when a document and a schema disagree.
#[derive(Clone, Copy, Debug, PartialEq, Eq, Structural)]
pub enum MessyJsonKind {
    Array,
    Bool,
    Number,
    Object,
    String,
    Uuid,
    Null,
    /// A number that does not fit in 64 bits.
    WideNumber,
}

/// Why a document was refused, as a mathematical value.
pub enum MessyJsonFault {
    InvalidType { unexpected: MessyJsonKind, expected: MessyJsonKind },
    UnknownKey { key: Seq<char>, expected: Seq<Seq<char>> },
    MissingKey { key: Seq<char> },
    NullOnMandatory { key: Seq<char> },
    Uuid { message: Seq<char> },
    Source { message: Seq<char> },
}

/// Why a document was refused.
#[derive(Clone, Debug, PartialEq, Eq)]
pub enum MessyJsonError {
    /// The document holds a JSON type other than the one the schema asks for.
    InvalidType { unexpected: MessyJsonKind, expected: MessyJsonKind },
    /// An object of the document has a key that its schema does not have.
    UnknownKey { key: String, expected: Vec<String> },
    /// An object of the document lacks a mandatory property.
    MissingKey { key: String },
    /// Under relaxed settings that preserve mandatory fields, a mandatory property was
    /// set to `null`.
    NullOnMandatory { key: String },
    /// A string is no UUID.
    Uuid { message: String },
    /// The text is no JSON.
    Source { message: String },
}

/// The strings of a list, each by its characters.
pub open spec fn texts(v: Seq<String>) -> Seq<Seq<char>> {
    Seq::new(v.len(), |i: int| v[i]@)
}

impl View for MessyJsonError {
    type V = MessyJsonFault;

    open spec fn view(&self) -> MessyJsonFault {
        match *self {
            MessyJsonError::InvalidType { unexpected, expected } => MessyJsonFault::InvalidType {
                unexpected,
                expected,
            },
            MessyJsonError::UnknownKey { key, expected } => MessyJsonFault::UnknownKey {
                key: key@,
                expected: texts(expected@),
            },
            MessyJsonError::MissingKey { key } => MessyJsonFault::MissingKey { key: key@ },
            MessyJsonError::NullOnMandatory { key } => MessyJsonFault::NullOnMandatory {
                key: key@,
            },
            MessyJsonError::Uuid { message } => MessyJsonFault::Uuid { message: message@ },
            MessyJsonError::Source { message } => MessyJsonFault::Source { message: message@ },
        }
    }
}

impl MessyJsonKind {
    /// The name of the JSON type.
    pub open spec fn name(self) -> Seq<char> {
        match self {
            MessyJsonKind::Array => "array"@,
            MessyJsonKind::Bool => "boolean"@,
            MessyJsonKind::Number => "number"@,
            MessyJsonKind::Object => "object"@,
            MessyJsonKind::String => "string"@,
            MessyJsonKind::Uuid => "UUID string"@,
            MessyJsonKind::Null => "null"@,
            MessyJsonKind::WideNumber => "number beyond 64 bits"@,
        }
    }

    /// The name of the JSON type.
    pub fn describe(&self) -> (r: &'static str)
        ensures
            r@ == self.name(),
    {
        match self {
            MessyJsonKind::Array => "array",
            MessyJsonKind::Bool => "boolean",
            MessyJsonKind::Number => "number",
            MessyJsonKind::Object => "object",
            MessyJsonKind::String => "string",
            MessyJsonKind::Uuid => "UUID string",
            MessyJsonKind::Null => "null",
            MessyJsonKind::WideNumber => "number beyond 64 bits",
        }
    }
}

/// The keys of a list, joined by a comma and a space.
pub open spec fn joined(keys: Seq<Seq<char>>) -> Seq<char>
    decreases keys.len(),
{
    if keys.len() == 0 {
        Seq::empty()
    } else if keys.len() == 1 {
        keys[0]
    } else {
        joined(keys.drop_last()) + ", "@ + keys.last()
    }
}

impl MessyJsonFault {
    /// The message that tells a reader what was wrong.
    pub open spec fn text(self) -> Seq<char> {
        match self {
            MessyJsonFault::InvalidType { unexpected, expected } => "invalid type: "@
                + unexpected.name() + ", expected "@ + expected.name(),
            MessyJsonFault::UnknownKey { key, expected } => "The key `"@ + key
                + "` is unknown. The expected keys were `[ "@ + joined(expected) + " ]`"@,
            MessyJsonFault::MissingKey { key } => "Missing key `"@ + key + "`"@,
            MessyJsonFault::NullOnMandatory { key } => "The mandatory key `"@ + key
                + "` is set to null"@,
            MessyJsonFault::Uuid { message } => "Failed to deserialize UUID: "@ + message,
            MessyJsonFault::Source { message } => message,
        }
    }
}

/// Joins keys by a comma and a space.
pub fn join_names(keys: &Vec<String>) -> (r: String)
    ensures
        r@ == joined(texts(keys@)),
{
    let mut out = String::new();
    let mut i: usize = 0;
    while i < keys.len()
        invariant
            i <= keys.len(),
            out@ == joined(texts(keys@).take(i as int)),
        decreases keys.len() - i,
    {
        proof {
            let next = texts(keys@).take(i as int + 1);
            assert(next.drop_last() == texts(keys@).take(i as int));
            assert(next.last() == keys@[i as int]@);
            if i == 0 {
                assert(out@ + keys@[i as int]@ == keys@[i as int]@);
            }
        }
        if i > 0 {
            out.append(", ");
        }
        out.append(keys[i].as_str());
        i += 1;
    }
    proof {
        assert(texts(keys@).take(i as int) == texts(keys@));
    }
    out
}

impl MessyJsonError {
    /// The message that tells a reader what was wrong.
    pub fn message(&self) -> (r: String)
        ensures
            r@ == self@.text(),
    {
        match self {
            MessyJsonError::InvalidType { unexpected, expected } => {
                let mut out = String::from_str("invalid type: ");
                out.append(unexpected.describe());
                out.append(", expected ");
                out.append(expected.describe());
                out
            },
            MessyJsonError::UnknownKey { key, expected } => {
                let mut out = String::from_str("The key `");
                out.append(key.as_str());
                out.append("` is unknown. The expected keys were `[ ");
                let list = join_names(expected);
                out.append(list.as_str());
                out.append(" ]`");
                out
            },
            MessyJsonError::MissingKey { key } => {
                let mut out = String::from_str("Missing key `");
                out.append(key.as_str());
                out.append("`");
                out
            },
            MessyJsonError::NullOnMandatory { key } => {
                let mut out = String::from_str("The mandatory key `");
                out.append(key.as_str());
                out.append("` is set to null");
                out
            },
            MessyJsonError::Uuid { message } => {
                let mut out = String::from_str("Failed to deserialize UUID: ");
                out.append(message.as_str());
                out
            },
            MessyJsonError::Source { message } => message.clone(),
        }
    }
}

} // verus!
