use vstd::prelude::*;

verus! {

/// Spec-level image of an [`Error`]: the variant, with the message carried
/// by `Generic` as a sequence of characters.
pub enum ErrorSpec {
    Generic(Seq<char>),
    DiscoveryNotPossible,
    AdapterNotAvailable,
}

/// The closed taxonomy of failures that crosses the boundary to the
/// observer. Native stack errors are classified into these variants before
/// any notification is delivered, so the observer never sees a
/// stack-specific error type.
#[derive(Debug)]
pub enum Error {
    /// An uncategorized native-stack failure, carrying a message.
    Generic(String),
    /// A discovery request was made while the stack reports one already
    /// active.
    DiscoveryNotPossible,
    /// An operation that needs hardware was attempted while no adapter was
    /// bound.
    AdapterNotAvailable,
}

impl View for Error {
    type V = ErrorSpec;

    open spec fn view(&self) -> ErrorSpec {
        match self {
            Error::Generic(msg) => ErrorSpec::Generic(msg@),
            Error::DiscoveryNotPossible => ErrorSpec::DiscoveryNotPossible,
            Error::AdapterNotAvailable => ErrorSpec::AdapterNotAvailable,
        }
    }
}

/// What the engine reads of a native Bluetooth stack error: whether the
/// stack reported that a discovery operation is already active. Every other
/// failure is left uncategorized.
#[derive(Clone, Copy, Debug, PartialEq, Eq, Structural)]
pub enum StackErrorKind {
    DiscoveryActive,
    Other,
}

/// The classification an [`Error`] produced from a native stack error must
/// have: an already-active discovery maps to `DiscoveryNotPossible`, and any
/// unmapped code collapses to `Generic` with a fixed message.
pub open spec fn map_stack_error_spec(kind: StackErrorKind) -> ErrorSpec {
    match kind {
        StackErrorKind::DiscoveryActive => ErrorSpec::DiscoveryNotPossible,
        StackErrorKind::Other => ErrorSpec::Generic("An error occured"@),
    }
}

impl Error {
    /// Classifies a native stack error into the closed taxonomy.
    pub fn from_stack(kind: StackErrorKind) -> (r: Error)
        ensures
            r@ == map_stack_error_spec(kind),
    {
        match kind {
            StackErrorKind::DiscoveryActive => Error::DiscoveryNotPossible,
            StackErrorKind::Other => Error::Generic(String::from_str("An error occured")),
        }
    }

    /// The variant's name, as the boundary spells it when it selects the
    /// observer-side error class.
    pub fn kind_name(&self) -> (r: &'static str)
        ensures
            r@ == self.kind_name_spec(),
    {
        match self {
            Error::Generic(_) => "Generic",
            Error::DiscoveryNotPossible => "DiscoveryNotPossible",
            Error::AdapterNotAvailable => "AdapterNotAvailable",
        }
    }

    /// The name [`Error::kind_name`] returns for each variant.
    pub open spec fn kind_name_spec(&self) -> Seq<char> {
        match self {
            Error::Generic(_) => "Generic"@,
            Error::DiscoveryNotPossible => "DiscoveryNotPossible"@,
            Error::AdapterNotAvailable => "AdapterNotAvailable"@,
        }
    }

    /// The message delivered across the boundary: present exactly for
    /// `Generic`.
    pub fn message(&self) -> (r: Option<&str>)
        ensures
            match self@ {
                ErrorSpec::Generic(m) => r matches Some(s) && s@ == m,
                _ => r is None,
            },
    {
        match self {
            Error::Generic(msg) => Some(msg.as_str()),
            Error::DiscoveryNotPossible => None,
            Error::AdapterNotAvailable => None,
        }
    }
}

} // verus!
