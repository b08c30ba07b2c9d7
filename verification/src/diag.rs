//! Structured diagnostics and errors.
//!
//! Warnings accumulate during an expansion; hard errors abort the one
//! derivation that raised them.  Reconstruction-time failures (a skipped
//! variant, a value that does not fit its declared type) use the same type.

use vstd::prelude::*;

verus! {

/// A diagnostic or error raised during expansion or reconstruction.
#[derive(Debug)]
pub enum Diag {
    /// A non-type generic argument was dropped during classification.
    DroppedGenericArg,
    /// A recognized wrapper name appeared with the wrong number of type
    /// arguments; classification degraded to the opaque fallback.
    WrongArity { name: String, count: usize },
    /// Reconstructing a cell-like wrapper copies its contents.
    CellAliasing { name: String },
    /// Reconstructing a shared-pointer wrapper copies its contents.
    SharedAliasing { name: String },
    /// Unions have no reconstruction.
    UnionUnsupported,
    /// A named field carried no identifier.
    MissingFieldName,
    /// `path_prefix` was given more than once.
    DuplicatePathPrefix,
    /// An attribute key outside the recognized set.
    UnknownAttr { key: String },
    /// A recognized attribute key was given more than once.
    DuplicateAttr { key: String },
    /// An attribute's value was missing or unreadable.
    MalformedAttr { key: String },
    /// Reconstruction was invoked on a variant marked `skip`.
    SkippedVariant { ty: String, variant: String },
    /// Reconstruction was invoked on a variant with a custom arm, whose
    /// behaviour is user code.
    CustomArmOpaque { ty: String, variant: String },
    /// A value does not match the declared type shape it was paired with.
    ShapeMismatch,
}

/// Mathematical model of `Diag`.
pub enum DiagM {
    DroppedGenericArg,
    WrongArity { name: Seq<char>, count: nat },
    CellAliasing { name: Seq<char> },
    SharedAliasing { name: Seq<char> },
    UnionUnsupported,
    MissingFieldName,
    DuplicatePathPrefix,
    UnknownAttr { key: Seq<char> },
    DuplicateAttr { key: Seq<char> },
    MalformedAttr { key: Seq<char> },
    SkippedVariant { ty: Seq<char>, variant: Seq<char> },
    CustomArmOpaque { ty: Seq<char>, variant: Seq<char> },
    ShapeMismatch,
}

impl View for Diag {
    type V = DiagM;

    open spec fn view(&self) -> DiagM {
        match self {
            Diag::DroppedGenericArg => DiagM::DroppedGenericArg,
            Diag::WrongArity { name, count } => DiagM::WrongArity {
                name: name@,
                count: *count as nat,
            },
            Diag::CellAliasing { name } => DiagM::CellAliasing { name: name@ },
            Diag::SharedAliasing { name } => DiagM::SharedAliasing { name: name@ },
            Diag::UnionUnsupported => DiagM::UnionUnsupported,
            Diag::MissingFieldName => DiagM::MissingFieldName,
            Diag::DuplicatePathPrefix => DiagM::DuplicatePathPrefix,
            Diag::UnknownAttr { key } => DiagM::UnknownAttr { key: key@ },
            Diag::DuplicateAttr { key } => DiagM::DuplicateAttr { key: key@ },
            Diag::MalformedAttr { key } => DiagM::MalformedAttr { key: key@ },
            Diag::SkippedVariant { ty, variant } => DiagM::SkippedVariant {
                ty: ty@,
                variant: variant@,
            },
            Diag::CustomArmOpaque { ty, variant } => DiagM::CustomArmOpaque {
                ty: ty@,
                variant: variant@,
            },
            Diag::ShapeMismatch => DiagM::ShapeMismatch,
        }
    }
}

impl DeepView for Diag {
    type V = DiagM;

    open spec fn deep_view(&self) -> DiagM {
        self.view()
    }
}

/// The message text of a diagnostic.
pub open spec fn diag_text_spec(d: DiagM) -> Seq<char> {
    match d {
        DiagM::DroppedGenericArg => "Couldn't parse generic type argument"@,
        DiagM::WrongArity { name, count } => "Invalid number of type arguments for: "@ + name,
        DiagM::CellAliasing { name } => "WARNING: Tokenising a Cell-like type ("@ + name
            + ") will effectively clone its value. This may not be the intended behaviour!"@,
        DiagM::SharedAliasing { name } => "WARNING: Arc-like type ("@ + name
            + ") will be handled by cloning its inner value. This may not be the intended behaviour!"@,
        DiagM::UnionUnsupported => "unions are not supported"@,
        DiagM::MissingFieldName => "Named fields must have an identifier"@,
        DiagM::DuplicatePathPrefix => "duplicate path_prefix attribute"@,
        DiagM::UnknownAttr { key } => "unknown attribute: "@ + key,
        DiagM::DuplicateAttr { key } => "duplicate attribute: "@ + key,
        DiagM::MalformedAttr { key } => "malformed attribute: "@ + key,
        DiagM::SkippedVariant { ty, variant } => "Attempted to call ctor_tokens() on skipped enum variant "@
            + ty + "::"@ + variant,
        DiagM::CustomArmOpaque { ty, variant } => "variant "@ + ty + "::"@ + variant
            + " has a custom arm; its reconstruction is user code"@,
        DiagM::ShapeMismatch => "value does not match the declared type shape"@,
    }
}

impl Diag {
    /// The message text of this diagnostic.
    pub fn text(&self) -> (r: String)
        ensures
            r@ == diag_text_spec(self@),
    {
        match self {
            Diag::DroppedGenericArg => String::from_str("Couldn't parse generic type argument"),
            Diag::WrongArity { name, count } => crate::tokens::derived_name(
                "Invalid number of type arguments for: ",
                name.as_str(),
            ),
            Diag::CellAliasing { name } => {
                let mut s = String::from_str("WARNING: Tokenising a Cell-like type (");
                s.append(name.as_str());
                s.append(
                    ") will effectively clone its value. This may not be the intended behaviour!",
                );
                s
            },
            Diag::SharedAliasing { name } => {
                let mut s = String::from_str("WARNING: Arc-like type (");
                s.append(name.as_str());
                s.append(
                    ") will be handled by cloning its inner value. This may not be the intended behaviour!",
                );
                s
            },
            Diag::UnionUnsupported => String::from_str("unions are not supported"),
            Diag::MissingFieldName => String::from_str("Named fields must have an identifier"),
            Diag::DuplicatePathPrefix => String::from_str("duplicate path_prefix attribute"),
            Diag::UnknownAttr { key } => crate::tokens::derived_name(
                "unknown attribute: ",
                key.as_str(),
            ),
            Diag::DuplicateAttr { key } => crate::tokens::derived_name(
                "duplicate attribute: ",
                key.as_str(),
            ),
            Diag::MalformedAttr { key } => crate::tokens::derived_name(
                "malformed attribute: ",
                key.as_str(),
            ),
            Diag::SkippedVariant { ty, variant } => {
                let mut s = String::from_str(
                    "Attempted to call ctor_tokens() on skipped enum variant ",
                );
                s.append(ty.as_str());
                s.append("::");
                s.append(variant.as_str());
                s
            },
            Diag::CustomArmOpaque { ty, variant } => {
                let mut s = String::from_str("variant ");
                s.append(ty.as_str());
                s.append("::");
                s.append(variant.as_str());
                s.append(" has a custom arm; its reconstruction is user code");
                s
            },
            Diag::ShapeMismatch => String::from_str(
                "value does not match the declared type shape",
            ),
        }
    }
}

} // verus!
