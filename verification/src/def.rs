//! The model of a subject type definition: what the derive host hands over.

use vstd::prelude::*;

use crate::tokens::{Tok, TokM};
use crate::types::{view_ty, Ty, TyM};
use crate::util::{RawAttr, RawAttrM};

verus! {

/// One field of a struct or variant.
pub struct FieldDef {
    /// The declared name; `None` in tuple position.
    pub name: Option<String>,
    pub attrs: Vec<RawAttr>,
    pub ty: Ty,
}

/// Mathematical model of `FieldDef`.
pub struct FieldDefM {
    pub name: Option<Seq<char>>,
    pub attrs: Seq<RawAttrM>,
    pub ty: TyM,
}

impl View for FieldDef {
    type V = FieldDefM;

    open spec fn view(&self) -> FieldDefM {
        FieldDefM {
            name: self.name.deep_view(),
            attrs: self.attrs.deep_view(),
            ty: view_ty(self.ty),
        }
    }
}

impl DeepView for FieldDef {
    type V = FieldDefM;

    open spec fn deep_view(&self) -> FieldDefM {
        self.view()
    }
}

/// The field shape of a struct or variant: unit, named, or tuple.
pub enum FieldsShape {
    Unit,
    Named(Vec<FieldDef>),
    Unnamed(Vec<FieldDef>),
}

/// Mathematical model of `FieldsShape`.
pub enum FieldsShapeM {
    Unit,
    Named(Seq<FieldDefM>),
    Unnamed(Seq<FieldDefM>),
}

impl View for FieldsShape {
    type V = FieldsShapeM;

    open spec fn view(&self) -> FieldsShapeM {
        match self {
            FieldsShape::Unit => FieldsShapeM::Unit,
            FieldsShape::Named(fs) => FieldsShapeM::Named(fs.deep_view()),
            FieldsShape::Unnamed(fs) => FieldsShapeM::Unnamed(fs.deep_view()),
        }
    }
}

impl DeepView for FieldsShape {
    type V = FieldsShapeM;

    open spec fn deep_view(&self) -> FieldsShapeM {
        self.view()
    }
}

/// One variant of an enum.
pub struct VariantDef {
    pub name: String,
    pub attrs: Vec<RawAttr>,
    pub fields: FieldsShape,
}

/// Mathematical model of `VariantDef`.
pub struct VariantDefM {
    pub name: Seq<char>,
    pub attrs: Seq<RawAttrM>,
    pub fields: FieldsShapeM,
}

impl View for VariantDef {
    type V = VariantDefM;

    open spec fn view(&self) -> VariantDefM {
        VariantDefM {
            name: self.name@,
            attrs: self.attrs.deep_view(),
            fields: self.fields.view(),
        }
    }
}

impl DeepView for VariantDef {
    type V = VariantDefM;

    open spec fn deep_view(&self) -> VariantDefM {
        self.view()
    }
}

/// The data shape of the subject type.
pub enum DataShape {
    Struct(FieldsShape),
    Enum(Vec<VariantDef>),
    Union,
}

/// Mathematical model of `DataShape`.
pub enum DataShapeM {
    Struct(FieldsShapeM),
    Enum(Seq<VariantDefM>),
    Union,
}

impl View for DataShape {
    type V = DataShapeM;

    open spec fn view(&self) -> DataShapeM {
        match self {
            DataShape::Struct(fs) => DataShapeM::Struct(fs.view()),
            DataShape::Enum(vs) => DataShapeM::Enum(vs.deep_view()),
            DataShape::Union => DataShapeM::Union,
        }
    }
}

impl DeepView for DataShape {
    type V = DataShapeM;

    open spec fn deep_view(&self) -> DataShapeM {
        self.view()
    }
}

/// One generic parameter: its declaration as written, and its bare name for
/// use in the type-argument position.
pub struct GenParam {
    pub decl: Vec<Tok>,
    pub name: String,
}

/// Mathematical model of `GenParam`.
pub struct GenParamM {
    pub decl: Seq<TokM>,
    pub name: Seq<char>,
}

impl View for GenParam {
    type V = GenParamM;

    open spec fn view(&self) -> GenParamM {
        GenParamM { decl: self.decl.deep_view(), name: self.name@ }
    }
}

impl DeepView for GenParam {
    type V = GenParamM;

    open spec fn deep_view(&self) -> GenParamM {
        self.view()
    }
}

/// One `where` predicate: a subject and the bounds it must satisfy.
pub struct Pred {
    pub subject: Vec<Tok>,
    pub bound: Vec<Tok>,
}

/// Mathematical model of `Pred`.
pub struct PredM {
    pub subject: Seq<TokM>,
    pub bound: Seq<TokM>,
}

impl View for Pred {
    type V = PredM;

    open spec fn view(&self) -> PredM {
        PredM { subject: self.subject.deep_view(), bound: self.bound.deep_view() }
    }
}

impl DeepView for Pred {
    type V = PredM;

    open spec fn deep_view(&self) -> PredM {
        self.view()
    }
}

/// The generics of the subject type.
pub struct Generics {
    pub params: Vec<GenParam>,
    pub preds: Vec<Pred>,
}

/// Mathematical model of `Generics`.
pub struct GenericsM {
    pub params: Seq<GenParamM>,
    pub preds: Seq<PredM>,
}

impl View for Generics {
    type V = GenericsM;

    open spec fn view(&self) -> GenericsM {
        GenericsM { params: self.params.deep_view(), preds: self.preds.deep_view() }
    }
}

impl DeepView for Generics {
    type V = GenericsM;

    open spec fn deep_view(&self) -> GenericsM {
        self.view()
    }
}

/// A whole type definition: what one derivation works on.
pub struct TypeDef {
    pub name: String,
    /// The module path of the definition site, for qualified naming when no
    /// `path_prefix` annotation overrides it.
    pub module_segs: Vec<String>,
    pub attrs: Vec<RawAttr>,
    pub generics: Generics,
    pub data: DataShape,
}

/// Mathematical model of `TypeDef`.
pub struct TypeDefM {
    pub name: Seq<char>,
    pub module_segs: Seq<Seq<char>>,
    pub attrs: Seq<RawAttrM>,
    pub generics: GenericsM,
    pub data: DataShapeM,
}

impl View for TypeDef {
    type V = TypeDefM;

    open spec fn view(&self) -> TypeDefM {
        TypeDefM {
            name: self.name@,
            module_segs: self.module_segs.deep_view(),
            attrs: self.attrs.deep_view(),
            generics: self.generics.view(),
            data: self.data.view(),
        }
    }
}

impl DeepView for TypeDef {
    type V = TypeDefM;

    open spec fn deep_view(&self) -> TypeDefM {
        self.view()
    }
}

} // verus!
