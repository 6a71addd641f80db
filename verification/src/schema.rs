//! Data model: the raw annotated declaration handed in by the host front
//! end, the normalized schema extracted from it, the resolved merge
//! policies, and the extraction errors.

use vstd::prelude::*;

verus! {

// ---------------------------------------------------------------------------
// Raw input: an already-tokenized annotated type declaration.
//
// The host language's front end (outside this library) reads the declaration
// and hands it over as plain values: identifiers and punctuation as flat
// token lists, attribute paths as segment lists.  Nested token groups are
// linearized with their delimiter characters as `Sym` tokens.
// ---------------------------------------------------------------------------

/// One token of an annotation payload or of a field's declared type.
#[derive(Debug, Clone, PartialEq, Eq)]
pub enum FlatToken {
    /// An identifier token.
    Word(String),
    /// A punctuation character, including group delimiters.
    Sym(char),
    /// A string literal, already unescaped to its value.
    LitStr(String),
    /// Any other literal, carried as raw text.
    LitOther(String),
}

/// Spec-level value of a [`FlatToken`].
pub enum FlatTokenV {
    Word(Seq<char>),
    Sym(char),
    LitStr(Seq<char>),
    LitOther(Seq<char>),
}

impl View for FlatToken {
    type V = FlatTokenV;

    open spec fn view(&self) -> FlatTokenV {
        match self {
            FlatToken::Word(s) => FlatTokenV::Word(s@),
            FlatToken::Sym(c) => FlatTokenV::Sym(*c),
            FlatToken::LitStr(s) => FlatTokenV::LitStr(s@),
            FlatToken::LitOther(s) => FlatTokenV::LitOther(s@),
        }
    }
}

impl DeepView for FlatToken {
    type V = FlatTokenV;

    open spec fn deep_view(&self) -> FlatTokenV {
        self.view()
    }
}

/// One attribute of the declaration or of one of its fields.
#[derive(Debug, Clone, PartialEq, Eq)]
pub struct RawAttr {
    /// The attribute path, one segment per element (`patch` has one).
    pub path: Vec<String>,
    /// The tokens following the path, e.g. `= "Item"` or `( direct )`.
    pub tokens: Vec<FlatToken>,
}

/// Spec-level value of a [`RawAttr`].
pub struct RawAttrV {
    pub path: Seq<Seq<char>>,
    pub tokens: Seq<FlatTokenV>,
}

impl View for RawAttr {
    type V = RawAttrV;

    open spec fn view(&self) -> RawAttrV {
        RawAttrV { path: self.path.deep_view(), tokens: self.tokens.deep_view() }
    }
}

impl DeepView for RawAttr {
    type V = RawAttrV;

    open spec fn deep_view(&self) -> RawAttrV {
        self.view()
    }
}

/// One field of the declaration.
#[derive(Debug, Clone, PartialEq, Eq)]
pub struct RawField {
    /// The field's identifier; absent for positional fields.
    pub ident: Option<String>,
    /// The tokens of the field's declared type, e.g. `Option < u32 >`.
    pub ty: Vec<FlatToken>,
    /// The attributes attached to the field.
    pub attrs: Vec<RawAttr>,
}

/// Spec-level value of a [`RawField`].
pub struct RawFieldV {
    pub ident: Option<Seq<char>>,
    pub ty: Seq<FlatTokenV>,
    pub attrs: Seq<RawAttrV>,
}

impl View for RawField {
    type V = RawFieldV;

    open spec fn view(&self) -> RawFieldV {
        RawFieldV {
            ident: self.ident.deep_view(),
            ty: self.ty.deep_view(),
            attrs: self.attrs.deep_view(),
        }
    }
}

impl DeepView for RawField {
    type V = RawFieldV;

    open spec fn deep_view(&self) -> RawFieldV {
        self.view()
    }
}

/// The shape of the declaration's body.
#[derive(Debug, Clone, PartialEq, Eq)]
pub enum RawData {
    /// A struct with named fields; every element's `ident` is present.
    Named(Vec<RawField>),
    /// A tuple-like struct; the elements' `ident`s are absent.
    Unnamed(Vec<RawField>),
    /// A unit-like struct without fields.
    Unit,
    /// Anything that is not struct-like (an enum or a union).
    Other,
}

/// Spec-level value of a [`RawData`].
pub enum RawDataV {
    Named(Seq<RawFieldV>),
    Unnamed(Seq<RawFieldV>),
    Unit,
    Other,
}

impl View for RawData {
    type V = RawDataV;

    open spec fn view(&self) -> RawDataV {
        match self {
            RawData::Named(fs) => RawDataV::Named(fs.deep_view()),
            RawData::Unnamed(fs) => RawDataV::Unnamed(fs.deep_view()),
            RawData::Unit => RawDataV::Unit,
            RawData::Other => RawDataV::Other,
        }
    }
}

impl DeepView for RawData {
    type V = RawDataV;

    open spec fn deep_view(&self) -> RawDataV {
        self.view()
    }
}

/// A whole annotated type declaration, as handed in by the front end.
#[derive(Debug, Clone, PartialEq, Eq)]
pub struct RawDecl {
    /// The declared type's identifier.
    pub ident: String,
    /// The type-level attributes.
    pub attrs: Vec<RawAttr>,
    /// The declaration's body.
    pub data: RawData,
}

/// Spec-level value of a [`RawDecl`].
pub struct RawDeclV {
    pub ident: Seq<char>,
    pub attrs: Seq<RawAttrV>,
    pub data: RawDataV,
}

impl View for RawDecl {
    type V = RawDeclV;

    open spec fn view(&self) -> RawDeclV {
        RawDeclV { ident: self.ident@, attrs: self.attrs.deep_view(), data: self.data@ }
    }
}

impl DeepView for RawDecl {
    type V = RawDeclV;

    open spec fn deep_view(&self) -> RawDeclV {
        self.view()
    }
}

// ---------------------------------------------------------------------------
// The normalized schema.
// ---------------------------------------------------------------------------

/// A field's name: an identifier for named fields, the zero-based position
/// for positional fields.
#[derive(Debug, Clone, PartialEq, Eq)]
pub enum FieldName {
    Ident(String),
    Index(usize),
}

/// Spec-level value of a [`FieldName`].
pub enum FieldNameV {
    Ident(Seq<char>),
    Index(int),
}

impl View for FieldName {
    type V = FieldNameV;

    open spec fn view(&self) -> FieldNameV {
        match self {
            FieldName::Ident(s) => FieldNameV::Ident(s@),
            FieldName::Index(i) => FieldNameV::Index(*i as int),
        }
    }
}

impl DeepView for FieldName {
    type V = FieldNameV;

    open spec fn deep_view(&self) -> FieldNameV {
        self.view()
    }
}

/// A merge-policy override named by an annotation.
#[derive(Debug, Clone, Copy, PartialEq, Eq, Structural)]
pub enum PolicyAttr {
    /// `direct`: force unconditional overwriting.
    Direct,
    /// `as_option`: overwrite the target's optional field with the whole
    /// optional patch value when it is present.
    AsOption,
}

/// One field of the patch type, normalized.
#[derive(Debug, Clone, PartialEq, Eq)]
pub struct FieldSchema {
    /// Identifier or position, unique within the type.
    pub name: FieldName,
    /// Whether the declared type's outer constructor is the optional wrapper.
    pub optional: bool,
    /// The field-level policy override, if any.
    pub policy: Option<PolicyAttr>,
    /// Whether the field is skipped outright.
    pub skip: bool,
    /// Reference to a predicate guarding the merge, if any.
    pub skip_if: Option<String>,
    /// Reference to a custom merge function, if any.
    pub apply: Option<String>,
}

/// Spec-level value of a [`FieldSchema`].
pub struct FieldSchemaV {
    pub name: FieldNameV,
    pub optional: bool,
    pub policy: Option<PolicyAttr>,
    pub skip: bool,
    pub skip_if: Option<Seq<char>>,
    pub apply: Option<Seq<char>>,
}

impl View for FieldSchema {
    type V = FieldSchemaV;

    open spec fn view(&self) -> FieldSchemaV {
        FieldSchemaV {
            name: self.name@,
            optional: self.optional,
            policy: self.policy,
            skip: self.skip,
            skip_if: self.skip_if.deep_view(),
            apply: self.apply.deep_view(),
        }
    }
}

impl DeepView for FieldSchema {
    type V = FieldSchemaV;

    open spec fn deep_view(&self) -> FieldSchemaV {
        self.view()
    }
}

/// The patch type as a whole, normalized.
#[derive(Debug, Clone, PartialEq, Eq)]
pub struct TypeSchema {
    /// The patch type's identifier.
    pub ident: String,
    /// The fields, in declaration order.
    pub fields: Vec<FieldSchema>,
    /// The declared target type paths, in declaration order.
    pub targets: Vec<String>,
    /// The type-level default policy, if any.
    pub policy: Option<PolicyAttr>,
    /// The type-level default custom merge function, if any.
    pub apply: Option<String>,
}

/// Spec-level value of a [`TypeSchema`].
pub struct TypeSchemaV {
    pub ident: Seq<char>,
    pub fields: Seq<FieldSchemaV>,
    pub targets: Seq<Seq<char>>,
    pub policy: Option<PolicyAttr>,
    pub apply: Option<Seq<char>>,
}

impl View for TypeSchema {
    type V = TypeSchemaV;

    open spec fn view(&self) -> TypeSchemaV {
        TypeSchemaV {
            ident: self.ident@,
            fields: self.fields.deep_view(),
            targets: self.targets.deep_view(),
            policy: self.policy,
            apply: self.apply.deep_view(),
        }
    }
}

impl DeepView for TypeSchema {
    type V = TypeSchemaV;

    open spec fn deep_view(&self) -> TypeSchemaV {
        self.view()
    }
}

// ---------------------------------------------------------------------------
// Resolved merge policies.
// ---------------------------------------------------------------------------

/// The merge policy resolved for one field.
#[derive(Debug, Clone, PartialEq, Eq)]
pub enum MergePolicy {
    /// Unconditionally copy the patch field into the target field.
    Overwrite,
    /// Unwrap the optional patch field and overwrite the target field with
    /// its payload when present; leave the target field unchanged otherwise.
    OverwriteIfOptionPresent,
    /// Overwrite the target's optional field with the whole optional patch
    /// value when it is present; leave it unchanged otherwise.
    OverwriteOptionIfPresent,
    /// Delegate to the referenced custom merge function.
    Custom(String),
    /// Emit no merge statement for this field.
    Skip,
}

/// Spec-level value of a [`MergePolicy`].
pub enum MergePolicyV {
    Overwrite,
    OverwriteIfOptionPresent,
    OverwriteOptionIfPresent,
    Custom(Seq<char>),
    Skip,
}

impl View for MergePolicy {
    type V = MergePolicyV;

    open spec fn view(&self) -> MergePolicyV {
        match self {
            MergePolicy::Overwrite => MergePolicyV::Overwrite,
            MergePolicy::OverwriteIfOptionPresent => MergePolicyV::OverwriteIfOptionPresent,
            MergePolicy::OverwriteOptionIfPresent => MergePolicyV::OverwriteOptionIfPresent,
            MergePolicy::Custom(s) => MergePolicyV::Custom(s@),
            MergePolicy::Skip => MergePolicyV::Skip,
        }
    }
}

impl DeepView for MergePolicy {
    type V = MergePolicyV;

    open spec fn deep_view(&self) -> MergePolicyV {
        self.view()
    }
}

// ---------------------------------------------------------------------------
// Extraction errors.
// ---------------------------------------------------------------------------

/// A generation-time failure; no schema and no output are produced.
#[derive(Debug, Clone, Copy, PartialEq, Eq, Structural)]
pub enum ExtractError {
    /// The annotated declaration is not struct-like.
    NotAStruct,
    /// An annotation in the recognized namespace has none of the accepted
    /// shapes.
    MalformedAnnotation,
    /// An annotation keyword is not recognized.
    UnknownAnnotation,
    /// `direct` and `as_option` are both declared at the same level.
    ConflictingPolicies,
    /// A `skip_if` or `apply` reference is declared twice at one level.
    DuplicateAnnotation,
    /// A target path is not a well-formed type path.
    MalformedTargetPath,
    /// A field's declared type cannot be classified as optional-wrapped or
    /// not.
    UnclassifiableFieldType,
}

} // verus!
