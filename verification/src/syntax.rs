//! The parts of a syntax tree that can name a module.
use vstd::prelude::*;

verus! {

/// A range of the source text, in bytes.
#[derive(Debug, Clone, Copy, PartialEq, Eq, Structural)]
pub struct Span {
    pub start: u32,
    pub end: u32,
}

/// A string literal: its value and where it stands.
#[derive(Debug, Clone)]
pub struct StringLiteral {
    pub value: String,
    pub span: Span,
}

/// Whether an import or export is of values or of types only.
#[derive(Debug, Clone, Copy, PartialEq, Eq, Structural)]
pub enum ImportOrExportKind {
    Value,
    Type,
}

/// One name that an `import` declaration brings in.
#[derive(Debug, Clone, Copy, PartialEq, Eq, Structural)]
pub enum ImportDeclarationSpecifier {
    /// `import { name } from`, or `import { type name } from`.
    ImportSpecifier(ImportOrExportKind),
    /// `import name from`.
    ImportDefaultSpecifier,
    /// `import * as name from`.
    ImportNamespaceSpecifier,
}

/// `import ... from "source"`; without specifiers, `import "source"`.
#[derive(Debug, Clone)]
pub struct ImportDeclaration {
    pub source: StringLiteral,
    pub import_kind: ImportOrExportKind,
    pub specifiers: Option<Vec<ImportDeclarationSpecifier>>,
}

/// `export { ... } from "source"`, with the kind of each name.
#[derive(Debug, Clone)]
pub struct ExportFromDeclaration {
    pub source: StringLiteral,
    pub export_kind: ImportOrExportKind,
    pub specifiers: Vec<ImportOrExportKind>,
}

/// `export * from "source"`.
#[derive(Debug, Clone)]
pub struct ExportAllDeclaration {
    pub source: StringLiteral,
    pub export_kind: ImportOrExportKind,
}

/// A template literal: where it stands, whether it has no substitutions, and its one quasi, where
/// it has a single one whose text is defined.
#[derive(Debug, Clone)]
pub struct TemplateLiteral {
    pub span: Span,
    pub no_substitution: bool,
    pub single_quasi: Option<String>,
}

/// The argument of an `import()` call.
#[derive(Debug, Clone)]
pub enum Expression {
    StringLiteral(StringLiteral),
    TemplateLiteral(TemplateLiteral),
    Other,
}

/// What an `import name = ...` declaration refers to.
#[derive(Debug, Clone)]
pub enum ModuleReference {
    /// `require("source")`.
    ExternalModuleReference(StringLiteral),
    Other,
}

/// `import name = ...`.
#[derive(Debug, Clone)]
pub struct ImportEqualsDeclaration {
    pub import_kind: ImportOrExportKind,
    pub module_reference: ModuleReference,
}

/// A node of the syntax tree.
#[derive(Debug, Clone)]
pub enum Node {
    ImportDeclaration(ImportDeclaration),
    ExportFromDeclaration(ExportFromDeclaration),
    ExportAllDeclaration(ExportAllDeclaration),
    /// `import(...)`, by its argument.
    ImportExpression(Expression),
    /// A call, by its argument where it is `require("source")`.
    CallExpression(Option<StringLiteral>),
    ImportEqualsDeclaration(ImportEqualsDeclaration),
    Other,
}

/// A module that a node names: by what text, where, and whether for its types only.
#[derive(Debug, Clone)]
pub struct Reference {
    pub source: String,
    pub span: Span,
    pub is_type: bool,
}

/// The contents of a [`Reference`].
#[verifier::ext_equal]
pub struct ReferenceView {
    pub source: Seq<char>,
    pub span: Span,
    pub is_type: bool,
}

impl View for Reference {
    type V = ReferenceView;

    open spec fn view(&self) -> ReferenceView {
        ReferenceView { source: self.source@, span: self.span, is_type: self.is_type }
    }
}

/// Whether an `import` declaration brings in nothing but types: it is one of types, or it has
/// names and each of them is marked as a type.
pub open spec fn type_only_import(import: ImportDeclaration) -> bool {
    ||| import.import_kind == ImportOrExportKind::Type
    ||| import.specifiers is Some && {
        let specifiers = import.specifiers->0@;
        &&& specifiers.len() > 0
        &&& forall|i: int|
            0 <= i < specifiers.len() ==> #[trigger] specifiers[i]
                == ImportDeclarationSpecifier::ImportSpecifier(ImportOrExportKind::Type)
    }
}

/// Whether an `export ... from` declaration hands on nothing but types.
pub open spec fn type_only_export(export: ExportFromDeclaration) -> bool {
    ||| export.export_kind == ImportOrExportKind::Type
    ||| export.specifiers@.len() > 0 && forall|i: int|
        0 <= i < export.specifiers@.len() ==> #[trigger] export.specifiers@[i]
            == ImportOrExportKind::Type
}

/// The module that a string literal names.
pub open spec fn literal_reference(literal: StringLiteral, is_type: bool) -> ReferenceView {
    ReferenceView { source: literal.value@, span: literal.span, is_type }
}

/// The module that a node names, if it names one by a fixed text.
pub open spec fn node_reference(node: Node) -> Option<ReferenceView> {
    match node {
        Node::ImportDeclaration(import) => Some(
            literal_reference(import.source, type_only_import(import)),
        ),
        Node::ExportFromDeclaration(export) => Some(
            literal_reference(export.source, type_only_export(export)),
        ),
        Node::ExportAllDeclaration(export) => Some(
            literal_reference(export.source, export.export_kind == ImportOrExportKind::Type),
        ),
        Node::ImportExpression(Expression::StringLiteral(literal)) => Some(
            literal_reference(literal, false),
        ),
        Node::ImportExpression(Expression::TemplateLiteral(template)) => if template.no_substitution
            && template.single_quasi is Some {
            Some(
                ReferenceView {
                    source: template.single_quasi->0@,
                    span: template.span,
                    is_type: false,
                },
            )
        } else {
            None
        },
        Node::CallExpression(Some(literal)) => Some(literal_reference(literal, false)),
        Node::ImportEqualsDeclaration(import) => match import.module_reference {
            ModuleReference::ExternalModuleReference(literal) => Some(
                literal_reference(literal, import.import_kind == ImportOrExportKind::Type),
            ),
            ModuleReference::Other => None,
        },
        _ => None,
    }
}

/// Whether a kind is of types only.
fn is_type(kind: ImportOrExportKind) -> (is_type: bool)
    ensures
        is_type == (kind == ImportOrExportKind::Type),
{
    kind == ImportOrExportKind::Type
}

/// Whether an `import` declaration brings in nothing but types.
pub fn is_type_only_import(import: &ImportDeclaration) -> (type_only: bool)
    ensures
        type_only == type_only_import(*import),
{
    if is_type(import.import_kind) {
        return true;
    }
    match &import.specifiers {
        Some(specifiers) => {
            if specifiers.len() == 0 {
                return false;
            }
            for i in 0..specifiers.len()
                invariant
                    import.import_kind != ImportOrExportKind::Type,
                    import.specifiers == Some(*specifiers),
                    forall|j: int|
                        0 <= j < i ==> #[trigger] specifiers@[j]
                            == ImportDeclarationSpecifier::ImportSpecifier(
                            ImportOrExportKind::Type,
                        ),
            {
                if specifiers[i] != ImportDeclarationSpecifier::ImportSpecifier(
                    ImportOrExportKind::Type,
                ) {
                    assert(import.specifiers->0@[i as int]
                        != ImportDeclarationSpecifier::ImportSpecifier(ImportOrExportKind::Type));
                    return false;
                }
            }
            true
        },
        None => false,
    }
}

/// Whether an `export ... from` declaration hands on nothing but types.
pub fn is_type_only_export(export: &ExportFromDeclaration) -> (type_only: bool)
    ensures
        type_only == type_only_export(*export),
{
    if is_type(export.export_kind) {
        return true;
    }
    if export.specifiers.len() == 0 {
        return false;
    }
    for i in 0..export.specifiers.len()
        invariant
            export.export_kind != ImportOrExportKind::Type,
            forall|j: int|
                0 <= j < i ==> #[trigger] export.specifiers@[j] == ImportOrExportKind::Type,
    {
        if !is_type(export.specifiers[i]) {
            return false;
        }
    }
    true
}

/// The module that a string literal names.
fn reference_to(literal: &StringLiteral, is_type: bool) -> (reference: Reference)
    ensures
        reference@ == literal_reference(*literal, is_type),
{
    Reference { source: literal.value.clone(), span: literal.span, is_type }
}

/// The module that a node names, if it names one by a fixed text.
pub fn module_reference(node: &Node) -> (reference: Option<Reference>)
    ensures
        match reference {
            Some(reference) => node_reference(*node) == Some(reference@),
            None => node_reference(*node) is None,
        },
{
    match node {
        Node::ImportDeclaration(import) => Some(
            reference_to(&import.source, is_type_only_import(import)),
        ),
        Node::ExportFromDeclaration(export) => Some(
            reference_to(&export.source, is_type_only_export(export)),
        ),
        Node::ExportAllDeclaration(export) => Some(
            reference_to(&export.source, is_type(export.export_kind)),
        ),
        Node::ImportExpression(Expression::StringLiteral(literal)) => Some(
            reference_to(literal, false),
        ),
        Node::ImportExpression(Expression::TemplateLiteral(template)) => {
            if !template.no_substitution {
                return None;
            }
            match &template.single_quasi {
                Some(source) => Some(
                    Reference { source: source.clone(), span: template.span, is_type: false },
                ),
                None => None,
            }
        },
        Node::CallExpression(Some(literal)) => Some(reference_to(literal, false)),
        Node::ImportEqualsDeclaration(import) => match &import.module_reference {
            ModuleReference::ExternalModuleReference(literal) => Some(
                reference_to(literal, is_type(import.import_kind)),
            ),
            ModuleReference::Other => None,
        },
        _ => None,
    }
}

} // verus!
