//! The tree model: a source file, its modules, declarations, methods and
//! attributes, each with a mathematical view over sequences of characters.

use vstd::prelude::*;

verus! {

/// Whether two strings hold the same characters.
pub fn same_text(a: &String, b: &String) -> (same: bool)
    ensures
        same == (a@ == b@),
{
    *a == *b
}

/// Whether a string holds exactly the characters of `text`.
pub fn is_text(a: &String, text: &str) -> (same: bool)
    ensures
        same == (a@ == text@),
{
    let other = String::from_str(text);
    *a == other
}

/// Whether two string slices hold the same characters.
pub fn same_str(a: &str, b: &str) -> (same: bool)
    ensures
        same == (a@ == b@),
{
    let left = String::from_str(a);
    let right = String::from_str(b);
    left == right
}

/// An expression carried by an attribute or used as an initializer value.
/// Only the shapes that the merge rules look into are told apart; every other
/// expression is kept as its source text.
#[derive(Debug, PartialEq, Eq)]
pub enum Expr {
    /// An integer literal, by its base-10 digits.
    Int(String),
    /// An unsigned 8-bit literal with its type suffix.
    Byte(u8),
    /// A string literal, by its content.
    Str(String),
    /// `Some` applied to a string literal.
    SomeStr(String),
    /// The expression `None`.
    Nothing,
    /// An assignment of an integer literal to a name: `target = digits`.
    AssignInt { target: String, digits: String },
    /// Any other expression, as source text.
    Verbatim(String),
}

/// The view of an `Expr`: its texts as sequences of characters.
pub ghost enum ExprView {
    Int(Seq<char>),
    Byte(u8),
    Str(Seq<char>),
    SomeStr(Seq<char>),
    Nothing,
    AssignInt { target: Seq<char>, digits: Seq<char> },
    Verbatim(Seq<char>),
}

impl View for Expr {
    type V = ExprView;

    open spec fn view(&self) -> ExprView {
        match *self {
            Expr::Int(d) => ExprView::Int(d@),
            Expr::Byte(b) => ExprView::Byte(b),
            Expr::Str(s) => ExprView::Str(s@),
            Expr::SomeStr(s) => ExprView::SomeStr(s@),
            Expr::Nothing => ExprView::Nothing,
            Expr::AssignInt { target, digits } => ExprView::AssignInt {
                target: target@,
                digits: digits@,
            },
            Expr::Verbatim(s) => ExprView::Verbatim(s@),
        }
    }
}

impl DeepView for Expr {
    type V = ExprView;

    open spec fn deep_view(&self) -> ExprView {
        self@
    }
}

impl Clone for Expr {
    fn clone(&self) -> (copy: Self)
        ensures
            copy@ == self@,
    {
        match self {
            Expr::Int(d) => Expr::Int(d.clone()),
            Expr::Byte(b) => Expr::Byte(*b),
            Expr::Str(s) => Expr::Str(s.clone()),
            Expr::SomeStr(s) => Expr::SomeStr(s.clone()),
            Expr::Nothing => Expr::Nothing,
            Expr::AssignInt { target, digits } => Expr::AssignInt {
                target: target.clone(),
                digits: digits.clone(),
            },
            Expr::Verbatim(s) => Expr::Verbatim(s.clone()),
        }
    }
}

impl Expr {
    /// Structural comparison: true exactly when both expressions have the same view.
    pub fn same(&self, other: &Expr) -> (same: bool)
        ensures
            same == (self@ == other@),
    {
        match (self, other) {
            (Expr::Int(a), Expr::Int(b)) => same_text(a, b),
            (Expr::Byte(a), Expr::Byte(b)) => *a == *b,
            (Expr::Str(a), Expr::Str(b)) => same_text(a, b),
            (Expr::SomeStr(a), Expr::SomeStr(b)) => same_text(a, b),
            (Expr::Nothing, Expr::Nothing) => true,
            (
                Expr::AssignInt { target: ta, digits: da },
                Expr::AssignInt { target: tb, digits: db },
            ) => same_text(ta, tb) && same_text(da, db),
            (Expr::Verbatim(a), Expr::Verbatim(b)) => same_text(a, b),
            _ => false,
        }
    }
}

/// An attribute: a tag and an optional expression carried in its brackets.
#[derive(Debug, PartialEq, Eq)]
pub struct Attribute {
    pub tag: String,
    pub payload: Option<Expr>,
}

/// The view of an `Attribute`: its texts as sequences of characters.
pub ghost struct AttributeView {
    pub tag: Seq<char>,
    pub payload: Option<ExprView>,
}

impl View for Attribute {
    type V = AttributeView;

    open spec fn view(&self) -> AttributeView {
        AttributeView {
            tag: self.tag@,
            payload: match self.payload {
                Some(e) => Some(e@),
                None => None,
            },
        }
    }
}

impl DeepView for Attribute {
    type V = AttributeView;

    open spec fn deep_view(&self) -> AttributeView {
        self@
    }
}

impl Clone for Attribute {
    fn clone(&self) -> (copy: Self)
        ensures
            copy@ == self@,
    {
        let payload = match &self.payload {
            Some(e) => Some(e.clone()),
            None => None,
        };
        Attribute { tag: self.tag.clone(), payload }
    }
}

/// Copies a list of attributes.
pub fn clone_attributes(attrs: &Vec<Attribute>) -> (copy: Vec<Attribute>)
    ensures
        copy.deep_view() == attrs.deep_view(),
{
    let copy = attrs.clone();
    assert(copy.deep_view() =~= attrs.deep_view());
    copy
}

/// A named field of a struct: its name, its type as source text, and its attributes.
#[derive(Debug, PartialEq, Eq)]
pub struct Field {
    /// What stands in front of the declaration, such as `pub`, as source text.
    pub visibility: String,
    pub name: String,
    pub ty: String,
    pub attrs: Vec<Attribute>,
}

/// The view of a `Field`: its texts as sequences of characters.
pub ghost struct FieldView {
    pub visibility: Seq<char>,
    pub name: Seq<char>,
    pub ty: Seq<char>,
    pub attrs: Seq<AttributeView>,
}

impl View for Field {
    type V = FieldView;

    open spec fn view(&self) -> FieldView {
        FieldView {
            visibility: self.visibility@,
            name: self.name@,
            ty: self.ty@,
            attrs: self.attrs.deep_view(),
        }
    }
}

impl DeepView for Field {
    type V = FieldView;

    open spec fn deep_view(&self) -> FieldView {
        self@
    }
}

impl Clone for Field {
    fn clone(&self) -> (copy: Self)
        ensures
            copy@ == self@,
    {
        let visibility = self.visibility.clone();
        let name = self.name.clone();
        let ty = self.ty.clone();
        let attrs = self.attrs.clone();
        assert(attrs.deep_view() =~= self.attrs.deep_view());
        Field { visibility, name, ty, attrs }
    }
}

/// A struct declaration: its name, its attributes and its fields in order.
#[derive(Debug, PartialEq, Eq)]
pub struct StructType {
    /// What stands in front of the declaration, such as `pub`, as source text.
    pub visibility: String,
    pub name: String,
    pub attrs: Vec<Attribute>,
    pub fields: Vec<Field>,
}

/// The view of a `StructType`: its texts as sequences of characters.
pub ghost struct StructTypeView {
    pub visibility: Seq<char>,
    pub name: Seq<char>,
    pub attrs: Seq<AttributeView>,
    pub fields: Seq<FieldView>,
}

impl View for StructType {
    type V = StructTypeView;

    open spec fn view(&self) -> StructTypeView {
        StructTypeView {
            visibility: self.visibility@,
            name: self.name@,
            attrs: self.attrs.deep_view(),
            fields: self.fields.deep_view(),
        }
    }
}

impl DeepView for StructType {
    type V = StructTypeView;

    open spec fn deep_view(&self) -> StructTypeView {
        self@
    }
}

impl Clone for StructType {
    fn clone(&self) -> (copy: Self)
        ensures
            copy@ == self@,
    {
        let visibility = self.visibility.clone();
        let name = self.name.clone();
        let attrs = self.attrs.clone();
        assert(attrs.deep_view() =~= self.attrs.deep_view());
        let fields = self.fields.clone();
        assert(fields.deep_view() =~= self.fields.deep_view());
        StructType { visibility, name, attrs, fields }
    }
}

/// A parameter of a method: its name and its type as source text.
#[derive(Debug, PartialEq, Eq)]
pub struct Param {
    pub name: String,
    pub ty: String,
}

/// The view of a `Param`: its texts as sequences of characters.
pub ghost struct ParamView {
    pub name: Seq<char>,
    pub ty: Seq<char>,
}

impl View for Param {
    type V = ParamView;

    open spec fn view(&self) -> ParamView {
        ParamView {
            name: self.name@,
            ty: self.ty@,
        }
    }
}

impl DeepView for Param {
    type V = ParamView;

    open spec fn deep_view(&self) -> ParamView {
        self@
    }
}

impl Clone for Param {
    fn clone(&self) -> (copy: Self)
        ensures
            copy@ == self@,
    {
        let name = self.name.clone();
        let ty = self.ty.clone();
        Param { name, ty }
    }
}

/// One initializer inside a struct literal. Without a value the field is
/// initialized from the variable of the same name.
#[derive(Debug, PartialEq, Eq)]
pub struct FieldInit {
    pub name: String,
    pub value: Option<Expr>,
}

/// The view of a `FieldInit`: its texts as sequences of characters.
pub ghost struct FieldInitView {
    pub name: Seq<char>,
    pub value: Option<ExprView>,
}

impl View for FieldInit {
    type V = FieldInitView;

    open spec fn view(&self) -> FieldInitView {
        FieldInitView {
            name: self.name@,
            value: match self.value {
                Some(e) => Some(e@),
                None => None,
            },
        }
    }
}

impl DeepView for FieldInit {
    type V = FieldInitView;

    open spec fn deep_view(&self) -> FieldInitView {
        self@
    }
}

impl Clone for FieldInit {
    fn clone(&self) -> (copy: Self)
        ensures
            copy@ == self@,
    {
        let value = match &self.value {
            Some(e) => Some(e.clone()),
            None => None,
        };
        FieldInit { name: self.name.clone(), value }
    }
}

/// A statement of a method body. Only a struct literal in expression
/// position is looked into; other statements are kept as source text.
#[derive(Debug, PartialEq, Eq)]
pub enum Statement {
    /// An expression statement that is a struct literal: the path of the
    /// struct, its field initializers, and the expression that the other
    /// fields are taken from, as source text, empty where there is none.
    StructLiteral { path: String, fields: Vec<FieldInit>, rest: String },
    /// Any other expression statement.
    Expression(String),
    /// A statement that is no expression: a binding, an item, a macro call.
    Other(String),
}

/// The view of a `Statement`: its texts as sequences of characters.
pub ghost enum StatementView {
    StructLiteral { path: Seq<char>, fields: Seq<FieldInitView>, rest: Seq<char> },
    Expression(Seq<char>),
    Other(Seq<char>),
}

impl View for Statement {
    type V = StatementView;

    open spec fn view(&self) -> StatementView {
        match *self {
            Statement::StructLiteral { path, fields, rest } => StatementView::StructLiteral {
                path: path@,
                fields: fields.deep_view(),
                rest: rest@,
            },
            Statement::Expression(s) => StatementView::Expression(s@),
            Statement::Other(s) => StatementView::Other(s@),
        }
    }
}

impl DeepView for Statement {
    type V = StatementView;

    open spec fn deep_view(&self) -> StatementView {
        self@
    }
}

impl Clone for Statement {
    fn clone(&self) -> (copy: Self)
        ensures
            copy@ == self@,
    {
        match self {
            Statement::StructLiteral { path, fields, rest } => {
                let copied = fields.clone();
                assert(copied.deep_view() =~= fields.deep_view());
                Statement::StructLiteral { path: path.clone(), fields: copied, rest: rest.clone() }
            },
            Statement::Expression(s) => Statement::Expression(s.clone()),
            Statement::Other(s) => Statement::Other(s.clone()),
        }
    }
}

/// A method: its name, parameters and return type, its body and its attributes.
#[derive(Debug, PartialEq, Eq)]
pub struct Method {
    /// What stands in front of the declaration, such as `pub`, as source text.
    pub visibility: String,
    pub name: String,
    pub params: Vec<Param>,
    pub output: String,
    pub body: Vec<Statement>,
    pub attrs: Vec<Attribute>,
}

/// The view of a `Method`: its texts as sequences of characters.
pub ghost struct MethodView {
    pub visibility: Seq<char>,
    pub name: Seq<char>,
    pub params: Seq<ParamView>,
    pub output: Seq<char>,
    pub body: Seq<StatementView>,
    pub attrs: Seq<AttributeView>,
}

impl View for Method {
    type V = MethodView;

    open spec fn view(&self) -> MethodView {
        MethodView {
            visibility: self.visibility@,
            name: self.name@,
            params: self.params.deep_view(),
            output: self.output@,
            body: self.body.deep_view(),
            attrs: self.attrs.deep_view(),
        }
    }
}

impl DeepView for Method {
    type V = MethodView;

    open spec fn deep_view(&self) -> MethodView {
        self@
    }
}

impl Clone for Method {
    fn clone(&self) -> (copy: Self)
        ensures
            copy@ == self@,
    {
        let visibility = self.visibility.clone();
        let name = self.name.clone();
        let params = self.params.clone();
        assert(params.deep_view() =~= self.params.deep_view());
        let output = self.output.clone();
        let body = self.body.clone();
        assert(body.deep_view() =~= self.body.deep_view());
        let attrs = self.attrs.clone();
        assert(attrs.deep_view() =~= self.attrs.deep_view());
        Method { visibility, name, params, output, body, attrs }
    }
}

/// An implementation block: the trait it implements, if any, the receiver type, and its methods in order.
#[derive(Debug, PartialEq, Eq)]
pub struct ImplBlock {
    pub trait_name: Option<String>,
    pub self_ty: String,
    pub attrs: Vec<Attribute>,
    pub methods: Vec<Method>,
}

/// The view of an `ImplBlock`: its texts as sequences of characters.
pub ghost struct ImplBlockView {
    pub trait_name: Option<Seq<char>>,
    pub self_ty: Seq<char>,
    pub attrs: Seq<AttributeView>,
    pub methods: Seq<MethodView>,
}

impl View for ImplBlock {
    type V = ImplBlockView;

    open spec fn view(&self) -> ImplBlockView {
        ImplBlockView {
            trait_name: self.trait_name.deep_view(),
            self_ty: self.self_ty@,
            attrs: self.attrs.deep_view(),
            methods: self.methods.deep_view(),
        }
    }
}

impl DeepView for ImplBlock {
    type V = ImplBlockView;

    open spec fn deep_view(&self) -> ImplBlockView {
        self@
    }
}

impl Clone for ImplBlock {
    fn clone(&self) -> (copy: Self)
        ensures
            copy@ == self@,
    {
        let trait_name = match &self.trait_name {
            Some(t) => Some(t.clone()),
            None => None,
        };
        let self_ty = self.self_ty.clone();
        let attrs = self.attrs.clone();
        assert(attrs.deep_view() =~= self.attrs.deep_view());
        let methods = self.methods.clone();
        assert(methods.deep_view() =~= self.methods.deep_view());
        ImplBlock { trait_name, self_ty, attrs, methods }
    }
}

/// What the last segment of an imported path brings into scope.
#[derive(Debug, PartialEq, Eq)]
pub enum ImportLeaf {
    /// A plain name.
    Name(String),
    /// A name imported under another name.
    Alias { name: String, alias: String },
    /// Everything below the path.
    Wildcard,
}

/// The view of an `ImportLeaf`: its texts as sequences of characters.
pub ghost enum ImportLeafView {
    Name(Seq<char>),
    Alias { name: Seq<char>, alias: Seq<char> },
    Wildcard,
}

impl View for ImportLeaf {
    type V = ImportLeafView;

    open spec fn view(&self) -> ImportLeafView {
        match *self {
            ImportLeaf::Name(n) => ImportLeafView::Name(n@),
            ImportLeaf::Alias { name, alias } => ImportLeafView::Alias { name: name@, alias: alias@ },
            ImportLeaf::Wildcard => ImportLeafView::Wildcard,
        }
    }
}

impl DeepView for ImportLeaf {
    type V = ImportLeafView;

    open spec fn deep_view(&self) -> ImportLeafView {
        self@
    }
}

impl Clone for ImportLeaf {
    fn clone(&self) -> (copy: Self)
        ensures
            copy@ == self@,
    {
        match self {
            ImportLeaf::Name(n) => ImportLeaf::Name(n.clone()),
            ImportLeaf::Alias { name, alias } => ImportLeaf::Alias {
                name: name.clone(),
                alias: alias.clone(),
            },
            ImportLeaf::Wildcard => ImportLeaf::Wildcard,
        }
    }
}

/// One imported path: the qualifiers in front, and the leaf.
#[derive(Debug, PartialEq, Eq)]
pub struct ImportEntry {
    pub qualifiers: Vec<String>,
    pub leaf: ImportLeaf,
}

/// The view of an `ImportEntry`: its texts as sequences of characters.
pub ghost struct ImportEntryView {
    pub qualifiers: Seq<Seq<char>>,
    pub leaf: ImportLeafView,
}

impl View for ImportEntry {
    type V = ImportEntryView;

    open spec fn view(&self) -> ImportEntryView {
        ImportEntryView {
            qualifiers: self.qualifiers.deep_view(),
            leaf: self.leaf@,
        }
    }
}

impl DeepView for ImportEntry {
    type V = ImportEntryView;

    open spec fn deep_view(&self) -> ImportEntryView {
        self@
    }
}

impl Clone for ImportEntry {
    fn clone(&self) -> (copy: Self)
        ensures
            copy@ == self@,
    {
        let qualifiers = self.qualifiers.clone();
        assert(qualifiers.deep_view() =~= self.qualifiers.deep_view());
        let leaf = self.leaf.clone();
        ImportEntry { qualifiers, leaf }
    }
}

/// An import statement, as the list of the paths it brings in.
#[derive(Debug, PartialEq, Eq)]
pub struct Import {
    /// What stands in front of the declaration, such as `pub`, as source text.
    pub visibility: String,
    pub entries: Vec<ImportEntry>,
}

/// The view of an `Import`: its texts as sequences of characters.
pub ghost struct ImportView {
    pub visibility: Seq<char>,
    pub entries: Seq<ImportEntryView>,
}

impl View for Import {
    type V = ImportView;

    open spec fn view(&self) -> ImportView {
        ImportView {
            visibility: self.visibility@,
            entries: self.entries.deep_view(),
        }
    }
}

impl DeepView for Import {
    type V = ImportView;

    open spec fn deep_view(&self) -> ImportView {
        self@
    }
}

impl Clone for Import {
    fn clone(&self) -> (copy: Self)
        ensures
            copy@ == self@,
    {
        let visibility = self.visibility.clone();
        let entries = self.entries.clone();
        assert(entries.deep_view() =~= self.entries.deep_view());
        Import { visibility, entries }
    }
}

/// A declaration inside a module.
#[derive(Debug, PartialEq, Eq)]
pub enum Declaration {
    Struct(StructType),
    Impl(ImplBlock),
    Import(Import),
    /// Any other declaration, passed through as source text.
    Other(String),
}

/// The view of a `Declaration`: its texts as sequences of characters.
pub ghost enum DeclarationView {
    Struct(StructTypeView),
    Impl(ImplBlockView),
    Import(ImportView),
    Other(Seq<char>),
}

impl View for Declaration {
    type V = DeclarationView;

    open spec fn view(&self) -> DeclarationView {
        match *self {
            Declaration::Struct(s) => DeclarationView::Struct(s@),
            Declaration::Impl(b) => DeclarationView::Impl(b@),
            Declaration::Import(u) => DeclarationView::Import(u@),
            Declaration::Other(t) => DeclarationView::Other(t@),
        }
    }
}

impl DeepView for Declaration {
    type V = DeclarationView;

    open spec fn deep_view(&self) -> DeclarationView {
        self@
    }
}

impl Clone for Declaration {
    fn clone(&self) -> (copy: Self)
        ensures
            copy@ == self@,
    {
        match self {
            Declaration::Struct(s) => Declaration::Struct(s.clone()),
            Declaration::Impl(b) => Declaration::Impl(b.clone()),
            Declaration::Import(u) => Declaration::Import(u.clone()),
            Declaration::Other(t) => Declaration::Other(t.clone()),
        }
    }
}

/// A module with a body: its name, its attributes and its declarations in order.
#[derive(Debug, PartialEq, Eq)]
pub struct Module {
    /// What stands in front of the declaration, such as `pub`, as source text.
    pub visibility: String,
    pub name: String,
    pub attrs: Vec<Attribute>,
    pub declarations: Vec<Declaration>,
}

/// The view of a `Module`: its texts as sequences of characters.
pub ghost struct ModuleView {
    pub visibility: Seq<char>,
    pub name: Seq<char>,
    pub attrs: Seq<AttributeView>,
    pub declarations: Seq<DeclarationView>,
}

impl View for Module {
    type V = ModuleView;

    open spec fn view(&self) -> ModuleView {
        ModuleView {
            visibility: self.visibility@,
            name: self.name@,
            attrs: self.attrs.deep_view(),
            declarations: self.declarations.deep_view(),
        }
    }
}

impl DeepView for Module {
    type V = ModuleView;

    open spec fn deep_view(&self) -> ModuleView {
        self@
    }
}

impl Clone for Module {
    fn clone(&self) -> (copy: Self)
        ensures
            copy@ == self@,
    {
        let visibility = self.visibility.clone();
        let name = self.name.clone();
        let attrs = self.attrs.clone();
        assert(attrs.deep_view() =~= self.attrs.deep_view());
        let declarations = self.declarations.clone();
        assert(declarations.deep_view() =~= self.declarations.deep_view());
        Module { visibility, name, attrs, declarations }
    }
}

/// An item at the top level of a source file.
#[derive(Debug, PartialEq, Eq)]
pub enum Item {
    Module(Module),
    /// Any other item, passed through as source text.
    Other(String),
}

/// The view of an `Item`: its texts as sequences of characters.
pub ghost enum ItemView {
    Module(ModuleView),
    Other(Seq<char>),
}

impl View for Item {
    type V = ItemView;

    open spec fn view(&self) -> ItemView {
        match *self {
            Item::Module(m) => ItemView::Module(m@),
            Item::Other(t) => ItemView::Other(t@),
        }
    }
}

impl DeepView for Item {
    type V = ItemView;

    open spec fn deep_view(&self) -> ItemView {
        self@
    }
}

impl Clone for Item {
    fn clone(&self) -> (copy: Self)
        ensures
            copy@ == self@,
    {
        match self {
            Item::Module(m) => Item::Module(m.clone()),
            Item::Other(t) => Item::Other(t.clone()),
        }
    }
}

/// A parsed source file: its items in order.
#[derive(Debug, PartialEq, Eq)]
pub struct SourceFile {
    pub items: Vec<Item>,
}

/// The view of a `SourceFile`: its texts as sequences of characters.
pub ghost struct SourceFileView {
    pub items: Seq<ItemView>,
}

impl View for SourceFile {
    type V = SourceFileView;

    open spec fn view(&self) -> SourceFileView {
        SourceFileView {
            items: self.items.deep_view(),
        }
    }
}

impl DeepView for SourceFile {
    type V = SourceFileView;

    open spec fn deep_view(&self) -> SourceFileView {
        self@
    }
}

impl Clone for SourceFile {
    fn clone(&self) -> (copy: Self)
        ensures
            copy@ == self@,
    {
        let items = self.items.clone();
        assert(items.deep_view() =~= self.items.deep_view());
        SourceFile { items }
    }
}

} // verus!
